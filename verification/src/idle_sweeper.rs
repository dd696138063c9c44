//! Background task that auto-suspends idle tenants.
//!
//! Every five minutes a sweep looks for tenants that are ready and were last active longer than
//! `IDLE_TIMEOUT` ago, and suspends them in batches of bounded size.
use crate::effects::{Action, Event};
use crate::tenant::{Tenant, TenantStatus, IDLE_TIMEOUT};
use crate::text;
use crate::text::{cat, cat3};
use vstd::prelude::*;

verus! {

/// Seconds between two sweeps.
pub const SWEEP_INTERVAL: u64 = 300;

/// Max concurrent suspend operations per sweep cycle.
pub const MAX_CONCURRENT_SUSPENSIONS: usize = 20;

/// Where the suspension of one tenant stands.
#[verifier::ext_equal]
#[derive(Debug)]
pub enum SuspendFlow<S = String> {
    /// The pod is being deleted.
    Suspending { tenant_id: S },
    /// The tenant is being stored as suspended.
    Saving { tenant_id: S },
}

impl View for SuspendFlow {
    type V = SuspendFlow<Seq<char>>;

    open spec fn view(&self) -> SuspendFlow<Seq<char>> {
        match *self {
            SuspendFlow::Suspending { tenant_id } => SuspendFlow::Suspending {
                tenant_id: tenant_id@,
            },
            SuspendFlow::Saving { tenant_id } => SuspendFlow::Saving { tenant_id: tenant_id@ },
        }
    }
}

/// A suspension that waits for a reply, or the end of one.
#[verifier::ext_equal]
#[derive(Debug)]
pub enum SuspendStep<S = String> {
    Await(SuspendFlow<S>),
    Done(Result<(), S>),
}

impl View for SuspendStep {
    type V = SuspendStep<Seq<char>>;

    open spec fn view(&self) -> SuspendStep<Seq<char>> {
        match *self {
            SuspendStep::Await(flow) => SuspendStep::Await(flow@),
            SuspendStep::Done(outcome) => SuspendStep::Done(text::outcome(outcome)),
        }
    }
}

impl SuspendFlow<Seq<char>> {
    /// The suspension of a tenant: its pod goes first, where tenants live in Kubernetes.
    pub open spec fn of(tenant_id: Seq<char>, k8s_enabled: bool) -> Self {
        if k8s_enabled {
            SuspendFlow::Suspending { tenant_id }
        } else {
            SuspendFlow::Saving { tenant_id }
        }
    }

    /// What the flow asks for.
    pub open spec fn asks(self) -> Action<Seq<char>> {
        match self {
            SuspendFlow::Suspending { tenant_id } => Action::Suspend(tenant_id),
            SuspendFlow::Saving { tenant_id } => Action::UpdateStatus(
                tenant_id,
                TenantStatus::Suspended,
            ),
        }
    }

    /// What follows from an event. One that answers something else leaves the flow where it is.
    pub open spec fn after(self, event: Event<Seq<char>>) -> SuspendStep<Seq<char>> {
        match (self, event) {
            (SuspendFlow::Suspending { tenant_id }, Event::Performed(outcome)) => match outcome {
                Err(e) => SuspendStep::Done(
                    Err("pod suspend failed for "@ + tenant_id + (": "@ + e)),
                ),
                Ok(_) => SuspendStep::Await(SuspendFlow::Saving { tenant_id }),
            },
            (SuspendFlow::Saving { tenant_id }, Event::Performed(outcome)) => match outcome {
                Err(e) => SuspendStep::Done(
                    Err("status update failed for "@ + tenant_id + (": "@ + e)),
                ),
                Ok(_) => SuspendStep::Done(Ok(())),
            },
            _ => SuspendStep::Await(self),
        }
    }
}

/// The suspension of a tenant: its pod goes first, where tenants live in Kubernetes.
pub fn suspend_one(tenant_id: &str, k8s_enabled: bool) -> (res: SuspendFlow)
    ensures
        res@ == SuspendFlow::of(tenant_id@, k8s_enabled),
{
    if k8s_enabled {
        SuspendFlow::Suspending { tenant_id: tenant_id.to_owned() }
    } else {
        SuspendFlow::Saving { tenant_id: tenant_id.to_owned() }
    }
}

impl SuspendFlow {
    /// What the flow asks for.
    pub fn action(&self) -> (res: Action)
        ensures
            res@ == self@.asks(),
    {
        match self {
            SuspendFlow::Suspending { tenant_id } => Action::Suspend(tenant_id.clone()),
            SuspendFlow::Saving { tenant_id } => Action::UpdateStatus(
                tenant_id.clone(),
                TenantStatus::Suspended,
            ),
        }
    }

    /// What follows from an event. One that answers something else leaves the flow where it is.
    pub fn resume(self, event: Event) -> (res: SuspendStep)
        ensures
            res@ == self@.after(event@),
    {
        match (self, event) {
            (SuspendFlow::Suspending { tenant_id }, Event::Performed(outcome)) => match outcome {
                Err(e) => SuspendStep::Done(
                    Err(
                        cat3(
                            "pod suspend failed for ",
                            tenant_id.as_str(),
                            cat(": ", e.as_str()).as_str(),
                        ),
                    ),
                ),
                Ok(_) => SuspendStep::Await(SuspendFlow::Saving { tenant_id }),
            },
            (SuspendFlow::Saving { tenant_id }, Event::Performed(outcome)) => match outcome {
                Err(e) => SuspendStep::Done(
                    Err(
                        cat3(
                            "status update failed for ",
                            tenant_id.as_str(),
                            cat(": ", e.as_str()).as_str(),
                        ),
                    ),
                ),
                Ok(_) => SuspendStep::Done(Ok(())),
            },
            (flow, _) => SuspendStep::Await(flow),
        }
    }
}

/// Where a sweep stands.
#[derive(Debug)]
pub enum SweepFlow {
    /// The idle tenants are being looked up.
    Finding,
    /// A batch of them is being suspended.
    Suspending {
        /// The IDs of all idle tenants.
        tenant_ids: Vec<String>,
        /// Of the first of them, whether each was suspended.
        suspended: Vec<bool>,
    },
}

/// Where a sweep stands.
#[verifier::ext_equal]
pub enum SweepFlowView {
    Finding,
    Suspending { tenant_ids: Seq<Seq<char>>, suspended: Seq<bool> },
}

impl View for SweepFlow {
    type V = SweepFlowView;

    open spec fn view(&self) -> SweepFlowView {
        match *self {
            SweepFlow::Finding => SweepFlowView::Finding,
            SweepFlow::Suspending { tenant_ids, suspended } => SweepFlowView::Suspending {
                tenant_ids: text::all(tenant_ids@),
                suspended: suspended@,
            },
        }
    }
}

/// What a sweep asks for.
#[derive(Debug)]
pub enum SweepAction {
    /// Find the tenants that have been idle for longer than that many seconds.
    FindIdle(u64),
    /// Suspend these tenants, all at a time.
    Suspend(Vec<String>),
}

/// What a sweep asks for.
#[verifier::ext_equal]
pub enum SweepActionView {
    FindIdle(u64),
    Suspend(Seq<Seq<char>>),
}

impl View for SweepAction {
    type V = SweepActionView;

    open spec fn view(&self) -> SweepActionView {
        match *self {
            SweepAction::FindIdle(seconds) => SweepActionView::FindIdle(seconds),
            SweepAction::Suspend(tenant_ids) => SweepActionView::Suspend(text::all(tenant_ids@)),
        }
    }
}

/// What came back.
#[derive(Debug)]
pub enum SweepEvent {
    /// The idle tenants.
    Found(Result<Vec<Tenant>, String>),
    /// How the suspension of each tenant of the batch ended, in their order.
    Finished(Vec<Result<(), String>>),
}

/// What came back.
#[verifier::ext_equal]
pub enum SweepEventView {
    Found(Result<Seq<Tenant<Seq<char>>>, Seq<char>>),
    Finished(Seq<Result<(), Seq<char>>>),
}

impl View for SweepEvent {
    type V = SweepEventView;

    open spec fn view(&self) -> SweepEventView {
        match *self {
            SweepEvent::Found(Ok(tenants)) => SweepEventView::Found(
                Ok(tenants@.map_values(|tenant: Tenant| tenant@)),
            ),
            SweepEvent::Found(Err(e)) => SweepEventView::Found(Err(e@)),
            SweepEvent::Finished(outcomes) => SweepEventView::Finished(
                outcomes@.map_values(|outcome: Result<(), String>| text::outcome(outcome)),
            ),
        }
    }
}

/// Whether each suspension succeeded.
pub open spec fn successes(outcomes: Seq<Result<(), Seq<char>>>) -> Seq<bool> {
    outcomes.map_values(|outcome: Result<(), Seq<char>>| outcome is Ok)
}

/// What a sweep has done.
#[derive(Debug, PartialEq, Eq)]
pub struct SweepReport<N = usize> {
    pub total: N,
    pub suspended: N,
    pub failed: N,
}

impl View for SweepReport {
    type V = SweepReport<nat>;

    open spec fn view(&self) -> SweepReport<nat> {
        SweepReport {
            total: self.total as nat,
            suspended: self.suspended as nat,
            failed: self.failed as nat,
        }
    }
}

/// How many of some tenants were suspended, where `suspended` is true, or were not.
pub open spec fn tally(outcomes: Seq<bool>, suspended: bool) -> nat {
    outcomes.filter(|outcome: bool| outcome == suspended).len()
}

impl SweepReport<nat> {
    /// The report on tenants, of each of which it is known whether it was suspended.
    pub open spec fn of(outcomes: Seq<bool>) -> Self {
        SweepReport {
            total: outcomes.len(),
            suspended: tally(outcomes, true),
            failed: tally(outcomes, false),
        }
    }
}

/// A sweep that waits for a reply, or the end of one.
#[derive(Debug)]
pub enum SweepStep {
    Await(SweepFlow),
    Done(Result<SweepReport, String>),
}

/// A sweep that waits for a reply, or the end of one.
#[verifier::ext_equal]
pub enum SweepStepView {
    Await(SweepFlowView),
    Done(Result<SweepReport<nat>, Seq<char>>),
}

impl View for SweepStep {
    type V = SweepStepView;

    open spec fn view(&self) -> SweepStepView {
        match *self {
            SweepStep::Await(flow) => SweepStepView::Await(flow@),
            SweepStep::Done(Ok(report)) => SweepStepView::Done(Ok(report@)),
            SweepStep::Done(Err(e)) => SweepStepView::Done(Err(e@)),
        }
    }
}

/// Where the batch ends that begins behind the first `done` of `n` tenants.
pub open spec fn batch_end(n: int, done: int) -> int {
    if n <= done {
        done
    } else if n - done <= MAX_CONCURRENT_SUSPENSIONS {
        n
    } else {
        done + MAX_CONCURRENT_SUSPENSIONS
    }
}

/// The next batch of tenants, when the first `done` of them have been dealt with.
pub open spec fn batch(tenant_ids: Seq<Seq<char>>, done: int) -> Seq<Seq<char>> {
    if tenant_ids.len() <= done {
        Seq::empty()
    } else {
        tenant_ids.subrange(done, batch_end(tenant_ids.len() as int, done))
    }
}

impl SweepFlowView {
    /// What the flow asks for.
    pub open spec fn asks(self) -> SweepActionView {
        match self {
            SweepFlowView::Finding => SweepActionView::FindIdle(IDLE_TIMEOUT),
            SweepFlowView::Suspending { tenant_ids, suspended } => SweepActionView::Suspend(
                batch(tenant_ids, suspended.len() as int),
            ),
        }
    }

    /// Goes on, or ends where all tenants have been dealt with.
    pub open spec fn at(tenant_ids: Seq<Seq<char>>, suspended: Seq<bool>) -> SweepStepView {
        if suspended.len() < tenant_ids.len() {
            SweepStepView::Await(SweepFlowView::Suspending { tenant_ids, suspended })
        } else {
            SweepStepView::Done(Ok(SweepReport::of(suspended)))
        }
    }

    /// What follows from an event. One that answers something else leaves the flow where it is.
    pub open spec fn after(self, event: SweepEventView) -> SweepStepView {
        match (self, event) {
            (SweepFlowView::Finding, SweepEventView::Found(Err(e))) => SweepStepView::Done(Err(e)),
            (SweepFlowView::Finding, SweepEventView::Found(Ok(tenants))) => SweepFlowView::at(
                tenants.map_values(|tenant: Tenant<Seq<char>>| tenant.tenant_id),
                Seq::empty(),
            ),
            (
                SweepFlowView::Suspending { tenant_ids, suspended },
                SweepEventView::Finished(outcomes),
            ) => if outcomes.len() == batch(tenant_ids, suspended.len() as int).len() {
                SweepFlowView::at(tenant_ids, suspended + successes(outcomes))
            } else {
                SweepStepView::Await(self)
            },
            _ => SweepStepView::Await(self),
        }
    }
}

/// A sweep begins by looking for idle tenants.
pub fn sweep() -> (res: SweepFlow)
    ensures
        res@ == SweepFlowView::Finding,
{
    SweepFlow::Finding
}

fn count(outcomes: &Vec<bool>) -> (res: SweepReport)
    ensures
        res@ == SweepReport::of(outcomes@),
{
    let total: usize = outcomes.len();
    let mut suspended: usize = 0;
    let mut failed: usize = 0;
    let mut i: usize = 0;
    proof {
        reveal(Seq::filter);
    }
    while i < total
        invariant
            total == outcomes@.len(),
            i <= total,
            suspended + failed == i,
            suspended == tally(outcomes@.take(i as int), true),
            failed == tally(outcomes@.take(i as int), false),
        decreases total - i,
    {
        proof {
            reveal(Seq::filter);
            assert(outcomes@.take(i + 1).drop_last() == outcomes@.take(i as int));
        }
        if outcomes[i] {
            suspended = suspended + 1;
        } else {
            failed = failed + 1;
        }
        i = i + 1;
    }
    assert(outcomes@.take(total as int) == outcomes@);
    SweepReport { total, suspended, failed }
}

fn go_on(tenant_ids: Vec<String>, suspended: Vec<bool>) -> (res: SweepStep)
    ensures
        res@ == SweepFlowView::at(text::all(tenant_ids@), suspended@),
{
    if suspended.len() < tenant_ids.len() {
        SweepStep::Await(SweepFlow::Suspending { tenant_ids, suspended })
    } else {
        SweepStep::Done(Ok(count(&suspended)))
    }
}

fn ids_of(tenants: &Vec<Tenant>) -> (res: Vec<String>)
    ensures
        text::all(res@) == tenants@.map_values(|tenant: Tenant| tenant@).map_values(
            |tenant: Tenant<Seq<char>>| tenant.tenant_id,
        ),
{
    let mut out: Vec<String> = Vec::new();
    let n: usize = tenants.len();
    let mut i: usize = 0;
    while i < n
        invariant
            n == tenants@.len(),
            i <= n,
            out@.len() == i,
            forall|j: int| 0 <= j < i ==> (#[trigger] out@[j])@ == tenants@[j].tenant_id@,
        decreases n - i,
    {
        out.push(tenants[i].tenant_id.clone());
        i = i + 1;
    }
    out
}

/// Where the batch ends that begins behind the first `done` of `n` tenants.
fn end_of_batch(n: usize, done: usize) -> (res: usize)
    ensures
        res == batch_end(n as int, done as int),
{
    if n <= done {
        done
    } else if n - done <= MAX_CONCURRENT_SUSPENSIONS {
        n
    } else {
        done + MAX_CONCURRENT_SUSPENSIONS
    }
}

/// The next batch of tenants, when the first `done` of them have been dealt with.
fn next_batch(tenant_ids: &Vec<String>, done: usize) -> (res: Vec<String>)
    ensures
        text::all(res@) == batch(text::all(tenant_ids@), done as int),
{
    let mut out: Vec<String> = Vec::new();
    let end: usize = end_of_batch(tenant_ids.len(), done);
    let mut i: usize = done;
    while i < end
        invariant
            done <= i <= end,
            done < end ==> end <= tenant_ids@.len(),
            out@.len() == i - done,
            forall|j: int| 0 <= j < i - done ==> (#[trigger] out@[j])@ == tenant_ids@[done + j]@,
        decreases end - i,
    {
        out.push(tenant_ids[i].clone());
        i = i + 1;
    }
    out
}

fn add_outcomes(suspended: Vec<bool>, outcomes: &Vec<Result<(), String>>) -> (res: Vec<bool>)
    ensures
        res@ == suspended@ + successes(
            outcomes@.map_values(|outcome: Result<(), String>| text::outcome(outcome)),
        ),
{
    let ghost before = suspended@;
    let mut out = suspended;
    let n: usize = outcomes.len();
    let mut i: usize = 0;
    while i < n
        invariant
            n == outcomes@.len(),
            i <= n,
            out@.len() == before.len() + i,
            out@.take(before.len() as int) == before,
            forall|j: int|
                0 <= j < i ==> #[trigger] out@[before.len() + j] == (outcomes@[j] is Ok),
        decreases n - i,
    {
        let ghost previous = out@;
        out.push(outcomes[i].is_ok());
        assert(out@.take(before.len() as int) == previous.take(before.len() as int));
        i = i + 1;
    }
    assert forall|j: int| 0 <= j < before.len() implies out@[j] == before[j] by {
        assert(out@.take(before.len() as int)[j] == before[j]);
    }
    assert forall|j: int| before.len() <= j < out@.len() implies out@[j] == (outcomes@[j
        - before.len()] is Ok) by {
        assert(out@[before.len() + (j - before.len())] == (outcomes@[j - before.len()] is Ok));
    }
    out
}

impl SweepFlow {
    /// What the flow asks for.
    pub fn action(&self) -> (res: SweepAction)
        ensures
            res@ == self@.asks(),
    {
        match self {
            SweepFlow::Finding => SweepAction::FindIdle(IDLE_TIMEOUT),
            SweepFlow::Suspending { tenant_ids, suspended } => SweepAction::Suspend(
                next_batch(tenant_ids, suspended.len()),
            ),
        }
    }

    /// What follows from an event. One that answers something else leaves the flow where it is.
    pub fn resume(self, event: SweepEvent) -> (res: SweepStep)
        ensures
            res@ == self@.after(event@),
    {
        match (self, event) {
            (SweepFlow::Finding, SweepEvent::Found(Err(e))) => SweepStep::Done(Err(e)),
            (SweepFlow::Finding, SweepEvent::Found(Ok(tenants))) => go_on(
                ids_of(&tenants),
                Vec::new(),
            ),
            (
                SweepFlow::Suspending { tenant_ids, suspended },
                SweepEvent::Finished(outcomes),
            ) => {
                let done: usize = suspended.len();
                if outcomes.len() == end_of_batch(tenant_ids.len(), done) - done {
                    go_on(tenant_ids, add_outcomes(suspended, &outcomes))
                } else {
                    SweepStep::Await(SweepFlow::Suspending { tenant_ids, suspended })
                }
            },
            (flow, _) => SweepStep::Await(flow),
        }
    }
}

/// The batches that a sweep asks for, when the first `done` tenants have been dealt with.
pub open spec fn batches(tenant_ids: Seq<Seq<char>>, done: int) -> Seq<Seq<Seq<char>>>
    decreases tenant_ids.len() - done,
{
    if tenant_ids.len() <= done {
        Seq::empty()
    } else {
        seq![batch(tenant_ids, done)] + batches(
            tenant_ids,
            batch_end(tenant_ids.len() as int, done),
        )
    }
}

/// The batches of a sweep hold every idle tenant once, in order; none of them is empty, and none
/// holds more tenants than may be suspended at a time.
pub proof fn batches_hold_every_tenant_once(tenant_ids: Seq<Seq<char>>, done: int)
    requires
        0 <= done <= tenant_ids.len(),
    ensures
        batches(tenant_ids, done).flatten() == tenant_ids.skip(done),
        forall|i: int|
            0 <= i < batches(tenant_ids, done).len() ==> 0 < (#[trigger] batches(
                tenant_ids,
                done,
            )[i]).len() <= MAX_CONCURRENT_SUSPENSIONS,
    decreases tenant_ids.len() - done,
{
    let all = batches(tenant_ids, done);
    if done < tenant_ids.len() {
        let end = batch_end(tenant_ids.len() as int, done);
        let first = batch(tenant_ids, done);
        let rest = batches(tenant_ids, end);
        batches_hold_every_tenant_once(tenant_ids, end);
        assert(all.drop_first() == rest);
        assert(all.flatten() == first + rest.flatten());
        assert(tenant_ids.skip(done) == first + tenant_ids.skip(end));
        assert forall|i: int| 0 <= i < all.len() implies 0 < (#[trigger] all[i]).len()
            <= MAX_CONCURRENT_SUSPENSIONS by {
            if i > 0 {
                assert(all[i] == rest[i - 1]);
            }
        }
    }
}

/// A sweep goes batch by batch: it asks for the first of the batches that are left, and the replies
/// to it leave the others.
pub proof fn sweeps_go_batch_by_batch(
    tenant_ids: Seq<Seq<char>>,
    suspended: Seq<bool>,
    outcomes: Seq<Result<(), Seq<char>>>,
)
    requires
        suspended.len() < tenant_ids.len(),
        outcomes.len() == batches(tenant_ids, suspended.len() as int)[0].len(),
    ensures
        ({
            let flow = SweepFlowView::Suspending { tenant_ids, suspended };
            let left = batches(tenant_ids, suspended.len() as int);
            let next = flow.after(SweepEventView::Finished(outcomes));
            &&& flow.asks() == SweepActionView::Suspend(left[0])
            &&& left.len() == 1 ==> next == SweepStepView::Done(
                Ok(SweepReport::of(suspended + successes(outcomes))),
            )
            &&& left.len() > 1 ==> next == SweepStepView::Await(
                SweepFlowView::Suspending {
                    tenant_ids,
                    suspended: suspended + successes(outcomes),
                },
            )
            &&& batches(tenant_ids, (suspended.len() + outcomes.len()) as int) == left.skip(1)
        }),
{
    let done = suspended.len() as int;
    let end = batch_end(tenant_ids.len() as int, done);
    let left = batches(tenant_ids, done);
    let rest = batches(tenant_ids, end);
    assert(left[0] == batch(tenant_ids, done));
    assert((suspended + successes(outcomes)).len() == end);
    assert(left.skip(1) == rest);
}

/// A sweep that finds no idle tenant is done at once.
pub proof fn nothing_idle_means_nothing_to_do()
    ensures
        SweepFlowView::Finding.after(SweepEventView::Found(Ok(Seq::empty())))
            == SweepStepView::Done(Ok(SweepReport { total: 0, suspended: 0, failed: 0 })),
{
    reveal(Seq::filter);
    let none: Seq<Tenant<Seq<char>>> = Seq::empty();
    assert(none.map_values(|tenant: Tenant<Seq<char>>| tenant.tenant_id)
        == Seq::<Seq<char>>::empty());
}

/// A report accounts for every tenant: each was suspended or failed.
pub proof fn reports_account_for_every_tenant(outcomes: Seq<bool>)
    ensures
        SweepReport::of(outcomes).suspended + SweepReport::of(outcomes).failed
            == SweepReport::of(outcomes).total,
    decreases outcomes.len(),
{
    reveal(Seq::filter);
    if outcomes.len() > 0 {
        reports_account_for_every_tenant(outcomes.drop_last());
    }
}

/// Where tenants live in Kubernetes, an idle tenant is stored as suspended only after its pod was
/// deleted.
pub proof fn pods_go_first(flow: SuspendFlow<Seq<char>>, event: Event<Seq<char>>, tenant_id: Seq<char>)
    requires
        flow.asks() == Action::Suspend(tenant_id),
    ensures
        SuspendFlow::of(tenant_id, true).asks() == Action::Suspend(tenant_id),
        flow.after(event) != SuspendStep::<Seq<char>>::Done(Ok(())),
        flow.after(event) matches SuspendStep::Await(next) ==> next == flow || (event
            matches Event::Performed(Ok(_)) && next.asks() == Action::UpdateStatus(
            tenant_id,
            TenantStatus::Suspended,
        )),
{
}

/// A sweep looks for the tenants that have been idle for an hour; where that fails it is told. Of those
/// found it asks for the first to be suspended, as many as may be at a time, by their IDs and in their
/// order.
pub proof fn sweeps_suspend_the_idle(tenants: Seq<Tenant<Seq<char>>>, e: Seq<char>)
    ensures
        SweepFlowView::Finding.asks() == SweepActionView::FindIdle(3600),
        SweepFlowView::Finding.after(SweepEventView::Found(Err(e))) == SweepStepView::Done(Err(e)),
        tenants.len() > 0 ==> {
            &&& SweepFlowView::Finding.after(
                SweepEventView::Found(Ok(tenants)),
            ) matches SweepStepView::Await(flow)
            &&& flow.asks() matches SweepActionView::Suspend(ids)
            &&& ids.len() == if tenants.len() < 20 {
                tenants.len()
            } else {
                20
            }
            &&& forall|i: int|
                0 <= i < ids.len() ==> #[trigger] ids[i] == tenants[i].tenant_id
            &&& flow matches SweepFlowView::Suspending { tenant_ids, suspended }
            &&& suspended.len() == 0
            &&& tenant_ids.len() == tenants.len()
            &&& forall|i: int|
                0 <= i < tenants.len() ==> #[trigger] tenant_ids[i] == tenants[i].tenant_id
        },
{
}

/// As long as tenants are left a sweep asks for the next of them, at most twenty and no fewer unless
/// fewer are left, by their IDs and in their order. Once each of these has ended it goes on behind
/// them, and where none is left it is done, with a report on all.
pub proof fn sweeps_go_on_behind_a_batch(
    tenant_ids: Seq<Seq<char>>,
    suspended: Seq<bool>,
    outcomes: Seq<Result<(), Seq<char>>>,
)
    requires
        suspended.len() < tenant_ids.len(),
        outcomes.len() == if tenant_ids.len() - suspended.len() < 20 {
            tenant_ids.len() - suspended.len()
        } else {
            20
        },
    ensures
        ({
            let flow = SweepFlowView::Suspending { tenant_ids, suspended };
            let done = suspended.len() + outcomes.len();
            let now = suspended + Seq::new(outcomes.len(), |i: int| outcomes[i] is Ok);
            &&& flow.asks() matches SweepActionView::Suspend(ids)
            &&& ids.len() == outcomes.len()
            &&& forall|i: int|
                0 <= i < ids.len() ==> #[trigger] ids[i] == tenant_ids[suspended.len() + i]
            &&& done < tenant_ids.len() ==> flow.after(SweepEventView::Finished(outcomes))
                == SweepStepView::Await(
                SweepFlowView::Suspending { tenant_ids, suspended: now },
            )
            &&& done == tenant_ids.len() ==> (flow.after(
                SweepEventView::Finished(outcomes),
            ) matches SweepStepView::Done(Ok(report)) && report == SweepReport::of(now))
        }),
{
    let now = suspended + Seq::new(outcomes.len(), |i: int| outcomes[i] is Ok);
    assert(suspended + successes(outcomes) == now);
}

/// A report counts one by one: each tenant adds one to the total, and one to those that were
/// suspended or to those that were not.
pub proof fn reports_count_one_by_one(outcomes: Seq<bool>, suspended: bool)
    ensures
        SweepReport::of(Seq::empty()) == (SweepReport { total: 0nat, suspended: 0nat, failed: 0nat }),
        ({
            let before = SweepReport::of(outcomes);
            let after = SweepReport::of(outcomes.push(suspended));
            &&& after.total == before.total + 1
            &&& after.suspended == before.suspended + if suspended {
                1int
            } else {
                0int
            }
            &&& after.failed == before.failed + if suspended {
                0int
            } else {
                1int
            }
        }),
{
    reveal(Seq::filter);
    assert(outcomes.push(suspended).drop_last() == outcomes);
}

/// An idle tenant is suspended: its pod is deleted first, where tenants live in Kubernetes, then it is
/// stored as suspended, and only then is that done. What fails on the way is told, and ends it.
pub proof fn idle_tenants_are_suspended(tenant_id: Seq<char>, k8s_enabled: bool, e: Seq<char>)
    ensures
        ({
            let begin = SuspendFlow::of(tenant_id, k8s_enabled);
            let fine = Event::<Seq<char>>::Performed(Ok(()));
            let failed = Event::<Seq<char>>::Performed(Err(e));
            let saving = if k8s_enabled {
                begin.after(fine)
            } else {
                SuspendStep::Await(begin)
            };
            &&& k8s_enabled ==> begin.asks() == Action::Suspend(tenant_id)
            &&& k8s_enabled ==> begin.after(failed) == SuspendStep::<Seq<char>>::Done(
                Err("pod suspend failed for "@ + tenant_id + (": "@ + e)),
            )
            &&& saving matches SuspendStep::Await(flow)
            &&& flow.asks() == Action::UpdateStatus(tenant_id, TenantStatus::Suspended)
            &&& flow.after(failed) == SuspendStep::<Seq<char>>::Done(
                Err("status update failed for "@ + tenant_id + (": "@ + e)),
            )
            &&& flow.after(fine) == SuspendStep::<Seq<char>>::Done(Ok(()))
        }),
{
}

/// An event that is not the end of an action leaves the suspension of a tenant where it is, and one
/// that is not the reply to what a sweep asks for leaves the sweep where it is.
pub proof fn other_events_change_nothing(
    flow: SuspendFlow<Seq<char>>,
    event: Event<Seq<char>>,
    sweep: SweepFlowView,
    sweep_event: SweepEventView,
)
    ensures
        !(event is Performed) ==> flow.after(event) == SuspendStep::Await(flow),
        sweep.asks() is FindIdle && sweep_event is Finished ==> sweep.after(sweep_event)
            == SweepStepView::Await(sweep),
        sweep.asks() is Suspend && sweep_event is Found ==> sweep.after(sweep_event)
            == SweepStepView::Await(sweep),
        (sweep.asks() matches SweepActionView::Suspend(ids) && (
        sweep_event matches SweepEventView::Finished(outcomes) && outcomes.len() != ids.len()))
            ==> sweep.after(sweep_event) == SweepStepView::Await(sweep),
{
}

} // verus!
