//! The five operations on a tenant's objects, as flows.
//!
//! A flow says what to ask the Kubernetes API next (`action`) and what follows from the reply
//! (`resume`). Whoever runs a flow performs its action, hands the reply back, and goes on until the
//! flow is done.
use super::manifests::{build_httproute, build_pod, build_pvc, build_secret, build_service};
use super::{ignore_already_exists, pod_name, KubeError, TenantSpec, NAMESPACE};
use crate::json::{Json, JsonView};
use crate::k8s;
use crate::k8s::manifests;
use crate::text;
use crate::text::{cat, cat3};
use vstd::prelude::*;

verus! {

/// The kinds of object that a tenant has.
#[derive(Debug, Clone, Copy, PartialEq, Eq, Structural)]
pub enum ObjectKind {
    Pvc,
    Secret,
    Pod,
    Service,
    HttpRoute,
}

impl ObjectKind {
    /// The name of the kind in messages.
    pub open spec fn label_text(self) -> Seq<char> {
        match self {
            ObjectKind::Pvc => "PVC"@,
            ObjectKind::Secret => "Secret"@,
            ObjectKind::Pod => "Pod"@,
            ObjectKind::Service => "Service"@,
            ObjectKind::HttpRoute => "HTTPRoute"@,
        }
    }

    /// The name of the kind in messages.
    pub fn label(self) -> (res: &'static str)
        ensures
            res@ == self.label_text(),
    {
        match self {
            ObjectKind::Pvc => "PVC",
            ObjectKind::Secret => "Secret",
            ObjectKind::Pod => "Pod",
            ObjectKind::Service => "Service",
            ObjectKind::HttpRoute => "HTTPRoute",
        }
    }
}

/// An object to create, and in which namespace.
#[derive(Debug)]
pub struct Manifest {
    pub kind: ObjectKind,
    pub namespace: String,
    pub document: Json,
}

/// The content of an object to create.
#[verifier::ext_equal]
pub struct ManifestView {
    pub kind: ObjectKind,
    pub namespace: Seq<char>,
    pub document: JsonView,
}

impl View for Manifest {
    type V = ManifestView;

    open spec fn view(&self) -> ManifestView {
        ManifestView { kind: self.kind, namespace: self.namespace@, document: self.document@ }
    }
}

impl ManifestView {
    /// An object to create among the tenants' objects.
    pub open spec fn of(kind: ObjectKind, document: JsonView) -> Self {
        ManifestView { kind, namespace: NAMESPACE@, document }
    }
}

impl Manifest {
    fn new(kind: ObjectKind, document: Json) -> (res: Self)
        ensures
            res@ == ManifestView::of(kind, document@),
    {
        Manifest { kind, namespace: NAMESPACE.to_owned(), document }
    }
}

/// An object by kind, namespace and name.
#[verifier::ext_equal]
#[derive(Debug)]
pub struct ObjectRef<S = String> {
    pub kind: ObjectKind,
    pub namespace: S,
    pub name: S,
}

impl View for ObjectRef {
    type V = ObjectRef<Seq<char>>;

    open spec fn view(&self) -> ObjectRef<Seq<char>> {
        ObjectRef { kind: self.kind, namespace: self.namespace@, name: self.name@ }
    }
}

impl ObjectRef<Seq<char>> {
    /// An object among the tenants' objects.
    pub open spec fn of(kind: ObjectKind, name: Seq<char>) -> Self {
        ObjectRef { kind, namespace: NAMESPACE@, name }
    }
}

impl ObjectRef {
    fn new(kind: ObjectKind, name: String) -> (res: Self)
        ensures
            res@ == ObjectRef::of(kind, name@),
    {
        ObjectRef { kind, namespace: NAMESPACE.to_owned(), name }
    }
}

/// What to ask of the Kubernetes API.
#[derive(Debug)]
pub enum KubeAction {
    /// Set up a client.
    Connect,
    /// Create these objects, all at once.
    Create(Vec<Manifest>),
    /// Look one object up.
    Find(ObjectRef),
    /// Delete these objects, all at once.
    Delete(Vec<ObjectRef>),
}

/// The content of an action.
#[verifier::ext_equal]
pub enum KubeActionView {
    Connect,
    Create(Seq<ManifestView>),
    Find(ObjectRef<Seq<char>>),
    Delete(Seq<ObjectRef<Seq<char>>>),
}

impl View for KubeAction {
    type V = KubeActionView;

    open spec fn view(&self) -> KubeActionView {
        match *self {
            KubeAction::Connect => KubeActionView::Connect,
            KubeAction::Create(objects) => KubeActionView::Create(
                objects@.map_values(|m: Manifest| m@),
            ),
            KubeAction::Find(object) => KubeActionView::Find(object@),
            KubeAction::Delete(objects) => KubeActionView::Delete(
                objects@.map_values(|o: ObjectRef| o@),
            ),
        }
    }
}

/// What came back. The replies to a batch stand in the order of its objects.
#[derive(Debug)]
pub enum KubeEvent {
    Connected(Result<(), String>),
    Created(Vec<Result<(), KubeError>>),
    Found(Result<(), KubeError>),
    Deleted(Vec<Result<(), KubeError>>),
}

/// The content of an event.
#[verifier::ext_equal]
pub enum KubeEventView {
    Connected(Result<(), Seq<char>>),
    Created(Seq<Result<(), KubeError<Seq<char>>>>),
    Found(Result<(), KubeError<Seq<char>>>),
    Deleted(Seq<Result<(), KubeError<Seq<char>>>>),
}

impl View for KubeEvent {
    type V = KubeEventView;

    open spec fn view(&self) -> KubeEventView {
        match *self {
            KubeEvent::Connected(outcome) => KubeEventView::Connected(text::outcome(outcome)),
            KubeEvent::Created(replies) => KubeEventView::Created(k8s::replies_view(replies@)),
            KubeEvent::Found(reply) => KubeEventView::Found(k8s::reply_view(reply)),
            KubeEvent::Deleted(replies) => KubeEventView::Deleted(k8s::replies_view(replies@)),
        }
    }
}

/// The phases of provisioning: what a pod mounts comes first, what leads to the pod comes last.
#[derive(Debug, Clone, Copy, PartialEq, Eq, Structural)]
pub enum Phase {
    Storage,
    Pod,
    Network,
}

impl Phase {
    /// The phase that follows, if any.
    pub open spec fn following(self) -> Option<Phase> {
        match self {
            Phase::Storage => Some(Phase::Pod),
            Phase::Pod => Some(Phase::Network),
            Phase::Network => None,
        }
    }

    /// The objects that the phase creates for a tenant.
    pub open spec fn objects(self, spec: TenantSpec<Seq<char>>) -> Seq<ManifestView> {
        match self {
            Phase::Storage => seq![
                ManifestView::of(ObjectKind::Pvc, manifests::pvc_json(spec)),
                ManifestView::of(ObjectKind::Secret, manifests::secret_json(spec)),
            ],
            Phase::Pod => seq![
                ManifestView::of(ObjectKind::Pod, manifests::pod_json(spec)),
            ],
            Phase::Network => {
                let service = ManifestView::of(ObjectKind::Service, manifests::service_json(spec));
                match spec.gateway_domain {
                    Some(domain) => seq![
                        service,
                        ManifestView::of(
                            ObjectKind::HttpRoute,
                            manifests::httproute_json(spec.tenant_id, domain),
                        ),
                    ],
                    None => seq![service],
                }
            },
        }
    }

    /// The kinds of the objects that the phase creates, with a route or without.
    pub open spec fn kinds(self, routed: bool) -> Seq<ObjectKind> {
        match self {
            Phase::Storage => seq![ObjectKind::Pvc, ObjectKind::Secret],
            Phase::Pod => seq![ObjectKind::Pod],
            Phase::Network => if routed {
                seq![ObjectKind::Service, ObjectKind::HttpRoute]
            } else {
                seq![ObjectKind::Service]
            },
        }
    }

    fn batch(self, spec: &TenantSpec) -> (res: Vec<Manifest>)
        ensures
            res@.map_values(|m: Manifest| m@) == self.objects(spec@),
    {
        let mut objects: Vec<Manifest> = Vec::new();
        match self {
            Phase::Storage => {
                objects.push(Manifest::new(ObjectKind::Pvc, build_pvc(spec)));
                objects.push(Manifest::new(ObjectKind::Secret, build_secret(spec)));
            },
            Phase::Pod => {
                objects.push(Manifest::new(ObjectKind::Pod, build_pod(spec)));
            },
            Phase::Network => {
                objects.push(Manifest::new(ObjectKind::Service, build_service(spec)));
                if spec.gateway_domain.is_some() {
                    objects.push(
                        Manifest::new(ObjectKind::HttpRoute, build_httproute(spec)),
                    );
                }
            },
        }
        objects
    }

    fn batch_kinds(self, routed: bool) -> (res: Vec<ObjectKind>)
        ensures
            res@ == self.kinds(routed),
    {
        let mut kinds: Vec<ObjectKind> = Vec::new();
        match self {
            Phase::Storage => {
                kinds.push(ObjectKind::Pvc);
                kinds.push(ObjectKind::Secret);
            },
            Phase::Pod => {
                kinds.push(ObjectKind::Pod);
            },
            Phase::Network => {
                kinds.push(ObjectKind::Service);
                if routed {
                    kinds.push(ObjectKind::HttpRoute);
                }
            },
        }
        kinds
    }
}

/// What the replies to a batch come to: the first refusal, in the batch's order, in words, or else
/// whether `created` holds or any object is new.
pub open spec fn settled(
    kinds: Seq<ObjectKind>,
    replies: Seq<Result<(), KubeError<Seq<char>>>>,
    created: bool,
) -> Result<bool, Seq<char>>
    recommends
        kinds.len() == replies.len(),
    decreases replies.len(),
{
    if replies.len() == 0 {
        Ok(created)
    } else {
        match k8s::creation(replies[0]) {
            Ok(new) => settled(kinds.skip(1), replies.skip(1), created || new),
            Err(e) => Err("Failed to create "@ + kinds[0].label_text() + ": "@ + e),
        }
    }
}

fn settle(kinds: &Vec<ObjectKind>, replies: Vec<Result<(), KubeError>>, created: bool) -> (res: Result<
    bool,
    String,
>)
    requires
        kinds@.len() == replies@.len(),
    ensures
        text::outcome(res) == settled(kinds@, k8s::replies_view(replies@), created),
{
    let ghost all = k8s::replies_view(replies@);
    let mut rest = replies;
    let mut created_now = created;
    let n: usize = kinds.len();
    let mut i: usize = 0;
    assert(kinds@.skip(0) == kinds@);
    while rest.len() > 0
        invariant
            n == kinds@.len(),
            i + rest@.len() == n,
            all == k8s::replies_view(replies@),
            settled(kinds@, all, created) == settled(
                kinds@.skip(i as int),
                k8s::replies_view(rest@),
                created_now,
            ),
        decreases rest@.len(),
    {
        let ghost before = rest@;
        let reply = rest.remove(0);
        assert(k8s::replies_view(before).skip(1) == k8s::replies_view(rest@));
        assert(k8s::replies_view(before)[0] == k8s::reply_view(reply));
        assert(kinds@.skip(i as int).skip(1) == kinds@.skip(i + 1));
        match ignore_already_exists(reply) {
            Ok(new) => {
                created_now = created_now || new;
            },
            Err(e) => {
                let what = cat("Failed to create ", kinds[i].label());
                return Err(cat3(what.as_str(), ": ", e.as_str()));
            },
        }
        i = i + 1;
    }
    Ok(created_now)
}

/// An operation on a tenant's objects.
#[verifier::ext_equal]
#[derive(Debug)]
pub enum Operation<S = String> {
    Provision(TenantSpec<S>),
    Deprovision(S),
    PodExists(S),
    Suspend(S),
    Wake(TenantSpec<S>),
}

impl View for Operation {
    type V = Operation<Seq<char>>;

    open spec fn view(&self) -> Operation<Seq<char>> {
        match *self {
            Operation::Provision(spec) => Operation::Provision(spec@),
            Operation::Deprovision(tenant_id) => Operation::Deprovision(tenant_id@),
            Operation::PodExists(tenant_id) => Operation::PodExists(tenant_id@),
            Operation::Suspend(tenant_id) => Operation::Suspend(tenant_id@),
            Operation::Wake(spec) => Operation::Wake(spec@),
        }
    }
}

/// Where an operation stands: which reply it waits for.
#[verifier::ext_equal]
#[derive(Debug)]
pub enum KubeFlow<S = String> {
    /// Every operation begins with a client.
    Connecting(Operation<S>),
    /// Objects of a phase are being created; `created` tells whether an earlier one was new.
    Provisioning { spec: TenantSpec<S>, phase: Phase, created: bool },
    /// The route, the service and the pod are being deleted.
    Withdrawing { tenant_id: S },
    /// The secret and the volume claim are being deleted.
    Erasing { tenant_id: S },
    /// The pod is being looked up.
    Finding { tenant_id: S },
    /// The pod, and nothing else, is being deleted.
    Suspending { tenant_id: S },
    /// The pod is being created again.
    Waking { spec: TenantSpec<S> },
}

impl View for KubeFlow {
    type V = KubeFlow<Seq<char>>;

    open spec fn view(&self) -> KubeFlow<Seq<char>> {
        match *self {
            KubeFlow::Connecting(operation) => KubeFlow::Connecting(operation@),
            KubeFlow::Provisioning { spec, phase, created } => KubeFlow::Provisioning {
                spec: spec@,
                phase,
                created,
            },
            KubeFlow::Withdrawing { tenant_id } => KubeFlow::Withdrawing { tenant_id: tenant_id@ },
            KubeFlow::Erasing { tenant_id } => KubeFlow::Erasing { tenant_id: tenant_id@ },
            KubeFlow::Finding { tenant_id } => KubeFlow::Finding { tenant_id: tenant_id@ },
            KubeFlow::Suspending { tenant_id } => KubeFlow::Suspending { tenant_id: tenant_id@ },
            KubeFlow::Waking { spec } => KubeFlow::Waking { spec: spec@ },
        }
    }
}

/// What an operation came to.
#[derive(Debug, Clone, Copy, PartialEq, Eq, Structural)]
pub enum Report {
    /// The tenant has all its objects; `created` tells whether any of them is new.
    Provisioned { created: bool },
    Deprovisioned,
    PodExists(bool),
    Suspended,
    Woken,
}

/// A flow that waits for a reply, or the end of one.
#[verifier::ext_equal]
#[derive(Debug)]
pub enum KubeStep<S = String> {
    Await(KubeFlow<S>),
    Done(Result<Report, S>),
}

impl View for KubeStep {
    type V = KubeStep<Seq<char>>;

    open spec fn view(&self) -> KubeStep<Seq<char>> {
        match *self {
            KubeStep::Await(flow) => KubeStep::Await(flow@),
            KubeStep::Done(outcome) => KubeStep::Done(text::outcome(outcome)),
        }
    }
}

impl KubeFlow<Seq<char>> {
    /// What the flow asks for.
    pub open spec fn asks(self) -> KubeActionView {
        match self {
            KubeFlow::Connecting(_) => KubeActionView::Connect,
            KubeFlow::Provisioning { spec, phase, created } => KubeActionView::Create(
                phase.objects(spec),
            ),
            KubeFlow::Withdrawing { tenant_id } => {
                let name = k8s::object_name(tenant_id);
                KubeActionView::Delete(seq![
                    ObjectRef::of(ObjectKind::HttpRoute, name),
                    ObjectRef::of(ObjectKind::Service, name),
                    ObjectRef::of(ObjectKind::Pod, name),
                ])
            },
            KubeFlow::Erasing { tenant_id } => KubeActionView::Delete(seq![
                ObjectRef::of(ObjectKind::Secret, k8s::secret_name(tenant_id)),
                ObjectRef::of(ObjectKind::Pvc, k8s::pvc_name(tenant_id)),
            ]),
            KubeFlow::Finding { tenant_id } => KubeActionView::Find(
                ObjectRef::of(ObjectKind::Pod, k8s::object_name(tenant_id)),
            ),
            KubeFlow::Suspending { tenant_id } => KubeActionView::Delete(seq![
                ObjectRef::of(ObjectKind::Pod, k8s::object_name(tenant_id)),
            ]),
            KubeFlow::Waking { spec } => KubeActionView::Create(Phase::Pod.objects(spec)),
        }
    }

    /// Whether an event answers what the flow asks for.
    pub open spec fn answered_by(self, event: KubeEventView) -> bool {
        match (self.asks(), event) {
            (KubeActionView::Connect, KubeEventView::Connected(_)) => true,
            (KubeActionView::Create(objects), KubeEventView::Created(replies)) => objects.len()
                == replies.len(),
            (KubeActionView::Find(_), KubeEventView::Found(_)) => true,
            (KubeActionView::Delete(objects), KubeEventView::Deleted(replies)) => objects.len()
                == replies.len(),
            _ => false,
        }
    }

    /// What follows once the client of an operation is there.
    pub open spec fn connected(operation: Operation<Seq<char>>) -> KubeFlow<Seq<char>> {
        match operation {
            Operation::Provision(spec) => KubeFlow::Provisioning {
                spec,
                phase: Phase::Storage,
                created: false,
            },
            Operation::Deprovision(tenant_id) => KubeFlow::Withdrawing { tenant_id },
            Operation::PodExists(tenant_id) => KubeFlow::Finding { tenant_id },
            Operation::Suspend(tenant_id) => KubeFlow::Suspending { tenant_id },
            Operation::Wake(spec) => KubeFlow::Waking { spec },
        }
    }

    /// What follows from an event. One that answers something else leaves the flow where it is.
    pub open spec fn after(self, event: KubeEventView) -> KubeStep<Seq<char>> {
        if self.answered_by(event) {
            self.after_answer(event)
        } else {
            KubeStep::Await(self)
        }
    }

    /// What follows from an event that answers what the flow asks for.
    pub open spec fn after_answer(self, event: KubeEventView) -> KubeStep<Seq<char>>
        recommends
            self.answered_by(event),
    {
        match (self, event) {
            (KubeFlow::Connecting(operation), KubeEventView::Connected(outcome)) => match outcome {
                Ok(_) => KubeStep::Await(Self::connected(operation)),
                Err(e) => KubeStep::Done(Err("K8s client init failed: "@ + e)),
            },
            (
                KubeFlow::Provisioning { spec, phase, created },
                KubeEventView::Created(replies),
            ) => match settled(phase.kinds(spec.gateway_domain is Some), replies, created) {
                Err(e) => KubeStep::Done(Err(e)),
                Ok(created) => match phase.following() {
                    Some(phase) => KubeStep::Await(KubeFlow::Provisioning { spec, phase, created }),
                    None => KubeStep::Done(Ok(Report::Provisioned { created })),
                },
            },
            (KubeFlow::Withdrawing { tenant_id }, _) => KubeStep::Await(
                KubeFlow::Erasing { tenant_id },
            ),
            (KubeFlow::Erasing { tenant_id }, _) => KubeStep::Done(Ok(Report::Deprovisioned)),
            (KubeFlow::Finding { tenant_id }, KubeEventView::Found(reply)) => match reply {
                Ok(_) => KubeStep::Done(Ok(Report::PodExists(true))),
                Err(e) => if e.code == Some(404u16) {
                    KubeStep::Done(Ok(Report::PodExists(false)))
                } else {
                    KubeStep::Done(Err("Failed to check pod: "@ + e.text))
                },
            },
            (KubeFlow::Suspending { tenant_id }, KubeEventView::Deleted(replies)) => match replies[0] {
                Ok(_) => KubeStep::Done(Ok(Report::Suspended)),
                Err(e) => KubeStep::Done(Err("Failed to delete pod: "@ + e.text)),
            },
            (KubeFlow::Waking { spec }, KubeEventView::Created(replies)) => match replies[0] {
                Ok(_) => KubeStep::Done(Ok(Report::Woken)),
                Err(e) => KubeStep::Done(Err("Failed to create pod: "@ + e.text)),
            },
            _ => KubeStep::Await(self),
        }
    }
}

impl KubeFlow {
    /// What the flow asks for.
    pub fn action(&self) -> (res: KubeAction)
        ensures
            res@ == self@.asks(),
    {
        match self {
            KubeFlow::Connecting(_) => KubeAction::Connect,
            KubeFlow::Provisioning { spec, phase, .. } => KubeAction::Create(phase.batch(spec)),
            KubeFlow::Withdrawing { tenant_id } => {
                let mut objects: Vec<ObjectRef> = Vec::new();
                objects.push(ObjectRef::new(ObjectKind::HttpRoute, pod_name(tenant_id)));
                objects.push(ObjectRef::new(ObjectKind::Service, pod_name(tenant_id)));
                objects.push(ObjectRef::new(ObjectKind::Pod, pod_name(tenant_id)));
                KubeAction::Delete(objects)
            },
            KubeFlow::Erasing { tenant_id } => {
                let mut objects: Vec<ObjectRef> = Vec::new();
                objects.push(
                    ObjectRef::new(ObjectKind::Secret, cat3("tenant-", tenant_id, "-token")),
                );
                objects.push(
                    ObjectRef::new(ObjectKind::Pvc, cat3("tenant-", tenant_id, "-data")),
                );
                KubeAction::Delete(objects)
            },
            KubeFlow::Finding { tenant_id } => KubeAction::Find(
                ObjectRef::new(ObjectKind::Pod, pod_name(tenant_id)),
            ),
            KubeFlow::Suspending { tenant_id } => {
                let mut objects: Vec<ObjectRef> = Vec::new();
                objects.push(ObjectRef::new(ObjectKind::Pod, pod_name(tenant_id)));
                KubeAction::Delete(objects)
            },
            KubeFlow::Waking { spec } => KubeAction::Create(Phase::Pod.batch(spec)),
        }
    }

    /// What follows from an event. One that answers something else leaves the flow where it is.
    pub fn resume(self, event: KubeEvent) -> (res: KubeStep)
        ensures
            res@ == self@.after(event@),
    {
        match (self, event) {
            (KubeFlow::Connecting(operation), KubeEvent::Connected(outcome)) => match outcome {
                Ok(_) => KubeStep::Await(match operation {
                    Operation::Provision(spec) => KubeFlow::Provisioning {
                        spec,
                        phase: Phase::Storage,
                        created: false,
                    },
                    Operation::Deprovision(tenant_id) => KubeFlow::Withdrawing { tenant_id },
                    Operation::PodExists(tenant_id) => KubeFlow::Finding { tenant_id },
                    Operation::Suspend(tenant_id) => KubeFlow::Suspending { tenant_id },
                    Operation::Wake(spec) => KubeFlow::Waking { spec },
                }),
                Err(e) => KubeStep::Done(Err(cat("K8s client init failed: ", e.as_str()))),
            },
            (KubeFlow::Provisioning { spec, phase, created }, KubeEvent::Created(replies)) => {
                let kinds = phase.batch_kinds(spec.gateway_domain.is_some());
                if kinds.len() != replies.len() {
                    return KubeStep::Await(KubeFlow::Provisioning { spec, phase, created });
                }
                match settle(&kinds, replies, created) {
                    Err(e) => KubeStep::Done(Err(e)),
                    Ok(created) => match phase {
                        Phase::Storage => KubeStep::Await(
                            KubeFlow::Provisioning { spec, phase: Phase::Pod, created },
                        ),
                        Phase::Pod => KubeStep::Await(
                            KubeFlow::Provisioning { spec, phase: Phase::Network, created },
                        ),
                        Phase::Network => KubeStep::Done(Ok(Report::Provisioned { created })),
                    },
                }
            },
            (KubeFlow::Withdrawing { tenant_id }, KubeEvent::Deleted(replies)) => {
                if replies.len() == 3 {
                    KubeStep::Await(KubeFlow::Erasing { tenant_id })
                } else {
                    KubeStep::Await(KubeFlow::Withdrawing { tenant_id })
                }
            },
            (KubeFlow::Erasing { tenant_id }, KubeEvent::Deleted(replies)) => {
                if replies.len() == 2 {
                    KubeStep::Done(Ok(Report::Deprovisioned))
                } else {
                    KubeStep::Await(KubeFlow::Erasing { tenant_id })
                }
            },
            (KubeFlow::Finding { .. }, KubeEvent::Found(reply)) => match reply {
                Ok(_) => KubeStep::Done(Ok(Report::PodExists(true))),
                Err(e) => match e.code {
                    Some(404) => KubeStep::Done(Ok(Report::PodExists(false))),
                    _ => KubeStep::Done(Err(cat("Failed to check pod: ", e.text.as_str()))),
                },
            },
            (KubeFlow::Suspending { tenant_id }, KubeEvent::Deleted(replies)) => {
                if replies.len() != 1 {
                    return KubeStep::Await(KubeFlow::Suspending { tenant_id });
                }
                match &replies[0] {
                    Ok(_) => KubeStep::Done(Ok(Report::Suspended)),
                    Err(e) => KubeStep::Done(Err(cat("Failed to delete pod: ", e.text.as_str()))),
                }
            },
            (KubeFlow::Waking { spec }, KubeEvent::Created(replies)) => {
                if replies.len() != 1 {
                    return KubeStep::Await(KubeFlow::Waking { spec });
                }
                match &replies[0] {
                    Ok(_) => KubeStep::Done(Ok(Report::Woken)),
                    Err(e) => KubeStep::Done(Err(cat("Failed to create pod: ", e.text.as_str()))),
                }
            },
            (flow, _) => KubeStep::Await(flow),
        }
    }
}

/// Provision all of a tenant's objects (idempotent).
pub fn provision_tenant(spec: &TenantSpec) -> (res: KubeFlow)
    ensures
        res@ == KubeFlow::Connecting(Operation::Provision(spec@)),
{
    KubeFlow::Connecting(Operation::Provision(spec.clone()))
}

/// Delete all of a tenant's objects.
pub fn deprovision_tenant(tenant_id: &str) -> (res: KubeFlow)
    ensures
        res@ == KubeFlow::Connecting(Operation::Deprovision(tenant_id@)),
{
    KubeFlow::Connecting(Operation::Deprovision(tenant_id.to_owned()))
}

/// Check whether a tenant's pod exists.
pub fn pod_exists(tenant_id: &str) -> (res: KubeFlow)
    ensures
        res@ == KubeFlow::Connecting(Operation::PodExists(tenant_id@)),
{
    KubeFlow::Connecting(Operation::PodExists(tenant_id.to_owned()))
}

/// Suspend a tenant: delete only the pod.
pub fn suspend_tenant(tenant_id: &str) -> (res: KubeFlow)
    ensures
        res@ == KubeFlow::Connecting(Operation::Suspend(tenant_id@)),
{
    KubeFlow::Connecting(Operation::Suspend(tenant_id.to_owned()))
}

/// Wake a suspended tenant: create the pod again, with the volume claim that is there.
pub fn wake_tenant(spec: &TenantSpec) -> (res: KubeFlow)
    ensures
        res@ == KubeFlow::Connecting(Operation::Wake(spec@)),
{
    KubeFlow::Connecting(Operation::Wake(spec.clone()))
}

} // verus!
