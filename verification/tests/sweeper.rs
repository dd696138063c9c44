//! Sweeps for idle tenants.
use houston_cloud::effects::{Action, Event};
use houston_cloud::idle_sweeper::{
    suspend_one, sweep, SuspendFlow, SuspendStep, SweepAction, SweepEvent, SweepFlow, SweepReport,
    SweepStep, MAX_CONCURRENT_SUSPENSIONS, SWEEP_INTERVAL,
};
use houston_cloud::tenant::{Tenant, TenantStatus, IDLE_TIMEOUT};

fn tenants(n: usize) -> Vec<Tenant> {
    (0..n)
        .map(|i| Tenant {
            id: format!("{i}"),
            user_id: format!("u-{i}"),
            tenant_id: format!("t-{i}"),
            engine_token: "token".to_string(),
            status: TenantStatus::Ready,
        })
        .collect()
}

fn waiting(step: SweepStep) -> SweepFlow {
    match step {
        SweepStep::Await(flow) => flow,
        SweepStep::Done(outcome) => panic!("done with {:?}", outcome),
    }
}

fn done(step: SweepStep) -> Result<SweepReport, String> {
    match step {
        SweepStep::Done(outcome) => outcome,
        SweepStep::Await(flow) => panic!("waits in {:?}", flow),
    }
}

fn batch_of(flow: &SweepFlow) -> Vec<String> {
    match flow.action() {
        SweepAction::Suspend(ids) => ids,
        other => panic!("unexpected action {:?}", other),
    }
}

#[test]
fn sweep_interval_is_five_minutes() {
    assert_eq!(SWEEP_INTERVAL, 300);
}

#[test]
fn idle_timeout_is_one_hour() {
    assert_eq!(IDLE_TIMEOUT, 3600);
}

#[test]
fn max_concurrent_suspensions_is_bounded() {
    assert_eq!(MAX_CONCURRENT_SUSPENSIONS, 20);
}

#[test]
fn sweep_looks_for_idle_tenants() {
    assert!(matches!(sweep().action(), SweepAction::FindIdle(3600)));
    let failed = sweep().resume(SweepEvent::Found(Err("down".to_string())));
    assert_eq!(done(failed).unwrap_err(), "down");
}

#[test]
fn sweep_without_idle_tenants_ends() {
    let report = done(sweep().resume(SweepEvent::Found(Ok(vec![])))).unwrap();
    assert_eq!(report, SweepReport { total: 0, suspended: 0, failed: 0 });
}

#[test]
fn sweep_goes_batch_by_batch() {
    let mut flow = waiting(sweep().resume(SweepEvent::Found(Ok(tenants(45)))));
    let mut asked: Vec<String> = vec![];
    for size in [20, 20] {
        let batch = batch_of(&flow);
        assert_eq!(batch.len(), size);
        asked.extend(batch);
        flow = waiting(flow.resume(SweepEvent::Finished(vec![Ok(()); size])));
    }
    let batch = batch_of(&flow);
    assert_eq!(batch.len(), 5);
    asked.extend(batch);
    let outcomes = vec![Ok(()), Err("a".to_string()), Ok(()), Err("b".to_string()), Ok(())];
    let report = done(flow.resume(SweepEvent::Finished(outcomes))).unwrap();
    assert_eq!(report, SweepReport { total: 45, suspended: 43, failed: 2 });
    let expected: Vec<String> = (0..45).map(|i| format!("t-{i}")).collect();
    assert_eq!(asked, expected);
}

#[test]
fn full_batch_ends_the_sweep() {
    let flow = waiting(sweep().resume(SweepEvent::Found(Ok(tenants(20)))));
    assert_eq!(batch_of(&flow).len(), 20);
    let outcomes = vec![Err("x".to_string()); 20];
    let report = done(flow.resume(SweepEvent::Finished(outcomes))).unwrap();
    assert_eq!(report, SweepReport { total: 20, suspended: 0, failed: 20 });
}

#[test]
fn batch_with_outcomes_missing_is_asked_again() {
    let flow = waiting(sweep().resume(SweepEvent::Found(Ok(tenants(3)))));
    let flow = waiting(flow.resume(SweepEvent::Finished(vec![Ok(())])));
    assert_eq!(batch_of(&flow), ["t-0", "t-1", "t-2"]);
}

fn next(step: SuspendStep) -> SuspendFlow {
    match step {
        SuspendStep::Await(flow) => flow,
        SuspendStep::Done(outcome) => panic!("done with {:?}", outcome),
    }
}

fn end(step: SuspendStep) -> Result<(), String> {
    match step {
        SuspendStep::Done(outcome) => outcome,
        SuspendStep::Await(flow) => panic!("waits in {:?}", flow),
    }
}

fn is_saving(flow: &SuspendFlow) -> bool {
    match flow.action() {
        Action::UpdateStatus(id, status) => id == "t-1" && status == TenantStatus::Suspended,
        _ => false,
    }
}

#[test]
fn suspension_deletes_the_pod_first() {
    let flow = suspend_one("t-1", true);
    assert!(matches!(flow.action(), Action::Suspend(id) if id == "t-1"));
    let flow = next(flow.resume(Event::Performed(Ok(()))));
    assert!(is_saving(&flow));
    assert_eq!(end(flow.resume(Event::Performed(Ok(())))), Ok(()));
}

#[test]
fn suspension_without_cluster_stores_the_status() {
    assert!(is_saving(&suspend_one("t-1", false)));
}

#[test]
fn failed_suspensions_are_told() {
    let failed = || Event::Performed(Err("down".to_string()));
    assert_eq!(
        end(suspend_one("t-1", true).resume(failed())).unwrap_err(),
        "pod suspend failed for t-1: down"
    );
    assert_eq!(
        end(suspend_one("t-1", false).resume(failed())).unwrap_err(),
        "status update failed for t-1: down"
    );
    assert!(is_saving(&next(suspend_one("t-1", false).resume(Event::Probed(None)))));
}
