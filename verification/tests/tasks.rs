use kokage::membership::TaskRef;
use kokage::observe::{
    lifecycle_pump_step, observation_pump_step, ChildEvent, ChildEventKind, ChildMembershipView,
    ChildSnapshot, ChildStateView, LifecycleEvent, LifecycleEventKind, PumpStep,
    SupervisorSnapshot, SupervisorStateView,
};
use kokage::scope::{SupervisorHandle, SupervisorView};
use kokage::task::{task_is_revivable_by_group, task_state_from_snapshot, TaskTracker};
use kokage::{ExitStatus, RestartPolicy, ScopeKind, ScopeRef, Strategy, TaskError};

fn failed() -> ExitStatus {
    ExitStatus::Failed { message: "boom".to_owned(), cancelled: false }
}

fn completed() -> ExitStatus {
    ExitStatus::Completed { cancelled: false }
}

fn stopped(exit: ExitStatus) -> ChildStateView {
    ChildStateView::Stopped { started: true, last_exit: Some(exit) }
}

fn child(lineage: u64, state: ChildStateView, restart_policy: RestartPolicy) -> ChildSnapshot {
    ChildSnapshot {
        id: "job".to_owned(),
        lineage,
        generation: 0,
        state,
        membership: ChildMembershipView::Active,
        restart_policy,
        next_restart_in: None,
    }
}

fn snapshot(strategy: Strategy, children: Vec<ChildSnapshot>) -> SupervisorSnapshot {
    SupervisorSnapshot { state: SupervisorStateView::Running, strategy, children }
}

fn event(lineage: u64, kind: ChildEventKind) -> LifecycleEvent {
    LifecycleEvent {
        kind: LifecycleEventKind::Child(ChildEvent { child_id: "job".to_owned(), lineage, kind }),
    }
}

fn job() -> String {
    "job".to_owned()
}

#[test]
fn a_restarting_exit_is_not_final() {
    let policy = RestartPolicy::on_failure();
    let restarting = snapshot(Strategy::OneForOne, vec![child(1, stopped(failed()), policy)]);
    let state = task_state_from_snapshot(&restarting, &job(), 1).expect("a member");
    assert!(state.started);
    assert_eq!(state.outcome, None);

    let done = snapshot(Strategy::OneForOne, vec![child(1, stopped(completed()), policy)]);
    let state = task_state_from_snapshot(&done, &job(), 1).expect("a member");
    assert_eq!(state.outcome, Some(Ok(completed())));

    let mut scheduled = snapshot(Strategy::OneForOne, vec![child(1, stopped(completed()), policy)]);
    scheduled.children[0].next_restart_in = Some(5);
    let state = task_state_from_snapshot(&scheduled, &job(), 1).expect("a member");
    assert_eq!(state.outcome, None);

    let mut stopping = restarting;
    stopping.state = SupervisorStateView::Stopping;
    let state = task_state_from_snapshot(&stopping, &job(), 1).expect("a member");
    assert_eq!(state.outcome, Some(Ok(failed())));
    assert_eq!(task_state_from_snapshot(&stopping, &job(), 2), None);
}

#[test]
fn group_restarts_can_revive_a_member() {
    let first = child(1, stopped(completed()), RestartPolicy::on_failure());
    let second = child(2, stopped(completed()), RestartPolicy::on_failure());
    let never = child(3, stopped(completed()), RestartPolicy::never());
    for (strategy, revives) in [
        (Strategy::OneForOne, [false, false, false]),
        (Strategy::OneForAll, [true, true, false]),
        (Strategy::RestForOne, [false, true, false]),
    ] {
        let group = snapshot(strategy, vec![first.clone(), second.clone(), never.clone()]);
        for (index, expected) in revives.into_iter().enumerate() {
            assert_eq!(task_is_revivable_by_group(&group, &group.children[index]), expected);
        }
    }
}

#[test]
fn tracking_follows_its_own_membership() {
    let running = ChildStateView::Running { last_exit: None };
    let mut tracker = TaskTracker::new(job(), 1);
    let empty = snapshot(Strategy::OneForOne, vec![]);
    assert!(!tracker.begin(&empty));
    assert_eq!(tracker.wait_started(), None);

    let live = snapshot(Strategy::OneForOne, vec![child(1, running, RestartPolicy::never())]);
    assert!(!tracker.on_event(&event(2, ChildEventKind::Started), &live));
    assert!(!tracker.state.started);
    assert!(!tracker.on_event(&event(1, ChildEventKind::Started), &live));
    assert_eq!(tracker.wait_started(), Some(Ok(())));
    assert_eq!(tracker.wait(), None);

    let replaced = snapshot(
        Strategy::OneForOne,
        vec![child(2, stopped(completed()), RestartPolicy::never())],
    );
    assert!(!tracker.on_event(&event(1, ChildEventKind::Exited { exit: failed() }), &replaced));
    assert!(tracker.on_event(&event(1, ChildEventKind::Removed), &replaced));
    assert!(tracker.is_finished());
    assert_eq!(tracker.wait(), Some(Ok(failed())));
}

#[test]
fn lag_markers_read_the_snapshot_again() {
    let mut tracker = TaskTracker::new(job(), 1);
    let lagged = LifecycleEvent { kind: LifecycleEventKind::Lagged { dropped: 3 } };
    let done = snapshot(
        Strategy::OneForOne,
        vec![child(1, stopped(completed()), RestartPolicy::never())],
    );
    assert!(tracker.on_event(&lagged, &done));
    assert_eq!(tracker.wait(), Some(Ok(completed())));
}

#[test]
fn waits_fail_with_the_membership() {
    let mut tracker = TaskTracker::new(job(), 1);
    tracker.on_end();
    assert_eq!(tracker.wait(), Some(Err(TaskError::Unavailable { task_id: job() })));
    assert_eq!(tracker.wait_started(), Some(Err(TaskError::Unavailable { task_id: job() })));

    let mut tracker = TaskTracker::new(job(), 1);
    let aborted = ChildStateView::StartupAborted { last_exit: Some(failed()) };
    let given_up = snapshot(Strategy::OneForOne, vec![child(1, aborted, RestartPolicy::never())]);
    assert!(tracker.begin(&given_up));
    assert_eq!(
        tracker.wait_started(),
        Some(Err(TaskError::StoppedBeforeReady { task_id: job() }))
    );
}

#[test]
fn task_references_name_one_membership() {
    let supervisor = SupervisorHandle { identity: 4, kind: ScopeKind::Dynamic };
    let scope = ScopeRef::new(supervisor, 4);
    let running = ChildStateView::Running { last_exit: None };
    let view = SupervisorView {
        snapshot: snapshot(Strategy::OneForOne, vec![child(2, running, RestartPolicy::never())]),
        attached: vec![],
        available: true,
        shutdown_requested: false,
        lifecycle_events: 6,
    };
    let watch = scope.lifecycle_events(&view);
    assert_eq!(watch.from, 6);
    let stale = TaskRef::new(scope.clone(), job(), 1, watch);
    assert_eq!(stale.snapshot(&view), None);
    let live = TaskRef::new(scope, job(), 2, watch);
    assert_eq!(live.id(), "job");
    assert_eq!(live.to_debug_string(), "TaskRef { id: \"job\", .. }");
    assert_eq!(live.snapshot(&view).map(|child| child.lineage), Some(2));
    assert_eq!(live.tracker().lineage, 2);
}

#[test]
fn pumps_forward_child_transitions_and_lag() {
    let started = || Some(event(1, ChildEventKind::Started));
    let lagged = Some(LifecycleEvent { kind: LifecycleEventKind::Lagged { dropped: 1 } });
    let scope = Some(LifecycleEvent {
        kind: LifecycleEventKind::Supervisor(SupervisorStateView::Running),
    });
    assert_eq!(lifecycle_pump_step(false, false, &started()), PumpStep::Forward);
    assert_eq!(lifecycle_pump_step(false, false, &lagged), PumpStep::Forward);
    assert_eq!(lifecycle_pump_step(false, false, &scope), PumpStep::Skip);
    assert_eq!(lifecycle_pump_step(true, false, &started()), PumpStep::Stop);
    assert_eq!(lifecycle_pump_step(false, true, &started()), PumpStep::Stop);
    assert_eq!(lifecycle_pump_step(false, false, &None), PumpStep::Stop);
    assert_eq!(observation_pump_step(false, false, false), PumpStep::Forward);
    assert_eq!(observation_pump_step(false, false, true), PumpStep::Stop);
    assert_eq!(observation_pump_step(false, true, false), PumpStep::Stop);
}
