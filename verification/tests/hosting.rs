use kokage::binding::{BindingCore, BindingState};
use kokage::builder::ActorSpec;
use kokage::channel::{mailbox, MailboxRef};
use kokage::host::{
    abort_plan, apply_run_disposition, readiness_failure, run_disposition, runner_step,
    start_runner, ActorExitReporter, ActorExitStatus, ActorReadySignal, Incarnation,
    IncarnationControl, IncarnationStep, JoinOutcome, Observed, RunDisposition, RunnerStep,
};
use kokage::hub::MonitorHub;
use kokage::{
    ActorHost, ActorRunError, ExitStatus, IncarnationExit, Mailbox, MailboxShutdown, MonitorEvent,
    RestartMode, RestartPolicy, Shutdown, DEFAULT_SHUTDOWN_BOUND,
};

#[test]
fn run_disposition_matches_documented_restart_semantics() {
    let stopped = IncarnationExit::Stopped;
    assert_eq!(
        run_disposition(RestartPolicy::always(), &stopped),
        RunDisposition::ExpectRebind
    );
    for policy in [RestartPolicy::on_failure(), RestartPolicy::never()] {
        assert_eq!(run_disposition(policy, &stopped), RunDisposition::Terminate);
    }

    let failed = IncarnationExit::Failed(ActorRunError::Failed {
        actor_id: "worker".to_owned(),
        source: "boom".to_owned(),
    });
    for policy in [RestartPolicy::always(), RestartPolicy::on_failure()] {
        assert_eq!(run_disposition(policy, &failed), RunDisposition::ExpectRebind);
    }
    assert_eq!(
        run_disposition(RestartPolicy::never(), &failed),
        RunDisposition::Terminate
    );

    let shutdown = IncarnationExit::ShutdownRequested;
    for policy in
        [RestartPolicy::always(), RestartPolicy::on_failure(), RestartPolicy::never()]
    {
        assert_eq!(run_disposition(policy, &shutdown), RunDisposition::Terminate);
    }
}

fn bound_core() -> BindingCore<()> {
    let mut core = BindingCore::new(1, "worker".to_owned());
    let (sender, _receiver) = mailbox(&Mailbox::queue(1), 1);
    let run = core.monitor_run();
    assert!(core.bind(MailboxRef::new("worker".to_owned(), sender), &run).is_some());
    core
}

#[test]
fn a_restart_keeps_the_watches_of_the_actor() {
    let mut core = bound_core();
    let lease = core.outbound_monitors.lease();
    assert!(core.outbound_monitors.register(&lease, 9).installed());
    apply_run_disposition(&mut core, RunDisposition::ExpectRebind);
    assert!(!core.outbound_monitors.is_stopped(&lease));
    assert!(!core.outbound_monitors.register(&lease, 9).installed());
    apply_run_disposition(&mut core, RunDisposition::Terminate);
    assert!(core.outbound_monitors.is_stopped(&lease));
}

#[test]
fn a_refused_run_leaves_the_newer_binding_alone() {
    let mut core = BindingCore::<()>::new(1, "worker".to_owned());
    let older = ActorExitReporter::new(core.monitor_run(), true);
    let newer = ActorExitReporter::new(core.monitor_run(), true);
    let (sender, _receiver) = mailbox(&Mailbox::queue(1), 1);
    let bound = MailboxRef::new("worker".to_owned(), sender);
    let policy = RestartPolicy::never();
    assert!(start_runner(&mut core, bound.share(), &newer, policy).is_some());
    let (sender, _late) = mailbox(&Mailbox::queue(1), 1);
    let late = MailboxRef::new("worker".to_owned(), sender);
    assert!(start_runner(&mut core, late, &older, policy).is_none());
    assert!(core.current.is_bound_to(&bound));
}

#[test]
fn dispositions_settle_the_binding() {
    let mut core = bound_core();
    apply_run_disposition(&mut core, RunDisposition::ExpectRebind);
    assert!(matches!(core.current, BindingState::Unbound));
    apply_run_disposition(&mut core, RunDisposition::Terminate);
    assert!(matches!(core.current, BindingState::Terminated));
    apply_run_disposition(&mut core, RunDisposition::ExpectRebind);
    assert!(matches!(core.current, BindingState::Terminated));
}

#[test]
fn teardown_of_a_panicking_run_agrees_with_the_disposition_of_a_failure() {
    for mode in [RestartMode::Always, RestartMode::OnFailure, RestartMode::Never] {
        let policy = RestartPolicy::from_mode(mode);
        let mut core = BindingCore::<()>::new(1, "worker".to_owned());
        let (sender, _receiver) = mailbox(&Mailbox::queue(1), 1);
        let reporter = ActorExitReporter::new(core.monitor_run(), true);
        let incarnation = MailboxRef::new("worker".to_owned(), sender);
        let guard = start_runner(&mut core, incarnation, &reporter, policy).expect("a fresh slot");
        assert!(guard.release(&mut core));
        let failed = IncarnationExit::Failed(ActorRunError::ShutdownTimedOut {
            actor_id: "worker".to_owned(),
        });
        let expects = run_disposition(policy, &failed) == RunDisposition::ExpectRebind;
        assert_eq!(matches!(core.current, BindingState::Unbound), expects);
    }
}

fn watched() -> (MonitorHub, u64, ActorExitReporter) {
    let mut hub = MonitorHub::new(&"worker".to_owned());
    let watch = hub.register_watch(false, false);
    let run = hub.new_run(false);
    assert_eq!(hub.started(&run), Some(false));
    assert!(hub.pop(watch).is_some());
    (hub, watch, ActorExitReporter::new(run, true))
}

fn reported(hub: &mut MonitorHub, watch: u64) -> Option<ExitStatus> {
    match hub.pop(watch) {
        Some(MonitorEvent::Exited { status, .. }) => Some(status),
        _ => None,
    }
}

#[test]
fn exits_are_reported_once_and_with_their_cause() {
    let (mut hub, watch, mut reporter) = watched();
    reporter.report_result(&mut hub, None);
    reporter.report_panicked(&mut hub);
    reporter.report_fallback(&mut hub);
    assert_eq!(reported(&mut hub, watch), Some(ExitStatus::Completed { cancelled: false }));
    assert_eq!(reported(&mut hub, watch), None);

    let (mut hub, watch, mut reporter) = watched();
    reporter.shutdown_requested();
    reporter.report_result(&mut hub, Some("boom".to_owned()));
    assert_eq!(
        reported(&mut hub, watch),
        Some(ExitStatus::Failed { message: "boom".to_owned(), cancelled: true })
    );

    let (mut hub, watch, mut reporter) = watched();
    reporter.report_panicked(&mut hub);
    assert_eq!(reported(&mut hub, watch), Some(ExitStatus::Panicked { cancelled: false }));

    let (mut hub, watch, mut reporter) = watched();
    reporter.aborted(true);
    reporter.report_fallback(&mut hub);
    assert_eq!(
        reported(&mut hub, watch),
        Some(ExitStatus::Aborted { after_grace: true, cancelled: true })
    );
}

fn incarnation() -> Incarnation {
    let mut actor = ActorSpec::<()>::new("worker".to_owned(), 1).into_runnable();
    let mut hub = MonitorHub::new(&"worker".to_owned());
    let control = IncarnationControl {
        restart: RestartPolicy::always(),
        drain_messages: true,
        dropped_is_cancelled: true,
    };
    match Incarnation::begin(&mut actor, hub.new_run(false), control) {
        Ok(incarnation) => {
            assert!(actor.running);
            actor.end_run();
            assert!(!actor.running);
            incarnation
        }
        Err(_) => panic!("the declaration is valid"),
    }
}

const QUIET: Observed = Observed { ready: None, abort: None, joined: false, shutdown: false };

#[test]
fn observations_are_taken_in_order_of_precedence() {
    let mut run = incarnation();
    assert_eq!(run.turn(QUIET), IncarnationStep::Wait);
    let all = Observed { ready: Some(true), abort: Some(true), joined: true, shutdown: true };
    assert_eq!(run.turn(all), IncarnationStep::ReportReady);
    assert_eq!(run.turn(all), IncarnationStep::Abort);
    assert_eq!(run.turn(all), IncarnationStep::Join);
    assert_eq!(run.turn(Observed { joined: false, ..all }), IncarnationStep::Wait);

    let mut run = incarnation();
    assert_eq!(
        run.turn(Observed { ready: Some(false), ..QUIET }),
        IncarnationStep::ReadinessDropped
    );
    assert_eq!(run.turn(Observed { shutdown: true, ..QUIET }), IncarnationStep::Stop);
    assert_eq!(run.turn(Observed { shutdown: true, ..QUIET }), IncarnationStep::Wait);
    assert_eq!(
        run.finish(JoinOutcome::Completed),
        (Some(IncarnationExit::ShutdownRequested), ActorExitStatus::Shutdown)
    );
}

#[test]
fn joined_tasks_are_classified() {
    let run = incarnation();
    let failed = |source: &str| {
        Some(IncarnationExit::Failed(ActorRunError::Failed {
            actor_id: "worker".to_owned(),
            source: source.to_owned(),
        }))
    };
    assert_eq!(
        run.finish(JoinOutcome::Completed),
        (Some(IncarnationExit::Stopped), ActorExitStatus::Stopped)
    );
    assert_eq!(
        run.finish(JoinOutcome::Failed { source: "boom".to_owned() }),
        (failed("boom"), ActorExitStatus::Failed)
    );
    assert_eq!(
        run.finish(JoinOutcome::ReadinessTimedOut { timeout: 7 }),
        (
            Some(IncarnationExit::Failed(ActorRunError::ReadinessTimedOut {
                actor_id: "worker".to_owned(),
                timeout: 7,
            })),
            ActorExitStatus::Failed
        )
    );
    assert_eq!(run.finish(JoinOutcome::Panicked), (None, ActorExitStatus::Panicked));
    assert_eq!(
        run.finish(JoinOutcome::Cancelled),
        (failed("actor `worker` task was cancelled"), ActorExitStatus::Cancelled)
    );

    let mut aborted = incarnation();
    assert_eq!(aborted.turn(Observed { abort: Some(true), ..QUIET }), IncarnationStep::Abort);
    let (exit, status) = aborted.finish(JoinOutcome::Cancelled);
    assert_eq!(status, ActorExitStatus::ShutdownTimedOut);
    let exit = exit.expect("an abort is an exit");
    assert!(exit.is_failure());
    assert!(!exit.is_shutdown_requested());
}

#[test]
fn readiness_wins_over_its_deadline() {
    assert_eq!(runner_step(None, false, false, false, true), RunnerStep::AwaitResult);
    assert_eq!(runner_step(Some(5), true, false, false, true), RunnerStep::Return);
    assert_eq!(runner_step(Some(5), false, true, false, true), RunnerStep::AwaitResult);
    assert_eq!(
        runner_step(Some(5), false, false, false, true),
        RunnerStep::ReadinessTimedOut(5)
    );
    assert_eq!(runner_step(Some(5), false, false, false, false), RunnerStep::Wait);
    // A shutdown request disarms the deadline, and the result is still returned.
    assert_eq!(runner_step(Some(5), false, false, true, true), RunnerStep::AwaitResult);
    assert_eq!(runner_step(Some(5), true, false, true, true), RunnerStep::Return);
    assert_eq!(readiness_failure(2_000_000), "manual readiness timed out after 2ms");
}

#[test]
fn readiness_is_reported_once() {
    let mut gated = ActorReadySignal::new(true);
    assert!(!gated.mark_immediate());
    assert!(gated.mark());
    assert!(!gated.mark());
    let mut immediate = ActorReadySignal::new(false);
    assert!(immediate.mark_immediate());
    assert!(!immediate.mark_immediate());
}

#[test]
fn hosts_keep_the_binding_ready() {
    let actor = ActorSpec::<()>::new("solo".to_owned(), 1).into_runnable();
    let host = ActorHost::new(actor, MailboxShutdown::Discard);
    assert_eq!(host.label(), "solo");
    assert_eq!(host.to_debug_string(), "ActorHost { label: \"solo\", .. }");
    assert_eq!(host.actor.to_debug_string(), "RunnableActor { label: \"solo\", .. }");
    let control = host.control();
    assert_eq!(control.restart, RestartPolicy::always());
    assert!(!control.drain_messages);
    assert!(!control.dropped_is_cancelled);
}

#[test]
fn shutdown_policies_bound_the_stop() {
    assert_eq!(DEFAULT_SHUTDOWN_BOUND, 5_000_000_000);
    assert_eq!(Shutdown::default().grace(), Some(DEFAULT_SHUTDOWN_BOUND));
    assert_eq!(Shutdown::abort().grace(), None);
    assert_eq!(abort_plan(Shutdown::abort(), 10), (10, false));
    assert_eq!(abort_plan(Shutdown::graceful_for(5), 10), (15, true));
}

#[test]
fn only_success_is_no_failure() {
    assert!(!ExitStatus::Completed { cancelled: true }.is_failure());
    assert!(ExitStatus::Panicked { cancelled: false }.is_failure());
    assert!(ExitStatus::Aborted { after_grace: true, cancelled: true }.is_failure());
    assert!(ExitStatus::Failed { message: String::new(), cancelled: false }.is_failure());
}
