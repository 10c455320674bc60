//! What the hosting of an actor keeps to, from its start to the report of its
//! exit.
use vstd::prelude::*;

use crate::binding::{BindingCore, BindingGuard};
use crate::builder::DeferredActor;
use crate::channel::MailboxRef;
use crate::host::{
    disposes, disposition, plans_abort, runner_turn, ActorExitReporter, ActorExitStatus, ActorHost,
    ActorReadySignal, ActorRunError, Incarnation, IncarnationControl, IncarnationExit,
    IncarnationStep, JoinOutcome, Observed, RunnableActor, RunnableActorBuilder, RunnerStep,
};
use crate::hub::{HubView, MonitorRun};
use crate::hub_reports::{goes_on, hears, told};
use crate::monitor::MonitorEvent;
use crate::policy::{ExitStatus, RestartMode, RestartPolicy, Shutdown};

verus! {

/// Whether a policy starts an actor again after an exit nobody asked for.
pub open spec fn comes_back(policy: RestartPolicy, failed: bool) -> bool {
    policy.mode == RestartMode::Always || (policy.mode == RestartMode::OnFailure && failed)
}

/// A watch of a running actor: it belongs to the membership of the run, is still
/// wanted, and asks for runs of this age.
pub open spec fn watches_run(hub: HubView, run_id: u64, i: int) -> bool {
    &&& hub.runs.dom().contains(run_id)
    &&& hub.runs[run_id].epoch == hub.epoch
    &&& 0 <= i < hub.watches.len()
    &&& hears(hub.watches[i], hub.epoch)
    &&& hub.watches[i].min_generation <= hub.runs[run_id].generation
    &&& !hub.removal_requested
}

/// The watch has been told that the run ended with `status`, and nothing more.
pub open spec fn told_exit(
    hub: HubView,
    after: HubView,
    run_id: u64,
    i: int,
    status: ExitStatus,
) -> bool {
    told(
        hub.watches[i],
        after.watches[i],
        seq![
            MonitorEvent::Exited {
                actor_id: hub.actor_id,
                generation: hub.runs[run_id].generation,
                status,
            },
        ],
    )
}

/// A policy restarts after every exit, after failures, or never.
pub proof fn law_restart_modes(policy: RestartPolicy, failed: bool)
    ensures
        policy.restarts(failed) <==> comes_back(policy, failed),
        policy.restarts(false) ==> policy.restarts(true),
        policy.restarts(true) <==> policy.mode != RestartMode::Never,
        policy.restarts(false) <==> policy.mode == RestartMode::Always,
{
}

/// An actor is expected back exactly where its policy restarts it and nobody
/// asked it to stop.
pub proof fn law_who_is_expected_back(policy: RestartPolicy, exit: IncarnationExit)
    ensures
        disposition(policy, exit) is ExpectRebind <==> match exit {
            IncarnationExit::ShutdownRequested => false,
            IncarnationExit::Stopped => policy.mode == RestartMode::Always,
            IncarnationExit::Failed(_) => policy.mode != RestartMode::Never,
        },
        disposition(policy, exit) is Terminate || disposition(policy, exit) is ExpectRebind,
{
}

/// After a run the slot of an actor that is expected back has no mailbox, and
/// its monitors are left alone. The slot of one that is not is closed for good,
/// its watches hear of the removal, and what it watched itself is given up.
pub proof fn law_slots_after_a_run<M>(
    core: BindingCore<M>,
    policy: RestartPolicy,
    exit: IncarnationExit,
    after: BindingCore<M>,
    i: int,
)
    requires
        disposes(core, disposition(policy, exit), after),
        0 <= i < core.monitors@.watches.len(),
        hears(core.monitors@.watches[i], core.monitors@.epoch),
        !goes_on(core.monitors@, None, core.monitors@.epoch),
        !(core.monitors@.lifecycle is Removed),
    ensures
        ({
            let back = !(exit is ShutdownRequested) && comes_back(policy, exit is Failed);
            &&& back && !(core.current is Terminated) ==> after.current is Unbound
            &&& back && core.current is Terminated ==> after.current is Terminated
            &&& back ==> after.monitors == core.monitors && after.outbound_monitors
                == core.outbound_monitors
            &&& !back ==> {
                &&& after.current is Terminated
                &&& after.outbound_monitors.terminated
                &&& after.outbound_monitors.epoch == core.outbound_monitors.epoch
                &&& after.outbound_monitors.watches == core.outbound_monitors.watches
                &&& told(
                    core.monitors@.watches[i],
                    after.monitors@.watches[i],
                    seq![
                        MonitorEvent::Removed {
                            actor_id: core.monitors@.actor_id,
                            generation: core.monitors@.last_generation,
                        },
                    ],
                )
            }
            &&& after.latest_bind_run == core.latest_bind_run
            &&& after.counters == core.counters
            &&& after.identity == core.identity
        }),
{
    crate::hub_reports::law_watches_hear_the_removal(core.monitors@, core.monitors@.epoch, i);
}

/// What a run returned is what its watches are told: an error with its text, a
/// success as a completion, each marked as cancelled exactly where a stop had
/// been requested.
pub proof fn law_results_are_reported(
    reporter: ActorExitReporter,
    hub: HubView,
    failure: Option<String>,
    after: ActorExitReporter,
    hub_after: HubView,
    i: int,
)
    requires
        !reporter.reported,
        reporter.reports_result(hub, failure, after, hub_after),
        watches_run(hub, reporter.run.run_id, i),
    ensures
        after.reported,
        !hub_after.runs.dom().contains(reporter.run.run_id),
        match failure {
            Some(message) => told_exit(
                hub,
                hub_after,
                reporter.run.run_id,
                i,
                ExitStatus::Failed { message, cancelled: reporter.shutdown_requested },
            ),
            None => told_exit(
                hub,
                hub_after,
                reporter.run.run_id,
                i,
                ExitStatus::Completed { cancelled: reporter.shutdown_requested },
            ),
        },
{
    let status = match failure {
        Some(message) => ExitStatus::Failed { message, cancelled: reporter.shutdown_requested },
        None => ExitStatus::Completed { cancelled: reporter.shutdown_requested },
    };
    crate::hub_reports::law_watches_hear_the_exit(hub, reporter.run.run_id, status, i);
    crate::hub_reports::law_exits_are_booked(hub, reporter.run.run_id, status);
}

/// A panic is told as a panic, marked as cancelled exactly where a stop had been
/// requested.
pub proof fn law_panics_are_reported(
    reporter: ActorExitReporter,
    hub: HubView,
    after: ActorExitReporter,
    hub_after: HubView,
    i: int,
)
    requires
        !reporter.reported,
        reporter.reports_panic(hub, after, hub_after),
        watches_run(hub, reporter.run.run_id, i),
    ensures
        after.reported,
        !hub_after.runs.dom().contains(reporter.run.run_id),
        told_exit(
            hub,
            hub_after,
            reporter.run.run_id,
            i,
            ExitStatus::Panicked { cancelled: reporter.shutdown_requested },
        ),
{
    let status = ExitStatus::Panicked { cancelled: reporter.shutdown_requested };
    crate::hub_reports::law_watches_hear_the_exit(hub, reporter.run.run_id, status, i);
    crate::hub_reports::law_exits_are_booked(hub, reporter.run.run_id, status);
}

/// A run that neither returned nor panicked is told as aborted. It counts as
/// cancelled once a stop was requested, and as aborted after its grace exactly
/// where the last abort was one.
pub proof fn law_aborts_are_reported(
    reporter: ActorExitReporter,
    stopped: ActorExitReporter,
    aborted: ActorExitReporter,
    after_grace: bool,
    hub: HubView,
    after: ActorExitReporter,
    hub_after: HubView,
    i: int,
)
    requires
        !reporter.reported,
        reporter.stops(stopped),
        stopped.aborts(after_grace, aborted),
        watches_run(hub, reporter.run.run_id, i),
    ensures
        stopped.run == reporter.run && aborted.run == reporter.run,
        stopped.shutdown_requested && aborted.shutdown_requested,
        !stopped.reported && !aborted.reported,
        reporter.reports_fallback(hub, after, hub_after) ==> told_exit(
            hub,
            hub_after,
            reporter.run.run_id,
            i,
            reporter.fallback,
        ),
        reporter.fallback matches ExitStatus::Aborted { after_grace: earlier, .. } ==> (
        stopped.reports_fallback(hub, after, hub_after) ==> told_exit(
            hub,
            hub_after,
            reporter.run.run_id,
            i,
            ExitStatus::Aborted { after_grace: earlier, cancelled: true },
        )),
        aborted.reports_fallback(hub, after, hub_after) ==> told_exit(
            hub,
            hub_after,
            reporter.run.run_id,
            i,
            ExitStatus::Aborted { after_grace, cancelled: true },
        ),
{
    let run_id = reporter.run.run_id;
    crate::hub_reports::law_watches_hear_the_exit(hub, run_id, reporter.fallback, i);
    crate::hub_reports::law_watches_hear_the_exit(hub, run_id, stopped.fallback, i);
    crate::hub_reports::law_watches_hear_the_exit(hub, run_id, aborted.fallback, i);
}

/// Only the first report of a run counts: every later one, of whatever exit,
/// tells nobody anything, and a late request to stop changes nothing.
pub proof fn law_exits_are_reported_once(
    reporter: ActorExitReporter,
    hub: HubView,
    failure: Option<String>,
    after_grace: bool,
    after: ActorExitReporter,
    hub_after: HubView,
)
    requires
        reporter.reported,
    ensures
        reporter.reports_result(hub, failure, after, hub_after) || reporter.reports_panic(
            hub,
            after,
            hub_after,
        ) || reporter.reports_fallback(hub, after, hub_after) ==> hub_after == hub && after
            == reporter,
        reporter.stops(after) || reporter.aborts(after_grace, after) ==> after == reporter,
{
}

/// An actor without room for a single message is refused by name and does not
/// run. Every other one runs, has not reported anything yet, and would be told
/// as aborted before any grace if it were dropped right away.
pub proof fn law_runs_need_a_mailbox(
    actor: RunnableActor,
    run: MonitorRun,
    control: IncarnationControl,
    begun: Result<Incarnation, IncarnationExit>,
    after: RunnableActor,
)
    requires
        Incarnation::begins(actor, run, control, begun, after),
    ensures
        begun is Ok <==> actor.mailbox_capacity > 0,
        begun matches Ok(incarnation) ==> {
            &&& after.running
            &&& incarnation.actor_id == actor.label
            &&& incarnation.reporter.run == run
            &&& incarnation.reporter.fallback == ExitStatus::Aborted {
                after_grace: false,
                cancelled: control.dropped_is_cancelled,
            }
            &&& !incarnation.reporter.reported
            &&& incarnation.ready_pending
            &&& !incarnation.shutdown_requested
            &&& !incarnation.shutdown_timed_out
        },
        begun matches Err(exit) ==> {
            &&& exit matches IncarnationExit::Failed(ActorRunError::ZeroMailboxCapacity { actor_id })
            &&& actor_id == actor.label
            &&& after.running == actor.running
        },
        after.label == actor.label && after.identity == actor.identity && after.mailbox_kind
            == actor.mailbox_kind && after.mailbox_capacity == actor.mailbox_capacity,
{
}

/// What an incarnation attends to first: news of its readiness, while that is
/// open; then an abort, before the first; then its end; then a request to stop,
/// before the first. It waits only where there is none of these.
pub proof fn law_first_things_first(
    incarnation: Incarnation,
    observed: Observed,
    step: IncarnationStep,
    after: Incarnation,
)
    requires
        incarnation.turns(observed, step, after),
    ensures
        ({
            let news = incarnation.ready_pending && observed.ready is Some;
            let abort = !incarnation.shutdown_timed_out && observed.abort is Some;
            let stop = !incarnation.shutdown_requested && observed.shutdown;
            &&& step is ReportReady <==> incarnation.ready_pending && observed.ready == Some(true)
            &&& step is ReadinessDropped <==> incarnation.ready_pending && observed.ready == Some(
                false,
            )
            &&& step is Abort <==> !news && abort
            &&& step is Join <==> !news && !abort && observed.joined
            &&& step is Stop <==> !news && !abort && !observed.joined && stop
            &&& step is Wait <==> !news && !abort && !observed.joined && !stop
        }),
        step is Wait || step is Join ==> after == incarnation,
        after.ready_pending <==> incarnation.ready_pending && observed.ready is None,
        step is Abort ==> after.shutdown_requested && after.shutdown_timed_out,
        step is Stop ==> after.shutdown_requested && after.shutdown_timed_out
            == incarnation.shutdown_timed_out,
        step is ReportReady || step is ReadinessDropped ==> after.reporter == incarnation.reporter
            && after.shutdown_requested == incarnation.shutdown_requested
            && after.shutdown_timed_out == incarnation.shutdown_timed_out,
{
    assert(observed.ready is None || observed.ready == Some(true) || observed.ready == Some(false));
}

/// Readiness is settled once, an incarnation is aborted once and asked to stop
/// once: whatever is observed next, the step does not come again.
pub proof fn law_nothing_is_done_twice(
    incarnation: Incarnation,
    observed: Observed,
    step: IncarnationStep,
    after: Incarnation,
    observed_next: Observed,
    next: IncarnationStep,
    last: Incarnation,
)
    requires
        incarnation.turns(observed, step, after),
        after.turns(observed_next, next, last),
    ensures
        step is ReportReady || step is ReadinessDropped ==> !(next is ReportReady) && !(
        next is ReadinessDropped),
        step is Abort ==> !(next is Abort) && !(next is Stop),
        step is Stop ==> !(next is Stop),
{
}

/// A run that is aborted or asked to stop before it reported anything is told as
/// cancelled if it never returns, and as aborted after its grace exactly where
/// the abort said so.
pub proof fn law_turns_mark_the_report(
    incarnation: Incarnation,
    observed: Observed,
    step: IncarnationStep,
    after: Incarnation,
)
    requires
        incarnation.turns(observed, step, after),
        !incarnation.reporter.reported,
        incarnation.reporter.wf(),
    ensures
        step is Abort ==> (observed.abort matches Some(after_grace) ==> after.reporter.fallback
            == ExitStatus::Aborted { after_grace, cancelled: true }),
        step is Stop ==> (incarnation.reporter.fallback matches ExitStatus::Aborted {
            after_grace,
            ..
        } ==> after.reporter.fallback == ExitStatus::Aborted { after_grace, cancelled: true }),
        step is Abort || step is Stop ==> after.reporter.shutdown_requested,
        !after.reporter.reported && after.reporter.run == incarnation.reporter.run,
{
}

/// How a run ended: a success is a stop on its own or the answer to a request;
/// errors, missed readiness and overdue shutdowns are failures that name the
/// actor; a panic has no exit to hand on.
pub proof fn law_how_runs_end(
    incarnation: Incarnation,
    joined: JoinOutcome,
    finished: (Option<IncarnationExit>, ActorExitStatus),
)
    requires
        incarnation.finishes(joined, finished),
    ensures
        finished.0 is None <==> joined is Panicked,
        finished.0 == Some(IncarnationExit::Stopped) <==> joined is Completed
            && !incarnation.shutdown_requested,
        finished.0 == Some(IncarnationExit::ShutdownRequested) <==> joined is Completed
            && incarnation.shutdown_requested,
        joined is Failed || joined is ReadinessTimedOut || joined is Cancelled <==> (
        finished.0 is Some && finished.0->0 is Failed),
        joined matches JoinOutcome::Failed { source } ==> finished.0 == Some(
            IncarnationExit::Failed(
                ActorRunError::Failed { actor_id: incarnation.actor_id, source },
            ),
        ),
        joined matches JoinOutcome::ReadinessTimedOut { timeout } ==> finished.0 == Some(
            IncarnationExit::Failed(
                ActorRunError::ReadinessTimedOut { actor_id: incarnation.actor_id, timeout },
            ),
        ),
        joined is Cancelled && incarnation.shutdown_timed_out ==> finished.0 == Some(
            IncarnationExit::Failed(
                ActorRunError::ShutdownTimedOut { actor_id: incarnation.actor_id },
            ),
        ),
        joined is Cancelled && !incarnation.shutdown_timed_out ==> {
            &&& finished.0 matches Some(
                IncarnationExit::Failed(ActorRunError::Failed { actor_id, source }),
            )
            &&& actor_id == incarnation.actor_id
            &&& source@ == "actor `"@ + incarnation.actor_id@ + "` task was cancelled"@
        },
        finished.1 == match joined {
            JoinOutcome::Completed => if incarnation.shutdown_requested {
                ActorExitStatus::Shutdown
            } else {
                ActorExitStatus::Stopped
            },
            JoinOutcome::Failed { .. } => ActorExitStatus::Failed,
            JoinOutcome::ReadinessTimedOut { .. } => ActorExitStatus::Failed,
            JoinOutcome::Panicked => ActorExitStatus::Panicked,
            JoinOutcome::Cancelled => if incarnation.shutdown_timed_out {
                ActorExitStatus::ShutdownTimedOut
            } else {
                ActorExitStatus::Cancelled
            },
        },
{
}

/// The deadline for readiness binds only an actor that reports it itself, and
/// only until it has reported, returned or been asked to stop.
pub proof fn law_readiness_deadlines(
    manual_readiness: Option<u64>,
    returned: bool,
    ready: bool,
    shutdown: bool,
    elapsed: bool,
)
    ensures
        ({
            let step = runner_turn(manual_readiness, returned, ready, shutdown, elapsed);
            let bound = manual_readiness is Some && !returned && !ready && !shutdown;
            &&& step is Return <==> returned
            &&& step is ReadinessTimedOut <==> bound && elapsed
            &&& step is Wait <==> bound && !elapsed
            &&& step is AwaitResult <==> !returned && !bound
            &&& step matches RunnerStep::ReadinessTimedOut(timeout) ==> manual_readiness == Some(
                timeout,
            )
        }),
{
}

/// A graceful stop is cut off no earlier than its grace after the request and
/// counts as such; an abort is due at once.
pub proof fn law_grace_is_granted(shutdown: Shutdown, now: u64, plan: (u64, bool))
    requires
        plans_abort(shutdown, now, plan),
    ensures
        shutdown is Abort <==> !plan.1,
        shutdown is Abort ==> plan.0 == now,
        shutdown matches Shutdown::Graceful { grace } ==> (grace < u64::MAX && now + grace
            <= u64::MAX ==> plan.0 == now + grace),
        plan.0 >= now,
{
}

/// Readiness is reported by the first mark and by no other. An actor that reports
/// it itself is not marked by its mere start, and every other one is.
pub proof fn law_readiness_is_reported_once(
    signal: ActorReadySignal,
    first: bool,
    after: ActorReadySignal,
    second: bool,
    last: ActorReadySignal,
)
    requires
        signal.marks(first, after) || signal.marks_at_once(first, after),
        after.marks(second, last),
    ensures
        signal.marks(first, after) ==> !second && after.reported && first == !signal.reported,
        signal.marks_at_once(first, after) ==> {
            &&& signal.manual ==> !first && after.reported == signal.reported
            &&& !signal.manual ==> !second && after.reported && first == !signal.reported
        },
        first && second ==> false,
        last.reported && last.manual == signal.manual && after.manual == signal.manual,
{
}

/// The capacity that an actor declares for its mailbox wins over the one of its
/// host, which is used where it declares none.
pub proof fn law_own_capacity_wins(
    builder: RunnableActorBuilder,
    other: RunnableActorBuilder,
    deferred: DeferredActor,
)
    ensures
        deferred.own_capacity matches Some(capacity) ==> builder.built(deferred).mailbox_capacity
            == capacity && builder.built(deferred) == other.built(deferred),
        deferred.own_capacity is None ==> builder.built(deferred).mailbox_capacity
            == builder.mailbox_capacity,
        builder.built(deferred).label == deferred.actor_id,
        builder.built(deferred).identity == deferred.identity,
        builder.built(deferred).mailbox_kind == deferred.mailbox_kind,
        !builder.built(deferred).running,
{
}

/// A run gets the slot where none newer has had it and the membership lets it in.
/// It is then bound to its own mailbox and remembered as the newest. A run that is
/// refused by its age leaves the slot as it was; one that the membership refuses
/// closes it.
pub proof fn law_newer_runs_take_the_slot<M>(
    core: BindingCore<M>,
    mailbox: MailboxRef<M>,
    run: MonitorRun,
    policy: RestartPolicy,
    guard: Option<BindingGuard<M>>,
    after: BindingCore<M>,
)
    requires
        BindingGuard::taken(core, mailbox, run, policy, guard, after),
    ensures
        ({
            let in_order = match core.latest_bind_run {
                Some(newest) => newest <= run.run_id,
                None => true,
            };
            let open = !(core.current is Terminated) || run.reopens_epoch is Some;
            let admitted = core.monitors@.admits(run.reopens_epoch) is Some;
            &&& guard is Some <==> in_order && open && admitted
            &&& guard matches Some(guard) ==> {
                &&& after.current == crate::binding::BindingState::Bound(mailbox)
                &&& guard.mailbox.identity() == mailbox.identity()
                &&& guard.restart_policy == policy
                &&& guard.monitor_lease.epoch == after.outbound_monitors.epoch
            }
            &&& in_order && open ==> after.latest_bind_run == Some(run.run_id)
            &&& in_order && open && !admitted ==> after.current is Terminated
            &&& !(in_order && open) ==> after.current == core.current && after.latest_bind_run
                == core.latest_bind_run && after.monitors == core.monitors
                && after.outbound_monitors == core.outbound_monitors
            &&& after.counters == core.counters && after.size_hint == core.size_hint
                && after.identity == core.identity && after.actor_id == core.actor_id
        }),
{
}

/// A run that gets the slot is booked as the newest one under the next
/// generation, and the watches of an ongoing membership hear that it started. A
/// run that starts the next membership watches nobody yet.
pub proof fn law_started_runs_are_booked<M>(
    core: BindingCore<M>,
    mailbox: MailboxRef<M>,
    run: MonitorRun,
    policy: RestartPolicy,
    guard: Option<BindingGuard<M>>,
    after: BindingCore<M>,
    i: int,
)
    requires
        BindingGuard::taken(core, mailbox, run, policy, guard, after),
        guard is Some,
        core.monitors@.next_generation < u64::MAX,
        core.monitors@.epoch < u64::MAX,
        0 <= i < core.monitors@.watches.len(),
        hears(core.monitors@.watches[i], core.monitors@.epoch),
        core.monitors@.watches[i].min_generation <= core.monitors@.next_generation,
    ensures
        run.reopens_epoch == Some(core.monitors@.epoch) ==> after.outbound_monitors.epoch
            == core.outbound_monitors.epoch + 1 && after.outbound_monitors.watches@.len() == 0
            && !after.outbound_monitors.terminated,
        run.reopens_epoch != Some(core.monitors@.epoch) ==> after.outbound_monitors
            == core.outbound_monitors,
        after.monitors@.runs.dom().contains(run.run_id),
        after.monitors@.runs[run.run_id].generation == core.monitors@.next_generation,
        after.monitors@.lifecycle == (crate::hub::Lifecycle::Running {
            run_id: run.run_id,
            generation: core.monitors@.next_generation,
        }),
        after.monitors@.next_generation == core.monitors@.next_generation + 1,
        run.reopens_epoch is None ==> after.monitors@.epoch == core.monitors@.epoch && told(
            core.monitors@.watches[i],
            after.monitors@.watches[i],
            seq![
                MonitorEvent::Started {
                    actor_id: core.monitors@.actor_id,
                    generation: core.monitors@.next_generation,
                },
            ],
        ),
{
    crate::hub_reports::law_admission(core.monitors@, run);
    crate::hub_reports::law_starts_are_booked(core.monitors@, run);
    if run.reopens_epoch is None {
        crate::hub_reports::law_watches_hear_the_start(core.monitors@, run, i);
    }
}

/// Every exit but a returned success counts as a failure; only a graceful
/// shutdown has a cooperative phase, of the length it says.
pub proof fn law_exits_and_phases(status: ExitStatus, shutdown: Shutdown)
    ensures
        status.failed() <==> status is Failed || status is Panicked || status is Aborted,
        shutdown.phase() is None <==> shutdown is Abort,
        shutdown matches Shutdown::Graceful { grace } ==> shutdown.phase() == Some(grace),
{
}

/// Only a failed exit is an error, and it hands on its own.
pub proof fn law_exits_as_results(exit: IncarnationExit)
    ensures
        exit.outcome() is Err <==> exit is Failed,
        exit matches IncarnationExit::Failed(error) ==> exit.outcome() == Err::<(), ActorRunError>(
            error,
        ),
{
}

/// A host of its own restarts its actor after every exit, drains it exactly where
/// that was asked for, and does not take a dropped run for a cancelled one.
pub proof fn law_hosts_restart_their_actor(host: ActorHost, control: IncarnationControl)
    requires
        host.controls(control),
    ensures
        comes_back(control.restart, true) && comes_back(control.restart, false),
        control.drain_messages <==> host.mailbox_shutdown is Drain,
        !control.dropped_is_cancelled,
{
}

} // verus!
