//! Hosting of actor incarnations: exits, their reports, and the decisions of
//! the task that runs an incarnation.
use vstd::prelude::*;

use crate::binding::{BindingCore, BindingGuard, BindingView};
use crate::channel::MailboxRef;
use crate::error::quote;
use crate::hub::{MonitorHub, MonitorRun};
use crate::mailbox::MailboxKind;
use crate::policy::{ExitStatus, MailboxShutdown, RestartPolicy, Shutdown};

verus! {

/// Mailbox capacity of an actor whose declaration and scope ask for none.
pub const DEFAULT_MAILBOX_CAPACITY: usize = 64;

/// Shutdown bound for a standalone host without a deadline of its own: the
/// grace of the default shutdown policy.
pub const DEFAULT_SHUTDOWN_BOUND: u64 = crate::policy::DEFAULT_GRACE;

/// What is needed to run an actor.
#[derive(Debug, PartialEq, Eq)]
pub struct RunnableActor {
    /// Label of the actor.
    pub label: String,
    /// Identity of the binding.
    pub identity: u64,
    /// Mailbox storage policy.
    pub mailbox_kind: MailboxKind,
    /// Mailbox capacity.
    pub mailbox_capacity: usize,
    /// Whether an incarnation is running.
    pub running: bool,
}

impl Clone for RunnableActor {
    fn clone(&self) -> (actor: Self)
        ensures
            actor == *self,
    {
        RunnableActor {
            label: self.label.clone(),
            identity: self.identity,
            mailbox_kind: self.mailbox_kind,
            mailbox_capacity: self.mailbox_capacity,
            running: self.running,
        }
    }
}

impl RunnableActor {
    /// Returns the actor label.
    pub fn label(&self) -> (label: &String)
        ensures
            *label == self.label,
    {
        &self.label
    }

    /// Names the actor for debugging.
    pub fn to_debug_string(&self) -> (text: String)
        ensures
            text@ == crate::error::opaque_text("RunnableActor"@, "label"@, self.label@),
    {
        crate::error::opaque_string("RunnableActor", "label", &self.label)
    }

    /// Marks an incarnation as running. Incarnations of one actor never run
    /// concurrently.
    pub fn start_run(&mut self)
        requires
            !old(self).running,
        ensures
            *final(self) == (RunnableActor { running: true, ..*old(self) }),
    {
        self.running = true;
    }

    /// Marks the running incarnation as over.
    pub fn end_run(&mut self)
        ensures
            *final(self) == (RunnableActor { running: false, ..*old(self) }),
    {
        self.running = false;
    }
}

/// Builds runnable actors with the defaults of a scope.
#[derive(Clone, Copy, Debug, PartialEq, Eq, Structural)]
pub struct RunnableActorBuilder {
    /// Capacity of mailboxes that ask for none.
    pub mailbox_capacity: usize,
}

impl RunnableActorBuilder {
    /// Standard defaults.
    pub fn new() -> (builder: Self)
        ensures
            builder.mailbox_capacity == DEFAULT_MAILBOX_CAPACITY,
    {
        RunnableActorBuilder { mailbox_capacity: DEFAULT_MAILBOX_CAPACITY }
    }

    /// Defaults with another mailbox capacity.
    pub fn with_mailbox_capacity(mailbox_capacity: usize) -> (builder: Self)
        ensures
            builder.mailbox_capacity == mailbox_capacity,
    {
        RunnableActorBuilder { mailbox_capacity }
    }

    /// The runnable actor of a declaration.
    pub open spec fn built(&self, deferred: crate::builder::DeferredActor) -> RunnableActor {
        RunnableActor {
            label: deferred.actor_id,
            identity: deferred.identity,
            mailbox_kind: deferred.mailbox_kind,
            mailbox_capacity: match deferred.own_capacity {
                Some(capacity) => capacity,
                None => self.mailbox_capacity,
            },
            running: false,
        }
    }

    /// Makes an actor runnable. Its own capacity wins over the default.
    pub fn actor_from_parts(
        &self,
        actor_id: String,
        identity: u64,
        mailbox_kind: MailboxKind,
        own_capacity: Option<usize>,
    ) -> (actor: RunnableActor)
        ensures
            actor.label == actor_id,
            actor.identity == identity,
            actor.mailbox_kind == mailbox_kind,
            actor.mailbox_capacity == match own_capacity {
                Some(capacity) => capacity,
                None => self.mailbox_capacity,
            },
            !actor.running,
            actor == self.built(
                crate::builder::DeferredActor { actor_id, identity, mailbox_kind, own_capacity },
            ),
    {
        let mailbox_capacity = match own_capacity {
            Some(capacity) => capacity,
            None => self.mailbox_capacity,
        };
        RunnableActor { label: actor_id, identity, mailbox_kind, mailbox_capacity, running: false }
    }
}

impl Default for RunnableActorBuilder {
    fn default() -> (builder: Self)
        ensures
            builder.mailbox_capacity == DEFAULT_MAILBOX_CAPACITY,
    {
        RunnableActorBuilder::new()
    }
}

/// Text that `Debug` of std writes for a duration of so many nanoseconds.
pub uninterp spec fn duration_text(nanos: u64) -> Seq<char>;

/// `<std::time::Duration as core::fmt::Debug>::fmt`, through `format!`: the
/// result is a function of the duration alone.
#[verifier::external_body]
pub(crate) fn duration_string(nanos: u64) -> (text: String)
    ensures
        text@ == duration_text(nanos),
{
    format!("{:?}", std::time::Duration::from_nanos(nanos))
}

/// Errors of an actor incarnation.
#[derive(Debug, PartialEq, Eq)]
pub enum ActorRunError {
    /// The actor returned an error.
    Failed {
        /// Stable id of the actor that failed.
        actor_id: String,
        /// Text of the error returned by the actor.
        source: String,
    },
    /// The actor did not report manual startup readiness within its declared
    /// bound.
    ReadinessTimedOut {
        /// Stable id of the actor that missed its readiness deadline.
        actor_id: String,
        /// Declared bound, in nanoseconds.
        timeout: u64,
    },
    /// The actor did not finish its drain and stop hooks within the host's
    /// shutdown bound.
    ShutdownTimedOut {
        /// Stable id of the actor whose shutdown timed out.
        actor_id: String,
    },
    /// The declaration carries a zero mailbox capacity.
    ZeroMailboxCapacity {
        /// Stable id of the actor whose declaration is invalid.
        actor_id: String,
    },
}

/// Text of a failed incarnation.
pub open spec fn run_error_text(error: ActorRunError) -> Seq<char> {
    match error {
        ActorRunError::Failed { actor_id, .. } => crate::error::quoted(
            "actor `"@,
            actor_id@,
            "` returned an error"@,
        ),
        ActorRunError::ReadinessTimedOut { actor_id, timeout } => crate::error::quoted(
            "actor `"@,
            actor_id@,
            "` did not report readiness within "@,
        ) + duration_text(timeout),
        ActorRunError::ShutdownTimedOut { actor_id } => crate::error::quoted(
            "actor `"@,
            actor_id@,
            "` shutdown timed out"@,
        ),
        ActorRunError::ZeroMailboxCapacity { actor_id } => crate::error::quoted(
            "actor `"@,
            actor_id@,
            "` has a zero mailbox capacity"@,
        ),
    }
}

impl ActorRunError {
    /// Describes the failure.
    pub fn to_string(&self) -> (text: String)
        ensures
            text@ == run_error_text(*self),
    {
        match self {
            ActorRunError::Failed { actor_id, .. } => quote(
                "actor `",
                actor_id,
                "` returned an error",
            ),
            ActorRunError::ReadinessTimedOut { actor_id, timeout } => {
                let mut text = quote("actor `", actor_id, "` did not report readiness within ");
                let bound = duration_string(*timeout);
                text.append(bound.as_str());
                text
            },
            ActorRunError::ShutdownTimedOut { actor_id } => quote(
                "actor `",
                actor_id,
                "` shutdown timed out",
            ),
            ActorRunError::ZeroMailboxCapacity { actor_id } => quote(
                "actor `",
                actor_id,
                "` has a zero mailbox capacity",
            ),
        }
    }
}

/// The result of one directly hosted actor incarnation.
#[derive(Debug, PartialEq, Eq)]
pub enum IncarnationExit {
    /// The actor stopped without an error or a shutdown request.
    Stopped,
    /// The actor incarnation failed.
    Failed(ActorRunError),
    /// Shutdown was requested and the actor stopped cleanly.
    ShutdownRequested,
}

impl IncarnationExit {
    /// Reports whether the incarnation failed.
    pub fn is_failure(&self) -> (failure: bool)
        ensures
            failure == (*self is Failed),
    {
        matches!(self, IncarnationExit::Failed(_))
    }

    /// Reports whether shutdown had been requested before the actor stopped.
    pub fn is_shutdown_requested(&self) -> (requested: bool)
        ensures
            requested == (*self is ShutdownRequested),
    {
        matches!(self, IncarnationExit::ShutdownRequested)
    }

    /// What the exit is as a result.
    pub open spec fn outcome(self) -> Result<(), ActorRunError> {
        match self {
            IncarnationExit::Failed(error) => Err::<(), ActorRunError>(error),
            _ => Ok(()),
        }
    }

    /// Converts this exit into a result, discarding the distinction between a
    /// clean stop and a requested shutdown.
    pub fn into_result(self) -> (result: Result<(), ActorRunError>)
        ensures
            result == self.outcome(),
    {
        match self {
            IncarnationExit::Stopped => Ok(()),
            IncarnationExit::ShutdownRequested => Ok(()),
            IncarnationExit::Failed(error) => Err(error),
        }
    }
}

/// What becomes of a binding after a run.
#[derive(Clone, Copy, Debug, PartialEq, Eq, Structural)]
pub enum RunDisposition {
    /// Another incarnation will bind.
    ExpectRebind,
    /// No incarnation will follow.
    Terminate,
}

/// What becomes of a binding after `exit` under `policy`.
pub open spec fn disposition(policy: RestartPolicy, exit: IncarnationExit) -> RunDisposition {
    if exit is ShutdownRequested || !policy.restarts(exit is Failed) {
        RunDisposition::Terminate
    } else {
        RunDisposition::ExpectRebind
    }
}

/// Decides what becomes of the binding: a requested shutdown is final, and
/// otherwise the restart policy decides from the exit.
pub fn run_disposition(policy: RestartPolicy, exit: &IncarnationExit) -> (result: RunDisposition)
    ensures
        result == disposition(policy, *exit),
{
    if exit.is_shutdown_requested() {
        return RunDisposition::Terminate;
    }
    if policy.should_restart(exit.is_failure()) {
        RunDisposition::ExpectRebind
    } else {
        RunDisposition::Terminate
    }
}

/// The binding after a run.
pub open spec fn disposes<M>(
    core: BindingCore<M>,
    disposition: RunDisposition,
    after: BindingCore<M>,
) -> bool {
    &&& after.wf()
    &&& after.same_slot(&core)
    &&& after.latest_bind_run == core.latest_bind_run
    &&& match disposition {
        RunDisposition::ExpectRebind => {
            &&& after.current@ == if core.current@ is Bound {
                BindingView::Unbound
            } else {
                core.current@
            }
            &&& after.monitors == core.monitors
            &&& after.outbound_monitors == core.outbound_monitors
        },
        RunDisposition::Terminate => {
            &&& after.current@ is Terminated
            &&& after.monitors@ == core.monitors@.after_removed(
                core.monitors@.epoch,
            )
            &&& after.outbound_monitors == (crate::registry::ActorMonitors {
                terminated: true,
                ..core.outbound_monitors
            })
        },
    }
}

/// Applies a disposition to the binding.
pub fn apply_run_disposition<M>(core: &mut BindingCore<M>, disposition: RunDisposition)
    requires
        old(core).wf(),
    ensures
        disposes(*old(core), disposition, *final(core)),
{
    match disposition {
        RunDisposition::ExpectRebind => {
            let _changed = core.unbind();
        },
        RunDisposition::Terminate => core.terminate(),
    }
}

/// Reports the exit of one run to its hub, once.
pub struct ActorExitReporter {
    /// The run.
    pub run: MonitorRun,
    /// Status reported when the task disappears without a result.
    pub fallback: ExitStatus,
    /// Whether a stop has been requested.
    pub shutdown_requested: bool,
    /// Whether the exit has been reported.
    pub reported: bool,
}

impl ActorExitReporter {
    /// The fallback is always an abort.
    pub open spec fn wf(&self) -> bool {
        self.fallback is Aborted
    }

    /// Creates the reporter of `run`.
    pub fn new(run: MonitorRun, dropped_is_cancelled: bool) -> (reporter: Self)
        ensures
            reporter.wf(),
            reporter.run == run,
            reporter.fallback == (ExitStatus::Aborted {
                after_grace: false,
                cancelled: dropped_is_cancelled,
            }),
            !reporter.shutdown_requested,
            !reporter.reported,
    {
        ActorExitReporter {
            run,
            fallback: ExitStatus::Aborted { after_grace: false, cancelled: dropped_is_cancelled },
            shutdown_requested: false,
            reported: false,
        }
    }

    /// The reporter once a shutdown was requested.
    pub open spec fn stops(&self, after: Self) -> bool {
        &&& after.wf()
        &&& after == if self.reported {
            *self
        } else {
            ActorExitReporter {
                shutdown_requested: true,
                fallback: ExitStatus::Aborted {
                    after_grace: self.fallback->after_grace,
                    cancelled: true,
                },
                ..*self
            }
        }
    }

    /// Records that a stop was requested, unless the exit has been reported.
    pub fn shutdown_requested(&mut self)
        requires
            old(self).wf(),
        ensures
            old(self).stops(*final(self)),
    {
        if !self.reported {
            self.shutdown_requested = true;
            if let ExitStatus::Aborted { after_grace, .. } = &self.fallback {
                self.fallback = ExitStatus::Aborted { after_grace: *after_grace, cancelled: true };
            }
        }
    }

    /// The reporter once the run is aborted.
    pub open spec fn aborts(&self, after_grace: bool, after: Self) -> bool {
        &&& after.wf()
        &&& after == if self.reported {
            *self
        } else {
            ActorExitReporter {
                shutdown_requested: true,
                fallback: ExitStatus::Aborted { after_grace, cancelled: true },
                ..*self
            }
        }
    }

    /// Records that the run was aborted, unless the exit has been reported.
    pub fn aborted(&mut self, after_grace: bool)
        requires
            old(self).wf(),
        ensures
            old(self).aborts(after_grace, *final(self)),
    {
        if !self.reported {
            self.shutdown_requested = true;
            self.fallback = ExitStatus::Aborted { after_grace, cancelled: true };
        }
    }

    /// Claims the report. `Some` tells whether a stop had been requested.
    fn claim(&mut self) -> (claimed: Option<bool>)
        ensures
            *final(self) == (ActorExitReporter { reported: true, ..*old(self) }),
            claimed == if old(self).reported {
                None
            } else {
                Some(old(self).shutdown_requested)
            },
    {
        if self.reported {
            return None;
        }
        self.reported = true;
        Some(self.shutdown_requested)
    }

    /// What the report of a result comes to.
    pub open spec fn reports_result(
        &self,
        hub: crate::hub::HubView,
        failure: Option<String>,
        after: Self,
        hub_after: crate::hub::HubView,
    ) -> bool {
        &&& after.wf()
        &&& after == (ActorExitReporter { reported: true, ..*self })
        &&& hub_after == if self.reported {
            hub
        } else {
            hub.after_exit(
                self.run.run_id,
                match failure {
                    Some(message) => ExitStatus::Failed {
                        message,
                        cancelled: self.shutdown_requested,
                    },
                    None => ExitStatus::Completed { cancelled: self.shutdown_requested },
                },
            )
        }
    }

    /// Reports a returned result. `failure` is the text of a returned error.
    pub fn report_result(&mut self, hub: &mut MonitorHub, failure: Option<String>)
        requires
            old(self).wf(),
            old(hub).wf(),
        ensures
            final(hub).wf(),
            old(self).reports_result(old(hub)@, failure, *final(self), final(hub)@),
    {
        if let Some(cancelled) = self.claim() {
            let status = match failure {
                Some(message) => ExitStatus::Failed { message, cancelled },
                None => ExitStatus::Completed { cancelled },
            };
            hub.exited(&self.run, status);
        }
    }

    /// What the report of a panic comes to.
    pub open spec fn reports_panic(
        &self,
        hub: crate::hub::HubView,
        after: Self,
        hub_after: crate::hub::HubView,
    ) -> bool {
        &&& after.wf()
        &&& after == (ActorExitReporter { reported: true, ..*self })
        &&& hub_after == if self.reported {
            hub
        } else {
            hub.after_exit(
                self.run.run_id,
                ExitStatus::Panicked { cancelled: self.shutdown_requested },
            )
        }
    }

    /// Reports a panic.
    pub fn report_panicked(&mut self, hub: &mut MonitorHub)
        requires
            old(self).wf(),
            old(hub).wf(),
        ensures
            final(hub).wf(),
            old(self).reports_panic(old(hub)@, *final(self), final(hub)@),
    {
        if let Some(cancelled) = self.claim() {
            hub.exited(&self.run, ExitStatus::Panicked { cancelled });
        }
    }

    /// What the report of a dropped run comes to.
    pub open spec fn reports_fallback(
        &self,
        hub: crate::hub::HubView,
        after: Self,
        hub_after: crate::hub::HubView,
    ) -> bool {
        &&& after.wf()
        &&& after == (ActorExitReporter { reported: true, ..*self })
        &&& hub_after == if self.reported {
            hub
        } else {
            hub.after_exit(self.run.run_id, self.fallback)
        }
    }

    /// Reports that the task disappeared without a result.
    pub fn report_fallback(&mut self, hub: &mut MonitorHub)
        requires
            old(self).wf(),
            old(hub).wf(),
        ensures
            final(hub).wf(),
            old(self).reports_fallback(old(hub)@, *final(self), final(hub)@),
    {
        if self.claim().is_some() {
            hub.exited(&self.run, self.fallback.clone());
        }
    }
}

/// How one incarnation is run.
#[derive(Clone, Copy, Debug, PartialEq, Eq, Structural)]
pub struct IncarnationControl {
    /// Restart policy of the actor.
    pub restart: RestartPolicy,
    /// Whether queued messages are handled before a stop.
    pub drain_messages: bool,
    /// Whether a dropped task counts as cancelled.
    pub dropped_is_cancelled: bool,
}

/// What the task that runs an incarnation has seen.
#[derive(Clone, Copy, Debug, PartialEq, Eq, Structural)]
pub struct Observed {
    /// Resolution of the readiness signal: whether the actor reported ready.
    pub ready: Option<bool>,
    /// Resolution of the abort signal: whether a grace had run out.
    pub abort: Option<bool>,
    /// Whether the actor task is over.
    pub joined: bool,
    /// Whether shutdown is requested.
    pub shutdown: bool,
}

/// What the task that runs an incarnation does next.
#[derive(Clone, Copy, Debug, PartialEq, Eq, Structural)]
pub enum IncarnationStep {
    /// Wait for something new.
    Wait,
    /// Report readiness.
    ReportReady,
    /// The actor gave up its readiness signal.
    ReadinessDropped,
    /// Request a stop and abort the actor task.
    Abort,
    /// Take the result of the actor task.
    Join,
    /// Request a cooperative stop.
    Stop,
}

/// How the actor task ended.
#[derive(Debug, PartialEq, Eq)]
pub enum JoinOutcome {
    /// It returned success.
    Completed,
    /// It returned an error.
    Failed {
        /// Text of the error.
        source: String,
    },
    /// It missed its manual readiness deadline.
    ReadinessTimedOut {
        /// Declared bound, in nanoseconds.
        timeout: u64,
    },
    /// It panicked.
    Panicked,
    /// It was cancelled.
    Cancelled,
}

/// Status of an exited incarnation for telemetry.
#[derive(Clone, Copy, Debug, PartialEq, Eq, Structural)]
pub enum ActorExitStatus {
    /// Clean stop.
    Stopped,
    /// Clean stop after a shutdown request.
    Shutdown,
    /// Error.
    Failed,
    /// Panic.
    Panicked,
    /// Shutdown bound exceeded.
    ShutdownTimedOut,
    /// Cancelled.
    Cancelled,
}

/// One running incarnation, from the start of its task to its exit.
pub struct Incarnation {
    /// Id of the actor.
    pub actor_id: String,
    /// Reporter of its exit.
    pub reporter: ActorExitReporter,
    /// Whether readiness is still awaited.
    pub ready_pending: bool,
    /// Whether a stop has been requested.
    pub shutdown_requested: bool,
    /// Whether the task has been aborted.
    pub shutdown_timed_out: bool,
}

impl Incarnation {
    /// An aborted incarnation had been asked to stop.
    pub open spec fn wf(&self) -> bool {
        self.reporter.wf() && (self.shutdown_timed_out ==> self.shutdown_requested)
    }

    /// How an incarnation of `actor` begins.
    pub open spec fn begins(
        actor: RunnableActor,
        run: MonitorRun,
        control: IncarnationControl,
        begun: Result<Incarnation, IncarnationExit>,
        actor_after: RunnableActor,
    ) -> bool {
        match begun {
            Ok(incarnation) => {
                &&& actor.mailbox_capacity != 0
                &&& actor_after == (RunnableActor { running: true, ..actor })
                &&& incarnation.wf()
                &&& incarnation.actor_id == actor.label
                &&& incarnation.reporter.run == run
                &&& incarnation.reporter.fallback == (ExitStatus::Aborted {
                    after_grace: false,
                    cancelled: control.dropped_is_cancelled,
                })
                &&& incarnation.ready_pending
                &&& !incarnation.reporter.reported
                &&& !incarnation.shutdown_requested
                &&& !incarnation.shutdown_timed_out
            },
            Err(exit) => {
                &&& actor.mailbox_capacity == 0
                &&& actor_after == actor
                &&& exit == IncarnationExit::Failed(
                    ActorRunError::ZeroMailboxCapacity { actor_id: actor.label },
                )
            },
        }
    }

    /// Starts an incarnation of `actor`, or refuses a declaration with a zero
    /// mailbox capacity.
    pub fn begin(actor: &mut RunnableActor, run: MonitorRun, control: IncarnationControl) -> (begun:
        Result<Incarnation, IncarnationExit>)
        requires
            old(actor).mailbox_capacity != 0 ==> !old(actor).running,
        ensures
            Incarnation::begins(*old(actor), run, control, begun, *final(actor)),
    {
        if actor.mailbox_capacity == 0 {
            return Err(
                IncarnationExit::Failed(
                    ActorRunError::ZeroMailboxCapacity { actor_id: actor.label.clone() },
                ),
            );
        }
        actor.start_run();
        Ok(
            Incarnation {
                actor_id: actor.label.clone(),
                reporter: ActorExitReporter::new(run, control.dropped_is_cancelled),
                ready_pending: true,
                shutdown_requested: false,
                shutdown_timed_out: false,
            },
        )
    }

    /// The step that `observed` calls for: readiness first, then an abort,
    /// then the end of the task, then a shutdown request. Each of readiness,
    /// abort and shutdown is taken once.
    pub open spec fn next_step(&self, observed: Observed) -> IncarnationStep {
        if self.ready_pending && observed.ready is Some {
            if observed.ready == Some(true) {
                IncarnationStep::ReportReady
            } else {
                IncarnationStep::ReadinessDropped
            }
        } else if !self.shutdown_timed_out && observed.abort is Some {
            IncarnationStep::Abort
        } else if observed.joined {
            IncarnationStep::Join
        } else if !self.shutdown_requested && observed.shutdown {
            IncarnationStep::Stop
        } else {
            IncarnationStep::Wait
        }
    }

    /// What a turn on what has been observed comes to.
    pub open spec fn turns(&self, observed: Observed, step: IncarnationStep, after: Self) -> bool {
        &&& after.wf()
        &&& step == self.next_step(observed)
        &&& after.actor_id == self.actor_id
        &&& after.reporter.run == self.reporter.run
        &&& after.reporter.reported == self.reporter.reported
        &&& after.ready_pending == (self.ready_pending && !(step is ReportReady)
            && !(step is ReadinessDropped))
        &&& after.shutdown_requested == (self.shutdown_requested || step is Abort
            || step is Stop)
        &&& after.shutdown_timed_out == (self.shutdown_timed_out || step is Abort)
        &&& !(step is Abort) && !(step is Stop) ==> after.reporter == self.reporter
        &&& step is Abort && !self.reporter.reported ==> after.reporter.fallback == (
        ExitStatus::Aborted { after_grace: observed.abort->0, cancelled: true })
            && after.reporter.shutdown_requested
        &&& step is Stop && !self.reporter.reported ==> after.reporter.fallback == (
        ExitStatus::Aborted {
            after_grace: self.reporter.fallback->after_grace,
            cancelled: true,
        }) && after.reporter.shutdown_requested
    }

    /// Takes one turn on what has been observed.
    pub fn turn(&mut self, observed: Observed) -> (step: IncarnationStep)
        requires
            old(self).wf(),
        ensures
            old(self).turns(observed, step, *final(self)),
    {
        if self.ready_pending {
            if let Some(ready) = observed.ready {
                self.ready_pending = false;
                return if ready {
                    IncarnationStep::ReportReady
                } else {
                    IncarnationStep::ReadinessDropped
                };
            }
        }
        if !self.shutdown_timed_out {
            if let Some(after_grace) = observed.abort {
                self.reporter.aborted(after_grace);
                self.shutdown_requested = true;
                self.shutdown_timed_out = true;
                return IncarnationStep::Abort;
            }
        }
        if observed.joined {
            return IncarnationStep::Join;
        }
        if !self.shutdown_requested && observed.shutdown {
            self.reporter.shutdown_requested();
            self.shutdown_requested = true;
            return IncarnationStep::Stop;
        }
        IncarnationStep::Wait
    }

    /// How the incarnation exits once its task has been joined.
    pub open spec fn finishes(
        &self,
        joined: JoinOutcome,
        finished: (Option<IncarnationExit>, ActorExitStatus),
    ) -> bool {
        match joined {
            JoinOutcome::Completed => finished == if self.shutdown_requested {
                (Some(IncarnationExit::ShutdownRequested), ActorExitStatus::Shutdown)
            } else {
                (Some(IncarnationExit::Stopped), ActorExitStatus::Stopped)
            },
            JoinOutcome::Failed { source } => finished == (
                Some(
                    IncarnationExit::Failed(
                        ActorRunError::Failed { actor_id: self.actor_id, source },
                    ),
                ),
                ActorExitStatus::Failed,
            ),
            JoinOutcome::ReadinessTimedOut { timeout } => finished == (
                Some(
                    IncarnationExit::Failed(
                        ActorRunError::ReadinessTimedOut { actor_id: self.actor_id, timeout },
                    ),
                ),
                ActorExitStatus::Failed,
            ),
            JoinOutcome::Panicked => finished == (
                None::<IncarnationExit>,
                ActorExitStatus::Panicked,
            ),
            JoinOutcome::Cancelled => if self.shutdown_timed_out {
                finished == (
                    Some(
                        IncarnationExit::Failed(
                            ActorRunError::ShutdownTimedOut { actor_id: self.actor_id },
                        ),
                    ),
                    ActorExitStatus::ShutdownTimedOut,
                )
            } else {
                &&& finished.1 == ActorExitStatus::Cancelled
                &&& finished.0 matches Some(
                    IncarnationExit::Failed(ActorRunError::Failed { actor_id, source }),
                )
                &&& actor_id == self.actor_id
                &&& source@ == crate::error::quoted(
                    "actor `"@,
                    self.actor_id@,
                    "` task was cancelled"@,
                )
            },
        }
    }

    /// Classifies the end of the actor task. `None` resumes its panic.
    pub fn finish(&self, joined: JoinOutcome) -> (finished: (
        Option<IncarnationExit>,
        ActorExitStatus,
    ))
        requires
            self.wf(),
        ensures
            self.finishes(joined, finished),
    {
        let actor_id = self.actor_id.clone();
        match joined {
            JoinOutcome::Completed => if self.shutdown_requested {
                (Some(IncarnationExit::ShutdownRequested), ActorExitStatus::Shutdown)
            } else {
                (Some(IncarnationExit::Stopped), ActorExitStatus::Stopped)
            },
            JoinOutcome::Failed { source } => (
                Some(IncarnationExit::Failed(ActorRunError::Failed { actor_id, source })),
                ActorExitStatus::Failed,
            ),
            JoinOutcome::ReadinessTimedOut { timeout } => (
                Some(
                    IncarnationExit::Failed(
                        ActorRunError::ReadinessTimedOut { actor_id, timeout },
                    ),
                ),
                ActorExitStatus::Failed,
            ),
            JoinOutcome::Panicked => (None, ActorExitStatus::Panicked),
            JoinOutcome::Cancelled => if self.shutdown_timed_out {
                (
                    Some(IncarnationExit::Failed(ActorRunError::ShutdownTimedOut { actor_id })),
                    ActorExitStatus::ShutdownTimedOut,
                )
            } else {
                let source = quote("actor `", &self.actor_id, "` task was cancelled");
                (
                    Some(IncarnationExit::Failed(ActorRunError::Failed { actor_id, source })),
                    ActorExitStatus::Cancelled,
                )
            },
        }
    }
}

/// Readiness signal of one incarnation.
#[derive(Clone, Copy, Debug, PartialEq, Eq, Structural)]
pub struct ActorReadySignal {
    /// Whether the actor reports readiness itself.
    pub manual: bool,
    /// Whether readiness has been reported.
    pub reported: bool,
}

impl ActorReadySignal {
    /// Creates a signal that has not been given.
    pub fn new(manual: bool) -> (signal: Self)
        ensures
            signal == (ActorReadySignal { manual, reported: false }),
    {
        ActorReadySignal { manual, reported: false }
    }

    /// Readiness is reported, and `first` tells whether for the first time.
    pub open spec fn marks(&self, first: bool, after: Self) -> bool {
        &&& first == !self.reported
        &&& after == (ActorReadySignal { reported: true, ..*self })
    }

    /// Reports readiness. `true` asks the caller to pass it on, which happens
    /// once.
    pub fn mark(&mut self) -> (first: bool)
        ensures
            old(self).marks(first, *final(self)),
    {
        let first = !self.reported;
        self.reported = true;
        first
    }

    /// Readiness is reported unless the actor does so itself.
    pub open spec fn marks_at_once(&self, first: bool, after: Self) -> bool {
        &&& first == (!self.manual && !self.reported)
        &&& after == (ActorReadySignal {
            reported: self.reported || !self.manual,
            ..*self
        })
    }

    /// Reports readiness of an actor that does not do so itself, once it has
    /// been polled.
    pub fn mark_immediate(&mut self) -> (first: bool)
        ensures
            old(self).marks_at_once(first, *final(self)),
    {
        if self.manual {
            false
        } else {
            self.mark()
        }
    }
}

/// Describes a missed manual readiness deadline, as the exit of the run reports
/// it.
pub fn readiness_failure(timeout: u64) -> (text: String)
    ensures
        text@ == "manual readiness timed out after "@ + duration_text(timeout),
{
    let mut text = "manual readiness timed out after ".to_owned();
    let bound = duration_string(timeout);
    text.append(bound.as_str());
    text
}

/// What the runner of an incarnation does next.
#[derive(Clone, Copy, Debug, PartialEq, Eq, Structural)]
pub enum RunnerStep {
    /// Return the result of the actor.
    Return,
    /// Readiness is settled: wait for the result alone.
    AwaitResult,
    /// Fail: the readiness deadline was missed.
    ReadinessTimedOut(u64),
    /// Wait for something new.
    Wait,
}

/// What a turn of the runner calls for.
pub open spec fn runner_turn(
    manual_readiness: Option<u64>,
    returned: bool,
    ready: bool,
    shutdown: bool,
    elapsed: bool,
) -> RunnerStep {
    if returned {
        RunnerStep::Return
    } else {
        match manual_readiness {
            None => RunnerStep::AwaitResult,
            Some(timeout) => if ready || shutdown {
                RunnerStep::AwaitResult
            } else if elapsed {
                RunnerStep::ReadinessTimedOut(timeout)
            } else {
                RunnerStep::Wait
            },
        }
    }
}

/// Decides a turn of the runner. A returned result comes first, then
/// readiness or a requested shutdown, then the manual readiness deadline.
///
/// Readiness wins when both are observable, and a shutdown request disarms the
/// deadline, so that the actor keeps its cooperative grace.
pub fn runner_step(
    manual_readiness: Option<u64>,
    returned: bool,
    ready: bool,
    shutdown: bool,
    elapsed: bool,
) -> (step: RunnerStep)
    ensures
        step == runner_turn(manual_readiness, returned, ready, shutdown, elapsed),
{
    if returned {
        return RunnerStep::Return;
    }
    match manual_readiness {
        None => RunnerStep::AwaitResult,
        Some(timeout) => if ready || shutdown {
            RunnerStep::AwaitResult
        } else if elapsed {
            RunnerStep::ReadinessTimedOut(timeout)
        } else {
            RunnerStep::Wait
        },
    }
}

/// Binds a fresh mailbox for a run, before the actor is constructed, so that a
/// constructor panic is monitored like any other. `None` means that the run
/// was superseded: its task returns success without running the actor.
pub fn start_runner<M>(
    core: &mut BindingCore<M>,
    mailbox: MailboxRef<M>,
    reporter: &ActorExitReporter,
    restart_policy: RestartPolicy,
) -> (guard: Option<BindingGuard<M>>)
    requires
        old(core).wf(),
        mailbox.actor_id@ == old(core).actor_id@,
        old(core).monitors@.admits(reporter.run.reopens_epoch) == Some(true) ==> old(core).monitors@.epoch
            < u64::MAX && old(core).outbound_monitors.epoch < u64::MAX,
    ensures
        BindingGuard::taken(
            *old(core),
            mailbox,
            reporter.run,
            restart_policy,
            guard,
            *final(core),
        ),
{
    BindingGuard::bind(core, mailbox, &reporter.run, restart_policy)
}

/// An owning host for directly running one actor declaration.
///
/// The host keeps the actor's stable binding across incarnations.
pub struct ActorHost {
    /// The actor.
    pub actor: RunnableActor,
    /// What happens to queued messages.
    pub mailbox_shutdown: MailboxShutdown,
}

impl ActorHost {
    /// Hosts `actor`.
    pub fn new(actor: RunnableActor, mailbox_shutdown: MailboxShutdown) -> (host: Self)
        ensures
            host.actor == actor,
            host.mailbox_shutdown == mailbox_shutdown,
    {
        ActorHost { actor, mailbox_shutdown }
    }

    /// Returns the actor label.
    pub fn label(&self) -> (label: &String)
        ensures
            *label == self.actor.label,
    {
        self.actor.label()
    }

    /// Names the actor for debugging.
    pub fn to_debug_string(&self) -> (text: String)
        ensures
            text@ == crate::error::opaque_text("ActorHost"@, "label"@, self.actor.label@),
    {
        crate::error::opaque_string("ActorHost", "label", &self.actor.label)
    }

    /// How incarnations of this host are controlled.
    pub open spec fn controls(&self, control: IncarnationControl) -> bool {
        &&& control.restart.mode == crate::policy::RestartMode::Always
        &&& control.drain_messages == (self.mailbox_shutdown == MailboxShutdown::Drain)
        &&& !control.dropped_is_cancelled
    }

    /// Returns how the host runs an incarnation: the binding stays ready for
    /// another one, and a dropped run was not asked to stop.
    pub fn control(&self) -> (control: IncarnationControl)
        ensures
            self.controls(control),
    {
        IncarnationControl {
            restart: RestartPolicy::always(),
            drain_messages: self.mailbox_shutdown.drains(),
            dropped_is_cancelled: false,
        }
    }
}

/// When an incarnation that was asked to stop is aborted.
pub open spec fn plans_abort(shutdown: Shutdown, now: u64, plan: (u64, bool)) -> bool {
    match shutdown {
        Shutdown::Abort => plan == (now, false),
        Shutdown::Graceful { grace } => plan == (crate::clock::deadline(now, grace), true),
    }
}

/// Returns when an incarnation that was asked to stop at `now` is aborted, and
/// whether a grace has run out by then.
pub fn abort_plan(shutdown: Shutdown, now: u64) -> (plan: (u64, bool))
    ensures
        plans_abort(shutdown, now, plan),
{
    let after_grace = !shutdown.is_abort();
    match shutdown.grace() {
        Some(grace) => (crate::clock::deadline_after(now, grace), after_grace),
        None => (now, after_grace),
    }
}

/// A run that is seen only by the teardown of its guard, such as a panicking
/// one, leaves the binding where the disposition of a failed exit would: the
/// teardown expects a rebind exactly when that disposition does.
pub proof fn law_teardown_agrees_with_disposition(policy: RestartPolicy, error: ActorRunError)
    ensures
        disposition(policy, IncarnationExit::Failed(error)) == RunDisposition::ExpectRebind
            <==> policy.restarts(true),
        policy.mode == crate::policy::RestartMode::Never <==> !policy.restarts(true),
{
}

} // verus!
