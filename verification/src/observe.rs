//! What a supervisor reports of its scope: snapshots and lifecycle events.
use vstd::prelude::*;

use crate::policy::{ExitStatus, RestartPolicy, Strategy};

verus! {

/// State of a scope.
#[derive(Clone, Copy, Debug, PartialEq, Eq, Structural)]
pub enum SupervisorStateView {
    /// Children are being started for the first time.
    Starting,
    /// Supervision is active.
    Running,
    /// Children are being stopped.
    Stopping,
    /// Supervision is over.
    Stopped,
}

/// Whether a member stays in its scope.
#[derive(Clone, Copy, Debug, PartialEq, Eq, Structural)]
pub enum ChildMembershipView {
    /// The member stays.
    Active,
    /// The member is being removed.
    Removing,
}

/// State of a child. Each carries the exit of the last incarnation, if any.
#[derive(Debug, PartialEq, Eq)]
pub enum ChildStateView {
    /// Not ready yet.
    Starting {
        /// Last exit.
        last_exit: Option<ExitStatus>,
    },
    /// Running.
    Running {
        /// Last exit.
        last_exit: Option<ExitStatus>,
    },
    /// Asked to stop.
    Stopping {
        /// Whether it had become ready.
        started: bool,
        /// Last exit.
        last_exit: Option<ExitStatus>,
    },
    /// Exited.
    Stopped {
        /// Whether it had become ready.
        started: bool,
        /// Last exit.
        last_exit: Option<ExitStatus>,
    },
    /// Startup was given up.
    StartupAborted {
        /// Last exit.
        last_exit: Option<ExitStatus>,
    },
}

/// Copies an optional exit.
pub fn copy_exit(exit: &Option<ExitStatus>) -> (copy: Option<ExitStatus>)
    ensures
        copy == *exit,
{
    match exit {
        Some(exit) => Some(exit.clone()),
        None => None,
    }
}

impl Clone for ChildStateView {
    fn clone(&self) -> (state: Self)
        ensures
            state == *self,
    {
        match self {
            ChildStateView::Starting { last_exit } => ChildStateView::Starting {
                last_exit: copy_exit(last_exit),
            },
            ChildStateView::Running { last_exit } => ChildStateView::Running {
                last_exit: copy_exit(last_exit),
            },
            ChildStateView::Stopping { started, last_exit } => ChildStateView::Stopping {
                started: *started,
                last_exit: copy_exit(last_exit),
            },
            ChildStateView::Stopped { started, last_exit } => ChildStateView::Stopped {
                started: *started,
                last_exit: copy_exit(last_exit),
            },
            ChildStateView::StartupAborted { last_exit } => ChildStateView::StartupAborted {
                last_exit: copy_exit(last_exit),
            },
        }
    }
}

impl ChildStateView {
    /// The exit of the last incarnation.
    pub open spec fn exit(self) -> Option<ExitStatus> {
        match self {
            ChildStateView::Starting { last_exit } => last_exit,
            ChildStateView::Running { last_exit } => last_exit,
            ChildStateView::Stopping { last_exit, .. } => last_exit,
            ChildStateView::Stopped { last_exit, .. } => last_exit,
            ChildStateView::StartupAborted { last_exit } => last_exit,
        }
    }

    /// Whether no incarnation is left.
    pub open spec fn terminal(self) -> bool {
        self is Stopped || self is StartupAborted
    }

    /// Whether the child has become ready.
    pub open spec fn was_started(self) -> bool {
        match self {
            ChildStateView::Running { .. } => true,
            ChildStateView::Stopping { started, .. } => started,
            ChildStateView::Stopped { started, .. } => started,
            _ => false,
        }
    }

    /// Returns the exit of the last incarnation.
    pub fn last_exit(&self) -> (exit: Option<ExitStatus>)
        ensures
            exit == self.exit(),
    {
        match self {
            ChildStateView::Starting { last_exit } => copy_exit(last_exit),
            ChildStateView::Running { last_exit } => copy_exit(last_exit),
            ChildStateView::Stopping { last_exit, .. } => copy_exit(last_exit),
            ChildStateView::Stopped { last_exit, .. } => copy_exit(last_exit),
            ChildStateView::StartupAborted { last_exit } => copy_exit(last_exit),
        }
    }

    /// Reports whether no incarnation is left.
    pub fn is_terminal(&self) -> (terminal: bool)
        ensures
            terminal == self.terminal(),
    {
        matches!(self, ChildStateView::Stopped { .. } | ChildStateView::StartupAborted { .. })
    }

    /// Reports whether the child has become ready.
    pub fn has_started(&self) -> (started: bool)
        ensures
            started == self.was_started(),
    {
        match self {
            ChildStateView::Running { .. } => true,
            ChildStateView::Stopping { started, .. } => *started,
            ChildStateView::Stopped { started, .. } => *started,
            _ => false,
        }
    }
}

/// One member of a scope.
#[derive(Debug, PartialEq, Eq)]
pub struct ChildSnapshot {
    /// Child id within its scope.
    pub id: String,
    /// Membership identity; a later member with the same id has another one.
    pub lineage: u64,
    /// Incarnation counter.
    pub generation: u64,
    /// State of the child.
    pub state: ChildStateView,
    /// Whether the member stays.
    pub membership: ChildMembershipView,
    /// Restart policy of the member.
    pub restart_policy: RestartPolicy,
    /// Time until a scheduled restart, in nanoseconds.
    pub next_restart_in: Option<u64>,
}

impl Clone for ChildSnapshot {
    fn clone(&self) -> (child: Self)
        ensures
            child == *self,
    {
        ChildSnapshot {
            id: self.id.clone(),
            lineage: self.lineage,
            generation: self.generation,
            state: self.state.clone(),
            membership: self.membership,
            restart_policy: self.restart_policy,
            next_restart_in: self.next_restart_in,
        }
    }
}

/// Point-in-time view of a scope.
#[derive(Debug, PartialEq, Eq)]
pub struct SupervisorSnapshot {
    /// State of the scope.
    pub state: SupervisorStateView,
    /// Restart strategy of the scope.
    pub strategy: Strategy,
    /// Members in declaration order.
    pub children: Vec<ChildSnapshot>,
}

impl SupervisorSnapshot {
    /// Both report the same.
    pub open spec fn same(&self, other: &Self) -> bool {
        &&& self.state == other.state
        &&& self.strategy == other.strategy
        &&& self.children@ == other.children@
    }

    /// What a lookup by id finds.
    pub open spec fn finds(&self, id: Seq<char>, found: Option<ChildSnapshot>) -> bool {
        match found {
            Some(child) => exists|i: int|
                {
                    &&& 0 <= i < self.children@.len()
                    &&& #[trigger] self.children@[i] == child
                    &&& child.id@ == id
                    &&& forall|j: int| 0 <= j < i ==> (#[trigger] self.children@[j]).id@ != id
                },
            None => forall|j: int|
                0 <= j < self.children@.len() ==> (#[trigger] self.children@[j]).id@ != id,
        }
    }

    /// Returns the first member with the id `id`.
    pub fn child(&self, id: &str) -> (found: Option<&ChildSnapshot>)
        ensures
            self.finds(id@, match found {
                Some(child) => Some(*child),
                None => None,
            }),
    {
        let wanted = id.to_owned();
        let mut i: usize = 0;
        while i < self.children.len()
            invariant
                i <= self.children@.len(),
                wanted@ == id@,
                forall|j: int| 0 <= j < i ==> (#[trigger] self.children@[j]).id@ != id@,
            decreases self.children.len() - i,
        {
            if self.children[i].id == wanted {
                assert(self.children@[i as int].id@ == id@);
                return Some(&self.children[i]);
            }
            i += 1;
        }
        None
    }
}

impl Clone for SupervisorSnapshot {
    fn clone(&self) -> (snapshot: Self)
        ensures
            snapshot.same(self),
    {
        let mut children: Vec<ChildSnapshot> = Vec::new();
        let mut i: usize = 0;
        while i < self.children.len()
            invariant
                i <= self.children@.len(),
                children@ =~= self.children@.take(i as int),
            decreases self.children.len() - i,
        {
            children.push(self.children[i].clone());
            i += 1;
        }
        assert(children@ =~= self.children@);
        SupervisorSnapshot { state: self.state, strategy: self.strategy, children }
    }
}

/// Transition of one child.
#[derive(Debug, PartialEq, Eq)]
pub enum ChildEventKind {
    /// The membership was added.
    Added,
    /// An incarnation started.
    Started,
    /// An incarnation exited.
    Exited {
        /// How it exited.
        exit: ExitStatus,
    },
    /// A restart was scheduled.
    RestartScheduled,
    /// The membership was removed.
    Removed,
}

/// A transition of a child, with the membership it belongs to.
#[derive(Debug, PartialEq, Eq)]
pub struct ChildEvent {
    /// Child id within its scope.
    pub child_id: String,
    /// Membership identity.
    pub lineage: u64,
    /// The transition.
    pub kind: ChildEventKind,
}

/// What a lifecycle stream reports.
#[derive(Debug, PartialEq, Eq)]
pub enum LifecycleEventKind {
    /// A transition of a child.
    Child(ChildEvent),
    /// Transitions were dropped because the observer could not keep up.
    Lagged {
        /// How many.
        dropped: u64,
    },
    /// A transition of the scope itself.
    Supervisor(SupervisorStateView),
}

/// One entry of a lifecycle stream.
#[derive(Debug, PartialEq, Eq)]
pub struct LifecycleEvent {
    /// What happened.
    pub kind: LifecycleEventKind,
}

impl LifecycleEvent {
    /// Reports whether this is a transition of a child.
    pub fn is_child_transition(&self) -> (child: bool)
        ensures
            child == (self.kind is Child),
    {
        matches!(self.kind, LifecycleEventKind::Child(_))
    }
}

/// What a pump of lifecycle events does next.
#[derive(Clone, Copy, Debug, PartialEq, Eq, Structural)]
pub enum PumpStep {
    /// End the pump.
    Stop,
    /// Pass over the event.
    Skip,
    /// Forward the event and end the pump if the target refuses it.
    Forward,
}

/// What the forwarding of lifecycle events does next.
pub open spec fn lifecycle_pump(
    cancelled: bool,
    target_over: bool,
    event: Option<LifecycleEvent>,
) -> PumpStep {
    if cancelled || target_over || event is None {
        PumpStep::Stop
    } else if event->0.kind is Supervisor {
        PumpStep::Skip
    } else {
        PumpStep::Forward
    }
}

/// Decides one turn of a lifecycle pump. Cancellation comes first, then the
/// end of the target, then the end of the stream. Child transitions and lag
/// markers are forwarded; transitions of the scope itself are not.
pub fn lifecycle_pump_step(
    cancelled: bool,
    target_over: bool,
    event: &Option<LifecycleEvent>,
) -> (step: PumpStep)
    ensures
        step == lifecycle_pump(cancelled, target_over, *event),
{
    if cancelled || target_over {
        return PumpStep::Stop;
    }
    match event {
        None => PumpStep::Stop,
        Some(event) => if !event.is_child_transition() && !matches!(
            event.kind,
            LifecycleEventKind::Lagged { .. }
        ) {
            PumpStep::Skip
        } else {
            PumpStep::Forward
        },
    }
}

/// What the forwarding of observations does next.
pub open spec fn observation_pump(cancelled: bool, target_over: bool, ended: bool) -> PumpStep {
    if cancelled || target_over || ended {
        PumpStep::Stop
    } else {
        PumpStep::Forward
    }
}

/// Decides one turn of a child-observation pump, whose updates are all
/// forwarded.
pub fn observation_pump_step(cancelled: bool, target_over: bool, ended: bool) -> (step: PumpStep)
    ensures
        step == observation_pump(cancelled, target_over, ended),
{
    if cancelled || target_over || ended {
        PumpStep::Stop
    } else {
        PumpStep::Forward
    }
}

} // verus!
