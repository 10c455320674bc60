//! Supervision vocabulary: policies, exits, snapshots and control errors.
use vstd::prelude::*;

verus! {

/// Grace of the default [`Shutdown`] policy, in nanoseconds.
pub const DEFAULT_GRACE: u64 = 5_000_000_000;

/// Which exits of a child make its scope start it again.
#[derive(Clone, Copy, Debug, PartialEq, Eq, Structural)]
pub enum RestartMode {
    /// Restart after every exit.
    Always,
    /// Restart after failures only.
    OnFailure,
    /// Never restart.
    Never,
}

/// Restart policy of one child.
#[derive(Clone, Copy, Debug, PartialEq, Eq, Structural)]
pub struct RestartPolicy {
    /// Exits that are followed by a restart.
    pub mode: RestartMode,
}

impl RestartPolicy {
    /// Whether an exit is followed by a restart under this policy.
    pub open spec fn restarts(self, is_failure: bool) -> bool {
        match self.mode {
            RestartMode::Always => true,
            RestartMode::OnFailure => is_failure,
            RestartMode::Never => false,
        }
    }

    /// Wraps a mode into a policy.
    pub fn from_mode(mode: RestartMode) -> (policy: Self)
        ensures
            policy.mode == mode,
    {
        RestartPolicy { mode }
    }

    /// Restarts after every exit.
    pub fn always() -> (policy: Self)
        ensures
            policy.mode == RestartMode::Always,
            policy.restarts(true) && policy.restarts(false),
    {
        RestartPolicy { mode: RestartMode::Always }
    }

    /// Restarts after failures.
    pub fn on_failure() -> (policy: Self)
        ensures
            policy.mode == RestartMode::OnFailure,
            policy.restarts(true) && !policy.restarts(false),
    {
        RestartPolicy { mode: RestartMode::OnFailure }
    }

    /// Never restarts.
    pub fn never() -> (policy: Self)
        ensures
            policy.mode == RestartMode::Never,
            !policy.restarts(true) && !policy.restarts(false),
    {
        RestartPolicy { mode: RestartMode::Never }
    }

    /// Reports whether an exit is followed by a restart.
    pub fn should_restart(self, is_failure: bool) -> (restart: bool)
        ensures
            restart == self.restarts(is_failure),
    {
        match self.mode {
            RestartMode::Always => true,
            RestartMode::OnFailure => is_failure,
            RestartMode::Never => false,
        }
    }

    /// Reports whether this policy rules out every restart.
    pub fn is_never(self) -> (never: bool)
        ensures
            never == (self.mode == RestartMode::Never),
            never == (!self.restarts(true) && !self.restarts(false)),
    {
        matches!(self.mode, RestartMode::Never)
    }
}

impl Default for RestartPolicy {
    /// Restarts after failures.
    fn default() -> (policy: Self)
        ensures
            policy.mode == RestartMode::OnFailure,
    {
        RestartPolicy { mode: RestartMode::OnFailure }
    }
}

/// How a scope stops one child.
#[derive(Clone, Copy, Debug, PartialEq, Eq, Structural)]
pub enum Shutdown {
    /// Abort at once.
    Abort,
    /// Request a cooperative stop and abort once the grace is over.
    Graceful {
        /// Length of the cooperative phase, in nanoseconds.
        grace: u64,
    },
}

impl Shutdown {
    /// Aborts without a cooperative phase.
    pub fn abort() -> (shutdown: Self)
        ensures
            shutdown == Shutdown::Abort,
    {
        Shutdown::Abort
    }

    /// Allows a cooperative phase of `grace` nanoseconds.
    pub fn graceful_for(grace: u64) -> (shutdown: Self)
        ensures
            shutdown == (Shutdown::Graceful { grace }),
    {
        Shutdown::Graceful { grace }
    }

    /// Length of the cooperative phase, if there is one.
    pub open spec fn phase(self) -> Option<u64> {
        match self {
            Shutdown::Abort => None,
            Shutdown::Graceful { grace } => Some(grace),
        }
    }

    /// Returns the length of the cooperative phase, or `None` when there is
    /// none.
    pub fn grace(self) -> (grace: Option<u64>)
        ensures
            grace == self.phase(),
    {
        match self {
            Shutdown::Abort => None,
            Shutdown::Graceful { grace } => Some(grace),
        }
    }

    /// Reports whether this policy aborts without a cooperative phase.
    pub fn is_abort(self) -> (abort: bool)
        ensures
            abort == (self == Shutdown::Abort),
    {
        matches!(self, Shutdown::Abort)
    }
}

impl Default for Shutdown {
    /// Allows the default cooperative phase.
    fn default() -> (shutdown: Self)
        ensures
            shutdown == (Shutdown::Graceful { grace: DEFAULT_GRACE }),
    {
        Shutdown::Graceful { grace: DEFAULT_GRACE }
    }
}

/// What an actor does with messages that are still queued when it stops.
#[derive(Clone, Copy, Debug, PartialEq, Eq, Structural)]
pub enum MailboxShutdown {
    /// Handle the accepted prefix first.
    Drain,
    /// Drop what is queued.
    Discard,
}

impl MailboxShutdown {
    /// Reports whether accepted messages are handled before the stop.
    pub fn drains(self) -> (drains: bool)
        ensures
            drains == (self == MailboxShutdown::Drain),
    {
        matches!(self, MailboxShutdown::Drain)
    }
}

impl Default for MailboxShutdown {
    /// Drains accepted messages.
    fn default() -> (shutdown: Self)
        ensures
            shutdown == MailboxShutdown::Drain,
    {
        MailboxShutdown::Drain
    }
}

/// Which siblings restart together with a failed child.
#[derive(Clone, Copy, Debug, PartialEq, Eq, Structural)]
pub enum Strategy {
    /// Only the failed child.
    OneForOne,
    /// Every child of the scope.
    OneForAll,
    /// The failed child and those declared after it.
    RestForOne,
}

impl Default for Strategy {
    /// Restarts only the failed child.
    fn default() -> (strategy: Self)
        ensures
            strategy == Strategy::OneForOne,
    {
        Strategy::OneForOne
    }
}

/// Whether a scope's membership is declared or written at run time.
#[derive(Clone, Copy, Debug, PartialEq, Eq, Structural)]
pub enum ScopeKind {
    /// A declared child sequence.
    Ordered,
    /// Membership added and removed at run time.
    Dynamic,
}

/// How one incarnation ended.
#[derive(Debug, PartialEq, Eq)]
pub enum ExitStatus {
    /// The incarnation returned without an error.
    Completed {
        /// Whether a stop had been requested.
        cancelled: bool,
    },
    /// The incarnation returned an error.
    Failed {
        /// Text of the error.
        message: String,
        /// Whether a stop had been requested.
        cancelled: bool,
    },
    /// The incarnation panicked.
    Panicked {
        /// Whether a stop had been requested.
        cancelled: bool,
    },
    /// The incarnation was aborted.
    Aborted {
        /// Whether a cooperative phase had run out.
        after_grace: bool,
        /// Whether a stop had been requested.
        cancelled: bool,
    },
}

impl Clone for ExitStatus {
    fn clone(&self) -> (status: Self)
        ensures
            status == *self,
    {
        match self {
            ExitStatus::Completed { cancelled } => ExitStatus::Completed { cancelled: *cancelled },
            ExitStatus::Failed { message, cancelled } => ExitStatus::Failed {
                message: message.clone(),
                cancelled: *cancelled,
            },
            ExitStatus::Panicked { cancelled } => ExitStatus::Panicked { cancelled: *cancelled },
            ExitStatus::Aborted { after_grace, cancelled } => ExitStatus::Aborted {
                after_grace: *after_grace,
                cancelled: *cancelled,
            },
        }
    }
}

impl ExitStatus {
    /// Whether the exit counts as a failure.
    pub open spec fn failed(self) -> bool {
        !(self is Completed)
    }

    /// Reports whether this exit counts as a failure for restart purposes.
    ///
    /// Only a returned success does not: a dropped or aborted run is a failure.
    pub fn is_failure(&self) -> (failure: bool)
        ensures
            failure == self.failed(),
    {
        !matches!(self, ExitStatus::Completed { .. })
    }
}

/// Why a tree could not be built.
#[derive(Debug, PartialEq, Eq)]
pub enum BuildError {
    /// A setting is outside its valid range.
    InvalidConfig(String),
    /// A sibling already uses the id.
    DuplicateChildId(String),
    /// The id cannot name a child.
    InvalidChildId(String),
}

/// Why a control operation on a scope failed.
#[derive(Debug, PartialEq, Eq)]
pub enum ControlError {
    /// The scope is not running.
    Unavailable,
    /// The scope has ordered membership.
    NotDynamic,
    /// The scope has no such member.
    UnknownChildId(String),
    /// The change was refused by validation.
    Rejected(BuildError),
}

/// One step of the path from a sampled scope to a nested one.
#[derive(Debug, PartialEq, Eq)]
pub struct ScopePathSegment {
    /// Child id of the nested scope.
    pub id: String,
    /// Membership identity of the nested scope.
    pub lineage: u64,
    /// Incarnation counter of the nested scope.
    pub generation: u64,
}

impl View for ScopePathSegment {
    type V = (Seq<char>, u64, u64);

    open spec fn view(&self) -> (Seq<char>, u64, u64) {
        (self.id@, self.lineage, self.generation)
    }
}

/// Contents of a scope path.
pub open spec fn path_view(path: Seq<ScopePathSegment>) -> Seq<(Seq<char>, u64, u64)> {
    Seq::new(path.len(), |i: int| path[i]@)
}

impl ScopePathSegment {
    /// Reports whether both name the same incarnation of the same member.
    pub fn same(&self, other: &Self) -> (same: bool)
        ensures
            same == (self@ == other@),
    {
        self.id == other.id && self.lineage == other.lineage && self.generation
            == other.generation
    }
}

impl Clone for ScopePathSegment {
    fn clone(&self) -> (segment: Self)
        ensures
            segment == *self,
    {
        ScopePathSegment {
            id: self.id.clone(),
            lineage: self.lineage,
            generation: self.generation,
        }
    }
}

} // verus!
