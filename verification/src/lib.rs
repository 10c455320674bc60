//! Supervision trees and typed actors: the decision logic, as verified state
//! machines.
//!
//! Handles that share state keep it behind the caller's own lock, time is a
//! number of nanoseconds, and whatever has to wait (a mailbox, a timer, a task)
//! is driven by a step function that takes what has been observed and returns
//! what to do next.
//!
//! | Module | Contents |
//! |--------|----------|
//! | [`policy`], [`observe`] | Supervision vocabulary, snapshots, lifecycle events. |
//! | [`error`] | Delivery errors. |
//! | [`mailbox`], [`mailbox_laws`], [`callbacks`] | Mailboxes, their keys and message sizes. |
//! | [`channel`], [`transport`] | Mailbox handles and what they are made of. |
//! | [`monitor`], [`hub`], [`hub_laws`], [`hub_reports`], [`hub_traces`], [`registry`] | Lifecycle monitoring. |
//! | [`binding`], [`binding_laws`], [`delivery`], [`delivery_laws`] | Restart-stable bindings and sends through them. |
//! | [`builder`], [`declaration_laws`], [`host`], [`host_laws`] | Actor declarations and the hosting of incarnations. |
//! | [`context`], [`timers`], [`handler`], [`handler_laws`] | Incarnation state and the receive loop. |
//! | [`scope`], [`sampling`], [`membership`], [`membership_laws`], [`task`] | References to running scopes and tasks. |
//! | [`supervision`], [`tree`], [`tree_laws`], [`outline`] | Declaration trees, their lowering and outlines. |
//! | [`stats`], [`clock`] | Counters and time. |
use vstd::prelude::*;

pub mod binding;
pub mod binding_laws;
pub mod builder;
pub mod callbacks;
pub mod channel;
pub mod clock;
pub mod context;
pub mod declaration_laws;
pub mod delivery;
pub mod delivery_laws;
pub mod error;
pub mod handler;
pub mod handler_laws;
pub mod host;
pub mod host_laws;
pub mod hub;
pub mod hub_laws;
pub mod hub_reports;
pub mod hub_traces;
pub mod mailbox;
pub mod mailbox_laws;
pub mod membership;
pub mod membership_laws;
pub mod monitor;
pub mod observe;
pub mod outline;
pub mod policy;
pub mod registry;
pub mod sampling;
pub mod scope;
pub mod stats;
pub mod supervision;
pub mod task;
pub mod timers;
pub mod transport;
pub mod tree;
pub mod tree_laws;

pub use crate::builder::{ActorOptions, ActorSlot, ActorSpec};
pub use crate::context::{ActorStatus, RawContext};
pub use crate::delivery::ActorRef;
pub use crate::error::{
    BlockingCancelled, CallError, OffloadDeadline, ReplyError, SendError, SendErrorKind,
};
pub use crate::host::{ActorHost, ActorRunError, IncarnationExit, DEFAULT_SHUTDOWN_BOUND};
pub use crate::mailbox::Mailbox;
pub use crate::membership::{ChildHandle, RestrictedScopeRef, RunningScope, RunningTree, TaskRef};
pub use crate::monitor::MonitorEvent;
pub use crate::outline::{ChildOutline, SupervisionOutline, WireOutline};
pub use crate::policy::{
    BuildError, ControlError, ExitStatus, MailboxShutdown, RestartMode, RestartPolicy, ScopeKind,
    Shutdown, Strategy,
};
pub use crate::scope::{DynamicScopeRef, ScopeRef};
pub use crate::stats::{ActorStats, ScopedActorStats};
pub use crate::task::TaskError;
pub use crate::timers::TimerKey;
pub use crate::tree::{DynamicTree, SubtreeSpec, Tree};

verus! {

} // verus!
