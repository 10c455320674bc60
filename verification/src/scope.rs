//! References to supervision scopes: observation, membership resolution and
//! the decisions behind dynamic membership.
use vstd::prelude::*;

use crate::observe::SupervisorSnapshot;
use crate::policy::{ScopeKind, ScopePathSegment};
use crate::stats::ActorStats;

verus! {

/// Names one supervisor.
#[derive(Clone, Copy, Debug, PartialEq, Eq, Structural)]
pub struct SupervisorHandle {
    /// Identity of the supervisor.
    pub identity: u64,
    /// Kind of its membership.
    pub kind: ScopeKind,
}

impl SupervisorHandle {
    /// Reports whether both name the same supervisor.
    pub fn same_identity(&self, other: &Self) -> (same: bool)
        ensures
            same == (self.identity == other.identity),
    {
        self.identity == other.identity
    }
}

/// What an attached child is.
#[derive(Debug, PartialEq, Eq)]
pub enum RuntimeAttachmentKind {
    /// An actor, with its current statistics.
    Actor {
        /// Identity of its binding.
        identity: u64,
        /// Sample of its statistics.
        stats: ActorStats,
    },
    /// A nested scope.
    Subtree {
        /// Identity of the nested scope's actor runtime.
        actors: u64,
    },
}

/// Actor-layer data that a supervisor carries with a member.
#[derive(Debug, PartialEq, Eq)]
pub struct RuntimeAttachment {
    /// Identity of the actor runtime that attached it.
    pub owner: u64,
    /// What is attached.
    pub kind: RuntimeAttachmentKind,
}

impl RuntimeAttachment {
    /// Reports whether actor runtime `owner` attached it.
    pub fn belongs_to(&self, owner: u64) -> (belongs: bool)
        ensures
            belongs == (self.owner == owner),
    {
        self.owner == owner
    }
}

/// A current member of a supervisor or of one of its nested scopes.
#[derive(Debug, PartialEq, Eq)]
pub struct AttachedChild {
    /// Memberships from the supervisor down to the member.
    pub path: Vec<ScopePathSegment>,
    /// What the actor layer attached to it.
    pub attachment: RuntimeAttachment,
    /// The member's own supervisor, for a nested scope.
    pub supervisor: Option<SupervisorHandle>,
}

impl AttachedChild {
    /// Memberships from the supervisor down to the member.
    pub open spec fn place(&self) -> Seq<(Seq<char>, u64, u64)> {
        crate::policy::path_view(self.path@)
    }
}

/// What a supervisor reports at one moment.
pub struct SupervisorView {
    /// Snapshot of the scope.
    pub snapshot: SupervisorSnapshot,
    /// Current members that the actor layer attached something to, in this
    /// scope and in those nested in it; the members of one scope in declaration
    /// order.
    pub attached: Vec<AttachedChild>,
    /// Whether the supervisor takes control operations.
    pub available: bool,
    /// Whether a graceful shutdown has been requested.
    pub shutdown_requested: bool,
    /// Number of lifecycle events so far.
    pub lifecycle_events: u64,
}

/// Membership of a scope in its parent.
#[derive(Debug, PartialEq, Eq)]
pub struct ParentScopeMembership {
    /// Supervisor of the parent.
    pub parent: SupervisorHandle,
    /// Child id in the parent.
    pub id: String,
    /// Membership identity in the parent.
    pub lineage: u64,
}

impl Clone for ParentScopeMembership {
    fn clone(&self) -> (membership: Self)
        ensures
            membership == *self,
    {
        ParentScopeMembership {
            parent: self.parent,
            id: self.id.clone(),
            lineage: self.lineage,
        }
    }
}

/// A cheaply cloneable, non-owning reference and control capability for a
/// supervision scope.
#[derive(Debug, PartialEq, Eq)]
pub struct ScopeRef {
    /// The scope's supervisor.
    pub supervisor: SupervisorHandle,
    /// Identity of the scope's actor runtime.
    pub actors: u64,
    /// Membership in the parent, where the reference came from there.
    pub parent_membership: Option<ParentScopeMembership>,
}

impl Clone for ScopeRef {
    fn clone(&self) -> (scope: Self)
        ensures
            scope == *self,
    {
        ScopeRef {
            supervisor: self.supervisor,
            actors: self.actors,
            parent_membership: match &self.parent_membership {
                Some(membership) => Some(membership.clone()),
                None => None,
            },
        }
    }
}

/// A [`ScopeRef`] that can add and remove runtime children.
#[derive(Debug, PartialEq, Eq)]
pub struct DynamicScopeRef {
    /// The scope.
    pub scope: ScopeRef,
}

impl Clone for DynamicScopeRef {
    fn clone(&self) -> (scope: Self)
        ensures
            scope == *self,
    {
        DynamicScopeRef { scope: self.scope.clone() }
    }
}

/// Identity of the supervisor and the actor runtime that stand for no scope.
pub const UNAVAILABLE: u64 = 0;

/// Position in the lifecycle stream of a supervisor.
#[derive(Clone, Copy, Debug, PartialEq, Eq, Structural)]
pub struct LifecycleWatch {
    /// The supervisor.
    pub supervisor: SupervisorHandle,
    /// First event of the stream.
    pub from: u64,
}

/// A snapshot and the stream of what follows it.
pub struct LifecycleObservation {
    /// State to start from.
    pub snapshot: SupervisorSnapshot,
    /// What follows.
    pub events: LifecycleWatch,
}

/// Subscription to the snapshots of a supervisor.
pub struct SupervisorSnapshotReceiver {
    /// The supervisor.
    pub supervisor: SupervisorHandle,
    /// Latest snapshot.
    pub latest: SupervisorSnapshot,
}

/// Watch for the completion of children.
pub struct CompletionWatch {
    /// The supervisor.
    pub supervisor: SupervisorHandle,
    /// Children to complete.
    pub ids: Vec<String>,
}

impl ScopeRef {
    /// Refers to a root scope.
    pub fn new(supervisor: SupervisorHandle, actors: u64) -> (scope: Self)
        ensures
            scope == (ScopeRef { supervisor, actors, parent_membership: None }),
    {
        ScopeRef { supervisor, actors, parent_membership: None }
    }

    /// Refers to a nested scope through its membership in `parent`.
    pub fn with_parent_membership(
        supervisor: SupervisorHandle,
        actors: u64,
        parent: SupervisorHandle,
        id: String,
        lineage: u64,
    ) -> (scope: Self)
        ensures
            scope == (ScopeRef {
                supervisor,
                actors,
                parent_membership: Some(ParentScopeMembership { parent, id, lineage }),
            }),
    {
        ScopeRef {
            supervisor,
            actors,
            parent_membership: Some(ParentScopeMembership { parent, id, lineage }),
        }
    }

    /// Returns the reference of actors that run outside a supervisor. It is
    /// the same one every time.
    pub fn unavailable() -> (scope: Self)
        ensures
            scope == (ScopeRef {
                supervisor: SupervisorHandle {
                    identity: UNAVAILABLE,
                    kind: ScopeKind::Dynamic,
                },
                actors: UNAVAILABLE,
                parent_membership: None,
            }),
    {
        ScopeRef::new(
            SupervisorHandle { identity: UNAVAILABLE, kind: ScopeKind::Dynamic },
            UNAVAILABLE,
        )
    }

    /// Requests a graceful shutdown of the supervisor without waiting for it.
    pub fn request_shutdown(&self, view: &mut SupervisorView)
        ensures
            *final(view) == (SupervisorView { shutdown_requested: true, ..*old(view) }),
    {
        view.shutdown_requested = true;
    }

    /// Returns whether this scope has ordered or dynamic membership.
    pub fn kind(&self) -> (kind: ScopeKind)
        ensures
            kind == self.supervisor.kind,
    {
        self.supervisor.kind
    }

    /// What control over its membership the scope offers.
    pub open spec fn offers(&self, dynamic: Option<DynamicScopeRef>) -> bool {
        dynamic == if self.supervisor.kind == ScopeKind::Dynamic {
            Some(DynamicScopeRef { scope: *self })
        } else {
            None
        }
    }

    /// Projects this scope to its dynamic-membership capability.
    pub fn dynamic(&self) -> (dynamic: Option<DynamicScopeRef>)
        ensures
            self.offers(dynamic),
    {
        if self.kind() == ScopeKind::Dynamic {
            Some(DynamicScopeRef::new(self.clone()))
        } else {
            None
        }
    }

    /// Returns a snapshot and the stream of what follows it.
    pub fn observe_children(&self, view: &SupervisorView) -> (observation: LifecycleObservation)
        ensures
            observation.snapshot.same(&view.snapshot),
            observation.events == (LifecycleWatch {
                supervisor: self.supervisor,
                from: view.lifecycle_events,
            }),
    {
        LifecycleObservation {
            snapshot: view.snapshot.clone(),
            events: self.lifecycle_events(view),
        }
    }

    /// Returns the lifecycle stream from now on.
    pub fn lifecycle_events(&self, view: &SupervisorView) -> (watch: LifecycleWatch)
        ensures
            watch == (LifecycleWatch {
                supervisor: self.supervisor,
                from: view.lifecycle_events,
            }),
    {
        LifecycleWatch { supervisor: self.supervisor, from: view.lifecycle_events }
    }

    /// Returns a copy of the latest supervisor snapshot.
    pub fn snapshot(&self, view: &SupervisorView) -> (snapshot: SupervisorSnapshot)
        ensures
            snapshot.same(&view.snapshot),
    {
        view.snapshot.clone()
    }

    /// Subscribes to snapshots, starting with the latest one.
    pub fn snapshots(&self, view: &SupervisorView) -> (receiver: SupervisorSnapshotReceiver)
        ensures
            receiver.supervisor == self.supervisor,
            receiver.latest.same(&view.snapshot),
    {
        SupervisorSnapshotReceiver { supervisor: self.supervisor, latest: view.snapshot.clone() }
    }

    /// Returns the reference to the direct subtree `id`, if there is one.
    pub fn subtree(&self, view: &SupervisorView, id: &str) -> (found: Option<ScopeRef>)
        ensures
            subtree_found(
                view.attached@,
                self.actors,
                self.supervisor,
                id@,
                None,
                found,
            ),
    {
        self.subtree_membership(view, id, None)
    }

    /// Returns the reference to the direct subtree `id`, of membership
    /// `lineage` where one is given.
    pub fn subtree_membership(&self, view: &SupervisorView, id: &str, lineage: Option<u64>) -> (
        found: Option<ScopeRef>)
        ensures
            subtree_found(
                view.attached@,
                self.actors,
                self.supervisor,
                id@,
                lineage,
                found,
            ),
    {
        runtime_subtree_membership(&view.attached, self.actors, &self.supervisor, id, lineage)
    }
}

impl DynamicScopeRef {
    /// The scope has dynamic membership.
    pub open spec fn wf(&self) -> bool {
        self.scope.supervisor.kind == ScopeKind::Dynamic
    }

    /// Wraps a dynamic scope.
    pub fn new(scope: ScopeRef) -> (dynamic: Self)
        requires
            scope.supervisor.kind == ScopeKind::Dynamic,
        ensures
            dynamic.wf(),
            dynamic.scope == scope,
    {
        DynamicScopeRef { scope }
    }

    /// Gives the mutation capability up.
    pub fn into_scope(self) -> (scope: ScopeRef)
        ensures
            scope == self.scope,
    {
        self.scope
    }
}

/// A member is the direct subtree `id` of actor runtime `actors`.
pub open spec fn is_subtree(
    child: AttachedChild,
    actors: u64,
    id: Seq<char>,
    lineage: Option<u64>,
) -> bool {
    &&& child.path@.len() == 1
    &&& child.path@[0].id@ == id
    &&& lineage matches Some(lineage) ==> child.path@[0].lineage == lineage
    &&& child.attachment.owner == actors
    &&& child.attachment.kind is Subtree
    &&& child.supervisor is Some
}

/// `found` refers to the first direct subtree `id`, or there is none.
pub open spec fn subtree_found(
    attached: Seq<AttachedChild>,
    actors: u64,
    parent: SupervisorHandle,
    id: Seq<char>,
    lineage: Option<u64>,
    found: Option<ScopeRef>,
) -> bool {
    match found {
        Some(scope) => exists|i: int|
            {
                &&& 0 <= i < attached.len()
                &&& is_subtree(#[trigger] attached[i], actors, id, lineage)
                &&& forall|j: int|
                    0 <= j < i ==> !is_subtree(#[trigger] attached[j], actors, id, lineage)
                &&& scope == (ScopeRef {
                    supervisor: attached[i].supervisor->0,
                    actors: attached[i].attachment.kind->actors,
                    parent_membership: Some(
                        ParentScopeMembership {
                            parent,
                            id: attached[i].path@[0].id,
                            lineage: attached[i].path@[0].lineage,
                        },
                    ),
                })
            },
        None => forall|i: int|
            0 <= i < attached.len() ==> !is_subtree(#[trigger] attached[i], actors, id, lineage),
    }
}

/// Finds the direct subtree `id`. A lookup bound to a lineage never returns a
/// same-id replacement.
pub fn runtime_subtree_membership(
    attached: &Vec<AttachedChild>,
    actors: u64,
    parent: &SupervisorHandle,
    id: &str,
    lineage: Option<u64>,
) -> (found: Option<ScopeRef>)
    ensures
        subtree_found(attached@, actors, *parent, id@, lineage, found),
{
    let wanted = id.to_owned();
    let mut i: usize = 0;
    while i < attached.len()
        invariant
            i <= attached@.len(),
            wanted@ == id@,
            forall|j: int|
                0 <= j < i ==> !is_subtree(#[trigger] attached@[j], actors, id@, lineage),
        decreases attached.len() - i,
    {
        let child = &attached[i];
        if child.path.len() == 1 {
            let identity = &child.path[0];
            let lineage_matches = match lineage {
                Some(lineage) => identity.lineage == lineage,
                None => true,
            };
            if identity.id == wanted && lineage_matches && child.attachment.belongs_to(actors) {
                if let RuntimeAttachmentKind::Subtree { actors: subtree } = &child.attachment.kind {
                    if let Some(supervisor) = child.supervisor {
                        assert(is_subtree(attached@[i as int], actors, id@, lineage));
                        return Some(
                            ScopeRef::with_parent_membership(
                                supervisor,
                                *subtree,
                                *parent,
                                identity.id.clone(),
                                identity.lineage,
                            ),
                        );
                    }
                }
            }
        }
        i += 1;
    }
    None
}

} // verus!
