//! Payload-free declaration trees, for comparison and for storage.
use vstd::prelude::*;

use crate::policy::{RestartPolicy, ScopeKind, Shutdown, Strategy};

verus! {

/// Payload-free declaration tree.
#[derive(Debug, PartialEq, Eq)]
pub struct SupervisionOutline {
    /// Immutable scope kind.
    pub kind: ScopeKind,
    /// Restart strategy.
    pub strategy: Strategy,
    /// Restart policy inherited by children without an explicit override.
    pub default_restart: RestartPolicy,
    /// Shutdown policy inherited by children without an explicit override.
    pub default_shutdown: Shutdown,
    /// Declared children in semantic order; empty for a dynamic scope.
    pub children: Vec<ChildOutline>,
}

/// One payload-free child declaration.
#[derive(Debug, PartialEq, Eq)]
pub enum ChildOutline {
    /// An actor with resolved policies.
    Actor {
        /// Child id within the enclosing scope.
        id: String,
        /// Resolved restart policy.
        restart: RestartPolicy,
        /// Resolved shutdown policy.
        shutdown: Shutdown,
        /// Whether terminal membership is removed automatically.
        remove_when_done: bool,
    },
    /// An arbitrary task child.
    Task {
        /// Child id.
        id: String,
        /// Restart policy.
        restart: RestartPolicy,
        /// Shutdown policy.
        shutdown: Shutdown,
        /// Whether terminal membership is removed automatically.
        remove_when_done: bool,
    },
    /// A nested ordered or dynamic scope.
    Scope {
        /// Scope child id.
        id: String,
        /// Resolved policy used by the parent to restart this scope.
        restart: RestartPolicy,
        /// Resolved policy used by the parent to stop this scope.
        shutdown: Shutdown,
        /// Nested declaration.
        outline: SupervisionOutline,
    },
}

impl ChildOutline {
    /// This node's id within its parent.
    pub open spec fn name(&self) -> String {
        match self {
            ChildOutline::Actor { id, .. } => *id,
            ChildOutline::Task { id, .. } => *id,
            ChildOutline::Scope { id, .. } => *id,
        }
    }

    /// Returns this node's id within its parent.
    pub fn id(&self) -> (id: &str)
        ensures
            id@ == self.name()@,
    {
        match self {
            ChildOutline::Actor { id, .. } => id.as_str(),
            ChildOutline::Task { id, .. } => id.as_str(),
            ChildOutline::Scope { id, .. } => id.as_str(),
        }
    }
}

impl SupervisionOutline {
    /// Returns direct child ids in declaration order.
    pub fn child_ids(&self) -> (ids: Vec<&str>)
        ensures
            ids@.len() == self.children@.len(),
            forall|i: int|
                0 <= i < ids@.len() ==> (#[trigger] ids@[i])@ == self.children@[i].name()@,
    {
        let mut ids: Vec<&str> = Vec::new();
        let mut i: usize = 0;
        while i < self.children.len()
            invariant
                i <= self.children@.len(),
                ids@.len() == i,
                forall|j: int|
                    0 <= j < i ==> (#[trigger] ids@[j])@ == self.children@[j].name()@,
            decreases self.children.len() - i,
        {
            ids.push(self.children[i].id());
            i += 1;
        }
        ids
    }

    /// What a lookup by id finds.
    pub open spec fn finds(&self, id: Seq<char>, found: Option<ChildOutline>) -> bool {
        match found {
            Some(child) => exists|i: int|
                {
                    &&& 0 <= i < self.children@.len()
                    &&& #[trigger] self.children@[i] == child
                    &&& child.name()@ == id
                    &&& forall|j: int|
                        0 <= j < i ==> (#[trigger] self.children@[j]).name()@ != id
                },
            None => forall|j: int|
                0 <= j < self.children@.len() ==> (#[trigger] self.children@[j]).name()@ != id,
        }
    }

    /// Finds a direct child by id.
    pub fn child(&self, id: &str) -> (found: Option<&ChildOutline>)
        ensures
            self.finds(id@, match found {
                Some(child) => Some(*child),
                None => None,
            }),
    {
        let wanted = id.to_owned();
        let mut i: usize = 0;
        while i < self.children.len()
            invariant
                i <= self.children@.len(),
                wanted@ == id@,
                forall|j: int| 0 <= j < i ==> (#[trigger] self.children@[j]).name()@ != id@,
            decreases self.children.len() - i,
        {
            let own = self.children[i].id().to_owned();
            if own == wanted {
                assert(self.children@[i as int].name()@ == id@);
                return Some(&self.children[i]);
            }
            i += 1;
        }
        None
    }
}

/// A stored restart policy. Early outlines carried the removal flag with it.
#[derive(Clone, Copy, Debug, PartialEq, Eq, Structural)]
pub struct RestartWire {
    /// The policy.
    pub policy: RestartPolicy,
    /// Removal flag of an early outline.
    pub remove_when_done: bool,
}

impl RestartWire {
    /// Returns the policy and the removal flag.
    pub fn into_parts(self) -> (parts: (RestartPolicy, bool))
        ensures
            parts == (self.policy, self.remove_when_done),
    {
        (self.policy, self.remove_when_done)
    }
}

/// Stored form of an outline.
///
/// The policies of a scope's edge in its parent came later than the format. An
/// outline stored without them inherits the enclosing scope's defaults there.
#[derive(Debug, PartialEq, Eq)]
pub struct WireOutline {
    /// Scope kind.
    pub kind: ScopeKind,
    /// Restart strategy.
    pub strategy: Strategy,
    /// Restart policy of children without an override.
    pub default_restart: RestartPolicy,
    /// Shutdown policy of children without an override.
    pub default_shutdown: Shutdown,
    /// Children in semantic order.
    pub children: Vec<WireChild>,
}

/// Stored form of a child.
#[derive(Debug, PartialEq, Eq)]
pub enum WireChild {
    /// An actor.
    Actor {
        /// Child id.
        id: String,
        /// Restart policy.
        restart: RestartWire,
        /// Shutdown policy.
        shutdown: Shutdown,
        /// Removal flag, absent in early outlines.
        remove_when_done: Option<bool>,
    },
    /// A task.
    Task {
        /// Child id.
        id: String,
        /// Restart policy.
        restart: RestartWire,
        /// Shutdown policy.
        shutdown: Shutdown,
        /// Removal flag, absent in early outlines.
        remove_when_done: Option<bool>,
    },
    /// A nested scope.
    Scope {
        /// Child id.
        id: String,
        /// Edge restart policy, absent in early outlines.
        restart: Option<RestartPolicy>,
        /// Edge shutdown policy, absent in early outlines.
        shutdown: Option<Shutdown>,
        /// Nested declaration.
        outline: WireOutline,
    },
}

/// The removal flag of a stored child: its own, or that of its policy.
pub open spec fn removal_flag(own: Option<bool>, restart: RestartWire) -> bool {
    match own {
        Some(flag) => flag,
        None => restart.remove_when_done,
    }
}

/// `outline` is what `wire` stores.
pub open spec fn decodes(wire: WireOutline, outline: SupervisionOutline) -> bool
    decreases wire,
{
    &&& outline.kind == wire.kind
    &&& outline.strategy == wire.strategy
    &&& outline.default_restart == wire.default_restart
    &&& outline.default_shutdown == wire.default_shutdown
    &&& outline.children@.len() == wire.children@.len()
    &&& forall|i: int|
        0 <= i < wire.children@.len() ==> child_decodes(
            #[trigger] wire.children@[i],
            outline.children@[i],
            wire.default_restart,
            wire.default_shutdown,
        )
}

/// `outline` is what `wire` stores, in a scope with these defaults.
pub open spec fn child_decodes(
    wire: WireChild,
    outline: ChildOutline,
    default_restart: RestartPolicy,
    default_shutdown: Shutdown,
) -> bool
    decreases wire,
{
    match wire {
        WireChild::Actor { id, restart, shutdown, remove_when_done } => outline == (
        ChildOutline::Actor {
            id,
            restart: restart.policy,
            shutdown,
            remove_when_done: removal_flag(remove_when_done, restart),
        }),
        WireChild::Task { id, restart, shutdown, remove_when_done } => outline == (
        ChildOutline::Task {
            id,
            restart: restart.policy,
            shutdown,
            remove_when_done: removal_flag(remove_when_done, restart),
        }),
        WireChild::Scope { id, restart, shutdown, outline: nested } => {
            &&& outline is Scope
            &&& outline->Scope_id == id
            &&& outline->Scope_restart == crate::membership::or_default(restart, default_restart)
            &&& outline->Scope_shutdown == crate::membership::or_default(
                shutdown,
                default_shutdown,
            )
            &&& decodes(nested, outline->outline)
        },
    }
}

impl WireOutline {
    /// Decodes a stored outline.
    pub fn into_outline(&self) -> (outline: SupervisionOutline)
        ensures
            decodes(*self, outline),
        decreases self,
    {
        let mut children: Vec<ChildOutline> = Vec::new();
        let mut i: usize = 0;
        while i < self.children.len()
            invariant
                i <= self.children@.len(),
                children@.len() == i,
                forall|j: int|
                    0 <= j < i ==> child_decodes(
                        #[trigger] self.children@[j],
                        children@[j],
                        self.default_restart,
                        self.default_shutdown,
                    ),
            decreases self.children.len() - i,
        {
            let child = self.children[i].into_child(self.default_restart, self.default_shutdown);
            children.push(child);
            i += 1;
        }
        SupervisionOutline {
            kind: self.kind,
            strategy: self.strategy,
            default_restart: self.default_restart,
            default_shutdown: self.default_shutdown,
            children,
        }
    }
}

impl WireChild {
    /// Decodes a stored child of a scope with these defaults.
    pub fn into_child(&self, default_restart: RestartPolicy, default_shutdown: Shutdown) -> (child:
        ChildOutline)
        ensures
            child_decodes(*self, child, default_restart, default_shutdown),
        decreases self,
    {
        match self {
            WireChild::Actor { id, restart, shutdown, remove_when_done } => {
                let (restart, legacy_remove_when_done) = restart.into_parts();
                ChildOutline::Actor {
                    id: id.clone(),
                    restart,
                    shutdown: *shutdown,
                    remove_when_done: match remove_when_done {
                        Some(flag) => *flag,
                        None => legacy_remove_when_done,
                    },
                }
            },
            WireChild::Task { id, restart, shutdown, remove_when_done } => {
                let (restart, legacy_remove_when_done) = restart.into_parts();
                ChildOutline::Task {
                    id: id.clone(),
                    restart,
                    shutdown: *shutdown,
                    remove_when_done: match remove_when_done {
                        Some(flag) => *flag,
                        None => legacy_remove_when_done,
                    },
                }
            },
            WireChild::Scope { id, restart, shutdown, outline } => ChildOutline::Scope {
                id: id.clone(),
                restart: match restart {
                    Some(restart) => *restart,
                    None => default_restart,
                },
                shutdown: match shutdown {
                    Some(shutdown) => *shutdown,
                    None => default_shutdown,
                },
                outline: outline.into_outline(),
            },
        }
    }
}

/// `wire` stores `outline` with every policy and flag written out, as a
/// current writer does.
pub open spec fn spells_out(wire: WireOutline, outline: SupervisionOutline) -> bool
    decreases wire,
{
    &&& outline.kind == wire.kind
    &&& outline.strategy == wire.strategy
    &&& outline.default_restart == wire.default_restart
    &&& outline.default_shutdown == wire.default_shutdown
    &&& outline.children@.len() == wire.children@.len()
    &&& forall|i: int|
        0 <= i < wire.children@.len() ==> child_spelled_out(
            #[trigger] wire.children@[i],
            outline.children@[i],
        )
}

/// `wire` stores `outline` with every policy and flag written out.
pub open spec fn child_spelled_out(wire: WireChild, outline: ChildOutline) -> bool
    decreases wire,
{
    match (wire, outline) {
        (
            WireChild::Actor { id, restart, shutdown, remove_when_done },
            ChildOutline::Actor {
                id: own,
                restart: policy,
                shutdown: stop,
                remove_when_done: flag,
            },
        ) => id == own && restart.policy == policy && shutdown == stop && remove_when_done == Some(
            flag,
        ),
        (
            WireChild::Task { id, restart, shutdown, remove_when_done },
            ChildOutline::Task {
                id: own,
                restart: policy,
                shutdown: stop,
                remove_when_done: flag,
            },
        ) => id == own && restart.policy == policy && shutdown == stop && remove_when_done == Some(
            flag,
        ),
        (
            WireChild::Scope { id, restart, shutdown, outline: nested },
            ChildOutline::Scope { id: own, restart: policy, shutdown: stop, outline: inner },
        ) => id == own && restart == Some(policy) && shutdown == Some(stop) && spells_out(
            nested,
            inner,
        ),
        _ => false,
    }
}

/// An outline that was stored in full reads back as it was.
pub proof fn law_stored_outline_reads_back(wire: WireOutline, outline: SupervisionOutline)
    requires
        spells_out(wire, outline),
    ensures
        decodes(wire, outline),
    decreases wire,
{
    assert forall|i: int| 0 <= i < wire.children@.len() implies child_decodes(
        #[trigger] wire.children@[i],
        outline.children@[i],
        wire.default_restart,
        wire.default_shutdown,
    ) by {
        lemma_stored_child_reads_back(
            wire.children@[i],
            outline.children@[i],
            wire.default_restart,
            wire.default_shutdown,
        );
    }
}

/// A child that was stored in full reads back as it was.
proof fn lemma_stored_child_reads_back(
    wire: WireChild,
    outline: ChildOutline,
    default_restart: RestartPolicy,
    default_shutdown: Shutdown,
)
    requires
        child_spelled_out(wire, outline),
    ensures
        child_decodes(wire, outline, default_restart, default_shutdown),
    decreases wire,
{
    if let WireChild::Scope { outline: nested, .. } = wire {
        law_stored_outline_reads_back(nested, outline->outline);
    }
}

/// A scope stored without edge policies takes the defaults of the scope that
/// encloses it, not the global ones.
pub proof fn law_missing_edges_inherit(wire: WireOutline, outline: SupervisionOutline, i: int)
    requires
        decodes(wire, outline),
        0 <= i < wire.children@.len(),
        wire.children@[i] is Scope,
        wire.children@[i]->Scope_restart is None,
        wire.children@[i]->Scope_shutdown is None,
    ensures
        outline.children@[i] is Scope,
        outline.children@[i]->Scope_restart == outline.default_restart,
        outline.children@[i]->Scope_shutdown == outline.default_shutdown,
{
    assert(child_decodes(
        wire.children@[i],
        outline.children@[i],
        wire.default_restart,
        wire.default_shutdown,
    ));
}

} // verus!
