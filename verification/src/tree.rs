//! Identity-owning supervision trees.
use vstd::multiset::Multiset;
use vstd::prelude::*;

use crate::builder::ActorSpec;
use crate::delivery::ActorRef;
use crate::membership::{ActorRuntimeState, RestrictedScopeRef};
use crate::outline::SupervisionOutline;
use crate::policy::{
    BuildError, ControlError, RestartMode, RestartPolicy, ScopeKind, Shutdown, Strategy,
};
use crate::scope::{DynamicScopeRef, ScopeRef, SupervisorHandle, SupervisorView};
use crate::supervision::{LowerOp, ScopeConfig, ScopeNode, SupervisionChild, TaskSpec};

verus! {

/// A child as a reserved scope shows it before it is spawned.
#[derive(Debug, PartialEq, Eq)]
pub struct DeclaredChild {
    /// Declared id.
    pub id: String,
    /// Resolved restart policy.
    pub restart: RestartPolicy,
    /// Whether terminal membership is removed automatically.
    pub remove_when_done: bool,
}

impl View for DeclaredChild {
    type V = (Seq<char>, RestartPolicy, bool);

    open spec fn view(&self) -> (Seq<char>, RestartPolicy, bool) {
        (self.id@, self.restart, self.remove_when_done)
    }
}

/// How a child shows in a scope with these settings.
pub open spec fn shown(child: SupervisionChild, config: ScopeConfig) -> (
    Seq<char>,
    RestartPolicy,
    bool,
) {
    match child {
        SupervisionChild::Actor(actor) => (
            actor.name(),
            crate::membership::or_default(actor.policies.restart, config.default_restart),
            actor.ephemeral(),
        ),
        SupervisionChild::Task(task) => (
            task.id@,
            crate::membership::or_default(task.restart, config.default_restart),
            task.remove_when_done,
        ),
        SupervisionChild::Scope { id, restart, .. } => (
            id@,
            crate::membership::or_default(restart, config.default_restart),
            false,
        ),
    }
}

/// How the children of a scope show, in declaration order.
pub open spec fn shown_children(node: ScopeNode) -> Seq<(Seq<char>, RestartPolicy, bool)> {
    Seq::new(node.declared().len(), |i: int| shown(node.declared()[i], node.settings()))
}

/// Contents of a list of declared children.
pub open spec fn declared_views(children: Seq<DeclaredChild>) -> Seq<
    (Seq<char>, RestartPolicy, bool),
> {
    Seq::new(children.len(), |i: int| children[i]@)
}

/// The identity reserved for one scope of a tree, and what it shows.
pub struct ScopeReservation {
    /// The identity.
    pub id: u64,
    /// Kind of the scope.
    pub kind: ScopeKind,
    /// Restart strategy that the scope shows.
    pub strategy: Strategy,
    /// Actor runtime of the scope.
    pub actors: ActorRuntimeState,
    /// Children that the scope shows.
    pub declared: Vec<DeclaredChild>,
}

/// Identities of a list of reservations.
pub open spec fn reserved_ids(reservations: Seq<ScopeReservation>) -> Multiset<u64>
    decreases reservations.len(),
{
    if reservations.len() == 0 {
        Multiset::empty()
    } else {
        reserved_ids(reservations.drop_last()).insert(reservations.last().id)
    }
}

/// Identities of the scopes of a declaration.
pub open spec fn scope_ids(node: ScopeNode) -> Multiset<u64>
    decreases node, 0nat,
{
    match node {
        ScopeNode::Dynamic { config } => Multiset::empty().insert(config.reservation),
        ScopeNode::Ordered { config, children } => children_ids(
            children@,
            children@.len(),
        ).insert(config.reservation),
    }
}

/// Identities of the scopes among the first `n` children.
pub open spec fn children_ids(children: Seq<SupervisionChild>, n: nat) -> Multiset<u64>
    decreases children, n,
{
    if n == 0 || n > children.len() {
        Multiset::empty()
    } else {
        children_ids(children, (n - 1) as nat).add(child_ids(children[n - 1]))
    }
}

/// Identities of the scopes of one child.
pub open spec fn child_ids(child: SupervisionChild) -> Multiset<u64>
    decreases child, 0nat,
{
    match child {
        SupervisionChild::Scope { node, .. } => scope_ids(node),
        _ => Multiset::empty(),
    }
}

/// A declaration with the identities reserved for its scopes.
pub struct TreeData {
    /// The declaration.
    pub node: ScopeNode,
    /// One reservation per scope, the root's first.
    pub reservations: Vec<ScopeReservation>,
}

impl TreeData {
    /// The root's reservation shows the declaration.
    pub open spec fn root_shows(&self) -> bool {
        let root = self.reservations@[0];
        &&& root.id == self.node.settings().reservation
        &&& root.kind == self.node.scope_kind()
        &&& root.actors == self.node.settings().runtime()
        &&& self.node is Ordered ==> root.strategy == self.node.settings().strategy
        &&& self.node is Ordered ==> declared_views(root.declared@) == shown_children(self.node)
    }

    /// Every scope has its reservation, and the root's shows the declaration.
    pub open spec fn wf(&self) -> bool {
        &&& self.reservations@.len() > 0
        &&& self.root_shows()
        &&& reserved_ids(self.reservations@) == scope_ids(self.node)
    }

    /// Reserves `identity` for a scope without children.
    fn reserve(node: ScopeNode) -> (tree: Self)
        requires
            node.declared().len() == 0,
        ensures
            tree.wf(),
            tree.node == node,
    {
        let config = node.config();
        let mut reservations: Vec<ScopeReservation> = Vec::new();
        reservations.push(
            ScopeReservation {
                id: config.reservation,
                kind: node.kind(),
                strategy: config.strategy,
                actors: config.actor_runtime(),
                declared: Vec::new(),
            },
        );
        let tree = TreeData { node, reservations };
        proof {
            assert(tree.reservations@.drop_last() =~= Seq::empty());
            assert(reserved_ids(tree.reservations@.drop_last()) =~= Multiset::empty());
            assert(declared_views(tree.reservations@[0].declared@) =~= shown_children(tree.node));
            assert(reserved_ids(tree.reservations@) =~= scope_ids(tree.node));
        }
        tree
    }

    /// Makes the root's reservation show the declaration.
    fn refresh_root(&mut self)
        requires
            old(self).reservations@.len() > 0,
            old(self).reservations@[0].id == old(self).node.settings().reservation,
            old(self).reservations@[0].kind == old(self).node.scope_kind(),
            reserved_ids(old(self).reservations@) == scope_ids(old(self).node),
        ensures
            final(self).wf(),
            final(self).node == old(self).node,
    {
        let config = self.node.config();
        let mut declared: Vec<DeclaredChild> = Vec::new();
        if let ScopeNode::Ordered { children, .. } = &self.node {
            let mut i: usize = 0;
            while i < children.len()
                invariant
                    i <= children@.len(),
                    declared@.len() == i,
                    forall|j: int|
                        0 <= j < i ==> (#[trigger] declared@[j])@ == shown(children@[j], config),
                decreases children.len() - i,
            {
                let child = &children[i];
                let (restart, remove_when_done) = match child {
                    SupervisionChild::Actor(actor) => (
                        match actor.policies.restart {
                            Some(restart) => restart,
                            None => config.default_restart,
                        },
                        actor.removes_when_done(),
                    ),
                    SupervisionChild::Task(task) => (
                        task.resolved_policies(config.default_restart, config.default_shutdown).0,
                        task.remove_when_done,
                    ),
                    SupervisionChild::Scope { restart, .. } => (
                        match restart {
                            Some(restart) => *restart,
                            None => config.default_restart,
                        },
                        false,
                    ),
                };
                declared.push(
                    DeclaredChild { id: child.declared_id().clone(), restart, remove_when_done },
                );
                i += 1;
            }
        }
        assert(declared_views(declared@) =~= shown_children(self.node));
        let ghost before = self.reservations@;
        let root = &mut self.reservations[0];
        root.actors = config.actor_runtime();
        if root.kind == ScopeKind::Ordered {
            root.strategy = config.strategy;
            root.declared = declared;
        }
        proof {
            lemma_same_ids(before, self.reservations@);
        }
    }

    /// The reference to the root scope.
    pub open spec fn refers(&self, scope: ScopeRef) -> bool {
        scope == (ScopeRef {
            supervisor: SupervisorHandle {
                identity: self.node.settings().reservation,
                kind: self.node.scope_kind(),
            },
            actors: self.node.settings().reservation,
            parent_membership: None,
        })
    }

    /// Returns the reference reserved for the root scope.
    pub fn handle(&self) -> (scope: ScopeRef)
        ensures
            self.refers(scope),
    {
        let identity = self.node.config().reservation;
        ScopeRef::new(SupervisorHandle { identity, kind: self.node.kind() }, identity)
    }

    /// Replaces the settings, but for the reserved identity.
    fn configure(&mut self, config: ScopeConfig)
        requires
            old(self).wf(),
            config.reservation == old(self).node.settings().reservation,
        ensures
            final(self).wf(),
            final(self).node.settings() == config,
            final(self).node.scope_kind() == old(self).node.scope_kind(),
            final(self).node.declared() == old(self).node.declared(),
    {
        let ghost before = self.node;
        match &mut self.node {
            ScopeNode::Ordered { config: own, .. } => {
                *own = config;
            },
            ScopeNode::Dynamic { config: own } => {
                *own = config;
            },
        }
        assert(scope_ids(self.node) == scope_ids(before));
        self.refresh_root();
    }

    /// Appends a child together with the reservations of its scopes.
    fn append(&mut self, child: SupervisionChild, reservations: Vec<ScopeReservation>)
        requires
            old(self).wf(),
            old(self).node is Ordered,
            reserved_ids(reservations@) == child_ids(child),
        ensures
            final(self).wf(),
            final(self).node is Ordered,
            final(self).node.settings() == old(self).node.settings(),
            final(self).node.declared() == old(self).node.declared().push(child),
    {
        let ghost before = *self;
        let ghost added = reservations@;
        let mut reservations = reservations;
        self.reservations.append(&mut reservations);
        if let ScopeNode::Ordered { children, .. } = &mut self.node {
            children.push(child);
        }
        proof {
            let old_children = before.node.declared();
            let children = self.node.declared();
            assert(self.reservations@ =~= before.reservations@ + added);
            lemma_reserved_concat(before.reservations@, added);
            lemma_children_push(old_children, child, old_children.len());
            assert(children =~= old_children.push(child));
            assert(children[children.len() - 1] == child);
            assert(self.reservations@[0] == before.reservations@[0]);
            assert(reserved_ids(self.reservations@) =~= scope_ids(self.node));
        }
        self.refresh_root();
    }

    /// Projects the declaration to payload-free data.
    pub fn outline(&self) -> (outline: SupervisionOutline)
        ensures
            crate::supervision::outlines(self.node, outline),
    {
        self.node.outline()
    }

    /// Lowers the declaration to instructions and gives the tree up.
    pub fn into_parts(self) -> (parts: (Vec<LowerOp>, bool))
        ensures
            parts.0@ == crate::supervision::lowered(self.node).0,
            parts.1 == crate::supervision::lowered(self.node).1,
    {
        let mut ops: Vec<LowerOp> = Vec::new();
        let success = self.node.lower(&mut ops);
        assert(ops@ =~= crate::supervision::lowered(self.node).0);
        (ops, success)
    }
}

/// Lists with the same identities in the same places reserve the same.
proof fn lemma_same_ids(a: Seq<ScopeReservation>, b: Seq<ScopeReservation>)
    requires
        a.len() == b.len(),
        forall|i: int| 0 <= i < a.len() ==> (#[trigger] a[i]).id == b[i].id,
    ensures
        reserved_ids(a) == reserved_ids(b),
    decreases a.len(),
{
    if a.len() > 0 {
        assert(a[a.len() - 1].id == b[b.len() - 1].id);
        assert forall|i: int| 0 <= i < a.drop_last().len() implies (
        #[trigger] a.drop_last()[i]).id == b.drop_last()[i].id by {
            assert(a[i].id == b[i].id);
        }
        lemma_same_ids(a.drop_last(), b.drop_last());
    }
}

/// Concatenated lists reserve what both reserve.
proof fn lemma_reserved_concat(a: Seq<ScopeReservation>, b: Seq<ScopeReservation>)
    ensures
        reserved_ids(a + b) == reserved_ids(a).add(reserved_ids(b)),
    decreases b.len(),
{
    if b.len() == 0 {
        assert(a + b =~= a);
        assert(reserved_ids(a).add(reserved_ids(b)) =~= reserved_ids(a));
    } else {
        assert((a + b).drop_last() =~= a + b.drop_last());
        assert((a + b).last() == b.last());
        lemma_reserved_concat(a, b.drop_last());
        assert(reserved_ids(a + b) =~= reserved_ids(a).add(reserved_ids(b)));
    }
}

/// An appended child leaves the identities of the earlier ones.
proof fn lemma_children_push(children: Seq<SupervisionChild>, child: SupervisionChild, n: nat)
    requires
        n <= children.len(),
    ensures
        children_ids(children.push(child), n) == children_ids(children, n),
    decreases n,
{
    if n > 0 {
        lemma_children_push(children, child, (n - 1) as nat);
        assert(children.push(child)[n - 1] == children[n - 1]);
    }
}

/// A single-use, identity-owning ordered supervision tree.
///
/// The tree reserves its identity when it is created, so its scope is
/// available before spawn. Moving a tree into a parent transfers that
/// identity.
pub struct Tree {
    /// The declaration.
    pub inner: TreeData,
}

/// A single-use, identity-owning dynamic supervision tree, which begins empty.
pub struct DynamicTree {
    /// The declaration.
    pub inner: TreeData,
}

/// Ownership of either kind of supervision tree, with the policies of its edge
/// in a parent.
pub struct SubtreeSpec {
    /// The declaration.
    pub inner: TreeData,
    /// Edge restart policy, where one is set.
    pub restart: Option<RestartPolicy>,
    /// Edge shutdown policy, where one is set.
    pub shutdown: Option<Shutdown>,
}

impl SubtreeSpec {
    /// The declaration is well formed.
    pub open spec fn wf(&self) -> bool {
        self.inner.wf()
    }

    /// The declaration of a nested scope.
    pub open spec fn wraps(&self, inner: TreeData) -> bool {
        &&& self.wf()
        &&& self.inner == inner
        &&& self.restart is None
        &&& self.shutdown is None
    }

    /// Takes an ordered tree.
    pub fn ordered(tree: Tree) -> (spec: Self)
        requires
            tree.wf(),
        ensures
            spec.wraps(tree.inner),
    {
        SubtreeSpec { inner: tree.inner, restart: None, shutdown: None }
    }

    /// Takes a dynamic tree.
    pub fn dynamic(tree: DynamicTree) -> (spec: Self)
        requires
            tree.wf(),
        ensures
            spec.wraps(tree.inner),
    {
        SubtreeSpec { inner: tree.inner, restart: None, shutdown: None }
    }

    /// The declaration with that restart mode.
    pub open spec fn sets_restart(&self, mode: RestartMode, spec: Self) -> bool {
        spec == (SubtreeSpec { restart: Some(RestartPolicy { mode }), ..*self })
    }

    /// Sets which exits make the enclosing scope restart this subtree.
    pub fn restart(self, mode: RestartMode) -> (spec: Self)
        ensures
            self.sets_restart(mode, spec),
    {
        SubtreeSpec { restart: Some(RestartPolicy::from_mode(mode)), ..self }
    }

    /// The declaration with that restart policy.
    pub open spec fn sets_restart_policy(&self, policy: RestartPolicy, spec: Self) -> bool {
        spec == (SubtreeSpec { restart: Some(policy), ..*self })
    }

    /// Sets the complete policy used by the enclosing scope to restart this
    /// subtree.
    pub fn restart_policy(self, policy: RestartPolicy) -> (spec: Self)
        ensures
            self.sets_restart_policy(policy, spec),
    {
        SubtreeSpec { restart: Some(policy), ..self }
    }

    /// The declaration with that shutdown policy.
    pub open spec fn sets_shutdown(&self, shutdown: Shutdown, spec: Self) -> bool {
        spec == (SubtreeSpec { shutdown: Some(shutdown), ..*self })
    }

    /// Sets the policy used by the enclosing scope to stop this subtree.
    pub fn shutdown(self, shutdown: Shutdown) -> (spec: Self)
        ensures
            self.sets_shutdown(shutdown, spec),
    {
        SubtreeSpec { shutdown: Some(shutdown), ..self }
    }
}

/// Settings with another restart strategy.
pub open spec fn with_strategy(config: ScopeConfig, strategy: Strategy) -> ScopeConfig {
    ScopeConfig { strategy, ..config }
}

/// Settings `config` with another restart default.
pub open spec fn with_restart(config: ScopeConfig, restart: RestartPolicy) -> ScopeConfig {
    ScopeConfig { default_restart: restart, ..config }
}

/// Settings `config` with another shutdown default.
pub open spec fn with_shutdown(config: ScopeConfig, shutdown: Shutdown) -> ScopeConfig {
    ScopeConfig { default_shutdown: shutdown, ..config }
}

/// Settings `config` with another mailbox capacity.
pub open spec fn with_capacity(config: ScopeConfig, capacity: usize) -> ScopeConfig {
    ScopeConfig { mailbox_capacity: capacity, ..config }
}

impl Tree {
    /// The declaration is a well-formed ordered one.
    pub open spec fn wf(&self) -> bool {
        self.inner.wf() && self.inner.node is Ordered
    }

    /// Settings of the root scope.
    pub open spec fn settings(&self) -> ScopeConfig {
        self.inner.node.settings()
    }

    /// Declared children.
    pub open spec fn children(&self) -> Seq<SupervisionChild> {
        self.inner.node.declared()
    }

    /// Creates an empty ordered scope with standard defaults under a reserved
    /// identity.
    pub fn new(reservation: u64) -> (tree: Self)
        ensures
            tree.wf(),
            tree.settings() == ScopeConfig::standard(reservation),
            tree.children().len() == 0,
    {
        Tree {
            inner: TreeData::reserve(
                ScopeNode::Ordered {
                    config: ScopeConfig::new(reservation),
                    children: Vec::new(),
                },
            ),
        }
    }

    /// Returns the stable reference reserved for this root scope.
    pub fn scope(&self) -> (scope: ScopeRef)
        requires
            self.wf(),
        ensures
            scope == (ScopeRef {
                supervisor: SupervisorHandle {
                    identity: self.settings().reservation,
                    kind: ScopeKind::Ordered,
                },
                actors: self.settings().reservation,
                parent_membership: None,
            }),
    {
        self.inner.handle()
    }

    /// Sets the restart policy inherited by children of this scope.
    pub fn default_restart(self, restart: RestartPolicy) -> (tree: Self)
        requires
            self.wf(),
        ensures
            tree.wf(),
            tree.settings() == with_restart(self.settings(), restart),
            tree.children() == self.children(),
    {
        let mut inner = self.inner;
        let config = ScopeConfig { default_restart: restart, ..inner.node.config() };
        inner.configure(config);
        Tree { inner }
    }

    /// Sets the shutdown policy inherited by children of this scope.
    pub fn default_shutdown(self, shutdown: Shutdown) -> (tree: Self)
        requires
            self.wf(),
        ensures
            tree.wf(),
            tree.settings() == with_shutdown(self.settings(), shutdown),
            tree.children() == self.children(),
    {
        let mut inner = self.inner;
        let config = ScopeConfig { default_shutdown: shutdown, ..inner.node.config() };
        inner.configure(config);
        Tree { inner }
    }

    /// Sets the mailbox capacity inherited by actors directly in this scope.
    pub fn mailbox_capacity(self, capacity: usize) -> (tree: Self)
        requires
            self.wf(),
        ensures
            tree.wf(),
            tree.settings() == with_capacity(self.settings(), capacity),
            tree.children() == self.children(),
    {
        let mut inner = self.inner;
        let config = ScopeConfig { mailbox_capacity: capacity, ..inner.node.config() };
        inner.configure(config);
        Tree { inner }
    }

    /// Sets this scope's restart strategy.
    pub fn strategy(self, strategy: Strategy) -> (tree: Self)
        requires
            self.wf(),
        ensures
            tree.wf(),
            tree.settings() == with_strategy(self.settings(), strategy),
            tree.children() == self.children(),
    {
        let mut inner = self.inner;
        let config = ScopeConfig { strategy, ..inner.node.config() };
        inner.configure(config);
        Tree { inner }
    }

    /// The tree `after` the actor was declared in it.
    pub open spec fn declares_actor<M>(
        &self,
        spec: ActorSpec<M>,
        actor: ActorRef<M>,
        after: Self,
    ) -> bool {
        &&& after.wf()
        &&& after.settings() == self.settings()
        &&& actor.identity == spec.identity
        &&& actor.actor_id == spec.actor_id
        &&& after.children().len() == self.children().len() + 1
        &&& after.children().drop_last() == self.children()
        &&& after.children().last() matches SupervisionChild::Actor(node) && node.policies
            == spec.policies && node.payload == crate::builder::ActorPayload::Deferred(
            crate::builder::DeferredActor {
                actor_id: spec.actor_id,
                identity: spec.identity,
                mailbox_kind: spec.actor_options.mailbox.storage(),
                own_capacity: spec.actor_options.own_capacity(),
            },
        )
    }

    /// Appends an actor declaration and returns its stable typed reference.
    pub fn add_actor_spec<M>(&mut self, spec: ActorSpec<M>) -> (actor: ActorRef<M>)
        requires
            old(self).wf(),
        ensures
            old(self).declares_actor(spec, actor, *final(self)),
    {
        let mut spec = spec;
        let actor = spec.actor_ref();
        let ghost before = self.children();
        let node = spec.into_deferred_node();
        let none: Vec<ScopeReservation> = Vec::new();
        assert(reserved_ids(none@) == child_ids(SupervisionChild::Actor(node)));
        self.inner.append(SupervisionChild::Actor(node), none);
        assert(self.children().drop_last() =~= before);
        actor
    }

    /// The tree `after` the task was declared in it.
    pub open spec fn declares_task(&self, task: TaskSpec, after: Self) -> bool {
        &&& after.wf()
        &&& after.settings() == self.settings()
        &&& after.children() == self.children().push(SupervisionChild::Task(task))
    }

    /// Appends a task declaration.
    pub fn add_task_spec(&mut self, task: TaskSpec)
        requires
            old(self).wf(),
        ensures
            old(self).declares_task(task, *final(self)),
    {
        let none: Vec<ScopeReservation> = Vec::new();
        assert(reserved_ids(none@) == child_ids(SupervisionChild::Task(task)));
        self.inner.append(SupervisionChild::Task(task), none);
    }

    /// The tree `after` the nested scope was declared in it.
    pub open spec fn declares_scope(&self, id: String, tree: SubtreeSpec, after: Self) -> bool {
        &&& after.wf()
        &&& after.settings() == self.settings()
        &&& after.children() == self.children().push(
            SupervisionChild::Scope {
                id,
                node: tree.inner.node,
                restart: tree.restart,
                shutdown: tree.shutdown,
            },
        )
    }

    /// Appends a nested scope with the policies of its edge.
    pub fn add_subtree_spec(&mut self, id: String, tree: SubtreeSpec)
        requires
            old(self).wf(),
            tree.wf(),
        ensures
            old(self).declares_scope(id, tree, *final(self)),
    {
        let SubtreeSpec { inner, restart, shutdown } = tree;
        let TreeData { node, reservations } = inner;
        self.inner.append(SupervisionChild::Scope { id, node, restart, shutdown }, reservations);
    }

    /// The tree `after` the other one was nested in it.
    pub open spec fn declares_tree(&self, id: String, tree: Tree, after: Self) -> bool {
        &&& after.wf()
        &&& after.settings() == self.settings()
        &&& after.children() == self.children().push(
            SupervisionChild::Scope {
                id,
                node: tree.inner.node,
                restart: None,
                shutdown: None,
            },
        )
    }

    /// Appends a nested ordered scope.
    pub fn add_subtree(&mut self, id: String, tree: Tree)
        requires
            old(self).wf(),
            tree.wf(),
        ensures
            old(self).declares_tree(id, tree, *final(self)),
    {
        self.add_subtree_spec(id, SubtreeSpec::ordered(tree));
    }

    /// Projects the declaration to payload-free data.
    pub fn outline(&self) -> (outline: SupervisionOutline)
        requires
            self.wf(),
        ensures
            crate::supervision::outlines(self.inner.node, outline),
    {
        self.inner.outline()
    }

    /// Gives the tree up for the instructions that build and spawn it, and
    /// whether they succeed.
    pub fn spawn(self) -> (parts: (Vec<LowerOp>, bool))
        requires
            self.wf(),
        ensures
            parts.0@ == crate::supervision::lowered(self.inner.node).0,
            parts.1 == crate::supervision::lowered(self.inner.node).1,
    {
        self.inner.into_parts()
    }
}

impl DynamicTree {
    /// The declaration is a well-formed dynamic one.
    pub open spec fn wf(&self) -> bool {
        self.inner.wf() && self.inner.node is Dynamic
    }

    /// Settings of the root scope.
    pub open spec fn settings(&self) -> ScopeConfig {
        self.inner.node.settings()
    }

    /// Creates an empty dynamic scope with standard defaults under a reserved
    /// identity.
    pub fn new(reservation: u64) -> (tree: Self)
        ensures
            tree.wf(),
            tree.settings() == ScopeConfig::standard(reservation),
    {
        DynamicTree {
            inner: TreeData::reserve(ScopeNode::Dynamic { config: ScopeConfig::new(reservation) }),
        }
    }

    /// Returns the stable reference reserved for this root scope.
    pub fn scope(&self) -> (scope: DynamicScopeRef)
        requires
            self.wf(),
        ensures
            scope.wf(),
            scope.scope == (ScopeRef {
                supervisor: SupervisorHandle {
                    identity: self.settings().reservation,
                    kind: ScopeKind::Dynamic,
                },
                actors: self.settings().reservation,
                parent_membership: None,
            }),
    {
        DynamicScopeRef::new(self.inner.handle())
    }

    /// Sets the restart policy inherited by children of this scope.
    pub fn default_restart(self, restart: RestartPolicy) -> (tree: Self)
        requires
            self.wf(),
        ensures
            tree.wf(),
            tree.settings() == with_restart(self.settings(), restart),
    {
        let mut inner = self.inner;
        let config = ScopeConfig { default_restart: restart, ..inner.node.config() };
        inner.configure(config);
        DynamicTree { inner }
    }

    /// Sets the shutdown policy inherited by children of this scope.
    pub fn default_shutdown(self, shutdown: Shutdown) -> (tree: Self)
        requires
            self.wf(),
        ensures
            tree.wf(),
            tree.settings() == with_shutdown(self.settings(), shutdown),
    {
        let mut inner = self.inner;
        let config = ScopeConfig { default_shutdown: shutdown, ..inner.node.config() };
        inner.configure(config);
        DynamicTree { inner }
    }

    /// Sets the mailbox capacity inherited by actors directly in this scope.
    pub fn mailbox_capacity(self, capacity: usize) -> (tree: Self)
        requires
            self.wf(),
        ensures
            tree.wf(),
            tree.settings() == with_capacity(self.settings(), capacity),
    {
        let mut inner = self.inner;
        let config = ScopeConfig { mailbox_capacity: capacity, ..inner.node.config() };
        inner.configure(config);
        DynamicTree { inner }
    }

    /// Projects the declaration to payload-free data.
    pub fn outline(&self) -> (outline: SupervisionOutline)
        requires
            self.wf(),
        ensures
            crate::supervision::outlines(self.inner.node, outline),
            outline.children@.len() == 0,
    {
        self.inner.outline()
    }

    /// Gives the tree up for the instructions that build and spawn it, and
    /// whether they succeed.
    pub fn spawn(self) -> (parts: (Vec<LowerOp>, bool))
        requires
            self.wf(),
        ensures
            parts.0@ == crate::supervision::lowered(self.inner.node).0,
            parts.1 == (self.settings().mailbox_capacity != 0),
    {
        self.inner.into_parts()
    }
}

/// A planned subtree insertion.
pub struct SubtreeInsertion {
    /// Child id of the subtree.
    pub id: String,
    /// Instructions that build the subtree.
    pub ops: Vec<LowerOp>,
    /// Restart policy of the edge, where one is set.
    pub restart: Option<RestartPolicy>,
    /// Shutdown policy of the edge, where one is set.
    pub shutdown: Option<Shutdown>,
    /// Actor runtime that attaches the subtree.
    pub owner: u64,
    /// Actor runtime of the subtree's root scope.
    pub actors: u64,
}

/// The plan for inserting the declared tree `tree` into `scope` under `id`.
pub open spec fn subtree_planned(
    scope: DynamicScopeRef,
    id: String,
    tree: SubtreeSpec,
    view: SupervisorView,
    plan: Result<SubtreeInsertion, ControlError>,
) -> bool {
    match plan {
        Ok(insertion) => {
            &&& scope.controllable(&view)
            &&& crate::supervision::lowered(tree.inner.node).1
            &&& insertion.id == id
            &&& insertion.ops@ == crate::supervision::lowered(tree.inner.node).0
            &&& insertion.restart == tree.restart
            &&& insertion.shutdown == tree.shutdown
            &&& insertion.owner == scope.scope.actors
            &&& insertion.actors == tree.inner.node.settings().reservation
        },
        Err(error) => if !scope.controllable(&view) {
            error == ControlError::Unavailable
        } else {
            &&& !crate::supervision::lowered(tree.inner.node).1
            &&& error matches ControlError::Rejected(BuildError::InvalidConfig(message))
            &&& message@ == "actor mailbox capacity must be non-zero"@
        },
    }
}

impl DynamicScopeRef {
    /// Plans the insertion of a subtree. A scope that takes no control
    /// operations is unavailable; then a declaration that cannot be built is
    /// rejected; otherwise the subtree keeps its reserved identity.
    pub fn add_subtree(&self, id: String, tree: SubtreeSpec, view: &SupervisorView) -> (plan:
        Result<SubtreeInsertion, ControlError>)
        requires
            tree.wf(),
        ensures
            subtree_planned(*self, id, tree, *view, plan),
    {
        if let Err(error) = self.dynamic_supervisor(view) {
            return Err(error);
        }
        let actors = tree.inner.node.config().reservation;
        let (ops, success) = tree.inner.into_parts();
        if !success {
            return Err(
                ControlError::Rejected(
                    BuildError::InvalidConfig("actor mailbox capacity must be non-zero".to_owned()),
                ),
            );
        }
        Ok(
            SubtreeInsertion {
                id,
                ops,
                restart: tree.restart,
                shutdown: tree.shutdown,
                owner: self.scope.actors,
                actors,
            },
        )
    }
}

impl RestrictedScopeRef {
    /// What adding a nested scope comes to.
    pub open spec fn plans_subtree(
        &self,
        id: String,
        tree: SubtreeSpec,
        view: SupervisorView,
        plan: Result<SubtreeInsertion, ControlError>,
    ) -> bool {
        if self.scope().supervisor.kind == ScopeKind::Dynamic {
            subtree_planned((DynamicScopeRef { scope: self.scope() }), id, tree, view, plan)
        } else {
            plan matches Err(error) && error == ControlError::NotDynamic
        }
    }

    /// Plans the insertion of a subtree, where membership is dynamic.
    pub fn add_subtree(&self, id: String, tree: SubtreeSpec, view: &SupervisorView) -> (plan:
        Result<SubtreeInsertion, ControlError>)
        requires
            tree.wf(),
        ensures
            self.plans_subtree(id, tree, *view, plan),
    {
        match self.dynamic() {
            Ok(dynamic) => dynamic.add_subtree(id, tree, view),
            Err(error) => Err(error),
        }
    }
}

/// Identities of the scopes that instructions open.
pub open spec fn opened_ids(ops: Seq<LowerOp>) -> Multiset<u64>
    decreases ops.len(),
{
    if ops.len() == 0 {
        Multiset::empty()
    } else {
        match ops.last() {
            LowerOp::Open { actors, .. } => opened_ids(ops.drop_last()).insert(actors.identity),
            _ => opened_ids(ops.drop_last()),
        }
    }
}

/// Concatenated instructions open what both open.
proof fn lemma_opened_concat(a: Seq<LowerOp>, b: Seq<LowerOp>)
    ensures
        opened_ids(a + b) == opened_ids(a).add(opened_ids(b)),
    decreases b.len(),
{
    if b.len() == 0 {
        assert(a + b =~= a);
        assert(opened_ids(a).add(opened_ids(b)) =~= opened_ids(a));
    } else {
        assert((a + b).drop_last() =~= a + b.drop_last());
        assert((a + b).last() == b.last());
        lemma_opened_concat(a, b.drop_last());
        assert(opened_ids(a + b) =~= opened_ids(a).add(opened_ids(b)));
    }
}

/// A successful lowering opens every scope of the declaration exactly once,
/// under its reserved identity: no reservation is left over.
pub proof fn law_lowering_consumes_every_reservation(tree: TreeData)
    requires
        tree.wf(),
        crate::supervision::lowered(tree.node).1,
    ensures
        opened_ids(crate::supervision::lowered(tree.node).0) == reserved_ids(tree.reservations@),
{
    lemma_lowered_ids(tree.node);
}

/// A successful lowering opens the scopes of the declaration.
proof fn lemma_lowered_ids(node: ScopeNode)
    requires
        crate::supervision::lowered(node).1,
    ensures
        opened_ids(crate::supervision::lowered(node).0) == scope_ids(node),
    decreases node, 0nat,
{
    let config = node.settings();
    let open = seq![
        LowerOp::Open {
            kind: node.scope_kind(),
            strategy: config.strategy,
            actors: config.runtime(),
        },
    ];
    assert(open.drop_last() =~= Seq::empty());
    assert(opened_ids(open.drop_last()) =~= Multiset::empty());
    assert(opened_ids(open) =~= Multiset::empty().insert(config.reservation));
    match node {
        ScopeNode::Dynamic { .. } => {
            assert(open.push(LowerOp::Build).drop_last() =~= open);
        },
        ScopeNode::Ordered { children, .. } => {
            let n = children@.len();
            let ops = crate::supervision::lowered_prefix(children@, n, config.runtime()).0;
            lemma_prefix_ids(children@, n, config.runtime());
            lemma_opened_concat(open, ops);
            assert((open + ops).push(LowerOp::Build).drop_last() =~= open + ops);
            assert(opened_ids(crate::supervision::lowered(node).0) =~= scope_ids(node));
        },
    }
}

/// A successful lowering of the first `n` children opens their scopes.
proof fn lemma_prefix_ids(children: Seq<SupervisionChild>, n: nat, state: ActorRuntimeState)
    requires
        n <= children.len(),
        crate::supervision::lowered_prefix(children, n, state).1,
    ensures
        opened_ids(crate::supervision::lowered_prefix(children, n, state).0) == children_ids(
            children,
            n,
        ),
    decreases children, n,
{
    if n > 0 {
        let before = crate::supervision::lowered_prefix(children, (n - 1) as nat, state);
        let child = children[n - 1];
        let ops = crate::supervision::lowered_child(child, state).0;
        lemma_prefix_ids(children, (n - 1) as nat, state);
        lemma_child_ids(child, state);
        lemma_opened_concat(before.0, ops);
    }
}

/// A successful lowering of a child opens its scopes.
proof fn lemma_child_ids(child: SupervisionChild, state: ActorRuntimeState)
    requires
        crate::supervision::lowered_child(child, state).1,
    ensures
        opened_ids(crate::supervision::lowered_child(child, state).0) == child_ids(child),
    decreases child, 0nat,
{
    let ops = crate::supervision::lowered_child(child, state).0;
    match child {
        SupervisionChild::Scope { node, .. } => {
            lemma_lowered_ids(node);
            assert(ops.drop_last() =~= crate::supervision::lowered(node).0);
        },
        _ => {
            assert(ops.drop_last() =~= Seq::empty());
            assert(opened_ids(ops.drop_last()) =~= Multiset::empty());
        },
    }
}

/// The outline lists the children under their declared ids, in declaration
/// order.
pub proof fn law_outline_keeps_declaration_order(
    node: ScopeNode,
    outline: SupervisionOutline,
    i: int,
)
    requires
        crate::supervision::outlines(node, outline),
        0 <= i < node.declared().len(),
    ensures
        outline.children@.len() == node.declared().len(),
        outline.children@[i].name()@ == node.declared()[i].name(),
{
    match node {
        ScopeNode::Ordered { children, .. } => {
            assert(crate::supervision::child_outlines(
                children@[i],
                outline.children@[i],
                node.settings(),
            ));
        },
        ScopeNode::Dynamic { .. } => {},
    }
}

} // verus!
