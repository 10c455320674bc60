//! What becomes of a declared tree: its outline and its lowering show the
//! declaration.
use vstd::prelude::*;

use crate::builder::{ActorNode, ActorPayload, TerminalMembership};
use crate::host::RunnableActorBuilder;
use crate::membership::ActorRuntimeState;
use crate::outline::{ChildOutline, SupervisionOutline};
use crate::policy::{MailboxShutdown, RestartMode, RestartPolicy, ScopeKind, Shutdown, Strategy};
use crate::scope::{DynamicScopeRef, SupervisorView};
use crate::supervision::{
    lowered, lowered_child, lowered_prefix, LowerOp, ScopeConfig, ScopeNode, SupervisionChild,
};
use crate::tree::{SubtreeInsertion, SubtreeSpec, TreeData};

verus! {

/// `scope` is `node` or a scope declared in it, at any depth.
pub open spec fn within(node: ScopeNode, scope: ScopeNode) -> bool
    decreases node,
{
    node == scope || match node {
        ScopeNode::Ordered { children, .. } => exists|i: int|
            0 <= i < children@.len() && child_within(#[trigger] children@[i], scope),
        ScopeNode::Dynamic { .. } => false,
    }
}

/// `scope` is declared under `child`.
pub open spec fn child_within(child: SupervisionChild, scope: ScopeNode) -> bool
    decreases child,
{
    match child {
        SupervisionChild::Scope { node, .. } => within(node, scope),
        _ => false,
    }
}

/// The settings that a scope declares.
pub open spec fn declared_config(scope: ScopeNode) -> ScopeConfig {
    match scope {
        ScopeNode::Ordered { config, .. } => config,
        ScopeNode::Dynamic { config } => config,
    }
}

/// `op` opens `scope` with the kind, the strategy, the identity and the defaults
/// that it declares.
pub open spec fn opens_as_declared(op: LowerOp, scope: ScopeNode) -> bool {
    &&& op matches LowerOp::Open { kind, strategy, actors }
    &&& kind == ScopeKind::Ordered <==> scope is Ordered
    &&& kind == ScopeKind::Dynamic <==> scope is Dynamic
    &&& strategy == declared_config(scope).strategy
    &&& actors.identity == declared_config(scope).reservation
    &&& actors.default_restart == declared_config(scope).default_restart
    &&& actors.default_shutdown == declared_config(scope).default_shutdown
    &&& actors.actor_builder.mailbox_capacity == declared_config(scope).mailbox_capacity
    &&& actors.default_mailbox_shutdown == MailboxShutdown::Drain
}

/// Some instruction opens `scope` as declared.
pub open spec fn is_opened(ops: Seq<LowerOp>, scope: ScopeNode) -> bool {
    exists|k: int| 0 <= k < ops.len() && opens_as_declared(#[trigger] ops[k], scope)
}

/// What a child lowers to is part of what its scope lowers to.
proof fn lemma_child_is_lowered(
    children: Seq<SupervisionChild>,
    n: nat,
    state: ActorRuntimeState,
    i: int,
    scope: ScopeNode,
)
    requires
        0 <= i < n <= children.len(),
        lowered_prefix(children, n, state).1,
    ensures
        lowered_child(children[i], state).1,
        is_opened(lowered_child(children[i], state).0, scope) ==> is_opened(
            lowered_prefix(children, n, state).0,
            scope,
        ),
    decreases n,
{
    let (before, success) = lowered_prefix(children, (n - 1) as nat, state);
    let ops = lowered_child(children[n - 1], state).0;
    let all = lowered_prefix(children, n, state).0;
    if i < n - 1 {
        lemma_child_is_lowered(children, (n - 1) as nat, state, i, scope);
        if is_opened(lowered_child(children[i], state).0, scope) {
            let k = choose|k: int| 0 <= k < before.len() && opens_as_declared(
                #[trigger] before[k],
                scope,
            );
            assert(all[k] == before[k]);
        }
    } else if is_opened(ops, scope) {
        let k = choose|k: int| 0 <= k < ops.len() && opens_as_declared(#[trigger] ops[k], scope);
        assert(all[before.len() + k] == ops[k]);
    }
}

/// Each scope of a declaration that can be lowered is opened with the settings
/// that it declares.
pub proof fn law_scopes_open_as_declared(node: ScopeNode, scope: ScopeNode)
    requires
        lowered(node).1,
        within(node, scope),
    ensures
        is_opened(lowered(node).0, scope),
    decreases node, 1nat,
{
    let ops = lowered(node).0;
    assert(opens_as_declared(ops[0], node));
    if node != scope {
        match node {
            ScopeNode::Ordered { config, children } => {
                let i = choose|i: int|
                    0 <= i < children@.len() && child_within(#[trigger] children@[i], scope);
                let state = node.settings().runtime();
                lemma_child_is_lowered(children@, children@.len(), state, i, scope);
                lemma_child_opens(children@[i], state, scope);
                let inner = lowered_prefix(children@, children@.len(), state).0;
                let k = choose|k: int| 0 <= k < inner.len() && opens_as_declared(
                    #[trigger] inner[k],
                    scope,
                );
                assert(ops[k + 1] == inner[k]);
            },
            ScopeNode::Dynamic { .. } => {},
        }
    }
}

/// A scope under a child is opened by what the child lowers to.
proof fn lemma_child_opens(child: SupervisionChild, state: ActorRuntimeState, scope: ScopeNode)
    requires
        lowered_child(child, state).1,
        child_within(child, scope),
    ensures
        is_opened(lowered_child(child, state).0, scope),
    decreases child, 0nat,
{
    if let SupervisionChild::Scope { node, .. } = child {
        law_scopes_open_as_declared(node, scope);
        let inner = lowered(node).0;
        let ops = lowered_child(child, state).0;
        let k = choose|k: int| 0 <= k < inner.len() && opens_as_declared(#[trigger] inner[k], scope);
        assert(ops[k] == inner[k]);
    }
}

/// Every instruction that opens a scope opens a declared one.
pub proof fn law_only_declared_scopes_open(node: ScopeNode, k: int)
    requires
        0 <= k < lowered(node).0.len(),
        lowered(node).0[k] is Open,
    ensures
        exists|scope: ScopeNode| #[trigger]
            within(node, scope) && opens_as_declared(lowered(node).0[k], scope),
    decreases node, 1nat,
{
    let ops = lowered(node).0;
    if node.settings().mailbox_capacity != 0 {
        if k == 0 {
            assert(within(node, node));
            assert(opens_as_declared(ops[0], node));
        } else if let ScopeNode::Ordered { config, children } = node {
            let state = node.settings().runtime();
            let inner = lowered_prefix(children@, children@.len(), state).0;
            assert(ops[k] == inner[k - 1]);
            lemma_only_declared_children_open(node, children@, children@.len(), state, k - 1);
        }
    }
}

/// Every opening among the first `n` children is that of a declared scope.
proof fn lemma_only_declared_children_open(
    parent: ScopeNode,
    children: Seq<SupervisionChild>,
    n: nat,
    state: ActorRuntimeState,
    k: int,
)
    requires
        parent is Ordered,
        parent->children@ == children,
        n <= children.len(),
        0 <= k < lowered_prefix(children, n, state).0.len(),
        lowered_prefix(children, n, state).0[k] is Open,
    ensures
        exists|scope: ScopeNode| #[trigger]
            within(parent, scope) && opens_as_declared(
                lowered_prefix(children, n, state).0[k],
                scope,
            ),
    decreases parent, 0nat, n,
{
    if n > 0 {
        let (before, success) = lowered_prefix(children, (n - 1) as nat, state);
        let all = lowered_prefix(children, n, state).0;
        if k < before.len() {
            assert(all[k] == before[k]);
            lemma_only_declared_children_open(parent, children, (n - 1) as nat, state, k);
        } else {
            let ops = lowered_child(children[n - 1], state).0;
            assert(all[k] == ops[k - before.len()]);
            if let SupervisionChild::Scope { id, node, restart, shutdown } = children[n - 1] {
                let inner = lowered(node).0;
                assert(k - before.len() < inner.len());
                assert(ops[k - before.len()] == inner[k - before.len()]);
                assert(decreases_to!(parent => children[n - 1]));
                law_only_declared_scopes_open(node, k - before.len());
                let scope = choose|scope: ScopeNode| #[trigger]
                    within(node, scope) && opens_as_declared(inner[k - before.len()], scope);
                assert(child_within(children[n - 1], scope));
                assert(within(parent, scope));
            }
        }
    }
}

/// The scope has a mailbox capacity, and so has each of its actors that asks for
/// one of its own.
pub open spec fn has_capacities(scope: ScopeNode) -> bool {
    &&& declared_config(scope).mailbox_capacity != 0
    &&& scope matches ScopeNode::Ordered { children, .. } ==> forall|i: int|
        0 <= i < children@.len() ==> (#[trigger] children@[i] matches SupervisionChild::Actor(actor)
            ==> (actor.payload matches ActorPayload::Deferred(deferred) ==> deferred.own_capacity
            != Some(0usize)))
}

/// A declaration is refused exactly where some mailbox in it would hold nothing.
pub proof fn law_lowering_needs_capacities(node: ScopeNode)
    ensures
        lowered(node).1 <==> forall|scope: ScopeNode| #[trigger]
            within(node, scope) ==> has_capacities(scope),
{
    if lowered(node).1 {
        assert forall|scope: ScopeNode| #[trigger] within(node, scope) implies has_capacities(
            scope,
        ) by {
            lemma_lowered_scopes_have_capacities(node, scope);
        }
    }
    if forall|scope: ScopeNode| #[trigger] within(node, scope) ==> has_capacities(scope) {
        lemma_capacities_suffice(node);
    }
}

/// Each child of a scope that can be lowered can be lowered.
proof fn lemma_children_are_lowered(
    children: Seq<SupervisionChild>,
    n: nat,
    state: ActorRuntimeState,
    i: int,
)
    requires
        0 <= i < n <= children.len(),
        lowered_prefix(children, n, state).1,
    ensures
        lowered_child(children[i], state).1,
    decreases n,
{
    if i < n - 1 {
        lemma_children_are_lowered(children, (n - 1) as nat, state, i);
    }
}

proof fn lemma_lowered_scopes_have_capacities(node: ScopeNode, scope: ScopeNode)
    requires
        lowered(node).1,
        within(node, scope),
    ensures
        has_capacities(scope),
    decreases node,
{
    if let ScopeNode::Ordered { config, children } = node {
        let state = node.settings().runtime();
        assert forall|i: int| 0 <= i < children@.len() implies lowered_child(
            #[trigger] children@[i],
            state,
        ).1 by {
            lemma_children_are_lowered(children@, children@.len(), state, i);
        }
        if node != scope {
            let i = choose|i: int|
                0 <= i < children@.len() && child_within(#[trigger] children@[i], scope);
            if let SupervisionChild::Scope { node: nested, .. } = children@[i] {
                lemma_lowered_scopes_have_capacities(nested, scope);
            }
        }
    }
}

proof fn lemma_capacities_suffice(node: ScopeNode)
    requires
        forall|scope: ScopeNode| #[trigger] within(node, scope) ==> has_capacities(scope),
    ensures
        lowered(node).1,
    decreases node, 1nat,
{
    assert(within(node, node));
    if let ScopeNode::Ordered { config, children } = node {
        lemma_capacities_suffice_below(node, children@.len());
    }
}

proof fn lemma_capacities_suffice_below(node: ScopeNode, n: nat)
    requires
        forall|scope: ScopeNode| #[trigger] within(node, scope) ==> has_capacities(scope),
        node is Ordered,
        n <= node->children@.len(),
    ensures
        lowered_prefix(node->children@, n, node.settings().runtime()).1,
    decreases node, 0nat, n,
{
    if n > 0 {
        let child = node->children@[n - 1];
        lemma_capacities_suffice_below(node, (n - 1) as nat);
        assert(within(node, node));
        match child {
            SupervisionChild::Scope { node: nested, .. } => {
                assert(decreases_to!(node => child));
                assert forall|scope: ScopeNode| #[trigger] within(
                    nested,
                    scope,
                ) implies has_capacities(scope) by {
                    assert(child_within(child, scope));
                    assert(within(node, scope));
                }
                lemma_capacities_suffice(nested);
            },
            SupervisionChild::Actor(actor) => {
                assert(has_capacities(node));
                assert(actor.valid());
            },
            _ => {},
        }
        let state = node.settings().runtime();
        assert(lowered_child(child, state).1);
        assert(lowered_prefix(node->children@, (n - 1) as nat, state).1);
    }
}

/// A refused declaration ends with the refusal, and with a scope that is not
/// built.
pub proof fn law_refused_declarations_are_not_built(node: ScopeNode)
    ensures
        lowered(node).0.len() > 0,
        lowered(node).1 ==> lowered(node).0.last() is Build && lowered(node).0.first() is Open,
        !lowered(node).1 ==> lowered(node).0.last() is RejectCapacity,
    decreases node, 1nat,
{
    if node.settings().mailbox_capacity != 0 {
        if let ScopeNode::Ordered { config, children } = node {
            lemma_refused_children(node, children@.len());
        }
    }
}

proof fn lemma_refused_children(node: ScopeNode, n: nat)
    requires
        node is Ordered,
        n <= node->children@.len(),
    ensures
        !lowered_prefix(node->children@, n, node.settings().runtime()).1 ==> {
            let ops = lowered_prefix(node->children@, n, node.settings().runtime()).0;
            ops.len() > 0 && ops.last() is RejectCapacity
        },
    decreases node, 0nat, n,
{
    if n > 0 {
        lemma_refused_children(node, (n - 1) as nat);
        let child = node->children@[n - 1];
        if let SupervisionChild::Scope { node: nested, .. } = child {
            assert(decreases_to!(node => child));
            law_refused_declarations_are_not_built(nested);
        }
        let state = node.settings().runtime();
        let (before, success) = lowered_prefix(node->children@, (n - 1) as nat, state);
        let ops = lowered_child(child, state).0;
        if success && !lowered_child(child, state).1 {
            assert(ops.len() > 0 && ops.last() is RejectCapacity);
            assert((before + ops).last() == ops.last());
        }
    }
}

/// What the first `parts.len()` children lower to, one after the other.
pub open spec fn concatenated(parts: Seq<Seq<LowerOp>>) -> Seq<LowerOp>
    decreases parts.len(),
{
    if parts.len() == 0 {
        Seq::empty()
    } else {
        concatenated(parts.drop_last()) + parts.last()
    }
}

/// An ordered scope that can be lowered is opened, then its children follow in
/// declaration order, and then it is built.
pub proof fn law_children_are_lowered_in_order(node: ScopeNode)
    requires
        node is Ordered,
        lowered(node).1,
    ensures
        exists|parts: Seq<Seq<LowerOp>>|
            {
                &&& parts.len() == node->children@.len()
                &&& lowered(node).0 == seq![lowered(node).0[0]] + #[trigger] concatenated(parts)
                    + seq![LowerOp::Build]
                &&& forall|i: int|
                    0 <= i < parts.len() ==> {
                        &&& (#[trigger] parts[i]).len() > 0
                        &&& node->children@[i] is Actor ==> parts[i].len() == 1
                            && parts[i][0] is Actor
                        &&& node->children@[i] matches SupervisionChild::Task(task) ==> parts[i]
                            == seq![LowerOp::Task(task)]
                        &&& node->children@[i] is Scope ==> parts[i].first() is Open
                            && parts[i].last() is Attach
                    }
            },
{
    let children = node->children@;
    let state = node.settings().runtime();
    let parts = Seq::new(children.len(), |i: int| lowered_child(children[i], state).0);
    lemma_concatenated(children, children.len(), state, parts);
    assert(parts.take(children.len() as int) =~= parts);
    assert(lowered(node).0 =~= seq![lowered(node).0[0]] + concatenated(parts) + seq![
        LowerOp::Build,
    ]);
    assert forall|i: int| 0 <= i < parts.len() implies {
        &&& (#[trigger] parts[i]).len() > 0
        &&& children[i] is Actor ==> parts[i].len() == 1 && parts[i][0] is Actor
        &&& children[i] matches SupervisionChild::Task(task) ==> parts[i] == seq![
            LowerOp::Task(task),
        ]
        &&& children[i] is Scope ==> parts[i].first() is Open && parts[i].last() is Attach
    } by {
        lemma_children_are_lowered(children, children.len(), state, i);
        if let SupervisionChild::Scope { node: nested, .. } = children[i] {
            law_refused_declarations_are_not_built(nested);
        }
    }
}

proof fn lemma_concatenated(
    children: Seq<SupervisionChild>,
    n: nat,
    state: ActorRuntimeState,
    parts: Seq<Seq<LowerOp>>,
)
    requires
        n <= children.len() == parts.len(),
        lowered_prefix(children, n, state).1,
        forall|i: int|
            0 <= i < parts.len() ==> #[trigger] parts[i] == lowered_child(children[i], state).0,
    ensures
        lowered_prefix(children, n, state).0 == concatenated(parts.take(n as int)),
    decreases n,
{
    if n > 0 {
        lemma_concatenated(children, (n - 1) as nat, state, parts);
        assert(parts.take(n as int).drop_last() =~= parts.take(n - 1));
        assert(parts.take(n as int).last() == parts[n - 1]);
    } else {
        assert(parts.take(0) =~= Seq::empty());
    }
}

/// A nested scope is attached to the scope that declares it, under its own id
/// and policies, once it is built.
pub proof fn law_nested_scopes_are_attached(
    id: String,
    node: ScopeNode,
    restart: Option<RestartPolicy>,
    shutdown: Option<Shutdown>,
    state: ActorRuntimeState,
)
    ensures
        ({
            let child = SupervisionChild::Scope { id, node, restart, shutdown };
            let (ops, success) = lowered_child(child, state);
            &&& success == lowered(node).1
            &&& success ==> ops == lowered(node).0 + seq![
                LowerOp::Attach {
                    id,
                    restart,
                    shutdown,
                    owner: state.identity,
                    actors: declared_config(node).reservation,
                },
            ]
            &&& !success ==> ops == lowered(node).0
        }),
{
    let child = SupervisionChild::Scope { id, node, restart, shutdown };
    if lowered(node).1 {
        assert(lowered_child(child, state).0 =~= lowered(node).0 + seq![
            LowerOp::Attach {
                id,
                restart,
                shutdown,
                owner: state.identity,
                actors: declared_config(node).reservation,
            },
        ]);
    }
}

/// `own` where it is set, and `inherited` where it is not.
pub open spec fn set_or_inherited<T>(own: Option<T>, inherited: T, result: T) -> bool {
    &&& own matches Some(value) ==> result == value
    &&& own is None ==> result == inherited
}

/// An actor is lowered with the policies that it sets, the rest from its scope;
/// its mailbox has its own capacity or that of the scope.
pub proof fn law_actors_inherit_from_their_scope(actor: ActorNode, state: ActorRuntimeState)
    requires
        actor.payload matches ActorPayload::Deferred(deferred) ==> deferred.own_capacity
            != Some(0usize),
    ensures
        lowered_child(SupervisionChild::Actor(actor), state).1,
        lowered_child(SupervisionChild::Actor(actor), state).0.len() == 1,
        lowered_child(SupervisionChild::Actor(actor), state).0[0] matches LowerOp::Actor(spec) && {
            &&& spec.owner == state.identity
            &&& set_or_inherited(actor.policies.restart, state.default_restart, spec.restart)
            &&& set_or_inherited(actor.policies.shutdown, state.default_shutdown, spec.shutdown)
            &&& actor.policies.mailbox_shutdown matches Some(own) ==> spec.drain_messages == (own
                == MailboxShutdown::Drain)
            &&& actor.policies.mailbox_shutdown is None ==> spec.drain_messages == (
            state.default_mailbox_shutdown == MailboxShutdown::Drain)
            &&& spec.abort_after_grace == (spec.shutdown is Graceful)
            &&& spec.remove_when_done == (actor.policies.terminal_membership
                == TerminalMembership::Remove)
            &&& actor.payload matches ActorPayload::Ready(ready) ==> spec.actor == ready
            &&& actor.payload matches ActorPayload::Deferred(deferred) ==> {
                &&& spec.actor.label == deferred.actor_id
                &&& spec.actor.identity == deferred.identity
                &&& spec.actor.mailbox_kind == deferred.mailbox_kind
                &&& set_or_inherited(
                    deferred.own_capacity,
                    state.actor_builder.mailbox_capacity,
                    spec.actor.mailbox_capacity,
                )
                &&& !spec.actor.running
            }
        },
{
}

/// The outline of a scope shows what the scope declares, and its children in
/// declaration order.
pub proof fn law_outlines_show_the_declaration(node: ScopeNode, outline: SupervisionOutline)
    requires
        crate::supervision::outlines(node, outline),
    ensures
        outline.kind == ScopeKind::Ordered <==> node is Ordered,
        outline.strategy == declared_config(node).strategy,
        outline.default_restart == declared_config(node).default_restart,
        outline.default_shutdown == declared_config(node).default_shutdown,
        node is Dynamic ==> outline.children@.len() == 0,
        node matches ScopeNode::Ordered { children, .. } ==> outline.children@.len()
            == children@.len(),
{
}

/// The outline of a child shows its id, and the policies that it sets or else
/// inherits from its scope.
pub proof fn law_outlines_show_inherited_policies(
    node: ScopeNode,
    outline: SupervisionOutline,
    i: int,
)
    requires
        crate::supervision::outlines(node, outline),
        node is Ordered,
        0 <= i < node->children@.len(),
    ensures
        node->children@[i] matches SupervisionChild::Actor(actor) ==> (
        outline.children@[i] matches ChildOutline::Actor { id, restart, shutdown, remove_when_done }
            && set_or_inherited(actor.policies.restart, outline.default_restart, restart)
            && set_or_inherited(actor.policies.shutdown, outline.default_shutdown, shutdown)
            && remove_when_done == (actor.policies.terminal_membership == TerminalMembership::Remove)
            && id@ == match actor.payload {
            ActorPayload::Deferred(deferred) => deferred.actor_id@,
            ActorPayload::Ready(ready) => ready.label@,
        }),
        node->children@[i] matches SupervisionChild::Task(task) ==> (
        outline.children@[i] matches ChildOutline::Task { id, restart, shutdown, remove_when_done }
            && set_or_inherited(task.restart, outline.default_restart, restart)
            && set_or_inherited(task.shutdown, outline.default_shutdown, shutdown)
            && remove_when_done == task.remove_when_done && id@ == task.id@),
        node->children@[i] matches SupervisionChild::Scope { id, node: nested, restart, shutdown }
            ==> (outline.children@[i] matches ChildOutline::Scope {
            id: shown,
            restart: own_restart,
            shutdown: own_shutdown,
            outline: inner,
        } && shown@ == id@ && set_or_inherited(restart, outline.default_restart, own_restart)
            && set_or_inherited(shutdown, outline.default_shutdown, own_shutdown) && inner.strategy
            == declared_config(nested).strategy),
{
    let child = node->children@[i];
    assert(crate::supervision::child_outlines(child, outline.children@[i], node.settings()));
}

/// Scopes start out one-for-one, with restarts after failures, five seconds of
/// grace and mailboxes of sixty-four messages, under their reserved identity.
pub proof fn law_standard_settings(reservation: u64)
    ensures
        ScopeConfig::standard(reservation) == (ScopeConfig {
            strategy: Strategy::OneForOne,
            default_restart: RestartPolicy { mode: RestartMode::OnFailure },
            default_shutdown: Shutdown::Graceful { grace: 5_000_000_000 },
            mailbox_capacity: 64,
            reservation,
        }),
{
}

/// The actor runtime of a scope has the scope's identity and defaults.
pub proof fn law_runtimes_have_the_settings_of_their_scope(config: ScopeConfig)
    ensures
        config.runtime() == (ActorRuntimeState {
            identity: config.reservation,
            actor_builder: RunnableActorBuilder { mailbox_capacity: config.mailbox_capacity },
            default_restart: config.default_restart,
            default_shutdown: config.default_shutdown,
            default_mailbox_shutdown: MailboxShutdown::Drain,
        }),
{
}

/// Each setting is changed alone.
pub proof fn law_settings_are_independent(
    config: ScopeConfig,
    restart: RestartPolicy,
    shutdown: Shutdown,
    capacity: usize,
)
    ensures
        ({
            let changed = crate::tree::with_restart(config, restart);
            &&& changed.default_restart == restart
            &&& changed.default_shutdown == config.default_shutdown
            &&& changed.mailbox_capacity == config.mailbox_capacity
            &&& changed.strategy == config.strategy
            &&& changed.reservation == config.reservation
        }),
        ({
            let changed = crate::tree::with_shutdown(config, shutdown);
            &&& changed.default_shutdown == shutdown
            &&& changed.default_restart == config.default_restart
            &&& changed.mailbox_capacity == config.mailbox_capacity
            &&& changed.strategy == config.strategy
            &&& changed.reservation == config.reservation
        }),
        ({
            let changed = crate::tree::with_capacity(config, capacity);
            &&& changed.mailbox_capacity == capacity
            &&& changed.default_restart == config.default_restart
            &&& changed.default_shutdown == config.default_shutdown
            &&& changed.strategy == config.strategy
            &&& changed.reservation == config.reservation
        }),
{
}

/// A tree that has been reserved shows its root scope as it is declared.
pub proof fn law_reservations_show_the_root(tree: TreeData)
    requires
        tree.wf(),
    ensures
        ({
            let root = tree.reservations@[0];
            &&& root.id == declared_config(tree.node).reservation
            &&& root.kind == ScopeKind::Ordered <==> tree.node is Ordered
            &&& root.actors.identity == declared_config(tree.node).reservation
            &&& root.actors.default_restart == declared_config(tree.node).default_restart
            &&& root.actors.default_shutdown == declared_config(tree.node).default_shutdown
            &&& tree.node is Ordered ==> root.strategy == declared_config(tree.node).strategy
            &&& tree.node matches ScopeNode::Ordered { children, .. } ==> root.declared@.len()
                == children@.len()
        }),
{
    if let ScopeNode::Ordered { children, .. } = tree.node {
        assert(crate::tree::declared_views(tree.reservations@[0].declared@).len()
            == children@.len());
    }
}

/// A subtree joins a running dynamic scope with its own lowering and policies. A
/// scope that is ordered or gone takes none, and one whose mailboxes would hold
/// nothing is refused.
pub proof fn law_subtrees_join_dynamic_scopes(
    scope: DynamicScopeRef,
    id: String,
    tree: SubtreeSpec,
    view: SupervisorView,
    plan: Result<SubtreeInsertion, crate::policy::ControlError>,
)
    requires
        crate::tree::subtree_planned(scope, id, tree, view, plan),
    ensures
        plan is Ok <==> scope.scope.supervisor.kind == ScopeKind::Dynamic && view.available
            && lowered(tree.inner.node).1,
        plan matches Ok(insertion) ==> {
            &&& insertion.id == id
            &&& insertion.ops@ == lowered(tree.inner.node).0
            &&& insertion.restart == tree.restart
            &&& insertion.shutdown == tree.shutdown
            &&& insertion.owner == scope.scope.actors
            &&& insertion.actors == declared_config(tree.inner.node).reservation
        },
        scope.scope.supervisor.kind != ScopeKind::Dynamic || !view.available ==> plan == Err::<
            SubtreeInsertion,
            _,
        >(crate::policy::ControlError::Unavailable),
        scope.scope.supervisor.kind == ScopeKind::Dynamic && view.available && !lowered(
            tree.inner.node,
        ).1 ==> {
            &&& plan matches Err(
                crate::policy::ControlError::Rejected(
                    crate::policy::BuildError::InvalidConfig(message),
                ),
            )
            &&& message@ == "actor mailbox capacity must be non-zero"@
        },
{
}

} // verus!
