//! What declarations keep: every setting is set alone, children are declared in
//! order, and what is shown of a declaration is what was declared.
use vstd::prelude::*;

use crate::binding::BindingCore;
use crate::builder::{
    ActorNode, ActorOptions, ActorOptionsValidationError, ActorPayload, ActorSlot, ActorSpec,
    DeferredActor, RestartConfig, TerminalMembership,
};
use crate::delivery::ActorRef;
use crate::mailbox::Mailbox;
use crate::membership::RestrictedScopeRef;
use crate::policy::{
    BuildError, ControlError, MailboxShutdown, RestartMode, RestartPolicy, Shutdown, Strategy,
};
use crate::scope::{DynamicScopeRef, ScopeRef, SupervisorView};
use crate::supervision::{LowerOp, ScopeConfig, ScopeNode, SupervisionChild, TaskInsertion, TaskSpec};
use crate::tree::{SubtreeInsertion, SubtreeSpec, Tree, TreeData};

verus! {

/// Both declare the same actor with the same mailbox.
pub open spec fn same_actor<M>(one: ActorSpec<M>, other: ActorSpec<M>) -> bool {
    &&& one.actor_id == other.actor_id
    &&& one.identity == other.identity
    &&& one.referenced == other.referenced
}

/// Setting one policy of an actor sets that one and leaves the others, its
/// mailbox and its name alone.
pub proof fn law_actor_policies_are_set_alone<M>(
    spec: ActorSpec<M>,
    restart: RestartPolicy,
    shutdown: Shutdown,
    mailbox_shutdown: MailboxShutdown,
    config: RestartConfig,
    membership: TerminalMembership,
    after: ActorSpec<M>,
)
    ensures
        ({
            let before = spec.policies;
            let set = after.policies;
            let kept = same_actor(spec, after) && after.actor_options == spec.actor_options;
            &&& spec.sets_restart(restart, after) ==> kept && set.restart == Some(restart)
                && set.shutdown == before.shutdown && set.mailbox_shutdown
                == before.mailbox_shutdown && set.restart_config == before.restart_config
                && set.terminal_membership == before.terminal_membership
            &&& spec.sets_shutdown(shutdown, after) ==> kept && set.shutdown == Some(shutdown)
                && set.restart == before.restart && set.mailbox_shutdown == before.mailbox_shutdown
                && set.restart_config == before.restart_config && set.terminal_membership
                == before.terminal_membership
            &&& spec.sets_mailbox_shutdown(mailbox_shutdown, after) ==> kept
                && set.mailbox_shutdown == Some(mailbox_shutdown) && set.restart == before.restart
                && set.shutdown == before.shutdown && set.restart_config == before.restart_config
                && set.terminal_membership == before.terminal_membership
            &&& spec.sets_restart_config(config, after) ==> kept && set.restart_config == Some(
                config,
            ) && set.restart == before.restart && set.shutdown == before.shutdown
                && set.mailbox_shutdown == before.mailbox_shutdown && set.terminal_membership
                == before.terminal_membership
            &&& spec.sets_terminal_membership(membership, after) ==> kept
                && set.terminal_membership == membership && set.restart == before.restart
                && set.shutdown == before.shutdown && set.mailbox_shutdown
                == before.mailbox_shutdown && set.restart_config == before.restart_config
        }),
{
}

/// The policies of a slot are those of the actor that it declares.
pub proof fn law_slot_policies_are_set_alone<M>(
    slot: ActorSlot<M>,
    restart: RestartPolicy,
    shutdown: Shutdown,
    config: RestartConfig,
    membership: TerminalMembership,
    capacity: usize,
    mailbox: Mailbox<M>,
    after: ActorSlot<M>,
)
    ensures
        slot.sets_restart(restart, after) <==> slot.spec.sets_restart(restart, after.spec),
        slot.sets_shutdown(shutdown, after) <==> slot.spec.sets_shutdown(shutdown, after.spec),
        slot.sets_restart_config(config, after) <==> slot.spec.sets_restart_config(
            config,
            after.spec,
        ),
        slot.sets_terminal_membership(membership, after)
            <==> slot.spec.sets_terminal_membership(membership, after.spec),
        slot.sets_capacity(capacity, after) <==> slot.spec.sets_capacity(capacity, after.spec),
        slot.sets_mailbox(mailbox, after) <==> slot.spec.sets_mailbox(mailbox, after.spec),
{
}

/// The mailbox and the capacity of an actor are set each alone, and neither
/// touches its policies.
pub proof fn law_mailbox_settings_are_set_alone<M>(
    spec: ActorSpec<M>,
    capacity: usize,
    mailbox: Mailbox<M>,
    after: ActorSpec<M>,
    options: ActorOptions<M>,
    options_after: ActorOptions<M>,
)
    ensures
        spec.sets_capacity(capacity, after) ==> same_actor(spec, after) && after.policies
            == spec.policies && same_measure(spec.actor_options, after.actor_options) && after.actor_options.mailbox_capacity
            == Some(capacity) && after.actor_options.mailbox == spec.actor_options.mailbox,
        spec.sets_mailbox(mailbox, after) ==> same_actor(spec, after) && after.policies
            == spec.policies && same_measure(spec.actor_options, after.actor_options) && after.actor_options.mailbox
            == mailbox && after.actor_options.mailbox_capacity
            == spec.actor_options.mailbox_capacity,
        options.sets_capacity(capacity, options_after) ==> same_measure(options, options_after)
            && options_after.mailbox_capacity == Some(capacity) && options_after.mailbox
            == options.mailbox,
        options.sets_mailbox(mailbox, options_after) ==> same_measure(options, options_after)
            && options_after.mailbox == mailbox && options_after.mailbox_capacity
            == options.mailbox_capacity,
{
}

/// The measure of messages stays as it was.
pub open spec fn same_measure<M>(before: ActorOptions<M>, after: ActorOptions<M>) -> bool {
    after.size_hint == before.size_hint
}

/// A reference to a declared actor is one to that very actor, and taking it
/// changes nothing else of the declaration.
pub proof fn law_references_to_declared_actors<M>(
    spec: ActorSpec<M>,
    actor: ActorRef<M>,
    after: ActorSpec<M>,
    slot: ActorSlot<M>,
    slot_actor: ActorRef<M>,
    slot_after: ActorSlot<M>,
)
    requires
        spec.refers(actor, after),
        slot.refers(slot_actor, slot_after),
    ensures
        actor.identity == spec.identity && actor.actor_id == spec.actor_id
            && actor.source_actor_id is None,
        after.referenced && after.actor_id == spec.actor_id && after.identity == spec.identity
            && after.actor_options == spec.actor_options && after.policies == spec.policies,
        slot.spec.refers(slot_actor, slot_after.spec),
{
}

/// The slot of a declared actor starts out open, with nothing sent, received or
/// watched, and measures messages exactly where a measure was declared.
pub proof fn law_slots_start_out_open<M>(spec: ActorSpec<M>, core: BindingCore<M>)
    requires
        spec.starts_as(core),
    ensures
        core.identity == spec.identity && core.actor_id == spec.actor_id,
        core.current is Unbound,
        core.latest_bind_run is None && !core.released,
        core.counters.messages_received == 0 && core.counters.messages_accepted == 0
            && core.counters.messages_conflated == 0 && core.counters.sends_rejected == 0
            && core.counters.message_bytes_accepted == 0 && core.counters.outstanding_offloads == 0,
        core.size_hint == spec.actor_options.size_hint,
        core.counters.observe_message_size <==> spec.actor_options.size_hint is Some,
        core.monitors@.watches.len() == 0 && core.monitors@.runs.dom() == Set::<u64>::empty(),
        core.monitors@.next_generation == 0 && core.monitors@.epoch == 0
            && core.monitors@.last_generation is None && !core.monitors@.removal_requested,
        core.outbound_monitors.watches@.len() == 0 && !core.outbound_monitors.terminated
            && core.outbound_monitors.epoch == 0 && core.outbound_monitors.next_watch == 0,
{
}

/// Options, deferred actors and nodes are refused exactly where they ask for room
/// for no message at all.
pub proof fn law_room_for_a_message_is_needed<M>(
    options: ActorOptions<M>,
    deferred: DeferredActor,
    node: ActorNode,
    valid: Result<(), ActorOptionsValidationError>,
)
    ensures
        options.checks(valid) ==> (valid is Err <==> match options.mailbox_capacity {
            Some(capacity) => capacity == 0,
            None => options.mailbox.capacity == Some(0usize),
        }),
        deferred.checks(valid) ==> (valid is Err <==> deferred.own_capacity == Some(0usize)),
        node.checks(valid) ==> (valid is Err <==> match node.payload {
            ActorPayload::Deferred(deferred) => deferred.own_capacity == Some(0usize),
            ActorPayload::Ready(_) => false,
        }),
{
}

/// The reference to a declared tree names its reserved scope, of its kind, as one
/// that is nobody's member.
pub proof fn law_references_to_declared_trees(tree: TreeData, scope: ScopeRef)
    requires
        tree.refers(scope),
    ensures
        ({
            let config = match tree.node {
                ScopeNode::Ordered { config, .. } => config,
                ScopeNode::Dynamic { config } => config,
            };
            &&& scope.supervisor.identity == config.reservation
            &&& scope.actors == config.reservation
            &&& scope.supervisor.kind is Ordered <==> tree.node is Ordered
            &&& scope.parent_membership is None
        }),
{
}

/// A nested scope starts out with the policies around it, and each of its own is
/// set alone.
pub proof fn law_nested_scope_policies(
    tree: TreeData,
    spec: SubtreeSpec,
    mode: RestartMode,
    policy: RestartPolicy,
    shutdown: Shutdown,
    after: SubtreeSpec,
)
    ensures
        spec.wraps(tree) ==> spec.inner == tree && spec.restart is None && spec.shutdown is None,
        spec.sets_restart(mode, after) ==> after.inner == spec.inner && after.shutdown
            == spec.shutdown && after.restart is Some && after.restart->0.mode == mode,
        spec.sets_restart_policy(policy, after) ==> after.inner == spec.inner && after.shutdown
            == spec.shutdown && after.restart == Some(policy),
        spec.sets_shutdown(shutdown, after) ==> after.inner == spec.inner && after.restart
            == spec.restart && after.shutdown == Some(shutdown),
{
}

/// The strategy of a scope is set alone.
pub proof fn law_strategy_is_set_alone(config: ScopeConfig, strategy: Strategy)
    ensures
        ({
            let changed = crate::tree::with_strategy(config, strategy);
            &&& changed.strategy == strategy
            &&& changed.default_restart == config.default_restart
            &&& changed.default_shutdown == config.default_shutdown
            &&& changed.mailbox_capacity == config.mailbox_capacity
            &&& changed.reservation == config.reservation
        }),
{
}

/// A child is declared behind those that are declared already, which stay as they
/// are: an actor with its id, identity and policies, a task as it was given, and
/// a nested scope with its whole declaration and its own policies.
pub proof fn law_children_are_declared_in_order<M>(
    tree: Tree,
    spec: ActorSpec<M>,
    actor: ActorRef<M>,
    task: TaskSpec,
    id: String,
    nested: SubtreeSpec,
    other: Tree,
    after: Tree,
    i: int,
)
    requires
        tree.inner.node is Ordered,
        after.inner.node is Ordered,
        tree.declares_actor(spec, actor, after) || tree.declares_task(task, after)
            || tree.declares_scope(id, nested, after) || tree.declares_tree(id, other, after),
        0 <= i < tree.inner.node->children@.len(),
    ensures
        ({
            let before = tree.inner.node->children@;
            let declared = after.inner.node->children@;
            &&& declared.len() == before.len() + 1
            &&& declared[i] == before[i]
            &&& after.inner.node->Ordered_config == tree.inner.node->Ordered_config
            &&& tree.declares_task(task, after) ==> declared.last() == SupervisionChild::Task(task)
            &&& tree.declares_scope(id, nested, after) ==> declared.last()
                == (SupervisionChild::Scope {
                id,
                node: nested.inner.node,
                restart: nested.restart,
                shutdown: nested.shutdown,
            })
            &&& tree.declares_tree(id, other, after) ==> declared.last()
                == (SupervisionChild::Scope {
                id,
                node: other.inner.node,
                restart: None,
                shutdown: None,
            })
            &&& tree.declares_actor(spec, actor, after) ==> {
                &&& actor.identity == spec.identity && actor.actor_id == spec.actor_id
                &&& declared.last() matches SupervisionChild::Actor(node)
                &&& node.policies == spec.policies
                &&& node.payload matches ActorPayload::Deferred(deferred)
                &&& deferred.actor_id == spec.actor_id
                &&& deferred.identity == spec.identity
                &&& deferred.mailbox_kind == spec.actor_options.mailbox.storage()
                &&& deferred.own_capacity == match spec.actor_options.mailbox_capacity {
                    Some(capacity) => Some(capacity),
                    None => spec.actor_options.mailbox.capacity,
                }
            }
        }),
{
    let before = tree.inner.node.declared();
    let declared = after.inner.node.declared();
    if tree.declares_actor(spec, actor, after) {
        assert(declared.drop_last()[i] == before[i]);
    }
}

/// What a reserved tree shows of each child of its root is what is declared: its
/// id, its own restart policy or else the default, and whether it leaves when it
/// is done, which a nested scope never does.
pub proof fn law_reservations_show_the_children(tree: TreeData, i: int)
    requires
        tree.wf(),
        tree.node is Ordered,
        0 <= i < tree.node->children@.len(),
    ensures
        ({
            let shown = tree.reservations@[0].declared@[i];
            let default = tree.node->Ordered_config.default_restart;
            match tree.node->children@[i] {
                SupervisionChild::Actor(actor) => {
                    &&& shown.id@ == match actor.payload {
                        ActorPayload::Deferred(deferred) => deferred.actor_id@,
                        ActorPayload::Ready(ready) => ready.label@,
                    }
                    &&& actor.policies.restart is Some ==> Some(shown.restart)
                        == actor.policies.restart
                    &&& actor.policies.restart is None ==> shown.restart == default
                    &&& shown.remove_when_done <==> actor.policies.terminal_membership is Remove
                },
                SupervisionChild::Task(task) => {
                    &&& shown.id@ == task.id@
                    &&& task.restart is Some ==> Some(shown.restart) == task.restart
                    &&& task.restart is None ==> shown.restart == default
                    &&& shown.remove_when_done == task.remove_when_done
                },
                SupervisionChild::Scope { id, restart, .. } => {
                    &&& shown.id@ == id@
                    &&& restart is Some ==> Some(shown.restart) == restart
                    &&& restart is None ==> shown.restart == default
                    &&& !shown.remove_when_done
                },
            }
        }),
{
    let declared = tree.reservations@[0].declared@;
    assert(crate::tree::declared_views(declared)[i] == crate::tree::shown_children(tree.node)[i]);
    assert(crate::tree::declared_views(declared).len() == crate::tree::shown_children(
        tree.node,
    ).len());
    assert(crate::tree::declared_views(declared)[i] == declared[i]@);
}

/// A task is declared with the policies of its scope; one that runs once is never
/// restarted and leaves when it is done. Its own policies win over the defaults.
pub proof fn law_task_declarations(
    id: String,
    task: TaskSpec,
    restart: RestartPolicy,
    shutdown: Shutdown,
    policies: (RestartPolicy, Shutdown),
)
    ensures
        TaskSpec::plain(id).id == id && TaskSpec::plain(id).restart is None && TaskSpec::plain(
            id,
        ).shutdown is None && !TaskSpec::plain(id).remove_when_done,
        TaskSpec::once(id).id == id && TaskSpec::once(id).shutdown is None && TaskSpec::once(
            id,
        ).remove_when_done,
        TaskSpec::once(id).restart is Some && TaskSpec::once(id).restart->0.mode is Never,
        task.resolves_to(restart, shutdown, policies) ==> {
            &&& task.restart is Some ==> task.restart == Some(policies.0)
            &&& task.restart is None ==> policies.0 == restart
            &&& task.shutdown is Some ==> task.shutdown == Some(policies.1)
            &&& task.shutdown is None ==> policies.1 == shutdown
        },
{
}

/// A task is spawned once into a running dynamic scope only. It is never
/// restarted, whatever it declares; the rest of its declaration stands. Its events
/// are watched from where they stand.
pub proof fn law_spawning_once(
    scope: DynamicScopeRef,
    id: String,
    task: TaskSpec,
    view: SupervisorView,
    plan: Result<TaskInsertion, ControlError>,
)
    requires
        scope.spawns_once(id, view, plan) || scope.spawns_task_once(task, view, plan),
    ensures
        ({
            let running = scope.scope.supervisor.kind is Dynamic && view.available;
            &&& plan is Ok <==> running
            &&& !running ==> plan == Err::<TaskInsertion, _>(ControlError::Unavailable)
            &&& plan matches Ok(insertion) ==> {
                &&& insertion.task.restart is Some && insertion.task.restart->0.mode is Never
                &&& insertion.events.supervisor == scope.scope.supervisor
                &&& insertion.events.from == view.lifecycle_events
                &&& scope.spawns_task_once(task, view, plan) ==> insertion.task.id == task.id
                    && insertion.task.shutdown == task.shutdown && insertion.task.remove_when_done
                    == task.remove_when_done
                &&& !scope.spawns_task_once(task, view, plan) ==> insertion.task.id == id
                    && insertion.task.remove_when_done && insertion.task.shutdown is None
            }
        }),
{
}

/// Only a mailbox without room makes a declaration invalid.
pub proof fn law_why_declarations_are_refused(op: LowerOp, error: Option<BuildError>)
    requires
        op.rejects(error),
    ensures
        error is Some <==> op == LowerOp::RejectCapacity,
        error matches Some(error) ==> (error matches BuildError::InvalidConfig(message) && message@
            == "actor mailbox capacity must be non-zero"@),
{
}

/// A restricted reference adds a nested scope like the dynamic one where the scope
/// is dynamic, and refuses it otherwise.
pub proof fn law_ordered_scopes_take_no_subtrees(
    restricted: RestrictedScopeRef,
    id: String,
    tree: SubtreeSpec,
    view: SupervisorView,
    plan: Result<SubtreeInsertion, ControlError>,
)
    requires
        restricted.plans_subtree(id, tree, view, plan),
    ensures
        restricted.scope().supervisor.kind is Ordered <==> plan == Err::<SubtreeInsertion, _>(
            ControlError::NotDynamic,
        ),
        restricted.scope().supervisor.kind is Dynamic ==> crate::tree::subtree_planned(
            DynamicScopeRef { scope: restricted.scope() },
            id,
            tree,
            view,
            plan,
        ),
{
}

} // verus!
