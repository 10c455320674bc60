//! What holds of declarations, of the members of a scope and of the changes that
//! a scope takes.
use vstd::prelude::*;

use crate::builder::{ActorNode, ActorOptions, ActorPayload, ActorPolicies, ActorSpec};
use crate::delivery::ActorRef;
use crate::host::{RunnableActor, RunnableActorBuilder};
use crate::membership::{
    actor_planned, child_spec, resolved_options, ActorChildOptions, ActorInsertion,
    ActorRuntimeState, ChildHandle, RestrictedScopeRef, TaskRef,
};
use crate::observe::{
    lifecycle_pump, observation_pump, ChildSnapshot, ChildStateView, LifecycleEvent,
    SupervisorSnapshot,
};
use crate::outline::{decodes, ChildOutline, SupervisionOutline, WireChild, WireOutline};
use crate::policy::{BuildError, ControlError, ScopeKind};
use crate::scope::{
    AttachedChild, DynamicScopeRef, LifecycleWatch, RuntimeAttachmentKind, ScopeRef,
    SupervisorHandle, SupervisorView,
};

verus! {

/// A child that is attached directly to the scope with these actors.
pub open spec fn is_direct(child: AttachedChild, actors: u64) -> bool {
    child.path@.len() == 1 && child.attachment.owner == actors
}

/// A scope that is nested directly under that id, and of that lineage where one
/// is asked for.
pub open spec fn is_nested(
    child: AttachedChild,
    actors: u64,
    id: Seq<char>,
    lineage: Option<u64>,
) -> bool {
    &&& is_direct(child, actors)
    &&& child.path@[0].id@ == id
    &&& lineage is None || lineage == Some(child.path@[0].lineage)
    &&& child.attachment.kind is Subtree
    &&& child.supervisor is Some
}

/// The member of the scope that is this actor.
pub open spec fn is_this_actor(child: AttachedChild, actors: u64, identity: u64) -> bool {
    &&& is_direct(child, actors)
    &&& match child.attachment.kind {
        RuntimeAttachmentKind::Actor { identity: own, .. } => own == identity,
        _ => false,
    }
}

/// The member of the scope that this supervisor runs.
pub open spec fn is_this_scope(
    child: AttachedChild,
    actors: u64,
    supervisor: SupervisorHandle,
) -> bool {
    &&& is_direct(child, actors)
    &&& child.attachment.kind is Subtree
    &&& child.supervisor is Some
    &&& child.supervisor->0.identity == supervisor.identity
}

/// The scope takes changes: its membership is dynamic and it is running.
pub open spec fn takes_changes(scope: ScopeRef, view: SupervisorView) -> bool {
    scope.supervisor.kind == ScopeKind::Dynamic && view.available
}

/// A nested scope is found by its id, and by its lineage where one is given. Of
/// several, the first is found; a scope that is not there is not found.
pub proof fn law_nested_scopes_are_found(
    attached: Seq<AttachedChild>,
    actors: u64,
    parent: SupervisorHandle,
    id: Seq<char>,
    lineage: Option<u64>,
    found: Option<ScopeRef>,
    i: int,
)
    requires
        crate::scope::subtree_found(attached, actors, parent, id, lineage, found),
        0 <= i < attached.len(),
    ensures
        is_nested(attached[i], actors, id, lineage) ==> found is Some,
        is_nested(attached[i], actors, id, lineage) && (forall|j: int|
            0 <= j < i ==> !is_nested(#[trigger] attached[j], actors, id, lineage)) ==> {
            &&& found matches Some(scope)
            &&& attached[i].supervisor == Some(scope.supervisor)
            &&& attached[i].attachment.kind == RuntimeAttachmentKind::Subtree {
                actors: scope.actors,
            }
            &&& scope.parent_membership matches Some(membership)
            &&& membership.parent == parent
            &&& membership.id@ == id
            &&& membership.lineage == attached[i].path@[0].lineage
        },
        found is Some ==> exists|j: int|
            0 <= j < attached.len() && is_nested(#[trigger] attached[j], actors, id, lineage),
{
    if is_nested(attached[i], actors, id, lineage) {
        assert(crate::scope::is_subtree(attached[i], actors, id, lineage));
    }
    if found is Some {
        let scope = found->0;
        let k = choose|k: int|
            {
                &&& 0 <= k < attached.len()
                &&& crate::scope::is_subtree(#[trigger] attached[k], actors, id, lineage)
                &&& forall|j: int|
                    0 <= j < k ==> !crate::scope::is_subtree(
                        #[trigger] attached[j],
                        actors,
                        id,
                        lineage,
                    )
                &&& scope == (ScopeRef {
                    supervisor: attached[k].supervisor->0,
                    actors: attached[k].attachment.kind->actors,
                    parent_membership: Some(
                        crate::scope::ParentScopeMembership {
                            parent,
                            id: attached[k].path@[0].id,
                            lineage: attached[k].path@[0].lineage,
                        },
                    ),
                })
            };
        assert(is_nested(attached[k], actors, id, lineage));
        if is_nested(attached[i], actors, id, lineage) && (forall|j: int|
            0 <= j < i ==> !is_nested(#[trigger] attached[j], actors, id, lineage)) {
            if i < k {
                assert(!crate::scope::is_subtree(attached[i], actors, id, lineage));
            }
            if k < i {
                assert(!is_nested(attached[k], actors, id, lineage));
            }
            assert(k == i);
        }
    }
}

/// Only a dynamic scope offers control over its membership, and only over its
/// own.
pub proof fn law_dynamic_scopes_offer_control(scope: ScopeRef, dynamic: Option<DynamicScopeRef>)
    requires
        scope.offers(dynamic),
    ensures
        dynamic is Some <==> scope.supervisor.kind is Dynamic,
        dynamic matches Some(dynamic) ==> dynamic.scope == scope,
{
}

/// What a child's state tells: its last exit, whether it has started, and
/// whether it will do nothing more in this membership.
pub proof fn law_child_states(state: ChildStateView)
    ensures
        state matches ChildStateView::Starting { last_exit } ==> state.exit() == last_exit
            && !state.terminal() && !state.was_started(),
        state matches ChildStateView::Running { last_exit } ==> state.exit() == last_exit
            && !state.terminal() && state.was_started(),
        state matches ChildStateView::Stopping { started, last_exit } ==> state.exit() == last_exit
            && !state.terminal() && state.was_started() == started,
        state matches ChildStateView::Stopped { started, last_exit } ==> state.exit() == last_exit
            && state.terminal() && state.was_started() == started,
        state matches ChildStateView::StartupAborted { last_exit } ==> state.exit() == last_exit
            && state.terminal() && !state.was_started(),
{
}

/// A child is found by its id; of several, the first is.
pub proof fn law_children_are_found(
    snapshot: SupervisorSnapshot,
    id: Seq<char>,
    found: Option<ChildSnapshot>,
    i: int,
)
    requires
        snapshot.finds(id, found),
        0 <= i < snapshot.children@.len(),
    ensures
        snapshot.children@[i].id@ == id ==> found is Some,
        found matches Some(child) ==> child.id@ == id && snapshot.children@.contains(child),
        snapshot.children@[i].id@ == id && (forall|j: int|
            0 <= j < i ==> (#[trigger] snapshot.children@[j]).id@ != id) ==> found == Some(
            snapshot.children@[i],
        ),
{
    if let Some(child) = found {
        let k = choose|k: int|
            {
                &&& 0 <= k < snapshot.children@.len()
                &&& #[trigger] snapshot.children@[k] == child
                &&& child.id@ == id
                &&& forall|j: int| 0 <= j < k ==> (#[trigger] snapshot.children@[j]).id@ != id
            };
        if snapshot.children@[i].id@ == id && (forall|j: int|
            0 <= j < i ==> (#[trigger] snapshot.children@[j]).id@ != id) {
            assert(k == i);
        }
    }
}

/// Observers hear of everything but the supervisor's own transitions, until they
/// are cancelled, have nobody to tell or the stream is over.
pub proof fn law_observers_are_told(
    cancelled: bool,
    target_over: bool,
    event: Option<LifecycleEvent>,
    ended: bool,
)
    ensures
        ({
            let step = lifecycle_pump(cancelled, target_over, event);
            let over = cancelled || target_over || event is None;
            &&& step is Stop <==> over
            &&& step is Skip <==> !over && event->0.kind is Supervisor
            &&& step is Forward <==> !over && !(event->0.kind is Supervisor)
        }),
        observation_pump(cancelled, target_over, ended) is Stop <==> cancelled || target_over
            || ended,
        observation_pump(cancelled, target_over, ended) is Forward <==> !cancelled && !target_over
            && !ended,
{
}

/// An actor's own settings win over those of its scope, which stand in where it
/// has none. Whether it leaves when it is done is its own matter alone.
pub proof fn law_own_settings_win(
    policies: ActorPolicies,
    state: ActorRuntimeState,
    other: ActorRuntimeState,
)
    ensures
        ({
            let options = resolved_options(policies, state);
            &&& policies.restart matches Some(restart) ==> options.restart == restart
            &&& policies.restart is None ==> options.restart == state.default_restart
            &&& policies.shutdown matches Some(shutdown) ==> options.shutdown == shutdown
            &&& policies.shutdown is None ==> options.shutdown == state.default_shutdown
            &&& policies.mailbox_shutdown matches Some(shutdown) ==> options.mailbox_shutdown
                == shutdown
            &&& policies.mailbox_shutdown is None ==> options.mailbox_shutdown
                == state.default_mailbox_shutdown
            &&& options.remove_when_done <==> policies.terminal_membership is Remove
            &&& options.remove_when_done == resolved_options(policies, other).remove_when_done
        }),
{
}

/// The supervisor is told an actor's settings as they are: it drains exactly
/// where its mailbox is to be drained, and is cut off after a grace exactly where
/// it has one.
pub proof fn law_supervisors_are_told_the_settings(
    actor: RunnableActor,
    owner: u64,
    options: ActorChildOptions,
)
    ensures
        ({
            let child = child_spec(actor, owner, options);
            &&& child.actor == actor && child.owner == owner
            &&& child.restart == options.restart
            &&& child.shutdown == options.shutdown
            &&& child.drain_messages <==> options.mailbox_shutdown is Drain
            &&& child.abort_after_grace <==> options.shutdown is Graceful
            &&& child.remove_when_done == options.remove_when_done
        }),
{
}

/// Adding an actor needs a running dynamic scope and room for a message. What is
/// added is the declared actor, under the declared reference, with its own
/// settings where it has them and those of the scope where it has none.
pub proof fn law_adding_actors<M>(
    scope: DynamicScopeRef,
    spec: ActorSpec<M>,
    state: ActorRuntimeState,
    view: SupervisorView,
    plan: Result<ActorInsertion<M>, ControlError>,
)
    requires
        actor_planned(scope, spec, state, view, plan),
    ensures
        ({
            let own = match spec.actor_options.mailbox_capacity {
                Some(capacity) => Some(capacity),
                None => spec.actor_options.mailbox.capacity,
            };
            &&& plan is Ok <==> takes_changes(scope.scope, view) && (own is None || own->0 > 0)
            &&& !takes_changes(scope.scope, view) ==> plan == Err::<ActorInsertion<M>, _>(
                ControlError::Unavailable,
            )
            &&& takes_changes(scope.scope, view) && own == Some(0usize) ==> {
                &&& plan matches Err(ControlError::Rejected(BuildError::InvalidConfig(message)))
                &&& message@ == "actor mailbox capacity must be non-zero"@
            }
            &&& plan matches Ok(insertion) ==> {
                &&& insertion.actor_ref.identity == spec.identity
                &&& insertion.actor_ref.actor_id == spec.actor_id
                &&& insertion.child.owner == scope.scope.actors
                &&& insertion.child.actor.identity == spec.identity
                &&& insertion.child.actor.label == spec.actor_id
                &&& !insertion.child.actor.running
                &&& own matches Some(capacity) ==> insertion.child.actor.mailbox_capacity
                    == capacity
                &&& own is None ==> insertion.child.actor.mailbox_capacity
                    == state.actor_builder.mailbox_capacity
                &&& insertion.child.restart == match spec.policies.restart {
                    Some(restart) => restart,
                    None => state.default_restart,
                }
                &&& insertion.child.shutdown == match spec.policies.shutdown {
                    Some(shutdown) => shutdown,
                    None => state.default_shutdown,
                }
                &&& insertion.child.drain_messages <==> match spec.policies.mailbox_shutdown {
                    Some(shutdown) => shutdown is Drain,
                    None => state.default_mailbox_shutdown is Drain,
                }
                &&& insertion.child.abort_after_grace <==> insertion.child.shutdown is Graceful
                &&& insertion.child.remove_when_done
                    <==> spec.policies.terminal_membership is Remove
            }
        }),
{
    let own = spec.actor_options.own_capacity();
    assert(own is None || own->0 > 0 <==> own != Some(0usize));
}

/// Tasks are added to and members removed from a running dynamic scope only; the
/// task's events are watched from where they stand.
pub proof fn law_changes_need_a_running_dynamic_scope(
    scope: DynamicScopeRef,
    view: SupervisorView,
    id: String,
    control: Result<SupervisorHandle, ControlError>,
    task: Result<LifecycleWatch, ControlError>,
    removal: Result<String, ControlError>,
)
    ensures
        scope.controllable(&view) <==> takes_changes(scope.scope, view),
        scope.controls(view, control) ==> {
            &&& takes_changes(scope.scope, view) ==> control == Ok::<_, ControlError>(
                scope.scope.supervisor,
            )
            &&& !takes_changes(scope.scope, view) ==> control == Err::<SupervisorHandle, _>(
                ControlError::Unavailable,
            )
        },
        scope.plans_task(view, task) ==> {
            &&& takes_changes(scope.scope, view) ==> task is Ok && task->Ok_0.supervisor
                == scope.scope.supervisor && task->Ok_0.from == view.lifecycle_events
            &&& !takes_changes(scope.scope, view) ==> task == Err::<LifecycleWatch, _>(
                ControlError::Unavailable,
            )
        },
        scope.plans_removal(id, view, removal) ==> {
            &&& takes_changes(scope.scope, view) ==> removal == Ok::<_, ControlError>(id)
            &&& !takes_changes(scope.scope, view) ==> removal == Err::<String, _>(
                ControlError::Unavailable,
            )
        },
{
}

/// A restricted reference refuses every change where the scope is not dynamic,
/// whether it is running or not, and decides like the dynamic one otherwise.
pub proof fn law_ordered_scopes_refuse_changes<M>(
    restricted: RestrictedScopeRef,
    view: SupervisorView,
    id: String,
    dynamic: Result<DynamicScopeRef, ControlError>,
    spec: ActorSpec<M>,
    state: ActorRuntimeState,
    actor: Result<ActorInsertion<M>, ControlError>,
    task: Result<SupervisorHandle, ControlError>,
    removal: Result<String, ControlError>,
    subtree: Result<RestrictedScopeRef, ControlError>,
    lineage: u64,
)
    ensures
        ({
            let ordered = restricted.scope().supervisor.kind is Ordered;
            &&& restricted.grants(dynamic) ==> (ordered <==> dynamic == Err::<DynamicScopeRef, _>(
                ControlError::NotDynamic,
            )) && (!ordered ==> dynamic is Ok && dynamic->Ok_0.scope == restricted.scope())
            &&& restricted.plans_actor(spec, state, view, actor) ==> (ordered <==> actor == Err::<
                ActorInsertion<M>,
                _,
            >(ControlError::NotDynamic)) && (!ordered && !view.available ==> actor == Err::<
                ActorInsertion<M>,
                _,
            >(ControlError::Unavailable))
            &&& restricted.plans_task(view, task) ==> {
                &&& ordered ==> task == Err::<SupervisorHandle, _>(ControlError::NotDynamic)
                &&& !ordered && view.available ==> task == Ok::<_, ControlError>(
                    restricted.scope().supervisor,
                )
                &&& !ordered && !view.available ==> task == Err::<SupervisorHandle, _>(
                    ControlError::Unavailable,
                )
            }
            &&& restricted.plans_removal(id, view, removal) ==> {
                &&& ordered ==> removal == Err::<String, _>(ControlError::NotDynamic)
                &&& !ordered && view.available ==> removal == Ok::<_, ControlError>(id)
                &&& !ordered && !view.available ==> removal == Err::<String, _>(
                    ControlError::Unavailable,
                )
            }
            &&& restricted.finds_added(id@, lineage, view, subtree) ==> {
                &&& ordered ==> subtree == Err::<RestrictedScopeRef, _>(ControlError::NotDynamic)
                &&& !ordered && subtree is Err ==> subtree->Err_0 is Unavailable
                &&& !ordered ==> crate::scope::subtree_found(
                    view.attached@,
                    restricted.scope().actors,
                    restricted.scope().supervisor,
                    id@,
                    Some(lineage),
                    if subtree is Ok {
                        Some(subtree->Ok_0.scope())
                    } else {
                        None
                    },
                )
            }
        }),
{
}

/// A subtree that was added is found under its id and the very lineage it was
/// added with, or it is no longer there.
pub proof fn law_added_subtrees(
    scope: DynamicScopeRef,
    id: Seq<char>,
    lineage: u64,
    view: SupervisorView,
    added: Result<ScopeRef, ControlError>,
    i: int,
)
    requires
        scope.finds_added(id, lineage, view, added),
        0 <= i < view.attached@.len(),
    ensures
        is_nested(view.attached@[i], scope.scope.actors, id, Some(lineage)) ==> added is Ok,
        added matches Err(error) ==> error is Unavailable,
        added matches Ok(nested) ==> {
            &&& nested.parent_membership matches Some(membership)
            &&& membership.id@ == id
            &&& membership.lineage == lineage
            &&& membership.parent == scope.scope.supervisor
        },
{
    let found = match added {
        Ok(nested) => Some(nested),
        Err(_) => None,
    };
    law_nested_scopes_are_found(
        view.attached@,
        scope.scope.actors,
        scope.scope.supervisor,
        id,
        Some(lineage),
        found,
        i,
    );
    crate::membership::law_lookup_is_bound_to_its_lineage(
        view.attached@,
        scope.scope.actors,
        scope.scope.supervisor,
        id,
        lineage,
        found,
    );
}

/// An actor's handle names the membership under which that very actor is attached
/// to the scope: the id and the lineage that it has there. An actor that is not
/// attached is unknown under its own id.
pub proof fn law_actor_handles<M>(
    actor: ActorRef<M>,
    scope: DynamicScopeRef,
    view: SupervisorView,
    result: Result<(String, u64), ControlError>,
    i: int,
)
    requires
        actor.resolves_to(&scope, &view, result),
        0 <= i < view.attached@.len(),
    ensures
        !takes_changes(scope.scope, view) ==> result == Err::<(String, u64), _>(
            ControlError::Unavailable,
        ),
        takes_changes(scope.scope, view) && is_this_actor(
            view.attached@[i],
            scope.scope.actors,
            actor.identity,
        ) && (forall|j: int|
            0 <= j < i ==> !is_this_actor(
                #[trigger] view.attached@[j],
                scope.scope.actors,
                actor.identity,
            )) ==> result == Ok::<_, ControlError>(
            (view.attached@[i].path@[0].id, view.attached@[i].path@[0].lineage),
        ),
        takes_changes(scope.scope, view) && (forall|j: int|
            0 <= j < view.attached@.len() ==> !is_this_actor(
                #[trigger] view.attached@[j],
                scope.scope.actors,
                actor.identity,
            )) ==> result == Err::<(String, u64), _>(ControlError::UnknownChildId(actor.actor_id)),
{
    let attached = view.attached@;
    let actors = scope.scope.actors;
    assert(forall|j: int|
        0 <= j < attached.len() ==> (crate::membership::is_actor(
            #[trigger] attached[j],
            actors,
            actor.identity,
        ) <==> is_this_actor(attached[j], actors, actor.identity)));
    if takes_changes(scope.scope, view) {
        if let Ok(membership) = result {
            let k = choose|k: int|
                {
                    &&& 0 <= k < attached.len()
                    &&& crate::membership::is_actor(#[trigger] attached[k], actors, actor.identity)
                    &&& forall|j: int|
                        0 <= j < k ==> !crate::membership::is_actor(
                            #[trigger] attached[j],
                            actors,
                            actor.identity,
                        )
                    &&& membership == crate::membership::membership_of(attached[k])
                };
            assert(is_this_actor(attached[k], actors, actor.identity));
            if is_this_actor(attached[i], actors, actor.identity) && (forall|j: int|
                0 <= j < i ==> !is_this_actor(#[trigger] attached[j], actors, actor.identity)) {
                assert(k == i);
            }
        }
    }
}

/// A nested scope's handle names the membership it was made for, to the scope it
/// is a member of and to no other. A handle without one is looked up by its
/// supervisor.
pub proof fn law_scope_handles(
    nested: ScopeRef,
    scope: DynamicScopeRef,
    view: SupervisorView,
    result: Result<(String, u64), ControlError>,
    i: int,
)
    requires
        nested.resolves_to(&scope, &view, result) || (DynamicScopeRef { scope: nested }).resolves_to(
            &scope,
            &view,
            result,
        ),
        0 <= i < view.attached@.len(),
    ensures
        nested.parent_membership matches Some(membership) ==> {
            &&& membership.parent.identity == scope.scope.supervisor.identity ==> result == Ok::<
                _,
                ControlError,
            >((membership.id, membership.lineage))
            &&& membership.parent.identity != scope.scope.supervisor.identity ==> result == Err::<
                (String, u64),
                _,
            >(ControlError::UnknownChildId(membership.id))
        },
        nested.parent_membership is None && !takes_changes(scope.scope, view) ==> result == Err::<
            (String, u64),
            _,
        >(ControlError::Unavailable),
        nested.parent_membership is None && takes_changes(scope.scope, view) && is_this_scope(
            view.attached@[i],
            scope.scope.actors,
            nested.supervisor,
        ) && (forall|j: int|
            0 <= j < i ==> !is_this_scope(
                #[trigger] view.attached@[j],
                scope.scope.actors,
                nested.supervisor,
            )) ==> result == Ok::<_, ControlError>(
            (view.attached@[i].path@[0].id, view.attached@[i].path@[0].lineage),
        ),
        nested.parent_membership is None && takes_changes(scope.scope, view) && (forall|j: int|
            0 <= j < view.attached@.len() ==> !is_this_scope(
                #[trigger] view.attached@[j],
                scope.scope.actors,
                nested.supervisor,
            )) ==> {
            &&& result matches Err(ControlError::UnknownChildId(id))
            &&& id@ == "<root>"@
        },
{
    let attached = view.attached@;
    let actors = scope.scope.actors;
    assert(forall|j: int|
        0 <= j < attached.len() ==> (crate::membership::is_scope(
            #[trigger] attached[j],
            actors,
            nested.supervisor,
        ) <==> is_this_scope(attached[j], actors, nested.supervisor)));
    if nested.parent_membership is None && takes_changes(scope.scope, view) {
        if let Ok(membership) = result {
            let k = choose|k: int|
                {
                    &&& 0 <= k < attached.len()
                    &&& crate::membership::is_scope(
                        #[trigger] attached[k],
                        actors,
                        nested.supervisor,
                    )
                    &&& forall|j: int|
                        0 <= j < k ==> !crate::membership::is_scope(
                            #[trigger] attached[j],
                            actors,
                            nested.supervisor,
                        )
                    &&& membership == crate::membership::membership_of(attached[k])
                };
            assert(is_this_scope(attached[k], actors, nested.supervisor));
            if is_this_scope(attached[i], actors, nested.supervisor) && (forall|j: int|
                0 <= j < i ==> !is_this_scope(#[trigger] attached[j], actors, nested.supervisor)) {
                assert(k == i);
            }
        }
    }
}

/// A task's handle names its membership to the scope that the task was added to,
/// and removing it needs that scope to be running.
pub proof fn law_task_handles(
    task: TaskRef,
    scope: DynamicScopeRef,
    view: SupervisorView,
    plan: Result<(String, u64), ControlError>,
)
    requires
        scope.removes(task, view, plan),
    ensures
        ({
            let member = task.scope.supervisor.identity == scope.scope.supervisor.identity;
            &&& !member ==> plan == Err::<(String, u64), _>(ControlError::UnknownChildId(task.id))
            &&& member && takes_changes(scope.scope, view) ==> plan == Ok::<_, ControlError>(
                (task.id, task.lineage),
            )
            &&& member && !takes_changes(scope.scope, view) ==> plan == Err::<(String, u64), _>(
                ControlError::Unavailable,
            )
        }),
{
}

/// Removing by any handle changes a running dynamic scope only, and only the
/// member that the handle names.
pub proof fn law_removing_by_handle<C: ChildHandle>(
    child: C,
    scope: DynamicScopeRef,
    view: SupervisorView,
    plan: Result<(String, u64), ControlError>,
)
    requires
        scope.removes(child, view, plan),
    ensures
        plan is Ok ==> takes_changes(scope.scope, view) && child.resolves_to(&scope, &view, plan),
        plan is Err ==> child.resolves_to(&scope, &view, plan) || (plan == Err::<(String, u64), _>(
            ControlError::Unavailable,
        ) && !takes_changes(scope.scope, view)),
{
    let resolved = choose|resolved: Result<(String, u64), ControlError>|
        {
            &&& #[trigger] child.resolves_to(&scope, &view, resolved)
            &&& plan == match resolved {
                Err(error) => Err(error),
                Ok(membership) => if scope.controllable(&view) {
                    Ok(membership)
                } else {
                    Err(ControlError::Unavailable)
                },
            }
        };
    assert(plan is Ok ==> plan == resolved);
    assert(resolved is Err ==> plan == resolved);
}

/// The capacity given for the actor wins over the one of its mailbox.
pub proof fn law_own_capacity<M>(options: ActorOptions<M>)
    ensures
        options.mailbox_capacity matches Some(capacity) ==> options.own_capacity() == Some(
            capacity,
        ),
        options.mailbox_capacity is None ==> options.own_capacity() == options.mailbox.capacity,
{
}

/// A declared actor keeps its id, its identity, its mailbox and its settings,
/// whether it is run on its own, put into a tree or built at once. On its own it
/// gets room for as many messages as it asks for, and for 64 where it does not.
pub proof fn law_declared_actors<M>(
    spec: ActorSpec<M>,
    builder: RunnableActorBuilder,
    actor: RunnableActor,
    deferred: ActorNode,
    built: ActorNode,
    materialized: ActorNode,
)
    requires
        spec.runs_as(actor),
        spec.defers_to(deferred),
        spec.builds(builder, built),
        deferred.materializes(builder, materialized),
    ensures
        actor.label == spec.actor_id && actor.identity == spec.identity && !actor.running,
        actor.mailbox_kind == spec.actor_options.mailbox.storage(),
        spec.actor_options.mailbox_capacity matches Some(capacity) ==> actor.mailbox_capacity
            == capacity,
        spec.actor_options.mailbox_capacity is None ==> (
        spec.actor_options.mailbox.capacity matches Some(capacity) ==> actor.mailbox_capacity
            == capacity),
        spec.actor_options.mailbox_capacity is None && spec.actor_options.mailbox.capacity is None
            ==> actor.mailbox_capacity == 64,
        deferred.policies == spec.policies && built.policies == spec.policies,
        deferred.payload matches ActorPayload::Deferred(inner) && {
            &&& inner.actor_id == spec.actor_id
            &&& inner.identity == spec.identity
            &&& inner.mailbox_kind == spec.actor_options.mailbox.storage()
        },
        materialized == built,
        built.payload matches ActorPayload::Ready(ready) && {
            &&& ready.label == spec.actor_id
            &&& ready.identity == spec.identity
            &&& ready.mailbox_kind == actor.mailbox_kind
            &&& !ready.running
            &&& ready.mailbox_capacity == match spec.actor_options.own_capacity() {
                Some(capacity) => capacity,
                None => builder.mailbox_capacity,
            }
        },
        builder.mailbox_capacity == 64 ==> built.payload == ActorPayload::Ready(actor),
{
}

/// An actor that was built already stays as it is, in whatever scope.
pub proof fn law_built_actors_stay(
    node: ActorNode,
    builder: RunnableActorBuilder,
    state: ActorRuntimeState,
    after: ActorNode,
)
    requires
        node.materializes(builder, after) || state.materializes(node, after),
    ensures
        after.policies == node.policies,
        after.payload is Ready,
        node.payload is Ready ==> after == node,
        state.materializes(node, after) && state.actor_builder == builder ==> node.materializes(
            builder,
            after,
        ),
{
}

/// Only an actor that asks for room for no message at all is invalid. It is named
/// by its id, and leaves when it is done exactly where that was declared.
pub proof fn law_actor_nodes(node: ActorNode)
    ensures
        !node.valid() <==> (node.payload is Deferred && node.payload->Deferred_0.own_capacity
            == Some(0usize)),
        node.payload matches ActorPayload::Deferred(deferred) ==> node.name() == deferred.actor_id@,
        node.payload matches ActorPayload::Ready(actor) ==> node.name() == actor.label@,
        node.ephemeral() <==> node.policies.terminal_membership is Remove,
        ActorPolicies::inherited().restart is None && ActorPolicies::inherited().shutdown is None
            && ActorPolicies::inherited().mailbox_shutdown is None
            && ActorPolicies::inherited().restart_config is None
            && ActorPolicies::inherited().terminal_membership is Retain,
{
}

/// A stored outline is read as it was written, child by child and in order. The
/// flag for leaving may stand with the child or with its restart policy, and the
/// child's own wins. A nested scope has its own edges where it has them and the
/// defaults of the scope around it where it has none; what is in it is read in the
/// same way.
pub proof fn law_outlines_are_read_as_written(
    wire: WireOutline,
    outline: SupervisionOutline,
    i: int,
)
    requires
        decodes(wire, outline),
        0 <= i < wire.children@.len(),
    ensures
        outline.kind == wire.kind,
        outline.strategy == wire.strategy,
        outline.default_restart == wire.default_restart,
        outline.default_shutdown == wire.default_shutdown,
        outline.children@.len() == wire.children@.len(),
        wire.children@[i] matches WireChild::Actor { id, restart, shutdown, remove_when_done }
            ==> outline.children@[i] == (ChildOutline::Actor {
            id,
            restart: restart.policy,
            shutdown,
            remove_when_done: if remove_when_done is Some {
                remove_when_done->0
            } else {
                restart.remove_when_done
            },
        }),
        wire.children@[i] matches WireChild::Task { id, restart, shutdown, remove_when_done }
            ==> outline.children@[i] == (ChildOutline::Task {
            id,
            restart: restart.policy,
            shutdown,
            remove_when_done: if remove_when_done is Some {
                remove_when_done->0
            } else {
                restart.remove_when_done
            },
        }),
        wire.children@[i] matches WireChild::Scope { id, restart, shutdown, outline: nested } ==> {
            &&& outline.children@[i] matches ChildOutline::Scope {
                id: shown,
                restart: policy,
                shutdown: stop,
                outline: inner,
            }
            &&& shown == id
            &&& restart is Some ==> Some(policy) == restart
            &&& restart is None ==> policy == wire.default_restart
            &&& shutdown is Some ==> Some(stop) == shutdown
            &&& shutdown is None ==> stop == wire.default_shutdown
            &&& inner.kind == nested.kind && inner.strategy == nested.strategy
            &&& inner.children@.len() == nested.children@.len()
            &&& decodes(nested, inner)
        },
{
    let child = wire.children@[i];
    assert(crate::outline::child_decodes(
        child,
        outline.children@[i],
        wire.default_restart,
        wire.default_shutdown,
    ));
}

/// A child of an outline is found by its id; of several, the first is.
pub proof fn law_outlined_children_are_found(
    outline: SupervisionOutline,
    id: Seq<char>,
    found: Option<ChildOutline>,
    i: int,
)
    requires
        outline.finds(id, found),
        0 <= i < outline.children@.len(),
    ensures
        ({
            let shown = match outline.children@[i] {
                ChildOutline::Actor { id, .. } => id@,
                ChildOutline::Task { id, .. } => id@,
                ChildOutline::Scope { id, .. } => id@,
            };
            &&& shown == outline.children@[i].name()@
            &&& shown == id ==> found is Some
            &&& shown == id && (forall|j: int|
                0 <= j < i ==> (#[trigger] outline.children@[j]).name()@ != id) ==> found == Some(
                outline.children@[i],
            )
        }),
        found matches Some(child) ==> child.name()@ == id && outline.children@.contains(child),
{
    if let Some(child) = found {
        let k = choose|k: int|
            {
                &&& 0 <= k < outline.children@.len()
                &&& #[trigger] outline.children@[k] == child
                &&& child.name()@ == id
                &&& forall|j: int| 0 <= j < k ==> (#[trigger] outline.children@[j]).name()@ != id
            };
        if outline.children@[i].name()@ == id && (forall|j: int|
            0 <= j < i ==> (#[trigger] outline.children@[j]).name()@ != id) {
            assert(k == i);
        }
    }
}

} // verus!
