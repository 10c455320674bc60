//! Dynamic membership: resolving handles to exact memberships, and planning
//! insertions and removals.
use vstd::prelude::*;

use crate::builder::{ActorNode, ActorPayload, ActorSpec, TerminalMembership};
use crate::delivery::ActorRef;
use crate::host::{RunnableActor, RunnableActorBuilder};
use crate::observe::{ChildSnapshot, SupervisorSnapshot};
use crate::policy::{BuildError, ControlError, MailboxShutdown, RestartPolicy, ScopeKind, Shutdown};
use crate::scope::{
    AttachedChild, CompletionWatch, DynamicScopeRef, LifecycleWatch, RuntimeAttachmentKind,
    ScopeRef, SupervisorHandle, SupervisorSnapshotReceiver, SupervisorView,
};
use crate::stats::ScopedActorStats;
use crate::task::TaskTracker;

verus! {

/// Cloneable, restart-stable handle for one supervised task membership.
///
/// It is tied to the membership's lineage: a later task with the same id never
/// retargets it.
#[derive(Debug, PartialEq, Eq)]
pub struct TaskRef {
    /// Id of the task within its scope.
    pub id: String,
    /// Membership identity of the task.
    pub lineage: u64,
    /// The scope.
    pub scope: ScopeRef,
    /// First event that concerns the task.
    pub events: LifecycleWatch,
}

impl TaskRef {
    /// Names membership `(id, lineage)` of `scope`.
    pub fn new(scope: ScopeRef, id: String, lineage: u64, events: LifecycleWatch) -> (task: Self)
        ensures
            task == (TaskRef { id, lineage, scope, events }),
    {
        TaskRef { id, lineage, scope, events }
    }

    /// Returns the task id within its enclosing scope.
    pub fn id(&self) -> (id: &String)
        ensures
            *id == self.id,
    {
        &self.id
    }

    /// Names the task for debugging.
    pub fn to_debug_string(&self) -> (text: String)
        ensures
            text@ == crate::error::opaque_text("TaskRef"@, "id"@, self.id@),
    {
        crate::error::opaque_string("TaskRef", "id", &self.id)
    }

    /// Returns the latest snapshot of this exact task membership.
    pub fn snapshot(&self, view: &SupervisorView) -> (found: Option<ChildSnapshot>)
        ensures
            found == if crate::task::is_member(view.snapshot.children@, self.id@, self.lineage) {
                Some(crate::task::member(view.snapshot.children@, self.id@, self.lineage))
            } else {
                None
            },
    {
        match crate::task::task_snapshot(&view.snapshot, &self.id, self.lineage) {
            Some(child) => Some(child.clone()),
            None => None,
        }
    }

    /// Starts to follow the membership.
    pub fn tracker(&self) -> (tracker: TaskTracker)
        ensures
            tracker.id == self.id,
            tracker.lineage == self.lineage,
            tracker.last_exit is None,
            !tracker.state.started,
            tracker.state.outcome is None,
    {
        TaskTracker::new(self.id.clone(), self.lineage)
    }
}

impl DynamicScopeRef {
    /// Whether the scope takes control operations.
    pub open spec fn controllable(&self, view: &SupervisorView) -> bool {
        self.scope.supervisor.kind == ScopeKind::Dynamic && view.available
    }

    /// The supervisor that takes changes of the membership.
    pub open spec fn controls(
        &self,
        view: SupervisorView,
        result: Result<SupervisorHandle, ControlError>,
    ) -> bool {
        result == if self.controllable(&view) {
            Ok::<_, ControlError>(self.scope.supervisor)
        } else {
            Err(ControlError::Unavailable)
        }
    }

    /// Checks that the scope takes control operations.
    pub fn dynamic_supervisor(&self, view: &SupervisorView) -> (result: Result<
        SupervisorHandle,
        ControlError,
    >)
        ensures
            self.controls(*view, result),
    {
        if self.scope.kind() == ScopeKind::Dynamic && view.available {
            Ok(self.scope.supervisor)
        } else {
            Err(ControlError::Unavailable)
        }
    }
}

/// A member is the direct actor with binding `identity` of actor runtime
/// `actors`.
pub open spec fn is_actor(child: AttachedChild, actors: u64, identity: u64) -> bool {
    &&& child.path@.len() == 1
    &&& child.attachment.owner == actors
    &&& child.attachment.kind matches RuntimeAttachmentKind::Actor { identity: own, .. } && own
        == identity
}

/// A member is the direct subtree of actor runtime `actors` whose supervisor
/// is `supervisor`.
pub open spec fn is_scope(child: AttachedChild, actors: u64, supervisor: SupervisorHandle) -> bool {
    &&& child.path@.len() == 1
    &&& child.attachment.owner == actors
    &&& child.attachment.kind is Subtree
    &&& child.supervisor matches Some(own) && own.identity == supervisor.identity
}

/// The membership of a direct member.
pub open spec fn membership_of(child: AttachedChild) -> (String, u64) {
    (child.path@[0].id, child.path@[0].lineage)
}

/// `result` is the membership of the first member that is the actor, or that
/// the actor is unknown.
pub open spec fn actor_resolved(
    attached: Seq<AttachedChild>,
    actors: u64,
    identity: u64,
    actor_id: String,
    result: Result<(String, u64), ControlError>,
) -> bool {
    match result {
        Ok(membership) => exists|i: int|
            {
                &&& 0 <= i < attached.len()
                &&& is_actor(#[trigger] attached[i], actors, identity)
                &&& forall|j: int| 0 <= j < i ==> !is_actor(#[trigger] attached[j], actors, identity)
                &&& membership == membership_of(attached[i])
            },
        Err(error) => {
            &&& error == ControlError::UnknownChildId(actor_id)
            &&& forall|i: int|
                0 <= i < attached.len() ==> !is_actor(#[trigger] attached[i], actors, identity)
        },
    }
}

/// `result` is the membership of the first member that is the scope, or that
/// the scope is unknown.
pub open spec fn scope_resolved(
    attached: Seq<AttachedChild>,
    actors: u64,
    supervisor: SupervisorHandle,
    result: Result<(String, u64), ControlError>,
) -> bool {
    match result {
        Ok(membership) => exists|i: int|
            {
                &&& 0 <= i < attached.len()
                &&& is_scope(#[trigger] attached[i], actors, supervisor)
                &&& forall|j: int|
                    0 <= j < i ==> !is_scope(#[trigger] attached[j], actors, supervisor)
                &&& membership == membership_of(attached[i])
            },
        Err(error) => {
            &&& error matches ControlError::UnknownChildId(id) && id@ == "<root>"@
            &&& forall|i: int|
                0 <= i < attached.len() ==> !is_scope(#[trigger] attached[i], actors, supervisor)
        },
    }
}

impl DynamicScopeRef {
    /// Resolves an actor against the scope's current members.
    pub fn resolve_actor_membership<M>(&self, actor: &ActorRef<M>, view: &SupervisorView) -> (result:
        Result<(String, u64), ControlError>)
        ensures
            if !self.controllable(view) {
                result == Err::<(String, u64), _>(ControlError::Unavailable)
            } else {
                actor_resolved(
                    view.attached@,
                    self.scope.actors,
                    actor.identity,
                    actor.actor_id,
                    result,
                )
            },
    {
        if let Err(error) = self.dynamic_supervisor(view) {
            return Err(error);
        }
        let mut i: usize = 0;
        while i < view.attached.len()
            invariant
                i <= view.attached@.len(),
                self.controllable(view),
                forall|j: int|
                    0 <= j < i ==> !is_actor(
                        #[trigger] view.attached@[j],
                        self.scope.actors,
                        actor.identity,
                    ),
            decreases view.attached.len() - i,
        {
            let child = &view.attached[i];
            if child.path.len() == 1 && child.attachment.belongs_to(self.scope.actors) {
                if let RuntimeAttachmentKind::Actor { identity, .. } = &child.attachment.kind {
                    if *identity == actor.identity {
                        assert(is_actor(
                            view.attached@[i as int],
                            self.scope.actors,
                            actor.identity,
                        ));
                        return Ok((child.path[0].id.clone(), child.path[0].lineage));
                    }
                }
            }
            i += 1;
        }
        Err(ControlError::UnknownChildId(actor.actor_id.clone()))
    }

    /// Resolves a scope retained from before its tree was added, by the
    /// identity of its supervisor.
    pub fn resolve_subtree_membership(&self, subtree: &ScopeRef, view: &SupervisorView) -> (result:
        Result<(String, u64), ControlError>)
        ensures
            if !self.controllable(view) {
                result == Err::<(String, u64), _>(ControlError::Unavailable)
            } else {
                scope_resolved(view.attached@, self.scope.actors, subtree.supervisor, result)
            },
    {
        if let Err(error) = self.dynamic_supervisor(view) {
            return Err(error);
        }
        let mut i: usize = 0;
        while i < view.attached.len()
            invariant
                i <= view.attached@.len(),
                self.controllable(view),
                forall|j: int|
                    0 <= j < i ==> !is_scope(
                        #[trigger] view.attached@[j],
                        self.scope.actors,
                        subtree.supervisor,
                    ),
            decreases view.attached.len() - i,
        {
            let child = &view.attached[i];
            if child.path.len() == 1 && child.attachment.belongs_to(self.scope.actors) {
                if let RuntimeAttachmentKind::Subtree { .. } = &child.attachment.kind {
                    if let Some(supervisor) = &child.supervisor {
                        if supervisor.same_identity(&subtree.supervisor) {
                            assert(is_scope(
                                view.attached@[i as int],
                                self.scope.actors,
                                subtree.supervisor,
                            ));
                            return Ok((child.path[0].id.clone(), child.path[0].lineage));
                        }
                    }
                }
            }
            i += 1;
        }
        Err(ControlError::UnknownChildId("<root>".to_owned()))
    }
}

/// A stable handle that identifies one exact dynamic child membership.
pub trait ChildHandle {
    /// `result` is the membership that this handle identifies in `scope`.
    spec fn resolves_to(
        &self,
        scope: &DynamicScopeRef,
        view: &SupervisorView,
        result: Result<(String, u64), ControlError>,
    ) -> bool;

    /// Resolves the membership in `scope`. A stale or foreign handle is
    /// refused.
    fn resolve_membership(&self, scope: &DynamicScopeRef, view: &SupervisorView) -> (result: Result<
        (String, u64),
        ControlError,
    >)
        ensures
            self.resolves_to(scope, view, result),
    ;
}

impl<M> ChildHandle for ActorRef<M> {
    open spec fn resolves_to(
        &self,
        scope: &DynamicScopeRef,
        view: &SupervisorView,
        result: Result<(String, u64), ControlError>,
    ) -> bool {
        if !scope.controllable(view) {
            result == Err::<(String, u64), _>(ControlError::Unavailable)
        } else {
            actor_resolved(
                view.attached@,
                scope.scope.actors,
                self.identity,
                self.actor_id,
                result,
            )
        }
    }

    fn resolve_membership(&self, scope: &DynamicScopeRef, view: &SupervisorView) -> (result: Result<
        (String, u64),
        ControlError,
    >) {
        scope.resolve_actor_membership(self, view)
    }
}

impl ChildHandle for TaskRef {
    open spec fn resolves_to(
        &self,
        scope: &DynamicScopeRef,
        view: &SupervisorView,
        result: Result<(String, u64), ControlError>,
    ) -> bool {
        result == if scope.scope.supervisor.identity == self.scope.supervisor.identity {
            Ok((self.id, self.lineage))
        } else {
            Err(ControlError::UnknownChildId(self.id))
        }
    }

    fn resolve_membership(&self, scope: &DynamicScopeRef, view: &SupervisorView) -> (result: Result<
        (String, u64),
        ControlError,
    >) {
        if !scope.scope.supervisor.same_identity(&self.scope.supervisor) {
            return Err(ControlError::UnknownChildId(self.id.clone()));
        }
        Ok((self.id.clone(), self.lineage))
    }
}

impl ChildHandle for ScopeRef {
    open spec fn resolves_to(
        &self,
        scope: &DynamicScopeRef,
        view: &SupervisorView,
        result: Result<(String, u64), ControlError>,
    ) -> bool {
        match self.parent_membership {
            Some(membership) => result == if scope.scope.supervisor.identity
                == membership.parent.identity {
                Ok((membership.id, membership.lineage))
            } else {
                Err(ControlError::UnknownChildId(membership.id))
            },
            None => if !scope.controllable(view) {
                result == Err::<(String, u64), _>(ControlError::Unavailable)
            } else {
                scope_resolved(view.attached@, scope.scope.actors, self.supervisor, result)
            },
        }
    }

    fn resolve_membership(&self, scope: &DynamicScopeRef, view: &SupervisorView) -> (result: Result<
        (String, u64),
        ControlError,
    >) {
        if let Some(membership) = &self.parent_membership {
            if !scope.scope.supervisor.same_identity(&membership.parent) {
                return Err(ControlError::UnknownChildId(membership.id.clone()));
            }
            return Ok((membership.id.clone(), membership.lineage));
        }
        scope.resolve_subtree_membership(self, view)
    }
}

impl ChildHandle for DynamicScopeRef {
    open spec fn resolves_to(
        &self,
        scope: &DynamicScopeRef,
        view: &SupervisorView,
        result: Result<(String, u64), ControlError>,
    ) -> bool {
        self.scope.resolves_to(scope, view, result)
    }

    fn resolve_membership(&self, scope: &DynamicScopeRef, view: &SupervisorView) -> (result: Result<
        (String, u64),
        ControlError,
    >) {
        self.scope.resolve_membership(scope, view)
    }
}

/// Actor-layer settings of one scope.
#[derive(Clone, Copy, Debug, PartialEq, Eq, Structural)]
pub struct ActorRuntimeState {
    /// Identity of this actor runtime.
    pub identity: u64,
    /// Builds the scope's actors.
    pub actor_builder: RunnableActorBuilder,
    /// Restart policy of actors that set none.
    pub default_restart: RestartPolicy,
    /// Shutdown policy of actors that set none.
    pub default_shutdown: Shutdown,
    /// What actors that do not say do with queued messages.
    pub default_mailbox_shutdown: MailboxShutdown,
}

impl ActorRuntimeState {
    /// Creates the settings of one scope.
    pub fn new(
        identity: u64,
        actor_builder: RunnableActorBuilder,
        default_restart: RestartPolicy,
        default_shutdown: Shutdown,
        default_mailbox_shutdown: MailboxShutdown,
    ) -> (state: Self)
        ensures
            state == (ActorRuntimeState {
                identity,
                actor_builder,
                default_restart,
                default_shutdown,
                default_mailbox_shutdown,
            }),
    {
        ActorRuntimeState {
            identity,
            actor_builder,
            default_restart,
            default_shutdown,
            default_mailbox_shutdown,
        }
    }

    /// Replaces the settings.
    pub fn configure(
        &mut self,
        actor_builder: RunnableActorBuilder,
        default_restart: RestartPolicy,
        default_shutdown: Shutdown,
        default_mailbox_shutdown: MailboxShutdown,
    )
        ensures
            *final(self) == (ActorRuntimeState {
                identity: old(self).identity,
                actor_builder,
                default_restart,
                default_shutdown,
                default_mailbox_shutdown,
            }),
    {
        self.actor_builder = actor_builder;
        self.default_restart = default_restart;
        self.default_shutdown = default_shutdown;
        self.default_mailbox_shutdown = default_mailbox_shutdown;
    }

    /// What a node is in this scope.
    pub open spec fn materializes(&self, node: ActorNode, materialized: ActorNode) -> bool {
        &&& materialized.policies == node.policies
        &&& materialized.payload == ActorPayload::Ready(
            match node.payload {
                ActorPayload::Deferred(deferred) => self.actor_builder.built(deferred),
                ActorPayload::Ready(actor) => actor,
            },
        )
    }

    /// Makes a tree node runnable.
    pub fn materialize_actor_node(&self, node: ActorNode) -> (materialized: ActorNode)
        ensures
            self.materializes(node, materialized),
    {
        node.materialize(&self.actor_builder)
    }
}

/// How one actor is supervised as a child of its enclosing scope.
#[derive(Clone, Copy, Debug, PartialEq, Eq, Structural)]
pub struct ActorChildOptions {
    /// Restart policy.
    pub restart: RestartPolicy,
    /// Shutdown policy.
    pub shutdown: Shutdown,
    /// What happens to queued messages.
    pub mailbox_shutdown: MailboxShutdown,
    /// Whether terminal membership is removed automatically.
    pub remove_when_done: bool,
}

/// `value`, or `default` where there is none.
pub open spec fn or_default<T>(value: Option<T>, default: T) -> T {
    match value {
        Some(value) => value,
        None => default,
    }
}

/// The options of a declaration in a scope: its own settings, and the scope's
/// where it has none.
pub open spec fn resolved_options(
    policies: crate::builder::ActorPolicies,
    state: ActorRuntimeState,
) -> ActorChildOptions {
    ActorChildOptions {
        restart: or_default(policies.restart, state.default_restart),
        shutdown: or_default(policies.shutdown, state.default_shutdown),
        mailbox_shutdown: or_default(policies.mailbox_shutdown, state.default_mailbox_shutdown),
        remove_when_done: policies.terminal_membership == TerminalMembership::Remove,
    }
}

/// Resolves the options of a declaration in a scope.
pub fn resolve_options(
    policies: &crate::builder::ActorPolicies,
    state: &ActorRuntimeState,
) -> (options: ActorChildOptions)
    ensures
        options == resolved_options(*policies, *state),
{
    ActorChildOptions {
        restart: match policies.restart {
            Some(restart) => restart,
            None => state.default_restart,
        },
        shutdown: match policies.shutdown {
            Some(shutdown) => shutdown,
            None => state.default_shutdown,
        },
        mailbox_shutdown: match policies.mailbox_shutdown {
            Some(shutdown) => shutdown,
            None => state.default_mailbox_shutdown,
        },
        remove_when_done: policies.terminal_membership == TerminalMembership::Remove,
    }
}

/// Child declaration of an actor for its supervisor.
#[derive(Debug, PartialEq, Eq)]
pub struct ActorChildSpec {
    /// The actor.
    pub actor: RunnableActor,
    /// Actor runtime that attaches it.
    pub owner: u64,
    /// Restart policy.
    pub restart: RestartPolicy,
    /// Shutdown policy.
    pub shutdown: Shutdown,
    /// Whether queued messages are handled before a stop.
    pub drain_messages: bool,
    /// Whether an abort comes after a grace.
    pub abort_after_grace: bool,
    /// Whether terminal membership is removed automatically.
    pub remove_when_done: bool,
}

/// What a scope is asked to add for an actor.
pub open spec fn child_spec(
    actor: RunnableActor,
    owner: u64,
    options: ActorChildOptions,
) -> ActorChildSpec {
    ActorChildSpec {
        actor,
        owner,
        restart: options.restart,
        shutdown: options.shutdown,
        drain_messages: options.mailbox_shutdown == MailboxShutdown::Drain,
        abort_after_grace: options.shutdown != Shutdown::Abort,
        remove_when_done: options.remove_when_done,
    }
}

/// Declares `actor` as a child of the scope with actor runtime `owner`.
pub fn actor_child_spec(actor: RunnableActor, owner: u64, options: ActorChildOptions) -> (spec:
    ActorChildSpec)
    ensures
        spec == child_spec(actor, owner, options),
{
    ActorChildSpec {
        actor,
        owner,
        restart: options.restart,
        shutdown: options.shutdown,
        drain_messages: options.mailbox_shutdown.drains(),
        abort_after_grace: !options.shutdown.is_abort(),
        remove_when_done: options.remove_when_done,
    }
}

/// A planned actor insertion.
pub struct ActorInsertion<M> {
    /// Reference to hand out once the insertion has succeeded.
    pub actor_ref: ActorRef<M>,
    /// Child to insert.
    pub child: ActorChildSpec,
}

/// The plan for inserting the actor declaration `spec` into `scope`, whose
/// actor runtime is `state`.
pub open spec fn actor_planned<M>(
    scope: DynamicScopeRef,
    spec: ActorSpec<M>,
    state: ActorRuntimeState,
    view: SupervisorView,
    plan: Result<ActorInsertion<M>, ControlError>,
) -> bool {
    match plan {
        Ok(insertion) => {
            &&& scope.controllable(&view)
            &&& spec.actor_options.own_capacity() != Some(0usize)
            &&& insertion.actor_ref.identity == spec.identity
            &&& insertion.actor_ref.actor_id == spec.actor_id
            &&& insertion.child.actor == state.actor_builder.built(
                crate::builder::DeferredActor {
                    actor_id: spec.actor_id,
                    identity: spec.identity,
                    mailbox_kind: spec.actor_options.mailbox.storage(),
                    own_capacity: spec.actor_options.own_capacity(),
                },
            )
            &&& insertion.child.owner == scope.scope.actors
            &&& ({
                let options = resolved_options(spec.policies, state);
                &&& insertion.child.restart == options.restart
                &&& insertion.child.shutdown == options.shutdown
                &&& insertion.child.drain_messages == (options.mailbox_shutdown
                    == MailboxShutdown::Drain)
                &&& insertion.child.abort_after_grace == (options.shutdown != Shutdown::Abort)
                &&& insertion.child.remove_when_done == options.remove_when_done
            })
        },
        Err(error) => if !scope.controllable(&view) {
            error == ControlError::Unavailable
        } else {
            &&& spec.actor_options.own_capacity() == Some(0usize)
            &&& error matches ControlError::Rejected(BuildError::InvalidConfig(message))
            &&& message@ == "actor mailbox capacity must be non-zero"@
        },
    }
}

impl DynamicScopeRef {
    /// Plans the insertion of an actor declaration. A scope that takes no
    /// control operations is unavailable; then an invalid declaration is
    /// rejected; otherwise unset policies come from the scope.
    pub fn add_actor_spec<M>(
        &self,
        spec: ActorSpec<M>,
        state: &ActorRuntimeState,
        view: &SupervisorView,
    ) -> (plan: Result<ActorInsertion<M>, ControlError>)
        requires
            state.identity == self.scope.actors,
        ensures
            actor_planned(*self, spec, *state, *view, plan),
    {
        if let Err(error) = self.dynamic_supervisor(view) {
            return Err(error);
        }
        let mut spec = spec;
        let actor_ref = spec.actor_ref();
        if let Err(error) = spec.actor_options.validate() {
            return Err(ControlError::Rejected(BuildError::InvalidConfig(error.message())));
        }
        let options = resolve_options(&spec.policies, state);
        let node = spec.into_deferred_node();
        let actor = match node.payload {
            ActorPayload::Deferred(deferred) => deferred.materialize(&state.actor_builder),
            ActorPayload::Ready(actor) => actor,
        };
        Ok(ActorInsertion { actor_ref, child: actor_child_spec(actor, state.identity, options) })
    }

    /// What adding a task comes to.
    pub open spec fn plans_task(
        &self,
        view: SupervisorView,
        plan: Result<LifecycleWatch, ControlError>,
    ) -> bool {
        plan == if self.controllable(&view) {
            Ok(
                LifecycleWatch {
                    supervisor: self.scope.supervisor,
                    from: view.lifecycle_events,
                },
            )
        } else {
            Err(ControlError::Unavailable)
        }
    }

    /// Plans the insertion of a task: its events are watched from before the
    /// insertion, so that none is missed.
    pub fn add_task_spec(&self, view: &SupervisorView) -> (plan: Result<
        LifecycleWatch,
        ControlError,
    >)
        ensures
            self.plans_task(*view, plan),
    {
        match self.dynamic_supervisor(view) {
            Ok(_) => Ok(self.scope.lifecycle_events(view)),
            Err(error) => Err(error),
        }
    }

    /// Names the task that an insertion added.
    pub fn added_task(&self, id: String, lineage: u64, events: LifecycleWatch) -> (task: TaskRef)
        ensures
            task == (TaskRef { id, lineage, scope: self.scope, events }),
    {
        TaskRef::new(self.scope.clone(), id, lineage, events)
    }

    /// What becomes of a subtree that was added.
    pub open spec fn finds_added(
        &self,
        id: Seq<char>,
        lineage: u64,
        view: SupervisorView,
        added: Result<ScopeRef, ControlError>,
    ) -> bool {
        &&& crate::scope::subtree_found(
            view.attached@,
            self.scope.actors,
            self.scope.supervisor,
            id,
            Some(lineage),
            match added {
                Ok(scope) => Some(scope),
                Err(_) => None,
            },
        )
        &&& added matches Err(error) ==> error == ControlError::Unavailable
    }

    /// Names the subtree that an insertion added as membership `lineage`.
    pub fn added_subtree(&self, id: &str, lineage: u64, view: &SupervisorView) -> (added: Result<
        ScopeRef,
        ControlError,
    >)
        ensures
            self.finds_added(id@, lineage, *view, added),
    {
        match self.scope.subtree_membership(view, id, Some(lineage)) {
            Some(scope) => Ok(scope),
            None => Err(ControlError::Unavailable),
        }
    }

    /// What removing a member by a handle comes to.
    pub open spec fn removes<C: ChildHandle>(
        &self,
        child: C,
        view: SupervisorView,
        plan: Result<(String, u64), ControlError>,
    ) -> bool {
        exists|resolved: Result<(String, u64), ControlError>|
            {
                &&& #[trigger] child.resolves_to(self, &view, resolved)
                &&& plan == match resolved {
                    Err(error) => Err(error),
                    Ok(membership) => if self.controllable(&view) {
                        Ok(membership)
                    } else {
                        Err(ControlError::Unavailable)
                    },
                }
            }
    }

    /// Plans the removal of the exact membership identified by `child`.
    pub fn remove<C: ChildHandle>(&self, child: &C, view: &SupervisorView) -> (plan: Result<
        (String, u64),
        ControlError,
    >)
        ensures
            self.removes(*child, *view, plan),
    {
        let resolved = child.resolve_membership(self, view);
        let ghost outcome = resolved;
        assert(child.resolves_to(self, view, outcome));
        match resolved {
            Err(error) => Err(error),
            Ok(membership) => match self.dynamic_supervisor(view) {
                Ok(_) => Ok(membership),
                Err(error) => Err(error),
            },
        }
    }

    /// What removing a member by its id comes to.
    pub open spec fn plans_removal(
        &self,
        id: String,
        view: SupervisorView,
        plan: Result<String, ControlError>,
    ) -> bool {
        plan == if self.controllable(&view) {
            Ok(id)
        } else {
            Err(ControlError::Unavailable)
        }
    }

    /// Plans the removal of whichever membership owns `id`.
    pub fn remove_named(&self, id: String, view: &SupervisorView) -> (plan: Result<
        String,
        ControlError,
    >)
        ensures
            self.plans_removal(id, *view, plan),
    {
        match self.dynamic_supervisor(view) {
            Ok(_) => Ok(id),
            Err(error) => Err(error),
        }
    }
}

/// Scope capability of a running tree.
pub trait RunningScope: Sized {
    /// Whether `scope` has the membership kind of this capability.
    spec fn fits(scope: ScopeRef) -> bool;

    /// The scope behind the capability.
    spec fn underlying(&self) -> ScopeRef;

    /// Wraps the root scope.
    fn from_scope(scope: ScopeRef) -> (running: Self)
        requires
            Self::fits(scope),
        ensures
            running.underlying() == scope,
    ;

    /// Returns another handle of the same capability.
    fn share(&self) -> (running: Self)
        ensures
            running.underlying() == self.underlying(),
    ;
}

impl RunningScope for ScopeRef {
    open spec fn fits(scope: ScopeRef) -> bool {
        true
    }

    open spec fn underlying(&self) -> ScopeRef {
        *self
    }

    fn from_scope(scope: ScopeRef) -> (running: Self) {
        scope
    }

    fn share(&self) -> (running: Self) {
        self.clone()
    }
}

impl RunningScope for DynamicScopeRef {
    open spec fn fits(scope: ScopeRef) -> bool {
        scope.supervisor.kind == ScopeKind::Dynamic
    }

    open spec fn underlying(&self) -> ScopeRef {
        self.scope
    }

    fn from_scope(scope: ScopeRef) -> (running: Self) {
        DynamicScopeRef::new(scope)
    }

    fn share(&self) -> (running: Self) {
        self.clone()
    }
}

/// Owns a spawned supervision tree.
pub struct RunningTree<S> {
    /// Supervisor of the root scope.
    pub supervisor: SupervisorHandle,
    /// Capability for the root scope.
    pub scope: S,
}

impl<S: RunningScope> RunningTree<S> {
    /// Takes ownership of a spawned tree.
    pub fn new(supervisor: SupervisorHandle, actors: u64) -> (tree: Self)
        requires
            S::fits((ScopeRef { supervisor, actors, parent_membership: None })),
        ensures
            tree.supervisor == supervisor,
            tree.scope.underlying() == (ScopeRef { supervisor, actors, parent_membership: None }),
    {
        RunningTree { supervisor, scope: S::from_scope(ScopeRef::new(supervisor, actors)) }
    }

    /// Requests a graceful shutdown of the tree without waiting for it.
    pub fn request_shutdown(&self, view: &mut SupervisorView)
        ensures
            *final(view) == (SupervisorView { shutdown_requested: true, ..*old(view) }),
    {
        view.shutdown_requested = true;
    }

    /// Gives the owner of the tree up, which requests a graceful shutdown.
    pub fn release(self, view: &mut SupervisorView)
        ensures
            *final(view) == (SupervisorView { shutdown_requested: true, ..*old(view) }),
    {
        self.request_shutdown(view);
    }

    /// Returns the running tree's non-owning root scope reference.
    pub fn scope(&self) -> (scope: S)
        ensures
            scope.underlying() == self.scope.underlying(),
    {
        self.scope.share()
    }
}

/// A lifecycle-restricted, non-owning scope reference for use inside actors.
///
/// It withholds waits on other members, which could depend on the actor that
/// waits, and hands back restricted references only.
#[derive(Debug, PartialEq, Eq)]
pub struct RestrictedScopeRef {
    handle: ScopeRef,
}

impl RestrictedScopeRef {
    /// The scope behind the restriction.
    pub closed spec fn scope(&self) -> ScopeRef {
        self.handle
    }

    /// Restricts a scope reference.
    pub fn new(handle: ScopeRef) -> (restricted: Self)
        ensures
            restricted.scope() == handle,
    {
        RestrictedScopeRef { handle }
    }

    /// Returns a point-in-time snapshot of the scope.
    pub fn snapshot(&self, view: &SupervisorView) -> (snapshot: SupervisorSnapshot)
        ensures
            snapshot.same(&view.snapshot),
    {
        self.handle.snapshot(view)
    }

    /// Returns per-actor message counters for this scope.
    pub fn actor_stats(&self, view: &SupervisorView) -> (stats: Vec<ScopedActorStats>)
        ensures
            crate::sampling::sample_views(stats@) == crate::sampling::samples(
                view.attached@,
                self.scope().actors,
            ),
    {
        self.handle.actor_stats(view)
    }

    /// Subscribes to scope snapshots.
    pub fn subscribe_snapshots(&self, view: &SupervisorView) -> (receiver:
        SupervisorSnapshotReceiver)
        ensures
            receiver.supervisor == self.scope().supervisor,
            receiver.latest.same(&view.snapshot),
    {
        self.handle.snapshots(view)
    }

    /// Returns a handle to a nested subtree by id, restricted the same way as
    /// this one.
    pub fn subtree(&self, view: &SupervisorView, id: &str) -> (found: Option<Self>)
        ensures
            crate::scope::subtree_found(
                view.attached@,
                self.scope().actors,
                self.scope().supervisor,
                id@,
                None,
                match found {
                    Some(restricted) => Some(restricted.scope()),
                    None => None,
                },
            ),
    {
        match self.handle.subtree(view, id) {
            Some(scope) => Some(RestrictedScopeRef::new(scope)),
            None => None,
        }
    }

    /// Returns whether this scope has ordered or dynamic membership.
    pub fn kind(&self) -> (kind: ScopeKind)
        ensures
            kind == self.scope().supervisor.kind,
    {
        self.handle.kind()
    }

    /// Observes lifecycle transitions of this scope and its descendants.
    pub fn watch_lifecycle(&self, view: &SupervisorView) -> (watch: LifecycleWatch)
        ensures
            watch == (LifecycleWatch {
                supervisor: self.scope().supervisor,
                from: view.lifecycle_events,
            }),
    {
        self.handle.lifecycle_events(view)
    }

    /// Creates a non-awaitable completion watch for direct children.
    pub fn completions(&self, ids: Vec<String>) -> (watch: CompletionWatch)
        ensures
            watch.supervisor == self.scope().supervisor,
            watch.ids == ids,
    {
        CompletionWatch { supervisor: self.handle.supervisor, ids }
    }

    /// Requests shutdown of this scope without waiting for it.
    pub fn shutdown(&self, view: &mut SupervisorView)
        ensures
            *final(view) == (SupervisorView { shutdown_requested: true, ..*old(view) }),
    {
        self.handle.request_shutdown(view)
    }

    /// What control over its membership the scope grants.
    pub open spec fn grants(&self, dynamic: Result<DynamicScopeRef, ControlError>) -> bool {
        dynamic == if self.scope().supervisor.kind == ScopeKind::Dynamic {
            Ok(DynamicScopeRef { scope: self.scope() })
        } else {
            Err(ControlError::NotDynamic)
        }
    }

    /// Returns the dynamic-membership capability of the scope. A scope with
    /// ordered membership has none.
    pub(crate) fn dynamic(&self) -> (dynamic: Result<DynamicScopeRef, ControlError>)
        ensures
            self.grants(dynamic),
    {
        match self.handle.dynamic() {
            Some(dynamic) => Ok(dynamic),
            None => Err(ControlError::NotDynamic),
        }
    }

    /// What adding an actor comes to.
    pub open spec fn plans_actor<M>(
        &self,
        spec: ActorSpec<M>,
        state: ActorRuntimeState,
        view: SupervisorView,
        plan: Result<ActorInsertion<M>, ControlError>,
    ) -> bool {
        if self.scope().supervisor.kind == ScopeKind::Dynamic {
            actor_planned((DynamicScopeRef { scope: self.scope() }), spec, state, view, plan)
        } else {
            plan matches Err(error) && error == ControlError::NotDynamic
        }
    }

    /// Plans the insertion of an actor declaration, where membership is
    /// dynamic.
    pub fn add_actor<M>(
        &self,
        spec: ActorSpec<M>,
        state: &ActorRuntimeState,
        view: &SupervisorView,
    ) -> (plan: Result<ActorInsertion<M>, ControlError>)
        requires
            state.identity == self.scope().actors,
        ensures
            self.plans_actor(spec, *state, *view, plan),
    {
        match self.dynamic() {
            Ok(dynamic) => dynamic.add_actor_spec(spec, state, view),
            Err(error) => Err(error),
        }
    }

    /// What adding a task comes to.
    pub open spec fn plans_task(
        &self,
        view: SupervisorView,
        plan: Result<SupervisorHandle, ControlError>,
    ) -> bool {
        plan == if self.scope().supervisor.kind != ScopeKind::Dynamic {
            Err(ControlError::NotDynamic)
        } else if view.available {
            Ok(self.scope().supervisor)
        } else {
            Err(ControlError::Unavailable)
        }
    }

    /// Plans the insertion of a task, where membership is dynamic. Success
    /// names the supervisor that takes it.
    pub fn add_task(&self, view: &SupervisorView) -> (plan: Result<SupervisorHandle, ControlError>)
        ensures
            self.plans_task(*view, plan),
    {
        match self.dynamic() {
            Ok(dynamic) => dynamic.dynamic_supervisor(view),
            Err(error) => Err(error),
        }
    }

    /// What removing a member by its id comes to.
    pub open spec fn plans_removal(
        &self,
        id: String,
        view: SupervisorView,
        plan: Result<String, ControlError>,
    ) -> bool {
        plan == if self.scope().supervisor.kind != ScopeKind::Dynamic {
            Err(ControlError::NotDynamic)
        } else if view.available {
            Ok(id)
        } else {
            Err(ControlError::Unavailable)
        }
    }

    /// Plans the removal of whichever member has the id, where membership is
    /// dynamic.
    pub fn remove_child(&self, id: String, view: &SupervisorView) -> (plan: Result<
        String,
        ControlError,
    >)
        ensures
            self.plans_removal(id, *view, plan),
    {
        match self.dynamic() {
            Ok(dynamic) => dynamic.remove_named(id, view),
            Err(error) => Err(error),
        }
    }

    /// What becomes of a subtree that was added.
    pub open spec fn finds_added(
        &self,
        id: Seq<char>,
        lineage: u64,
        view: SupervisorView,
        added: Result<Self, ControlError>,
    ) -> bool {
        &&& self.scope().supervisor.kind == ScopeKind::Dynamic ==> crate::scope::subtree_found(
            view.attached@,
            self.scope().actors,
            self.scope().supervisor,
            id,
            Some(lineage),
            match added {
                Ok(restricted) => Some(restricted.scope()),
                Err(_) => None,
            },
        )
        &&& self.scope().supervisor.kind == ScopeKind::Dynamic ==> (added matches Err(error)
            ==> error == ControlError::Unavailable)
        &&& self.scope().supervisor.kind != ScopeKind::Dynamic ==> (added matches Err(error)
            && error == ControlError::NotDynamic)
    }

    /// Names the subtree that an insertion added as membership `lineage`,
    /// restricted the same way as this scope.
    pub fn added_subtree(&self, id: &str, lineage: u64, view: &SupervisorView) -> (added: Result<
        Self,
        ControlError,
    >)
        ensures
            self.finds_added(id@, lineage, *view, added),
    {
        match self.dynamic() {
            Ok(dynamic) => match dynamic.added_subtree(id, lineage, view) {
                Ok(scope) => Ok(RestrictedScopeRef::new(scope)),
                Err(error) => Err(error),
            },
            Err(error) => Err(error),
        }
    }
}

/// A handle is refused by a scope other than its own: a task of another
/// supervisor resolves to no membership.
pub proof fn law_foreign_task_is_refused(
    task: TaskRef,
    scope: DynamicScopeRef,
    view: SupervisorView,
    result: Result<(String, u64), ControlError>,
)
    requires
        scope.scope.supervisor.identity != task.scope.supervisor.identity,
        task.resolves_to(&scope, &view, result),
    ensures
        result == Err::<(String, u64), _>(ControlError::UnknownChildId(task.id)),
{
}

/// A stale actor handle never removes a same-id replacement: a member with
/// another binding does not resolve.
pub proof fn law_stale_actor_is_refused<M>(
    actor: ActorRef<M>,
    scope: DynamicScopeRef,
    view: SupervisorView,
    result: Result<(String, u64), ControlError>,
)
    requires
        scope.controllable(&view),
        forall|i: int|
            0 <= i < view.attached@.len() ==> ((
            #[trigger] view.attached@[i]).attachment.kind matches RuntimeAttachmentKind::Actor {
                identity,
                ..
            } ==> identity != actor.identity),
        actor.resolves_to(&scope, &view, result),
    ensures
        result == Err::<(String, u64), _>(ControlError::UnknownChildId(actor.actor_id)),
{
}

/// A lookup bound to a completed insertion never returns a same-id
/// replacement.
pub proof fn law_lookup_is_bound_to_its_lineage(
    attached: Seq<AttachedChild>,
    actors: u64,
    parent: SupervisorHandle,
    id: Seq<char>,
    lineage: u64,
    found: Option<ScopeRef>,
)
    requires
        crate::scope::subtree_found(attached, actors, parent, id, Some(lineage), found),
    ensures
        found matches Some(scope) ==> scope.parent_membership matches Some(membership)
            && membership.lineage == lineage && membership.id@ == id,
{
}

} // verus!
