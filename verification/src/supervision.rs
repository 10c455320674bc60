//! Supervision trees: declarations with reserved identities, their outlines,
//! and their lowering to what a supervisor builds.
use vstd::prelude::*;

use crate::builder::{ActorNode, ActorPayload};
use crate::host::{RunnableActorBuilder, DEFAULT_MAILBOX_CAPACITY};
use crate::membership::{ActorChildSpec, ActorRuntimeState};
use crate::outline::{ChildOutline, SupervisionOutline};
use crate::policy::{
    BuildError, ControlError, MailboxShutdown, RestartMode, RestartPolicy, ScopeKind, Shutdown,
    Strategy,
};
use crate::scope::{DynamicScopeRef, LifecycleWatch, SupervisorView};

verus! {

/// Settings of one scope.
#[derive(Clone, Copy, Debug, PartialEq, Eq, Structural)]
pub struct ScopeConfig {
    /// Restart strategy.
    pub strategy: Strategy,
    /// Restart policy of children that set none.
    pub default_restart: RestartPolicy,
    /// Shutdown policy of children that set none.
    pub default_shutdown: Shutdown,
    /// Mailbox capacity of actors that set none.
    pub mailbox_capacity: usize,
    /// Identity reserved for the scope.
    pub reservation: u64,
}

impl ScopeConfig {
    /// Standard settings under a reserved identity.
    pub open spec fn standard(reservation: u64) -> ScopeConfig {
        ScopeConfig {
            strategy: Strategy::OneForOne,
            default_restart: RestartPolicy { mode: RestartMode::OnFailure },
            default_shutdown: Shutdown::Graceful { grace: crate::policy::DEFAULT_GRACE },
            mailbox_capacity: DEFAULT_MAILBOX_CAPACITY,
            reservation,
        }
    }

    /// Standard settings under a reserved identity.
    pub fn new(reservation: u64) -> (config: Self)
        ensures
            config == ScopeConfig::standard(reservation),
    {
        ScopeConfig {
            strategy: Strategy::default(),
            default_restart: RestartPolicy::default(),
            default_shutdown: Shutdown::default(),
            mailbox_capacity: DEFAULT_MAILBOX_CAPACITY,
            reservation,
        }
    }

    /// The actor runtime of a scope with these settings.
    pub open spec fn runtime(&self) -> ActorRuntimeState {
        ActorRuntimeState {
            identity: self.reservation,
            actor_builder: RunnableActorBuilder { mailbox_capacity: self.mailbox_capacity },
            default_restart: self.default_restart,
            default_shutdown: self.default_shutdown,
            default_mailbox_shutdown: MailboxShutdown::Drain,
        }
    }

    /// Returns the actor runtime of a scope with these settings.
    pub fn actor_runtime(&self) -> (state: ActorRuntimeState)
        ensures
            state == self.runtime(),
    {
        ActorRuntimeState::new(
            self.reservation,
            RunnableActorBuilder::with_mailbox_capacity(self.mailbox_capacity),
            self.default_restart,
            self.default_shutdown,
            MailboxShutdown::default(),
        )
    }
}

/// Declaration of a task.
#[derive(Debug, PartialEq, Eq)]
pub struct TaskSpec {
    /// Task id.
    pub id: String,
    /// Restart policy, where one is set.
    pub restart: Option<RestartPolicy>,
    /// Shutdown policy, where one is set.
    pub shutdown: Option<Shutdown>,
    /// Whether terminal membership is removed automatically.
    pub remove_when_done: bool,
}

impl Clone for TaskSpec {
    fn clone(&self) -> (task: Self)
        ensures
            task == *self,
    {
        TaskSpec {
            id: self.id.clone(),
            restart: self.restart,
            shutdown: self.shutdown,
            remove_when_done: self.remove_when_done,
        }
    }
}

impl TaskSpec {
    /// A task with the settings of its scope.
    pub open spec fn plain(id: String) -> TaskSpec {
        TaskSpec { id, restart: None, shutdown: None, remove_when_done: false }
    }

    /// Declares a task that inherits its policies.
    pub fn new(id: String) -> (task: Self)
        ensures
            task == TaskSpec::plain(id),
    {
        TaskSpec { id, restart: None, shutdown: None, remove_when_done: false }
    }

    /// A task that runs once and leaves.
    pub open spec fn once(id: String) -> TaskSpec {
        TaskSpec {
            id,
            restart: Some(RestartPolicy { mode: RestartMode::Never }),
            shutdown: None,
            remove_when_done: true,
        }
    }

    /// Declares finite work that never restarts and leaves once it is done.
    pub fn one_shot(id: String) -> (task: Self)
        ensures
            task == TaskSpec::once(id),
    {
        TaskSpec {
            id,
            restart: Some(RestartPolicy::never()),
            shutdown: None,
            remove_when_done: true,
        }
    }

    /// The policies of the task in a scope with those defaults.
    pub open spec fn resolves_to(
        &self,
        default_restart: RestartPolicy,
        default_shutdown: Shutdown,
        policies: (RestartPolicy, Shutdown),
    ) -> bool {
        &&& policies.0 == crate::membership::or_default(self.restart, default_restart)
        &&& policies.1 == crate::membership::or_default(self.shutdown, default_shutdown)
    }

    /// Returns the policies of the task in a scope with these defaults.
    pub fn resolved_policies(&self, default_restart: RestartPolicy, default_shutdown: Shutdown) -> (
        policies: (RestartPolicy, Shutdown))
        ensures
            self.resolves_to(default_restart, default_shutdown, policies),
    {
        (
            match self.restart {
                Some(restart) => restart,
                None => default_restart,
            },
            match self.shutdown {
                Some(shutdown) => shutdown,
                None => default_shutdown,
            },
        )
    }
}

/// A planned task insertion.
pub struct TaskInsertion {
    /// Task to insert.
    pub task: TaskSpec,
    /// Where its events are watched from.
    pub events: LifecycleWatch,
}

impl DynamicScopeRef {
    /// What spawning a task that runs once comes to.
    pub open spec fn spawns_once(
        &self,
        id: String,
        view: SupervisorView,
        plan: Result<TaskInsertion, ControlError>,
    ) -> bool {
        match plan {
            Ok(insertion) => {
                &&& self.controllable(&view)
                &&& insertion.task.id == id
                &&& insertion.task.restart == Some(
                    RestartPolicy { mode: RestartMode::Never },
                )
                &&& insertion.task.shutdown is None
                &&& insertion.task.remove_when_done
                &&& insertion.events == (LifecycleWatch {
                    supervisor: self.scope.supervisor,
                    from: view.lifecycle_events,
                })
            },
            Err(error) => !self.controllable(&view) && error == ControlError::Unavailable,
        }
    }

    /// Plans finite one-shot work, whose membership is removed after its
    /// completion.
    pub fn spawn_once(&self, id: String, view: &SupervisorView) -> (plan: Result<
        TaskInsertion,
        ControlError,
    >)
        ensures
            self.spawns_once(id, *view, plan),
    {
        self.spawn_once_spec(TaskSpec::one_shot(id), view)
    }

    /// What spawning that task once comes to.
    pub open spec fn spawns_task_once(
        &self,
        task: TaskSpec,
        view: SupervisorView,
        plan: Result<TaskInsertion, ControlError>,
    ) -> bool {
        match plan {
            Ok(insertion) => {
                &&& self.controllable(&view)
                &&& insertion.task == (TaskSpec {
                    restart: Some(
                        RestartPolicy { mode: RestartMode::Never },
                    ),
                    ..task
                })
                &&& insertion.events == (LifecycleWatch {
                    supervisor: self.scope.supervisor,
                    from: view.lifecycle_events,
                })
            },
            Err(error) => !self.controllable(&view) && error == ControlError::Unavailable,
        }
    }

    /// Plans explicitly configured one-shot work: whatever the declaration
    /// says, it never restarts.
    pub fn spawn_once_spec(&self, task: TaskSpec, view: &SupervisorView) -> (plan: Result<
        TaskInsertion,
        ControlError,
    >)
        ensures
            self.spawns_task_once(task, *view, plan),
    {
        match self.add_task_spec(view) {
            Ok(events) => Ok(
                TaskInsertion {
                    task: TaskSpec { restart: Some(RestartPolicy::never()), ..task },
                    events,
                },
            ),
            Err(error) => Err(error),
        }
    }
}

/// Declaration of a scope.
pub enum ScopeNode {
    /// A declared child sequence.
    Ordered {
        /// Settings.
        config: ScopeConfig,
        /// Children in semantic order.
        children: Vec<SupervisionChild>,
    },
    /// Membership written at run time.
    Dynamic {
        /// Settings.
        config: ScopeConfig,
    },
}

/// Declaration of a child.
pub enum SupervisionChild {
    /// An actor.
    Actor(ActorNode),
    /// A task.
    Task(TaskSpec),
    /// A nested scope.
    Scope {
        /// Child id.
        id: String,
        /// The scope.
        node: ScopeNode,
        /// Edge restart policy, where one is set.
        restart: Option<RestartPolicy>,
        /// Edge shutdown policy, where one is set.
        shutdown: Option<Shutdown>,
    },
}

impl SupervisionChild {
    /// The declared id.
    pub open spec fn name(&self) -> Seq<char> {
        match self {
            SupervisionChild::Actor(actor) => actor.name(),
            SupervisionChild::Task(task) => task.id@,
            SupervisionChild::Scope { id, .. } => id@,
        }
    }

    /// Returns the declared id.
    pub fn declared_id(&self) -> (id: &String)
        ensures
            id@ == self.name(),
    {
        match self {
            SupervisionChild::Actor(actor) => actor.label(),
            SupervisionChild::Task(task) => &task.id,
            SupervisionChild::Scope { id, .. } => id,
        }
    }
}

impl ScopeNode {
    /// Settings of the scope.
    pub open spec fn settings(&self) -> ScopeConfig {
        match self {
            ScopeNode::Ordered { config, .. } => *config,
            ScopeNode::Dynamic { config } => *config,
        }
    }

    /// Kind of the scope.
    pub open spec fn scope_kind(&self) -> ScopeKind {
        match self {
            ScopeNode::Ordered { .. } => ScopeKind::Ordered,
            ScopeNode::Dynamic { .. } => ScopeKind::Dynamic,
        }
    }

    /// Declared children; a dynamic scope has none.
    pub open spec fn declared(&self) -> Seq<SupervisionChild> {
        match self {
            ScopeNode::Ordered { children, .. } => children@,
            ScopeNode::Dynamic { .. } => Seq::empty(),
        }
    }

    /// Returns the settings of the scope.
    pub fn config(&self) -> (config: ScopeConfig)
        ensures
            config == self.settings(),
    {
        match self {
            ScopeNode::Ordered { config, .. } => *config,
            ScopeNode::Dynamic { config } => *config,
        }
    }

    /// Returns the kind of the scope.
    pub fn kind(&self) -> (kind: ScopeKind)
        ensures
            kind == self.scope_kind(),
    {
        match self {
            ScopeNode::Ordered { .. } => ScopeKind::Ordered,
            ScopeNode::Dynamic { .. } => ScopeKind::Dynamic,
        }
    }
}

/// `outline` is the payload-free form of `node`: same kind, settings and
/// children in the same order.
pub open spec fn outlines(node: ScopeNode, outline: SupervisionOutline) -> bool
    decreases node, 0nat,
{
    let config = node.settings();
    &&& outline.kind == node.scope_kind()
    &&& outline.strategy == config.strategy
    &&& outline.default_restart == config.default_restart
    &&& outline.default_shutdown == config.default_shutdown
    &&& match node {
        ScopeNode::Ordered { children, .. } => {
            &&& outline.children@.len() == children@.len()
            &&& forall|i: int|
                0 <= i < children@.len() ==> child_outlines(
                    #[trigger] children@[i],
                    outline.children@[i],
                    config,
                )
        },
        ScopeNode::Dynamic { .. } => outline.children@.len() == 0,
    }
}

/// `outline` is the payload-free form of `child` in a scope with these
/// settings: unset policies are those of the scope.
pub open spec fn child_outlines(
    child: SupervisionChild,
    outline: ChildOutline,
    config: ScopeConfig,
) -> bool
    decreases child, 0nat,
{
    match child {
        SupervisionChild::Actor(actor) => outline matches ChildOutline::Actor {
            id,
            restart,
            shutdown,
            remove_when_done,
        } && id@ == actor.name() && restart == crate::membership::or_default(
            actor.policies.restart,
            config.default_restart,
        ) && shutdown == crate::membership::or_default(
            actor.policies.shutdown,
            config.default_shutdown,
        ) && remove_when_done == actor.ephemeral(),
        SupervisionChild::Task(task) => outline matches ChildOutline::Task {
            id,
            restart,
            shutdown,
            remove_when_done,
        } && id@ == task.id@ && restart == crate::membership::or_default(
            task.restart,
            config.default_restart,
        ) && shutdown == crate::membership::or_default(task.shutdown, config.default_shutdown)
            && remove_when_done == task.remove_when_done,
        SupervisionChild::Scope { id, node, restart, shutdown } => {
            &&& outline is Scope
            &&& outline->Scope_id@ == id@
            &&& outline->Scope_restart == crate::membership::or_default(
                restart,
                config.default_restart,
            )
            &&& outline->Scope_shutdown == crate::membership::or_default(
                shutdown,
                config.default_shutdown,
            )
            &&& outlines(node, outline->outline)
        },
    }
}

impl ScopeNode {
    /// Projects the declaration to payload-free data.
    pub fn outline(&self) -> (outline: SupervisionOutline)
        ensures
            outlines(*self, outline),
        decreases self, 0nat,
    {
        let config = self.config();
        let mut outlined: Vec<ChildOutline> = Vec::new();
        if let ScopeNode::Ordered { children, .. } = self {
            let mut i: usize = 0;
            while i < children.len()
                invariant
                    i <= children@.len(),
                    outlined@.len() == i,
                    self matches ScopeNode::Ordered { children: own, .. } && own == *children,
                    forall|j: int|
                        0 <= j < i ==> child_outlines(
                            #[trigger] children@[j],
                            outlined@[j],
                            config,
                        ),
                decreases children.len() - i,
            {
                outlined.push(children[i].outline(&config));
                i += 1;
            }
        }
        SupervisionOutline {
            kind: self.kind(),
            strategy: config.strategy,
            default_restart: config.default_restart,
            default_shutdown: config.default_shutdown,
            children: outlined,
        }
    }
}

impl SupervisionChild {
    /// Projects the declaration to payload-free data, in a scope with these
    /// settings.
    pub fn outline(&self, config: &ScopeConfig) -> (outline: ChildOutline)
        ensures
            child_outlines(*self, outline, *config),
        decreases self, 0nat,
    {
        match self {
            SupervisionChild::Actor(actor) => ChildOutline::Actor {
                id: actor.label().clone(),
                restart: match actor.policies.restart {
                    Some(restart) => restart,
                    None => config.default_restart,
                },
                shutdown: match actor.policies.shutdown {
                    Some(shutdown) => shutdown,
                    None => config.default_shutdown,
                },
                remove_when_done: actor.removes_when_done(),
            },
            SupervisionChild::Task(task) => {
                let (restart, shutdown) = task.resolved_policies(
                    config.default_restart,
                    config.default_shutdown,
                );
                ChildOutline::Task {
                    id: task.id.clone(),
                    restart,
                    shutdown,
                    remove_when_done: task.remove_when_done,
                }
            },
            SupervisionChild::Scope { id, node, restart, shutdown } => ChildOutline::Scope {
                id: id.clone(),
                restart: match restart {
                    Some(restart) => *restart,
                    None => config.default_restart,
                },
                shutdown: match shutdown {
                    Some(shutdown) => *shutdown,
                    None => config.default_shutdown,
                },
                outline: node.outline(),
            },
        }
    }
}

/// One instruction to whoever builds supervisors. Scopes are built inside out:
/// what follows an opened scope goes into it until it is built.
#[derive(Debug, PartialEq, Eq)]
pub enum LowerOp {
    /// Open a scope under its reserved identity.
    Open {
        /// Kind of the scope.
        kind: ScopeKind,
        /// Restart strategy.
        strategy: Strategy,
        /// Actor runtime of the scope, with its defaults.
        actors: ActorRuntimeState,
    },
    /// Add an actor to the open scope.
    Actor(ActorChildSpec),
    /// Add a task to the open scope.
    Task(TaskSpec),
    /// Build the open scope.
    Build,
    /// Add the scope just built to the one it was opened in.
    Attach {
        /// Child id.
        id: String,
        /// Edge restart policy, where one is set.
        restart: Option<RestartPolicy>,
        /// Edge shutdown policy, where one is set.
        shutdown: Option<Shutdown>,
        /// Actor runtime of the enclosing scope.
        owner: u64,
        /// Actor runtime of the nested scope.
        actors: u64,
    },
    /// Give up: an actor mailbox capacity is zero.
    RejectCapacity,
}

impl LowerOp {
    /// Why the instruction refuses the declaration, if it does.
    pub open spec fn rejects(&self, error: Option<BuildError>) -> bool {
        &&& error is Some <==> *self is RejectCapacity
        &&& error matches Some(error) ==> error matches BuildError::InvalidConfig(message)
            && message@ == "actor mailbox capacity must be non-zero"@
    }

    /// Returns the error of an instruction that gives up.
    pub fn rejection(&self) -> (error: Option<BuildError>)
        ensures
            self.rejects(error),
    {
        match self {
            LowerOp::RejectCapacity => Some(
                BuildError::InvalidConfig("actor mailbox capacity must be non-zero".to_owned()),
            ),
            _ => None,
        }
    }
}

/// The child that an actor declaration becomes in a scope.
pub open spec fn lowered_actor(actor: ActorNode, state: ActorRuntimeState) -> ActorChildSpec {
    let options = crate::membership::resolved_options(actor.policies, state);
    ActorChildSpec {
        actor: match actor.payload {
            ActorPayload::Deferred(deferred) => state.actor_builder.built(deferred),
            ActorPayload::Ready(actor) => actor,
        },
        owner: state.identity,
        restart: options.restart,
        shutdown: options.shutdown,
        drain_messages: options.mailbox_shutdown == MailboxShutdown::Drain,
        abort_after_grace: options.shutdown != Shutdown::Abort,
        remove_when_done: options.remove_when_done,
    }
}

/// The instructions that a scope lowers to, and whether they succeed. The
/// first invalid capacity in declaration order is the last instruction.
pub open spec fn lowered(node: ScopeNode) -> (Seq<LowerOp>, bool)
    decreases node, 0nat,
{
    let config = node.settings();
    if config.mailbox_capacity == 0 {
        (seq![LowerOp::RejectCapacity], false)
    } else {
        let open = seq![
            LowerOp::Open {
                kind: node.scope_kind(),
                strategy: config.strategy,
                actors: config.runtime(),
            },
        ];
        match node {
            ScopeNode::Dynamic { .. } => (open.push(LowerOp::Build), true),
            ScopeNode::Ordered { children, .. } => {
                let (ops, success) = lowered_prefix(
                    children@,
                    children@.len(),
                    config.runtime(),
                );
                if success {
                    ((open + ops).push(LowerOp::Build), true)
                } else {
                    (open + ops, false)
                }
            },
        }
    }
}

/// The instructions of the first `n` children, up to the first failure.
pub open spec fn lowered_prefix(
    children: Seq<SupervisionChild>,
    n: nat,
    state: ActorRuntimeState,
) -> (Seq<LowerOp>, bool)
    decreases children, n,
{
    if n == 0 || n > children.len() {
        (Seq::empty(), true)
    } else {
        let (before, success) = lowered_prefix(children, (n - 1) as nat, state);
        if !success {
            (before, false)
        } else {
            let (ops, success) = lowered_child(children[n - 1], state);
            (before + ops, success)
        }
    }
}

/// The instructions of one child.
pub open spec fn lowered_child(child: SupervisionChild, state: ActorRuntimeState) -> (
    Seq<LowerOp>,
    bool,
)
    decreases child, 0nat,
{
    match child {
        SupervisionChild::Actor(actor) => if actor.valid() {
            (seq![LowerOp::Actor(lowered_actor(actor, state))], true)
        } else {
            (seq![LowerOp::RejectCapacity], false)
        },
        SupervisionChild::Task(task) => (seq![LowerOp::Task(task)], true),
        SupervisionChild::Scope { id, node, restart, shutdown } => {
            let (ops, success) = lowered(node);
            if success {
                (
                    ops.push(
                        LowerOp::Attach {
                            id,
                            restart,
                            shutdown,
                            owner: state.identity,
                            actors: node.settings().reservation,
                        },
                    ),
                    true,
                )
            } else {
                (ops, false)
            }
        },
    }
}

impl ScopeNode {
    /// Appends the instructions of this scope. Reports whether they succeed.
    pub fn lower(&self, ops: &mut Vec<LowerOp>) -> (success: bool)
        ensures
            final(ops)@ == old(ops)@ + lowered(*self).0,
            success == lowered(*self).1,
        decreases self, 0nat,
    {
        let config = self.config();
        if config.mailbox_capacity == 0 {
            ops.push(LowerOp::RejectCapacity);
            assert(ops@ =~= old(ops)@ + lowered(*self).0);
            return false;
        }
        let state = config.actor_runtime();
        ops.push(
            LowerOp::Open { kind: self.kind(), strategy: config.strategy, actors: state },
        );
        let ghost opened = ops@;
        if let ScopeNode::Ordered { children, .. } = self {
            let mut i: usize = 0;
            assert(ops@ =~= opened + lowered_prefix(children@, 0, state).0);
            while i < children.len()
                invariant
                    i <= children@.len(),
                    self matches ScopeNode::Ordered { children: own, .. } && own == *children,
                    config == self.settings(),
                    config.mailbox_capacity != 0,
                    state == config.runtime(),
                    opened == old(ops)@.push(
                        LowerOp::Open {
                            kind: self.scope_kind(),
                            strategy: config.strategy,
                            actors: state,
                        },
                    ),
                    ops@ == opened + lowered_prefix(children@, i as nat, state).0,
                    lowered_prefix(children@, i as nat, state).1,
                decreases children.len() - i,
            {
                let ghost before = ops@;
                let success = children[i].lower(&state, ops);
                proof {
                    let next = lowered_prefix(children@, (i + 1) as nat, state);
                    assert(next.0 == lowered_prefix(children@, i as nat, state).0
                        + lowered_child(children@[i as int], state).0);
                    assert(ops@ =~= opened + next.0);
                }
                if !success {
                    proof {
                        lemma_prefix_failure(children@, (i + 1) as nat, children@.len(), state);
                        assert(ops@ =~= old(ops)@ + lowered(*self).0);
                    }
                    return false;
                }
                i += 1;
            }
        }
        ops.push(LowerOp::Build);
        assert(ops@ =~= old(ops)@ + lowered(*self).0);
        true
    }
}

/// A failed prefix decides all longer ones.
proof fn lemma_prefix_failure(
    children: Seq<SupervisionChild>,
    n: nat,
    m: nat,
    state: ActorRuntimeState,
)
    requires
        n <= m <= children.len(),
        !lowered_prefix(children, n, state).1,
    ensures
        lowered_prefix(children, m, state) == lowered_prefix(children, n, state),
    decreases m - n,
{
    if n < m {
        lemma_prefix_failure(children, n, (m - 1) as nat, state);
    }
}

impl SupervisionChild {
    /// Appends the instructions of this child of the scope with actor runtime
    /// `state`. Reports whether they succeed.
    pub fn lower(&self, state: &ActorRuntimeState, ops: &mut Vec<LowerOp>) -> (success: bool)
        ensures
            final(ops)@ == old(ops)@ + lowered_child(*self, *state).0,
            success == lowered_child(*self, *state).1,
        decreases self, 0nat,
    {
        match self {
            SupervisionChild::Actor(actor) => {
                if actor.validate().is_err() {
                    ops.push(LowerOp::RejectCapacity);
                    assert(ops@ =~= old(ops)@ + lowered_child(*self, *state).0);
                    return false;
                }
                let options = crate::membership::resolve_options(&actor.policies, state);
                let node = state.materialize_actor_node(actor.clone());
                if let ActorPayload::Ready(actor) = node.payload {
                    ops.push(
                        LowerOp::Actor(
                            crate::membership::actor_child_spec(actor, state.identity, options),
                        ),
                    );
                }
                assert(ops@ =~= old(ops)@ + lowered_child(*self, *state).0);
                true
            },
            SupervisionChild::Task(task) => {
                ops.push(LowerOp::Task(task.clone()));
                assert(ops@ =~= old(ops)@ + lowered_child(*self, *state).0);
                true
            },
            SupervisionChild::Scope { id, node, restart, shutdown } => {
                if !node.lower(ops) {
                    assert(ops@ =~= old(ops)@ + lowered_child(*self, *state).0);
                    return false;
                }
                ops.push(
                    LowerOp::Attach {
                        id: id.clone(),
                        restart: *restart,
                        shutdown: *shutdown,
                        owner: state.identity,
                        actors: node.config().reservation,
                    },
                );
                assert(ops@ =~= old(ops)@ + lowered_child(*self, *state).0);
                true
            },
        }
    }
}

} // verus!
