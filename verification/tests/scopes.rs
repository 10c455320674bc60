use kokage::builder::{ActorSpec, TerminalMembership};
use kokage::host::RunnableActorBuilder;
use kokage::mailbox::MailboxKind;
use kokage::membership::{ActorRuntimeState, ChildHandle, RestrictedScopeRef, TaskRef};
use kokage::observe::{
    ChildMembershipView, ChildSnapshot, ChildStateView, SupervisorSnapshot, SupervisorStateView,
};
use kokage::policy::ScopePathSegment;
use kokage::scope::{
    AttachedChild, RuntimeAttachment, RuntimeAttachmentKind, SupervisorHandle, SupervisorView,
};
use kokage::stats::ActorStatsCounters;
use kokage::supervision::TaskSpec;
use kokage::{
    ActorRef, BuildError, ControlError, DynamicScopeRef, MailboxShutdown, RestartMode,
    RestartPolicy, RunningTree, ScopeKind, ScopeRef, Shutdown, Strategy, SubtreeSpec, Tree,
};

const ROOT: SupervisorHandle = SupervisorHandle { identity: 10, kind: ScopeKind::Dynamic };

fn segment(id: &str, lineage: u64) -> ScopePathSegment {
    ScopePathSegment { id: id.to_owned(), lineage, generation: 0 }
}

fn actor(path: Vec<ScopePathSegment>, owner: u64, identity: u64) -> AttachedChild {
    let id = path.last().map(|segment| segment.id.clone()).unwrap_or_default();
    let stats = ActorStatsCounters::new().snapshot(&id, 0, 0);
    AttachedChild {
        path,
        attachment: RuntimeAttachment {
            owner,
            kind: RuntimeAttachmentKind::Actor { identity, stats },
        },
        supervisor: None,
    }
}

fn subtree(path: Vec<ScopePathSegment>, owner: u64, actors: u64) -> AttachedChild {
    AttachedChild {
        path,
        attachment: RuntimeAttachment { owner, kind: RuntimeAttachmentKind::Subtree { actors } },
        supervisor: Some(SupervisorHandle { identity: actors + 100, kind: ScopeKind::Ordered }),
    }
}

fn member(id: &str, lineage: u64) -> ChildSnapshot {
    ChildSnapshot {
        id: id.to_owned(),
        lineage,
        generation: 0,
        state: ChildStateView::Running { last_exit: None },
        membership: ChildMembershipView::Active,
        restart_policy: RestartPolicy::default(),
        next_restart_in: None,
    }
}

fn view(children: Vec<ChildSnapshot>, attached: Vec<AttachedChild>) -> SupervisorView {
    SupervisorView {
        snapshot: SupervisorSnapshot {
            state: SupervisorStateView::Running,
            strategy: Strategy::OneForOne,
            children,
        },
        attached,
        available: true,
        shutdown_requested: false,
        lifecycle_events: 0,
    }
}

fn root() -> DynamicScopeRef {
    ScopeRef::new(ROOT, 1).dynamic().expect("a dynamic scope")
}

fn runtime() -> ActorRuntimeState {
    ActorRuntimeState::new(
        1,
        RunnableActorBuilder::with_mailbox_capacity(7),
        RestartPolicy::default(),
        Shutdown::default(),
        MailboxShutdown::default(),
    )
}

#[test]
fn unavailable_runtime_handle_is_cached() {
    let first = ScopeRef::unavailable();
    let second = ScopeRef::unavailable();

    assert_eq!(first.actors, second.actors);
    assert!(first.supervisor.same_identity(&second.supervisor));
}

#[test]
fn subtree_membership_lookup_rejects_a_same_id_replacement() {
    let first_lineage = 1;
    let replacement_lineage = 2;
    let replaced = view(
        vec![member("workers", replacement_lineage)],
        vec![subtree(vec![segment("workers", replacement_lineage)], 1, 5)],
    );
    let scope = root().into_scope();
    assert!(
        scope.subtree_membership(&replaced, "workers", Some(first_lineage)).is_none(),
        "a lookup bound to the completed add must not return a same-id replacement"
    );
    let found = scope.subtree_membership(&replaced, "workers", Some(replacement_lineage));
    let found = found.expect("the replacement is found by its own lineage");
    assert_eq!(found.actors, 5);
    assert_eq!(found.supervisor.identity, 105);
    assert_eq!(found.parent_membership.as_ref().map(|parent| parent.lineage), Some(2));
    assert_eq!(scope.subtree(&replaced, "workers"), Some(found));
    assert_eq!(scope.subtree(&replaced, "others"), None);
    assert_eq!(
        root().added_subtree("workers", first_lineage, &replaced),
        Err(ControlError::Unavailable)
    );
    assert!(scope.snapshot(&replaced).child("workers").is_some());
}

#[test]
fn actor_spec_defaults_to_retained_membership_in_static_and_dynamic_scopes() {
    let spec = ActorSpec::<()>::new("dynamic".to_owned(), 3).restart(RestartPolicy::never());
    let plan = root().add_actor_spec(spec, &runtime(), &view(vec![], vec![]));
    let plan = match plan {
        Ok(plan) => plan,
        Err(_) => panic!("dynamic actor is inserted"),
    };
    assert!(!plan.child.remove_when_done);
    assert_eq!(plan.child.restart, RestartPolicy::never());
    assert_eq!(plan.child.shutdown, Shutdown::default());
    assert_eq!(plan.child.actor.mailbox_capacity, 7);
    assert!(plan.child.drain_messages);
    assert!(plan.child.abort_after_grace);
    assert_eq!(plan.actor_ref.identity, 3);
}

#[test]
fn dynamic_membership_removal_is_explicit() {
    let spec = ActorSpec::<()>::new("ephemeral".to_owned(), 3)
        .restart(RestartPolicy::never())
        .shutdown(Shutdown::abort())
        .terminal_membership(TerminalMembership::Remove);
    match root().add_actor_spec(spec, &runtime(), &view(vec![], vec![])) {
        Ok(plan) => {
            assert!(plan.child.remove_when_done);
            assert!(!plan.child.abort_after_grace);
        }
        Err(_) => panic!("dynamic actor is inserted"),
    }
}

#[test]
fn insertions_are_refused_before_the_supervisor_sees_them() {
    let zero = || ActorSpec::<()>::new("a".to_owned(), 3).mailbox_capacity(0);
    let rejected = match root().add_actor_spec(zero(), &runtime(), &view(vec![], vec![])) {
        Ok(_) => panic!("a zero capacity is invalid"),
        Err(error) => error,
    };
    assert_eq!(
        rejected,
        ControlError::Rejected(BuildError::InvalidConfig(
            "actor mailbox capacity must be non-zero".to_owned()
        ))
    );

    let mut gone = view(vec![], vec![]);
    gone.available = false;
    assert!(matches!(
        root().add_actor_spec(zero(), &runtime(), &gone),
        Err(ControlError::Unavailable)
    ));
    assert_eq!(root().add_task_spec(&gone), Err(ControlError::Unavailable));
    assert_eq!(
        root().remove_named("a".to_owned(), &gone),
        Err(ControlError::Unavailable)
    );
}

#[test]
fn handles_resolve_to_exact_memberships() {
    let live = view(
        vec![],
        vec![
            actor(vec![segment("worker", 4)], 9, 3),
            actor(vec![segment("worker", 5)], 1, 3),
            subtree(vec![segment("nested", 6)], 1, 8),
        ],
    );
    let actor_ref = |identity| ActorRef::<()> {
        identity,
        actor_id: "worker".to_owned(),
        source_actor_id: None,
        message: std::marker::PhantomData,
    };
    let unknown = |id: &str| Err(ControlError::UnknownChildId(id.to_owned()));
    assert_eq!(root().remove(&actor_ref(3), &live), Ok(("worker".to_owned(), 5)));
    assert_eq!(root().remove(&actor_ref(2), &live), unknown("worker"));

    let nested = root().into_scope().subtree(&live, "nested").expect("the nested scope");
    assert_eq!(root().remove(&nested, &live), Ok(("nested".to_owned(), 6)));
    let direct = ScopeRef::new(nested.supervisor, 8);
    assert_eq!(direct.resolve_membership(&root(), &live), Ok(("nested".to_owned(), 6)));
    let foreign = SupervisorHandle { identity: 77, kind: ScopeKind::Dynamic };
    assert_eq!(root().remove(&ScopeRef::new(foreign, 1), &live), unknown("<root>"));

    let watch = root().scope.lifecycle_events(&live);
    let task = TaskRef::new(root().into_scope(), "job".to_owned(), 12, watch);
    assert_eq!(root().remove(&task, &live), Ok(("job".to_owned(), 12)));
    let other = TaskRef::new(ScopeRef::new(foreign, 1), "job".to_owned(), 12, watch);
    assert_eq!(root().remove(&other, &live), unknown("job"));
    assert_eq!(root().remove_named("any".to_owned(), &live), Ok("any".to_owned()));

    let added = root().added_task("job".to_owned(), 13, watch);
    assert_eq!((added.id().as_str(), added.lineage), ("job", 13));
}

#[test]
fn statistics_cover_the_scope_and_nothing_else() {
    let nested = || segment("nested", 2);
    let live = view(
        vec![],
        vec![
            actor(vec![segment("direct", 1)], 1, 31),
            subtree(vec![nested()], 1, 8),
            actor(vec![nested(), segment("inner", 3)], 8, 32),
            actor(vec![nested(), segment("foreign", 4)], 1, 33),
            actor(vec![segment("ghost", 9), segment("lost", 5)], 8, 34),
            subtree(vec![segment("other", 6)], 99, 7),
            actor(vec![segment("other", 6), segment("hidden", 7)], 7, 35),
            actor(vec![], 1, 36),
        ],
    );
    let stats = root().scope.actor_stats(&live);
    let seen: Vec<(usize, u64, &str)> = stats
        .iter()
        .map(|sample| {
            (sample.scope_path.len(), sample.lineage, sample.stats.actor_id.as_str())
        })
        .collect();
    assert_eq!(seen, vec![(0, 1, "direct"), (1, 3, "inner")]);
    assert_eq!(stats[1].scope_path, vec![nested()]);
}

#[test]
fn own_actors_are_sampled_before_those_of_subtrees() {
    let outer = || segment("outer", 1);
    let inner = || segment("inner", 2);
    let second = || segment("second", 3);
    let live = view(
        vec![],
        vec![
            subtree(vec![outer()], 1, 7),
            subtree(vec![outer(), inner()], 7, 8),
            actor(vec![outer(), inner(), segment("deepest", 10)], 8, 31),
            actor(vec![outer(), segment("middle", 11)], 7, 32),
            actor(vec![segment("first", 12)], 1, 33),
            subtree(vec![second()], 1, 9),
            actor(vec![second(), segment("aside", 13)], 9, 34),
            actor(vec![segment("last", 14)], 1, 35),
        ],
    );
    let stats = root().scope.actor_stats(&live);
    let seen: Vec<&str> = stats.iter().map(|sample| sample.stats.actor_id.as_str()).collect();
    assert_eq!(seen, vec!["first", "last", "middle", "deepest", "aside"]);
    assert_eq!(stats[3].scope_path, vec![outer(), inner()]);
    assert_eq!(stats[4].scope_path, vec![second()]);
}

#[test]
fn only_dynamic_scopes_can_be_mutated() {
    let ordered = SupervisorHandle { identity: 5, kind: ScopeKind::Ordered };
    let scope = ScopeRef::new(ordered, 1);
    assert_eq!(scope.kind(), ScopeKind::Ordered);
    assert_eq!(scope.dynamic(), None);
    let tree: RunningTree<ScopeRef> = RunningTree::new(ordered, 1);
    assert_eq!(tree.scope(), scope);
    let running: RunningTree<DynamicScopeRef> = RunningTree::new(ROOT, 1);
    assert_eq!(running.scope(), root());
    let mut live = view(vec![], vec![]);
    running.request_shutdown(&mut live);
    assert!(live.shutdown_requested);
}

#[test]
fn giving_up_a_running_tree_requests_shutdown() {
    let mut live = view(vec![], vec![]);
    let running: RunningTree<DynamicScopeRef> = RunningTree::new(ROOT, 1);
    running.release(&mut live);
    assert!(live.shutdown_requested);
}

#[test]
fn observation_starts_at_the_snapshot() {
    let mut live = view(vec![member("a", 1)], vec![]);
    live.lifecycle_events = 4;
    let scope = root().into_scope();
    let observation = scope.observe_children(&live);
    assert_eq!(observation.events.from, 4);
    assert_eq!(observation.snapshot, live.snapshot);
    assert_eq!(scope.snapshots(&live).latest, live.snapshot);
    scope.request_shutdown(&mut live);
    assert!(live.shutdown_requested);
}

#[test]
fn restricted_references_stay_restricted() {
    let mut live = view(
        vec![member("nested", 6)],
        vec![
            subtree(vec![segment("nested", 6)], 1, 8),
            actor(vec![segment("direct", 1)], 1, 31),
        ],
    );
    let restricted = RestrictedScopeRef::new(root().into_scope());
    assert_eq!(restricted.kind(), ScopeKind::Dynamic);
    assert_eq!(restricted.snapshot(&live), live.snapshot);
    assert_eq!(restricted.subscribe_snapshots(&live).latest, live.snapshot);
    assert_eq!(restricted.actor_stats(&live).len(), 1);
    assert_eq!(restricted.watch_lifecycle(&live).supervisor, ROOT);
    let nested: RestrictedScopeRef = restricted.subtree(&live, "nested").expect("the nested scope");
    assert_eq!(nested.kind(), ScopeKind::Ordered);
    assert!(restricted.subtree(&live, "direct").is_none());
    let watch = restricted.completions(vec!["nested".to_owned()]);
    assert_eq!(watch.ids, vec!["nested".to_owned()]);
    restricted.shutdown(&mut live);
    assert!(live.shutdown_requested);
}

#[test]
fn runtime_defaults_can_be_replaced() {
    let mut state = runtime();
    state.configure(
        RunnableActorBuilder::new(),
        RestartPolicy::never(),
        Shutdown::abort(),
        MailboxShutdown::Discard,
    );
    assert_eq!(state.identity, 1);
    let spec = ActorSpec::<()>::new("a".to_owned(), 3);
    match root().add_actor_spec(spec, &state, &view(vec![], vec![])) {
        Ok(plan) => {
            assert_eq!(plan.child.actor.mailbox_capacity, 64);
            assert_eq!(plan.child.restart, RestartPolicy::never());
            assert!(!plan.child.drain_messages);
        }
        Err(_) => panic!("dynamic actor is inserted"),
    }
}

#[test]
fn subtree_insertions_keep_the_reserved_identity() {
    let spec = SubtreeSpec::ordered(Tree::new(6)).restart(RestartMode::Never);
    let plan = root().add_subtree("workers".to_owned(), spec, &view(vec![], vec![]));
    let plan = plan.ok().expect("a planned insertion");
    assert_eq!((plan.id.as_str(), plan.owner, plan.actors), ("workers", 1, 6));
    assert_eq!(plan.restart, Some(RestartPolicy::never()));
    assert_eq!(plan.shutdown, None);
    assert_eq!(plan.ops.len(), 2);
}

#[test]
fn subtree_insertions_are_refused() {
    let invalid = SubtreeSpec::ordered(Tree::new(6).mailbox_capacity(0));
    let refused = root().add_subtree("workers".to_owned(), invalid, &view(vec![], vec![]));
    assert!(matches!(
        refused,
        Err(ControlError::Rejected(BuildError::InvalidConfig(message)))
            if message == "actor mailbox capacity must be non-zero"
    ));

    let mut stopped = view(vec![], vec![]);
    stopped.available = false;
    let invalid = SubtreeSpec::ordered(Tree::new(6).mailbox_capacity(0));
    let refused = root().add_subtree("workers".to_owned(), invalid, &stopped);
    assert!(matches!(refused, Err(ControlError::Unavailable)));
}

#[test]
fn restricted_scopes_plan_insertions() {
    let live = view(
        vec![member("workers", 4)],
        vec![subtree(vec![segment("workers", 4)], 1, 6)],
    );
    let scope = RestrictedScopeRef::new(root().into_scope());
    let spec: ActorSpec<()> = ActorSpec::new("first".to_owned(), 11);
    let plan = scope.add_actor(spec, &runtime(), &live).ok().expect("a planned insertion");
    assert_eq!((plan.child.owner, plan.child.actor.mailbox_capacity), (1, 7));
    assert_eq!(plan.child.actor.mailbox_kind, MailboxKind::Queue);
    assert_eq!(scope.add_task(&live).ok().map(|supervisor| supervisor.identity), Some(10));
    let tree = SubtreeSpec::ordered(Tree::new(6));
    let plan = scope.add_subtree("workers".to_owned(), tree, &live).ok().expect("a subtree");
    assert_eq!((plan.owner, plan.actors), (1, 6));
    let added = scope.added_subtree("workers", 4, &live);
    assert_eq!(added.ok().map(|scope| scope.kind()), Some(ScopeKind::Ordered));
    assert_eq!(scope.added_subtree("workers", 5, &live), Err(ControlError::Unavailable));
    assert_eq!(scope.remove_child("first".to_owned(), &live), Ok("first".to_owned()));
}

#[test]
fn ordered_scopes_refuse_restricted_changes() {
    let live = view(vec![], vec![]);
    let ordered = SupervisorHandle { identity: 10, kind: ScopeKind::Ordered };
    let scope = RestrictedScopeRef::new(ScopeRef::new(ordered, 1));
    let spec: ActorSpec<()> = ActorSpec::new("first".to_owned(), 11);
    let refused = scope.add_actor(spec, &runtime(), &live).err();
    assert_eq!(refused, Some(ControlError::NotDynamic));
    assert_eq!(scope.add_task(&live).err(), Some(ControlError::NotDynamic));
    let tree = SubtreeSpec::ordered(Tree::new(6));
    let refused = scope.add_subtree("workers".to_owned(), tree, &live).err();
    assert_eq!(refused, Some(ControlError::NotDynamic));
    assert_eq!(scope.remove_child("first".to_owned(), &live), Err(ControlError::NotDynamic));
}

#[test]
fn one_shot_work_never_restarts() {
    let mut live = view(vec![], vec![]);
    live.lifecycle_events = 3;
    let plan = root().spawn_once("once".to_owned(), &live).ok().expect("a planned insertion");
    assert_eq!(plan.task.id, "once");
    assert_eq!(plan.task.restart, Some(RestartPolicy::never()));
    assert!(plan.task.remove_when_done);
    assert_eq!(plan.events.from, 3);

    let mut kept = TaskSpec::new("kept".to_owned());
    kept.restart = Some(RestartPolicy::always());
    let plan = root().spawn_once_spec(kept, &live).ok().expect("a planned insertion");
    assert_eq!(plan.task.restart, Some(RestartPolicy::never()));
    assert!(!plan.task.remove_when_done);

    live.available = false;
    let refused = root().spawn_once("once".to_owned(), &live).err();
    assert_eq!(refused, Some(ControlError::Unavailable));
}
