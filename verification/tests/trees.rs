use kokage::builder::ActorSpec;
use kokage::outline::{RestartWire, WireChild};
use kokage::supervision::{LowerOp, TaskSpec};
use kokage::{
    BuildError, ChildOutline, DynamicScopeRef, DynamicTree, Mailbox, RestartMode, RestartPolicy,
    ScopeKind, ScopeRef, Shutdown, Strategy, SubtreeSpec, SupervisionOutline, Tree, WireOutline,
};

#[test]
fn tree_root_types_preserve_statically_known_membership() {
    let ordered_spawn: fn(Tree) -> (Vec<LowerOp>, bool) = Tree::spawn;
    let ordered_scope: fn(&Tree) -> ScopeRef = Tree::scope;
    let dynamic_spawn: fn(DynamicTree) -> (Vec<LowerOp>, bool) = DynamicTree::spawn;
    let dynamic_scope: fn(&DynamicTree) -> DynamicScopeRef = DynamicTree::scope;

    let _ = (ordered_spawn, ordered_scope, dynamic_spawn, dynamic_scope);
}

fn actor(id: &str, identity: u64) -> ActorSpec<()> {
    ActorSpec::new(id.to_owned(), identity)
}

fn sample() -> Tree {
    let mut inner = Tree::new(2).strategy(Strategy::OneForAll);
    inner.add_actor_spec(actor("leaf", 21));
    let mut tree = Tree::new(1)
        .default_restart(RestartPolicy::always())
        .default_shutdown(Shutdown::graceful_for(9))
        .mailbox_capacity(5);
    let reference = tree.add_actor_spec(actor("first", 11).restart(RestartPolicy::never()));
    assert_eq!(reference.id(), "first");
    tree.add_task_spec(TaskSpec::new("second".to_owned()));
    tree.add_subtree("third".to_owned(), inner);
    let spec = SubtreeSpec::dynamic(DynamicTree::new(3))
        .restart(RestartMode::Never)
        .shutdown(Shutdown::abort());
    tree.add_subtree_spec("fourth".to_owned(), spec);
    tree
}

#[test]
fn outlines_keep_declaration_order() {
    let outline = sample().outline();
    assert_eq!(outline.kind, ScopeKind::Ordered);
    assert_eq!(outline.child_ids(), vec!["first", "second", "third", "fourth"]);
    match outline.child("first") {
        Some(ChildOutline::Actor { restart, shutdown, remove_when_done, .. }) => {
            assert_eq!(*restart, RestartPolicy::never());
            assert_eq!(*shutdown, Shutdown::graceful_for(9));
            assert!(!remove_when_done);
        }
        _ => panic!("the first child is an actor"),
    }
    match outline.child("third") {
        Some(ChildOutline::Scope { restart, outline, .. }) => {
            assert_eq!(*restart, RestartPolicy::always());
            assert_eq!(outline.strategy, Strategy::OneForAll);
            assert_eq!(outline.child_ids(), vec!["leaf"]);
        }
        _ => panic!("the third child is a scope"),
    }
    match outline.child("fourth") {
        Some(ChildOutline::Scope { restart, shutdown, outline, .. }) => {
            assert_eq!(*restart, RestartPolicy::never());
            assert_eq!(*shutdown, Shutdown::abort());
            assert_eq!(outline.kind, ScopeKind::Dynamic);
        }
        _ => panic!("the fourth child is a scope"),
    }
    assert!(outline.child("fifth").is_none());
}

fn names(ops: &[LowerOp]) -> Vec<&'static str> {
    ops.iter()
        .map(|op| match op {
            LowerOp::Open { .. } => "open",
            LowerOp::Actor(_) => "actor",
            LowerOp::Task(_) => "task",
            LowerOp::Build => "build",
            LowerOp::Attach { .. } => "attach",
            LowerOp::RejectCapacity => "reject",
        })
        .collect()
}

#[test]
fn lowering_builds_scopes_from_the_inside_out() {
    let (ops, success) = sample().spawn();
    assert!(success);
    assert_eq!(
        names(&ops),
        vec![
            "open", "actor", "task", "open", "actor", "build", "attach", "open", "build", "attach",
            "build",
        ]
    );
    match &ops[1] {
        LowerOp::Actor(spec) => {
            assert_eq!(spec.actor.mailbox_capacity, 5);
            assert_eq!(spec.owner, 1);
        }
        _ => panic!("the second step starts an actor"),
    }
    match &ops[6] {
        LowerOp::Attach { id, owner, actors, .. } => {
            assert_eq!((id.as_str(), *owner, *actors), ("third", 1, 2));
        }
        _ => panic!("the seventh step attaches a scope"),
    }
}

#[test]
fn zero_capacities_stop_the_lowering() {
    let mut tree = Tree::new(1);
    tree.add_actor_spec(actor("bad", 11).mailbox(Mailbox::queue(0)));
    tree.add_task_spec(TaskSpec::new("never".to_owned()));
    let (ops, success) = tree.spawn();
    assert!(!success);
    let last = ops.last().expect("a rejection");
    assert!(matches!(last, LowerOp::RejectCapacity));
    assert!(matches!(last.rejection(), Some(BuildError::InvalidConfig(_))));
    assert_eq!(LowerOp::Build.rejection(), None);
}

#[test]
fn scopes_are_known_before_they_run() {
    let tree = Tree::new(7);
    let scope = tree.scope();
    assert_eq!(scope.kind(), ScopeKind::Ordered);
    assert_eq!(scope.actors, 7);
    let dynamic = DynamicTree::new(8).mailbox_capacity(2).default_restart(RestartPolicy::never());
    assert_eq!(dynamic.scope().scope.actors, 8);
    assert_eq!(dynamic.outline().kind, ScopeKind::Dynamic);
    assert_eq!(dynamic.outline().default_restart, RestartPolicy::never());
    let (ops, success) = dynamic.default_shutdown(Shutdown::abort()).spawn();
    assert!(success);
    assert_eq!(names(&ops), vec!["open", "build"]);
}

fn wire(children: Vec<WireChild>) -> WireOutline {
    WireOutline {
        kind: ScopeKind::Ordered,
        strategy: Strategy::OneForOne,
        default_restart: RestartPolicy::always(),
        default_shutdown: Shutdown::graceful_for(3),
        children,
    }
}

fn restart_wire(remove_when_done: bool) -> RestartWire {
    RestartWire { policy: RestartPolicy::never(), remove_when_done }
}

#[test]
fn stored_outlines_read_back() {
    let stored = wire(vec![
        WireChild::Actor {
            id: "a".to_owned(),
            restart: restart_wire(false),
            shutdown: Shutdown::abort(),
            remove_when_done: Some(true),
        },
        WireChild::Task {
            id: "t".to_owned(),
            restart: restart_wire(true),
            shutdown: Shutdown::abort(),
            remove_when_done: None,
        },
        WireChild::Scope {
            id: "s".to_owned(),
            restart: None,
            shutdown: None,
            outline: wire(vec![]),
        },
    ]);
    let outline: SupervisionOutline = stored.into_outline();
    assert_eq!(outline.child_ids(), vec!["a", "t", "s"]);
    assert!(matches!(
        outline.child("a"),
        Some(ChildOutline::Actor { remove_when_done: true, .. })
    ));
    assert!(matches!(
        outline.child("t"),
        Some(ChildOutline::Task { remove_when_done: true, .. })
    ));
    match outline.child("s") {
        Some(ChildOutline::Scope { restart, shutdown, .. }) => {
            assert_eq!(*restart, RestartPolicy::always());
            assert_eq!(*shutdown, Shutdown::graceful_for(3));
        }
        _ => panic!("the third child is a scope"),
    }
    assert_eq!(outline.child("s").map(|child| child.id()), Some("s"));
}
