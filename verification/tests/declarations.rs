use kokage::builder::{ActorNode, ActorPayload, RestartConfig, TerminalMembership};
use kokage::channel::{mailbox, MailboxReceiver, MailboxRef};
use kokage::host::{
    ActorRunError, Incarnation, IncarnationControl, IncarnationExit, RunnableActorBuilder,
};
use kokage::hub::MonitorHub;
use kokage::mailbox::MailboxKind;
use kokage::{
    ActorOptions, ActorRef, ActorSlot, ActorSpec, Mailbox, MailboxShutdown, RestartMode,
    RestartPolicy, Shutdown,
};

struct OpaqueMessage;

struct Snapshot(Vec<u8>);

fn accepted_bytes<M>(spec: ActorSpec<M>, message: M) -> u64 {
    let mut core = spec.binding();
    let actor = ActorRef::from_core(&core, None);
    let (sender, _receiver): (_, MailboxReceiver<M>) = mailbox(&Mailbox::queue(1), 1);
    let run = core.monitor_run();
    let incarnation = MailboxRef::new("worker".to_owned(), sender);
    assert!(core.bind(incarnation, &run).is_some());
    assert!(actor.try_send(&mut core, message).0.is_ok());
    core.stats().0.message_bytes_accepted.expect("message sizing is enabled")
}

#[test]
fn actor_spec_debug_does_not_bound_the_message_type() {
    let spec: ActorSpec<OpaqueMessage> =
        ActorSpec::new("worker".to_owned(), 1).mailbox(Mailbox::latest());
    assert!(spec.to_debug_string().contains("worker"));
}

#[test]
fn declarations_show_their_supervision_settings() {
    let inherited: ActorSpec<u8> = ActorSpec::new("worker".to_owned(), 1);
    assert_eq!(
        inherited.to_debug_string(),
        "ActorSpec { actor_id: \"worker\", restart: None, shutdown: None, restart_config: None, \
         terminal_membership: Retain, .. }"
    );
    let own = inherited
        .restart(RestartPolicy::from_mode(RestartMode::OnFailure))
        .shutdown(Shutdown::graceful_for(1_500_000_000))
        .restart_config(RestartConfig { max_restarts: 12, within: 60_000_000_000 })
        .terminal_membership(TerminalMembership::Remove);
    assert_eq!(
        own.to_debug_string(),
        "ActorSpec { actor_id: \"worker\", restart: Some(RestartPolicy { mode: OnFailure }), \
         shutdown: Some(Graceful { grace: 1.5s }), \
         restart_config: Some(RestartConfig { max_restarts: 12, within: 60s }), \
         terminal_membership: Remove, .. }"
    );
    assert!(own
        .restart(RestartPolicy::from_mode(RestartMode::Never))
        .shutdown(Shutdown::abort())
        .to_debug_string()
        .contains("{ mode: Never }), shutdown: Some(Abort), "));
}

#[test]
fn message_size_accepts_a_foreign_message_type() {
    let spec = ActorSpec::new("worker".to_owned(), 1).message_size(String::len);
    let size_hint = spec.actor_options.size_hint.as_ref().expect("message sizing is configured");
    assert_eq!(size_hint.measure(&"payload".to_owned()), 7);
    assert_eq!(accepted_bytes(spec, "payload".to_owned()), 7);
}

#[test]
fn message_size_accepts_an_explicitly_typed_non_capturing_closure() {
    let spec = ActorSpec::new("worker".to_owned(), 1)
        .message_size(|message: &Snapshot| message.0.len());
    let size_hint = spec.actor_options.size_hint.as_ref().expect("message sizing is configured");
    assert_eq!(size_hint.measure(&Snapshot(vec![0; 7])), 7);
    assert_eq!(accepted_bytes(spec, Snapshot(vec![0; 7])), 7);
}

#[test]
fn sizes_are_not_observed_unless_asked_for() {
    let spec = ActorSpec::<String>::new("worker".to_owned(), 1);
    assert_eq!(spec.binding().stats().0.message_bytes_accepted, None);
}

#[test]
fn actor_spec_applies_options_and_returns_runnable() {
    let mut spec =
        ActorSpec::<OpaqueMessage>::new("worker".to_owned(), 1).mailbox(Mailbox::latest());
    let actor_ref = spec.actor_ref();
    let actor = spec.into_runnable();
    assert_eq!(actor_ref.id(), "worker");
    assert_eq!(actor.label(), "worker");
    assert_eq!(actor.mailbox_kind, MailboxKind::Latest);
    assert_eq!(actor.mailbox_capacity, 1);
    assert_eq!(actor.identity, actor_ref.identity);
}

#[test]
fn into_runnable_stores_zero_capacity_without_supervisor_validation() {
    let actor = ActorSpec::<OpaqueMessage>::new("worker".to_owned(), 1)
        .mailbox_capacity(0)
        .into_runnable();
    assert_eq!(actor.label(), "worker");
    assert_eq!(actor.mailbox_capacity, 0);
}

#[test]
fn run_until_rejects_zero_mailbox_capacity() {
    let mut actor = ActorSpec::<OpaqueMessage>::new("worker".to_owned(), 1)
        .mailbox_capacity(0)
        .into_runnable();
    let mut hub = MonitorHub::new(&"worker".to_owned());
    let control = IncarnationControl {
        restart: RestartPolicy::always(),
        drain_messages: true,
        dropped_is_cancelled: false,
    };
    let result = match Incarnation::begin(&mut actor, hub.new_run(false), control) {
        Ok(_) => panic!("a zero mailbox capacity starts nothing"),
        Err(exit) => exit.into_result(),
    };
    assert!(matches!(
        result,
        Err(ActorRunError::ZeroMailboxCapacity { actor_id }) if actor_id == "worker"
    ));
    assert!(!actor.running);
}

#[test]
fn capacity_falls_back_to_the_scope_and_then_to_the_default() {
    let spec = || ActorSpec::<OpaqueMessage>::new("worker".to_owned(), 1);
    let builder = RunnableActorBuilder::with_mailbox_capacity(9);
    let capacity = |node: ActorNode| match node.payload {
        ActorPayload::Ready(actor) => actor.mailbox_capacity,
        ActorPayload::Deferred(_) => panic!("the node has been made runnable"),
    };
    assert_eq!(capacity(spec().into_node(&builder)), 9);
    assert_eq!(capacity(spec().mailbox(Mailbox::queue(3)).into_node(&builder)), 3);
    assert_eq!(capacity(spec().mailbox_capacity(5).into_node(&builder)), 5);
    assert_eq!(spec().into_runnable().mailbox_capacity, 64);
}

#[test]
fn zero_capacities_are_invalid() {
    let text = "actor mailbox capacity must be non-zero";
    for options in [
        ActorOptions::<()>::new().mailbox_capacity(0),
        ActorOptions::new().mailbox(Mailbox::queue(0)),
        ActorOptions::new().mailbox(Mailbox::latest_by_key(0, |_: &()| 0u8)),
    ] {
        assert_eq!(options.validate().unwrap_err().message(), text);
    }
    assert!(ActorOptions::<()>::new().validate().is_ok());
    assert!(ActorOptions::<()>::new().mailbox(Mailbox::latest()).validate().is_ok());
    let node = ActorSpec::<()>::new("a".to_owned(), 1).mailbox_capacity(0).into_deferred_node();
    assert_eq!(node.validate().unwrap_err().message(), text);
    let ready = node.materialize(&RunnableActorBuilder::new());
    assert!(ready.validate().is_ok());
}

#[test]
fn declarations_inherit_until_told_otherwise() {
    let spec = ActorSpec::<()>::new("a".to_owned(), 1);
    assert_eq!(spec.policies.restart, None);
    assert_eq!(spec.policies.shutdown, None);
    assert_eq!(spec.policies.terminal_membership, TerminalMembership::Retain);
    let config = RestartConfig { max_restarts: 3, within: 1_000 };
    let node = spec
        .restart(RestartPolicy::never())
        .shutdown(Shutdown::abort())
        .mailbox_shutdown(MailboxShutdown::Discard)
        .restart_config(config)
        .terminal_membership(TerminalMembership::Remove)
        .into_deferred_node();
    assert_eq!(node.label(), "a");
    assert_eq!(node.policies.restart, Some(RestartPolicy::never()));
    assert_eq!(node.policies.shutdown, Some(Shutdown::abort()));
    assert_eq!(node.policies.mailbox_shutdown, Some(MailboxShutdown::Discard));
    assert_eq!(node.policies.restart_config, Some(config));
    assert!(node.removes_when_done());
}

#[test]
fn slot_references_refer_to_the_definition() {
    let mut slot = ActorSlot::<u8>::new("hub".to_owned(), 4).message_size(|_: &u8| 1);
    let early = slot.actor_ref();
    let spec = slot
        .mailbox(Mailbox::latest_by_key(2, |message: &u8| message % 2))
        .mailbox_capacity(6)
        .restart(RestartPolicy::always())
        .shutdown(Shutdown::graceful_for(1))
        .restart_config(RestartConfig { max_restarts: 1, within: 2 })
        .terminal_membership(TerminalMembership::Remove)
        .define();
    assert_eq!(early.identity, spec.identity);
    assert_eq!(early.id(), "hub");
    assert!(spec.actor_options.size_hint.is_some());
    assert_eq!(spec.into_runnable().mailbox_capacity, 6);
}

#[test]
fn stopped_exits_convert_to_success() {
    assert!(IncarnationExit::Stopped.into_result().is_ok());
    assert!(IncarnationExit::ShutdownRequested.into_result().is_ok());
}
