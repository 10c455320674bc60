use kokage::binding::{BindingCore, BindingGuard, BindingState};
use kokage::channel::{mailbox, MailboxReceiver, MailboxRef};
use kokage::mailbox::{MessageRejection, TrySendFailure};
use kokage::{Mailbox, RestartPolicy, SendError, SendErrorKind};

fn assert_mailbox_closed<M>(failure: TrySendFailure<M>) {
    assert!(matches!(
        failure.error,
        SendError { actor_id, kind: SendErrorKind::NotRunning, .. } if actor_id == "worker"
    ));
    assert_eq!(failure.rejection, MessageRejection::MailboxClosed);
}

fn worker(sender: kokage::channel::MailboxSender<()>) -> MailboxRef<()> {
    MailboxRef::new("worker".to_owned(), sender)
}

fn rejected(mailbox: &MailboxRef<()>) -> TrySendFailure<()> {
    match mailbox.try_send(()).0 {
        Err(failure) => failure,
        Ok(_) => panic!("the mailbox takes nothing"),
    }
}

#[test]
fn try_send_keeps_closed_queue_rejection_private() {
    let (sender, mut receiver) = mailbox(&Mailbox::queue(1), 1);
    receiver.close_external();
    assert_mailbox_closed(rejected(&worker(sender)));
}

#[test]
fn try_send_keeps_dropped_queue_rejection_private() {
    let (sender, receiver) = mailbox(&Mailbox::queue(1), 1);
    drop(receiver);
    assert_mailbox_closed(rejected(&worker(sender)));
}

#[test]
fn try_send_keeps_dropped_conflating_rejection_private() {
    let (sender, receiver) = mailbox(&Mailbox::latest(), 1);
    if let MailboxReceiver::Conflating(mut receiver) = receiver {
        receiver.close();
    } else {
        panic!("a latest-wins mailbox conflates");
    }
    assert_mailbox_closed(rejected(&worker(sender)));
}

#[test]
fn try_send_keeps_closed_conflating_rejection_private() {
    let (sender, mut receiver) = mailbox(&Mailbox::latest(), 1);
    receiver.close_external();
    assert_mailbox_closed(rejected(&worker(sender)));
}

fn incarnation_mailbox() -> (MailboxRef<()>, MailboxReceiver<()>) {
    let (sender, receiver) = mailbox(&Mailbox::queue(1), 1);
    (MailboxRef::new("worker".to_owned(), sender), receiver)
}

fn new_core() -> BindingCore<()> {
    BindingCore::new(1, "worker".to_owned())
}

fn assert_bound_to(core: &BindingCore<()>, mailbox: &MailboxRef<()>) {
    assert!(
        matches!(&core.current, BindingState::Bound(current) if current.same_channel(mailbox))
    );
}

fn bind_for_test(core: &mut BindingCore<()>, mailbox: MailboxRef<()>) {
    let run = core.monitor_run();
    assert!(core.bind(mailbox, &run).is_some());
}

#[test]
fn unbind_ignores_a_mailbox_that_is_no_longer_bound() {
    let mut core = new_core();
    let (cancelled, _cancelled_rx) = incarnation_mailbox();
    let (replacement, _replacement_rx) = incarnation_mailbox();

    bind_for_test(&mut core, cancelled.share());
    bind_for_test(&mut core, replacement.share());

    assert!(!core.unbind_mailbox(&cancelled));
    assert_bound_to(&core, &replacement);

    assert!(core.unbind_mailbox(&replacement));
    assert!(matches!(&core.current, BindingState::Unbound));
}

#[test]
fn terminate_ignores_a_mailbox_that_is_no_longer_bound() {
    let mut core = new_core();
    let (cancelled, _cancelled_rx) = incarnation_mailbox();
    let (replacement, _replacement_rx) = incarnation_mailbox();

    bind_for_test(&mut core, cancelled.share());
    bind_for_test(&mut core, replacement.share());

    assert!(!core.terminate_mailbox(&cancelled));
    assert_bound_to(&core, &replacement);

    assert!(core.terminate_mailbox(&replacement));
    assert!(matches!(&core.current, BindingState::Terminated));
}

#[test]
fn teardown_does_not_regress_a_terminated_binding() {
    let mut core = new_core();
    let (cancelled, _cancelled_rx) = incarnation_mailbox();

    bind_for_test(&mut core, cancelled.share());
    core.terminate();

    assert!(!core.unbind_mailbox(&cancelled));
    assert!(matches!(&core.current, BindingState::Terminated));
    assert!(!core.unbind());
    assert!(matches!(&core.current, BindingState::Terminated));
}

#[test]
fn terminal_binding_rejects_a_late_run() {
    let mut core = new_core();
    let (late, _late_rx) = incarnation_mailbox();
    let monitor_run = core.monitor_run();
    core.terminate();

    assert!(core.bind(late, &monitor_run).is_none());
    assert!(matches!(&core.current, BindingState::Terminated));
}

#[test]
fn new_run_after_terminal_teardown_can_reopen_the_binding() {
    let mut core = new_core();
    let (replacement, _replacement_rx) = incarnation_mailbox();
    let subject = 9;
    let old_lease = core.outbound_monitors.lease();
    assert!(core.outbound_monitors.register(&old_lease, subject).installed());
    core.terminate();
    assert!(core.outbound_monitors.is_stopped(&old_lease));

    let monitor_run = core.monitor_run();
    let replacement_lease = core
        .bind(replacement.share(), &monitor_run)
        .expect("a new run reopens the terminated binding");
    assert_bound_to(&core, &replacement);
    assert!(!core.outbound_monitors.register(&old_lease, subject).installed());
    assert!(core.outbound_monitors.is_stopped(&old_lease));
    assert!(core.outbound_monitors.register(&replacement_lease, subject).installed());
    assert!(!core.outbound_monitors.is_stopped(&replacement_lease));
}

#[test]
fn late_older_run_cannot_replace_a_newer_binding() {
    let mut core = new_core();
    let (older, _older_rx) = incarnation_mailbox();
    let (newer, _newer_rx) = incarnation_mailbox();
    let older_run = core.monitor_run();
    let newer_run = core.monitor_run();

    assert!(core.bind(newer.share(), &newer_run).is_some());
    assert!(core.bind(older, &older_run).is_none());
    assert_bound_to(&core, &newer);
}

#[test]
fn guard_teardown_follows_the_restart_policy() {
    for (policy, terminal) in [
        (RestartPolicy::always(), false),
        (RestartPolicy::on_failure(), false),
        (RestartPolicy::never(), true),
    ] {
        let mut core = new_core();
        let (mailbox, _receiver) = incarnation_mailbox();
        let run = core.monitor_run();
        let guard = BindingGuard::bind(&mut core, mailbox, &run, policy).expect("a fresh slot");
        assert!(guard.release(&mut core));
        assert_eq!(matches!(&core.current, BindingState::Terminated), terminal);
        assert_eq!(matches!(&core.current, BindingState::Unbound), !terminal);
    }
}

#[test]
fn guard_of_a_displaced_run_clears_nothing() {
    let mut core = new_core();
    let (first, _first_rx) = incarnation_mailbox();
    let (second, _second_rx) = incarnation_mailbox();
    let first_run = core.monitor_run();
    let second_run = core.monitor_run();
    let guard = BindingGuard::bind(&mut core, first, &first_run, RestartPolicy::never())
        .expect("a fresh slot");
    assert!(core.bind(second.share(), &second_run).is_some());
    assert!(!guard.release(&mut core));
    assert_bound_to(&core, &second);
}

#[test]
fn hub_refusal_leaves_the_binding_terminated() {
    let mut core = new_core();
    let (mailbox, _receiver) = incarnation_mailbox();
    let run = core.monitor_run();
    let epoch = core.monitors.current_epoch();
    core.monitors.removed(epoch);
    assert!(core.bind(mailbox, &run).is_none());
    assert!(matches!(&core.current, BindingState::Terminated));
}

#[test]
fn stats_show_the_bound_mailbox_only() {
    let mut core = new_core();
    assert_eq!((core.stats().0.mailbox_depth, core.stats().0.mailbox_capacity), (0, 0));
    let (mailbox, _receiver) = incarnation_mailbox();
    bind_for_test(&mut core, mailbox.share());
    assert_eq!((core.stats().0.mailbox_depth, core.stats().0.mailbox_capacity), (0, 1));
    assert!(mailbox.try_send(()).0.is_ok());
    assert_eq!((core.stats().0.mailbox_depth, core.stats().0.mailbox_capacity), (1, 1));
    core.terminate();
    assert_eq!((core.stats().0.mailbox_depth, core.stats().0.mailbox_capacity), (0, 0));
}
