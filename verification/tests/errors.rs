use kokage::error::{ErasedSendError, ReplyError};
use kokage::host::ActorRunError;
use kokage::{BlockingCancelled, CallError, OffloadDeadline, SendError, SendErrorKind, TaskError};

struct Opaque;

#[test]
fn generic_delivery_errors_do_not_format_the_message() {
    for (kind, display) in [
        (SendErrorKind::NotRunning, "actor `worker` is not currently running"),
        (SendErrorKind::Full, "mailbox for actor `worker` is full"),
        (SendErrorKind::Terminated, "actor `worker` has terminated"),
        (SendErrorKind::TimedOut, "send to actor `worker` timed out"),
    ] {
        let send = SendError { actor_id: "worker".to_owned(), message: Opaque, kind };
        assert_eq!(send.to_string(), display);
        assert_eq!(
            send.to_debug_string(),
            format!("SendError {{ actor_id: \"worker\", kind: {kind:?}, .. }}")
        );
    }
}

#[test]
fn payload_erasure_retains_the_target_and_rejection() {
    for kind in [
        SendErrorKind::NotRunning,
        SendErrorKind::Full,
        SendErrorKind::Terminated,
        SendErrorKind::TimedOut,
    ] {
        let error = SendError { actor_id: "worker".to_owned(), message: Opaque, kind };
        let carrier_display = error.to_string();
        let erased = error.into_boxed();
        assert_eq!(erased.to_string(), carrier_display);
        assert_eq!(*erased, ErasedSendError { actor_id: "worker".to_owned(), kind });
    }
}

#[test]
fn rejected_send_returns_its_message() {
    let error = SendError { actor_id: "a".to_owned(), message: 7u32, kind: SendErrorKind::Full };
    assert_eq!(error.into_message(), 7);
}

#[test]
fn debug_text_escapes_the_actor_id() {
    let error = SendError {
        actor_id: "a\"b\n".to_owned(),
        message: (),
        kind: SendErrorKind::Full,
    };
    assert_eq!(
        error.to_debug_string(),
        "SendError { actor_id: \"a\\\"b\\n\", kind: Full, .. }"
    );
}

#[test]
fn call_errors_name_the_target() {
    let id = || "db".to_owned();
    for (error, text) in [
        (
            CallError::Terminated { actor_id: id() },
            "actor `db` terminated before accepting the call",
        ),
        (
            CallError::AcceptanceTimedOut { actor_id: id() },
            "call to actor `db` timed out before acceptance",
        ),
        (
            CallError::ResponseTimedOut { actor_id: id() },
            "call to actor `db` timed out waiting for a response",
        ),
        (CallError::ReplyDropped { actor_id: id() }, "actor `db` dropped the reply"),
    ] {
        assert_eq!(error.to_string(), text);
    }
}

#[test]
fn plain_errors_have_fixed_texts() {
    assert_eq!(
        BlockingCancelled.to_string(),
        "blocking task was cancelled during runtime shutdown"
    );
    assert_eq!(OffloadDeadline.to_string(), "actor offload deadline elapsed");
    assert_eq!(ReplyError::Dropped.to_string(), "reply sender was dropped without answering");
    assert_eq!(ReplyError::Timeout.to_string(), "reply deadline elapsed");
    assert_eq!(
        TaskError::StoppedBeforeReady { task_id: "t".to_owned() }.to_string(),
        "task `t` stopped before reporting readiness"
    );
    assert_eq!(
        TaskError::Unavailable { task_id: "t".to_owned() }.to_string(),
        "task `t` is no longer available"
    );
}

#[test]
fn run_errors_name_the_actor() {
    let id = || "w".to_owned();
    for (error, text) in [
        (
            ActorRunError::Failed { actor_id: id(), source: "boom".to_owned() },
            "actor `w` returned an error",
        ),
        (
            ActorRunError::ReadinessTimedOut { actor_id: id(), timeout: 1_500_000_000 },
            "actor `w` did not report readiness within 1.5s",
        ),
        (ActorRunError::ShutdownTimedOut { actor_id: id() }, "actor `w` shutdown timed out"),
        (
            ActorRunError::ZeroMailboxCapacity { actor_id: id() },
            "actor `w` has a zero mailbox capacity",
        ),
    ] {
        assert_eq!(error.to_string(), text);
    }
}
