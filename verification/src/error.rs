//! Delivery errors and their texts.
use vstd::prelude::*;

verus! {

/// Tokio cancelled queued blocking work during runtime shutdown before it
/// could return a value.
#[derive(Clone, Copy, Debug, PartialEq, Eq, Structural)]
pub struct BlockingCancelled;

impl BlockingCancelled {
    /// Describes the error.
    pub fn to_string(&self) -> (text: String)
        ensures
            text@ == "blocking task was cancelled during runtime shutdown"@,
    {
        "blocking task was cancelled during runtime shutdown".to_owned()
    }
}

/// An offloaded future did not complete before its required deadline.
#[derive(Clone, Copy, Debug, PartialEq, Eq, Structural)]
pub struct OffloadDeadline;

impl OffloadDeadline {
    /// Describes the error.
    pub fn to_string(&self) -> (text: String)
        ensures
            text@ == "actor offload deadline elapsed"@,
    {
        "actor offload deadline elapsed".to_owned()
    }
}

/// Reason a send did not accept its message.
#[derive(Clone, Copy, Debug, PartialEq, Eq, Structural)]
pub enum SendErrorKind {
    /// The target actor has no live incarnation right now.
    NotRunning,
    /// The target actor's mailbox is full.
    Full,
    /// The target membership has terminated and no restart is scheduled.
    Terminated,
    /// The message was not accepted before the bound elapsed.
    TimedOut,
}

/// `before`, then `actor_id`, then `after`.
pub open spec fn quoted(before: Seq<char>, actor_id: Seq<char>, after: Seq<char>) -> Seq<char> {
    before + actor_id + after
}

/// Text of a rejected send to `actor_id`.
pub open spec fn send_error_text(kind: SendErrorKind, actor_id: Seq<char>) -> Seq<char> {
    match kind {
        SendErrorKind::NotRunning => quoted("actor `"@, actor_id, "` is not currently running"@),
        SendErrorKind::Full => quoted("mailbox for actor `"@, actor_id, "` is full"@),
        SendErrorKind::Terminated => quoted("actor `"@, actor_id, "` has terminated"@),
        SendErrorKind::TimedOut => quoted("send to actor `"@, actor_id, "` timed out"@),
    }
}

/// Joins `before`, `actor_id` and `after`.
pub(crate) fn quote(before: &str, actor_id: &String, after: &str) -> (text: String)
    ensures
        text@ == quoted(before@, actor_id@, after@),
{
    let mut text = before.to_owned();
    text.append(actor_id.as_str());
    text.append(after);
    text
}

impl SendErrorKind {
    /// Describes this rejection of a send to `actor_id`.
    pub fn fmt_with_actor(self, actor_id: &String) -> (text: String)
        ensures
            text@ == send_error_text(self, actor_id@),
    {
        match self {
            SendErrorKind::NotRunning => quote("actor `", actor_id, "` is not currently running"),
            SendErrorKind::Full => quote("mailbox for actor `", actor_id, "` is full"),
            SendErrorKind::Terminated => quote("actor `", actor_id, "` has terminated"),
            SendErrorKind::TimedOut => quote("send to actor `", actor_id, "` timed out"),
        }
    }

    /// The variant's name.
    pub open spec fn name(self) -> Seq<char> {
        match self {
            SendErrorKind::NotRunning => "NotRunning"@,
            SendErrorKind::Full => "Full"@,
            SendErrorKind::Terminated => "Terminated"@,
            SendErrorKind::TimedOut => "TimedOut"@,
        }
    }

    /// Returns the variant's name.
    pub fn variant_name(self) -> (name: &'static str)
        ensures
            name@ == self.name(),
    {
        match self {
            SendErrorKind::NotRunning => "NotRunning",
            SendErrorKind::Full => "Full",
            SendErrorKind::Terminated => "Terminated",
            SendErrorKind::TimedOut => "TimedOut",
        }
    }
}

/// Error returned when a send does not accept its message.
///
/// Every send flavor uses this carrier and returns the rejected message. The
/// `kind` tells whether an immediate send found no running incarnation or no
/// mailbox capacity, an awaited send reached terminal membership, or a bounded
/// send elapsed.
#[derive(Clone, PartialEq, Eq)]
pub struct SendError<M> {
    /// Stable id of the target actor.
    pub actor_id: String,
    /// Message that was not accepted.
    pub message: M,
    /// Reason the message was not accepted.
    pub kind: SendErrorKind,
}

/// A rejected send without its message.
#[derive(Debug, PartialEq, Eq)]
pub struct ErasedSendError {
    /// Stable id of the target actor.
    pub actor_id: String,
    /// Reason the message was not accepted.
    pub kind: SendErrorKind,
}

impl ErasedSendError {
    /// Describes the rejection.
    pub fn to_string(&self) -> (text: String)
        ensures
            text@ == send_error_text(self.kind, self.actor_id@),
    {
        self.kind.fmt_with_actor(&self.actor_id)
    }
}

/// Text that `Debug` of std writes for a string: quoted and escaped.
pub uninterp spec fn debug_text(text: Seq<char>) -> Seq<char>;

/// `<str as core::fmt::Debug>::fmt`, through `format!`: the result is a
/// function of the string alone.
#[verifier::external_body]
pub(crate) fn debug_string(text: &String) -> (quoted: String)
    ensures
        quoted@ == debug_text(text@),
{
    format!("{:?}", text)
}

/// Debugging text of a value that shows one field, `field` with the string
/// `id`, and leaves the others out.
pub open spec fn opaque_text(name: Seq<char>, field: Seq<char>, id: Seq<char>) -> Seq<char> {
    name + " { "@ + field + ": "@ + debug_text(id) + ", .. }"@
}

/// Writes the debugging text of a value that shows one field.
pub(crate) fn opaque_string(name: &str, field: &str, id: &String) -> (text: String)
    ensures
        text@ == opaque_text(name@, field@, id@),
{
    let shown = debug_string(id);
    let mut text = name.to_owned();
    text.append(" { ");
    text.append(field);
    text.append(": ");
    text.append(shown.as_str());
    text.append(", .. }");
    text
}

impl<M> SendError<M> {
    /// Returns the message that was not accepted.
    pub fn into_message(self) -> (message: M)
        ensures
            message == self.message,
    {
        self.message
    }

    /// Drops the message and keeps what describes the rejection.
    pub fn into_boxed(self) -> (erased: Box<ErasedSendError>)
        ensures
            erased.actor_id == self.actor_id,
            erased.kind == self.kind,
            send_error_text(erased.kind, erased.actor_id@) == send_error_text(
                self.kind,
                self.actor_id@,
            ),
    {
        Box::new(ErasedSendError { actor_id: self.actor_id, kind: self.kind })
    }

    /// Describes the rejection, without the message.
    pub fn to_string(&self) -> (text: String)
        ensures
            text@ == send_error_text(self.kind, self.actor_id@),
    {
        self.kind.fmt_with_actor(&self.actor_id)
    }

    /// Lists the fields for debugging, without the message.
    pub fn to_debug_string(&self) -> (text: String)
        ensures
            text@ == "SendError { actor_id: "@ + debug_text(self.actor_id@) + ", kind: "@
                + self.kind.name() + ", .. }"@,
    {
        let mut text = "SendError { actor_id: ".to_owned();
        let id = debug_string(&self.actor_id);
        text.append(id.as_str());
        text.append(", kind: ");
        text.append(self.kind.variant_name());
        text.append(", .. }");
        text
    }
}

/// Errors of a request that carries its own reply channel.
#[derive(Clone, Debug, PartialEq, Eq)]
pub enum CallError {
    /// The target actor terminated before accepting the request.
    Terminated {
        /// Target actor id.
        actor_id: String,
    },
    /// The timeout expired before the request entered the mailbox, so retrying
    /// it cannot duplicate work.
    AcceptanceTimedOut {
        /// Target actor id.
        actor_id: String,
    },
    /// The timeout expired after the request entered the mailbox, so its
    /// outcome is unknown.
    ResponseTimedOut {
        /// Target actor id.
        actor_id: String,
    },
    /// The actor dropped the reply without answering.
    ReplyDropped {
        /// Target actor id.
        actor_id: String,
    },
}

/// Text of a failed call.
pub open spec fn call_error_text(error: CallError) -> Seq<char> {
    match error {
        CallError::Terminated { actor_id } => quoted(
            "actor `"@,
            actor_id@,
            "` terminated before accepting the call"@,
        ),
        CallError::AcceptanceTimedOut { actor_id } => quoted(
            "call to actor `"@,
            actor_id@,
            "` timed out before acceptance"@,
        ),
        CallError::ResponseTimedOut { actor_id } => quoted(
            "call to actor `"@,
            actor_id@,
            "` timed out waiting for a response"@,
        ),
        CallError::ReplyDropped { actor_id } => quoted(
            "actor `"@,
            actor_id@,
            "` dropped the reply"@,
        ),
    }
}

impl CallError {
    /// Describes the failed call.
    pub fn to_string(&self) -> (text: String)
        ensures
            text@ == call_error_text(*self),
    {
        match self {
            CallError::Terminated { actor_id } => quote(
                "actor `",
                actor_id,
                "` terminated before accepting the call",
            ),
            CallError::AcceptanceTimedOut { actor_id } => quote(
                "call to actor `",
                actor_id,
                "` timed out before acceptance",
            ),
            CallError::ResponseTimedOut { actor_id } => quote(
                "call to actor `",
                actor_id,
                "` timed out waiting for a response",
            ),
            CallError::ReplyDropped { actor_id } => quote(
                "actor `",
                actor_id,
                "` dropped the reply",
            ),
        }
    }
}

/// Errors of a bare reply receiver.
#[derive(Clone, Copy, Debug, PartialEq, Eq, Structural)]
pub enum ReplyError {
    /// Every reply sender was dropped without answering.
    Dropped,
    /// The requested reply deadline elapsed.
    Timeout,
}

impl ReplyError {
    /// Describes the error.
    pub fn to_string(&self) -> (text: String)
        ensures
            text@ == match *self {
                ReplyError::Dropped => "reply sender was dropped without answering"@,
                ReplyError::Timeout => "reply deadline elapsed"@,
            },
    {
        match self {
            ReplyError::Dropped => "reply sender was dropped without answering".to_owned(),
            ReplyError::Timeout => "reply deadline elapsed".to_owned(),
        }
    }
}

/// Errors of sends and calls name the actor and say what happened.
pub proof fn law_errors_name_the_actor(actor_id: String, kind: SendErrorKind)
    ensures
        send_error_text(kind, actor_id@) == match kind {
            SendErrorKind::NotRunning => "actor `"@ + actor_id@ + "` is not currently running"@,
            SendErrorKind::Full => "mailbox for actor `"@ + actor_id@ + "` is full"@,
            SendErrorKind::Terminated => "actor `"@ + actor_id@ + "` has terminated"@,
            SendErrorKind::TimedOut => "send to actor `"@ + actor_id@ + "` timed out"@,
        },
        call_error_text(CallError::Terminated { actor_id }) == "actor `"@ + actor_id@
            + "` terminated before accepting the call"@,
        call_error_text(CallError::AcceptanceTimedOut { actor_id }) == "call to actor `"@
            + actor_id@ + "` timed out before acceptance"@,
        call_error_text(CallError::ResponseTimedOut { actor_id }) == "call to actor `"@ + actor_id@
            + "` timed out waiting for a response"@,
        call_error_text(CallError::ReplyDropped { actor_id }) == "actor `"@ + actor_id@
            + "` dropped the reply"@,
        kind.name() == match kind {
            SendErrorKind::NotRunning => "NotRunning"@,
            SendErrorKind::Full => "Full"@,
            SendErrorKind::Terminated => "Terminated"@,
            SendErrorKind::TimedOut => "TimedOut"@,
        },
{
}

} // verus!
