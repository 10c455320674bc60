//! What senders can rely on: deadlines, restarts, refusals and the counters.
use vstd::prelude::*;

use crate::binding::{BindingCore, BindingState};
use crate::channel::{MailboxRef, TryReceipt};
use crate::delivery::{
    call_result, gated_counts, ActorRef, CallEvent, GatedSendOutcome, SendFlow, SendPhase, SendStep,
    TryOutcome, TrySendStart,
};
use crate::error::{CallError, SendError, SendErrorKind};
use crate::mailbox::{MessageRejection, TimedSendOutcome};
use crate::stats::ActorStatsCounters;

verus! {

/// `after` counts one more rejected send than `before`, and nothing else.
pub open spec fn counts_a_rejection(before: ActorStatsCounters, after: ActorStatsCounters) -> bool {
    &&& before.sends_rejected < u64::MAX ==> after.sends_rejected == before.sends_rejected + 1
    &&& after.messages_accepted == before.messages_accepted
    &&& after.messages_conflated == before.messages_conflated
    &&& after.messages_received == before.messages_received
    &&& after.message_bytes_accepted == before.message_bytes_accepted
    &&& after.outstanding_offloads == before.outstanding_offloads
    &&& after.observe_message_size == before.observe_message_size
}

/// `after` counts one more accepted send than `before`, with what it replaced
/// and its size, and nothing else.
pub open spec fn counts_an_acceptance(
    before: ActorStatsCounters,
    after: ActorStatsCounters,
    conflated: u64,
    size: Option<usize>,
) -> bool {
    &&& before.messages_accepted < u64::MAX ==> after.messages_accepted == before.messages_accepted
        + 1
    &&& before.messages_conflated + conflated <= u64::MAX ==> after.messages_conflated
        == before.messages_conflated + conflated
    &&& size is None ==> after.message_bytes_accepted == before.message_bytes_accepted
    &&& size matches Some(size) ==> (before.message_bytes_accepted + size <= u64::MAX
        ==> after.message_bytes_accepted == before.message_bytes_accepted + size)
    &&& after.sends_rejected == before.sends_rejected
    &&& after.messages_received == before.messages_received
    &&& after.outstanding_offloads == before.outstanding_offloads
    &&& after.observe_message_size == before.observe_message_size
}

/// Accepted, rejected and received messages are counted apart from each other.
pub proof fn law_sends_are_counted(
    before: ActorStatsCounters,
    conflated: u64,
    size: Option<usize>,
)
    ensures
        counts_an_acceptance(before, before.with_accepted(conflated, size), conflated, size),
        counts_a_rejection(before, before.with_send(false)),
        before.messages_received < u64::MAX ==> before.with_received().messages_received
            == before.messages_received + 1,
        before.with_received().messages_accepted == before.messages_accepted,
        before.with_received().sends_rejected == before.sends_rejected,
        before.with_received().messages_conflated == before.messages_conflated,
        before.with_received().message_bytes_accepted == before.message_bytes_accepted,
        before.with_received().outstanding_offloads == before.outstanding_offloads,
        before.with_received().observe_message_size == before.observe_message_size,
{
}

/// The deadline of a bounded send: as long after the start as its bound says,
/// as far as the clock can count, and thirty years after it for a bound that no
/// instant can hold.
pub proof fn law_deadlines(now: u64, delay: u64)
    ensures
        delay < u64::MAX && now + delay <= u64::MAX ==> crate::clock::deadline(now, delay) == now
            + delay,
        delay < u64::MAX && now + delay > u64::MAX ==> crate::clock::deadline(now, delay)
            == u64::MAX,
        delay == u64::MAX && now + 946_080_000_000_000_000 <= u64::MAX ==> crate::clock::deadline(
            now,
            delay,
        ) == now + 946_080_000_000_000_000,
        crate::clock::deadline(now, delay) >= now,
        forall|longer: u64|
            delay <= longer < u64::MAX ==> crate::clock::deadline(now, delay)
                <= #[trigger] crate::clock::deadline(now, longer),
        forall|later: u64|
            now <= later ==> crate::clock::deadline(now, delay) <= #[trigger] crate::clock::deadline(
                later,
                delay,
            ),
{
}

/// A bounded send that looks at its binding at its deadline or at any time after
/// it is over, and its message is returned as timed out, whatever the binding
/// is. Before its deadline, and without one, it never times out.
pub proof fn law_bounded_sends_time_out<M>(
    before: SendFlow<M>,
    core: BindingCore<M>,
    now: u64,
    step: SendStep<M>,
    after: SendFlow<M>,
    core_after: BindingCore<M>,
)
    requires
        before.wf(),
        before.waiting(),
        before.polls(core, now, step, after, core_after),
    ensures
        before.deadline matches Some(deadline) ==> (now >= deadline ==> {
            &&& step matches SendStep::Finished(Err(error))
            &&& error.kind == SendErrorKind::TimedOut
            &&& error.message == before.submitted@
            &&& error.actor_id == before.actor_id
            &&& after.phase is Done
            &&& counts_a_rejection(core.counters, core_after.counters)
        }),
        before.deadline matches Some(deadline) ==> (now < deadline ==> !(
        step matches SendStep::Finished(Err(error)) && error.kind == SendErrorKind::TimedOut)),
        before.deadline is None ==> !(step matches SendStep::Finished(Err(error)) && error.kind
            == SendErrorKind::TimedOut),
{
    law_sends_are_counted(core.counters, 0, None);
}

/// A send times out at most once its bound is over: one that does not time out
/// at a later moment does not do so earlier.
pub proof fn law_expiry_is_monotone<M>(flow: SendFlow<M>, now: u64, later: u64)
    requires
        now <= later,
    ensures
        flow.expired(now) ==> flow.expired(later),
        flow.deadline matches Some(deadline) ==> flow.expired(deadline),
        flow.deadline is None ==> !flow.expired(now),
        flow.deadline matches Some(deadline) ==> (now < deadline ==> !flow.expired(now)),
{
}

/// A send that is in time: it is offered to the mailbox that is bound, waits
/// while none is, and fails as terminated once the binding is terminal or none
/// can be bound any more. A mailbox that has closed on it is waited out.
pub proof fn law_sends_ride_through_restarts<M>(
    before: SendFlow<M>,
    core: BindingCore<M>,
    now: u64,
    step: SendStep<M>,
    after: SendFlow<M>,
    core_after: BindingCore<M>,
)
    requires
        before.wf(),
        before.waiting(),
        before.polls(core, now, step, after, core_after),
        before.deadline matches Some(deadline) ==> now < deadline,
    ensures
        after.submitted == before.submitted,
        after.deadline == before.deadline,
        after.actor_id == before.actor_id,
        core_after.current == core.current && core_after.monitors == core.monitors
            && core_after.outbound_monitors == core.outbound_monitors
            && core_after.latest_bind_run == core.latest_bind_run && core_after.released
            == core.released && core_after.size_hint == core.size_hint && core_after.identity
            == core.identity && core_after.actor_id == core.actor_id,
        core.current is Terminated ==> {
            &&& step matches SendStep::Finished(Err(error))
            &&& error.kind == SendErrorKind::Terminated
            &&& error.message == before.submitted@
            &&& error.actor_id == before.actor_id
            &&& counts_a_rejection(core.counters, core_after.counters)
        },
        core.current is Unbound && !core.released ==> step is Wait && after == before
            && core_after.counters == core.counters,
        core.current is Unbound && core.released ==> {
            &&& step matches SendStep::Finished(Err(error))
            &&& error.kind == SendErrorKind::Terminated
            &&& error.message == before.submitted@
        },
        core.current matches BindingState::Bound(own) ==> {
            let closed = before.phase matches SendPhase::Rebinding(stale) && stale.identity()
                == own.identity();
            &&& !closed ==> {
                &&& step matches SendStep::Offer { mailbox, message, size_hint }
                &&& message == before.submitted@
                &&& own.same_mailbox(&mailbox)
                &&& size_hint == core.size_hint
                &&& core_after.counters == core.counters
                &&& after.phase matches SendPhase::Offered { identity, size_hint: measure }
                &&& identity@ == mailbox.identity()
                &&& measure@ == core.size_hint
            }
            &&& closed && !core.released ==> step is Wait && after == before
                && core_after.counters == core.counters
            &&& closed && core.released ==> {
                &&& step matches SendStep::Finished(Err(error))
                &&& error.kind == SendErrorKind::Terminated
                &&& error.message == before.submitted@
            }
        },
{
    law_sends_are_counted(core.counters, 0, None);
}

/// An offered message ends the send once a mailbox took it or its deadline is
/// reached, with one count; a mailbox that closed gives it back, uncounted, and
/// the send goes on with the same message.
pub proof fn law_offers_are_settled<M>(
    before: SendFlow<M>,
    counters: ActorStatsCounters,
    mailbox: MailboxRef<M>,
    size: Option<usize>,
    outcome: TimedSendOutcome<M>,
    step: SendStep<M>,
    after: SendFlow<M>,
    counters_after: ActorStatsCounters,
)
    requires
        before.settles(counters, mailbox, size, outcome, step, after, counters_after),
    ensures
        after.submitted == before.submitted,
        after.deadline == before.deadline,
        after.actor_id == before.actor_id,
        outcome matches TimedSendOutcome::Accepted { conflated } ==> {
            &&& step matches SendStep::Finished(Ok(()))
            &&& after.phase is Done
            &&& counts_an_acceptance(counters, counters_after, conflated, size)
        },
        outcome is Closed ==> {
            &&& step is Retry
            &&& after.message == Some(before.submitted@)
            &&& after.waiting()
            &&& after.phase matches SendPhase::Rebinding(stale)
            &&& stale.identity() == mailbox.identity()
            &&& counters_after == counters
        },
        outcome is Timeout ==> {
            &&& step matches SendStep::Finished(Err(error))
            &&& error.kind == SendErrorKind::TimedOut
            &&& error.message == before.submitted@
            &&& error.actor_id == before.actor_id
            &&& after.phase is Done
            &&& counts_a_rejection(counters, counters_after)
        },
{
    let conflated: u64 = match outcome {
        TimedSendOutcome::Accepted { conflated } => conflated,
        _ => 0,
    };
    law_sends_are_counted(counters, conflated, size);
}

/// A send is not offered again to a mailbox that closed on it: as long as that
/// mailbox is the bound one the send waits, and the next one gets the message.
pub proof fn law_closed_mailboxes_are_waited_out<M>(
    before: SendFlow<M>,
    counters: ActorStatsCounters,
    mailbox: MailboxRef<M>,
    size: Option<usize>,
    returned: M,
    between: SendFlow<M>,
    counters_after: ActorStatsCounters,
    core: BindingCore<M>,
    now: u64,
    own: MailboxRef<M>,
    step: SendStep<M>,
    after: SendFlow<M>,
    core_after: BindingCore<M>,
)
    requires
        before.settles(
            counters,
            mailbox,
            size,
            TimedSendOutcome::Closed(returned),
            SendStep::Retry,
            between,
            counters_after,
        ),
        between.polls(core, now, step, after, core_after),
        core.current == BindingState::Bound(own),
        !core.released,
        before.deadline matches Some(deadline) ==> now < deadline,
    ensures
        own.identity() == mailbox.identity() ==> step is Wait,
        own.identity() != mailbox.identity() ==> {
            &&& step matches SendStep::Offer { message, .. }
            &&& message == before.submitted@
        },
{
    law_sends_ride_through_restarts(between, core, now, step, after, core_after);
}

/// An immediate send begins with the mailbox that is bound. Without one it is
/// refused, and counted: as terminated if none can be bound any more, and as not
/// running otherwise.
pub proof fn law_immediate_sends_need_a_mailbox<M>(
    actor: ActorRef<M>,
    core: BindingCore<M>,
    message: M,
    start: TrySendStart<M>,
    core_after: BindingCore<M>,
)
    requires
        actor.begins_try(core, message, start, core_after),
    ensures
        core_after.current == core.current,
        core.current matches BindingState::Bound(own) ==> {
            &&& start matches TrySendStart::Ready(offer)
            &&& own.same_mailbox(&offer.mailbox)
            &&& offer.message == message
            &&& offer.size_hint == core.size_hint
            &&& core_after.counters == core.counters
        },
        !(core.current is Bound) ==> {
            &&& start matches TrySendStart::Refused(error)
            &&& error.message == message
            &&& error.actor_id == actor.actor_id
            &&& counts_a_rejection(core.counters, core_after.counters)
            &&& core.current is Terminated ==> error.kind == SendErrorKind::Terminated
            &&& core.current is Unbound && core.released ==> error.kind
                == SendErrorKind::Terminated
            &&& core.current is Unbound && !core.released ==> error.kind
                == SendErrorKind::NotRunning
        },
{
    law_sends_are_counted(core.counters, 0, None);
}

/// What the mailbox answered is what the sender gets, with one count.
pub proof fn law_immediate_sends_are_counted_once<M>(
    outcome: TryOutcome<M>,
    result: Result<(), SendError<M>>,
    before: ActorStatsCounters,
    after: ActorStatsCounters,
)
    requires
        outcome.settles(result, before, after),
    ensures
        outcome.sent matches Ok(conflated) ==> result is Ok && counts_an_acceptance(
            before,
            after,
            conflated,
            outcome.size,
        ),
        outcome.sent matches Err(failure) ==> {
            &&& result matches Err(error)
            &&& error.message == failure.error.message
            &&& error.kind == failure.error.kind
            &&& error.actor_id == failure.error.actor_id
            &&& counts_a_rejection(before, after)
        },
{
    let conflated: u64 = match outcome.sent {
        Ok(conflated) => conflated,
        Err(_) => 0,
    };
    law_sends_are_counted(before, conflated, outcome.size);
}

/// An immediate send that fails returns its message, and one that succeeds was
/// to a bound mailbox that took it.
pub proof fn law_refused_messages_come_back<M>(
    actor: ActorRef<M>,
    core: BindingCore<M>,
    message: M,
    result: Result<(), SendError<M>>,
    receipt: Option<TryReceipt<M>>,
    core_after: BindingCore<M>,
)
    requires
        actor.sends_now(core, message, result, receipt, core_after),
    ensures
        result matches Err(error) ==> error.message == message && counts_a_rejection(
            core.counters,
            core_after.counters,
        ),
        result is Ok ==> core.current is Bound,
        core.current is Terminated ==> (result matches Err(error) && error.kind
            == SendErrorKind::Terminated),
        core.current is Unbound ==> (result matches Err(error) && error.kind == (if core.released {
            SendErrorKind::Terminated
        } else {
            SendErrorKind::NotRunning
        })),
        core.current matches BindingState::Bound(own) ==> {
            &&& receipt is Some
            &&& result is Ok ==> exists|conflated: u64|
                #[trigger] own.tries(message, Ok(conflated), receipt->0)
            &&& result matches Err(error) ==> error.kind == SendErrorKind::NotRunning || error.kind
                == SendErrorKind::Full
        },
{
    law_sends_are_counted(core.counters, 0, None);
    if let BindingState::Bound(own) = core.current {
        let outcome = choose|outcome: TryOutcome<M>|
            {
                &&& receipt matches Some(receipt) && own.tries(
                    message,
                    #[trigger] outcome.sent,
                    receipt,
                )
                &&& crate::delivery::sized(core.size_hint, message, outcome.size)
                &&& outcome.settles(result, core.counters, core_after.counters)
            };
        law_immediate_sends_are_counted_once(
            outcome,
            result,
            core.counters,
            core_after.counters,
        );
        if result is Ok {
            assert(own.tries(message, Ok(outcome.sent->Ok_0), receipt->0));
        }
    }
}

/// Each refusal of a send has its own reason.
pub proof fn law_refusals_have_reasons(kind: SendErrorKind)
    ensures
        crate::delivery::rejection_of(kind) == MessageRejection::MailboxFull <==> kind
            == SendErrorKind::Full,
        crate::delivery::rejection_of(kind) == MessageRejection::ActorTerminated <==> kind
            == SendErrorKind::Terminated,
        crate::delivery::rejection_of(kind) == MessageRejection::Timeout <==> kind
            == SendErrorKind::TimedOut,
        crate::delivery::rejection_of(kind) == MessageRejection::NotRunning <==> kind
            == SendErrorKind::NotRunning,
{
}

/// A send to one incarnation is counted once, as taken or as refused, and not at
/// all where it was called off.
pub proof fn law_gated_sends_are_counted<M>(
    before: ActorStatsCounters,
    outcome: GatedSendOutcome<M>,
    size: Option<usize>,
)
    ensures
        outcome matches GatedSendOutcome::Accepted { conflated } ==> counts_an_acceptance(
            before,
            gated_counts(before, outcome, size),
            conflated,
            size,
        ),
        outcome is Closed ==> counts_a_rejection(before, gated_counts(before, outcome, size)),
        outcome is Cancelled ==> gated_counts(before, outcome, size) == before,
{
    let conflated: u64 = match outcome {
        GatedSendOutcome::Accepted { conflated } => conflated,
        _ => 0,
    };
    law_sends_are_counted(before, conflated, size);
}

/// A call gives the reply if one came. Otherwise the error tells whether the
/// request can have been handled: it was never accepted, or was accepted and not
/// answered.
pub proof fn law_calls<T>(actor_id: String, accepted: bool, event: CallEvent<T>)
    ensures
        event matches CallEvent::Replied(value) ==> call_result(actor_id, accepted, event) == Ok::<
            T,
            CallError,
        >(value),
        !(event is Replied) ==> call_result(actor_id, accepted, event) is Err,
        event is Refused ==> call_result(actor_id, accepted, event) == Err::<T, CallError>(
            CallError::Terminated { actor_id },
        ),
        event is ReplyDropped ==> call_result(actor_id, accepted, event) == Err::<T, CallError>(
            CallError::ReplyDropped { actor_id },
        ),
        event is Elapsed && accepted ==> call_result(actor_id, accepted, event) == Err::<
            T,
            CallError,
        >(CallError::ResponseTimedOut { actor_id }),
        event is Elapsed && !accepted ==> call_result(actor_id, accepted, event) == Err::<
            T,
            CallError,
        >(CallError::AcceptanceTimedOut { actor_id }),
{
}

/// Waiting for an actor is over once its binding is terminal or nobody can bind
/// it any more.
pub proof fn law_waiting_is_over<M>(core: BindingCore<M>)
    ensures
        core.current is Terminated ==> crate::delivery::binding_over(core),
        core.released ==> crate::delivery::binding_over(core),
        !(core.current is Terminated) && !core.released ==> !crate::delivery::binding_over(core),
{
}

/// A send that is called off hands its message back exactly where it still has
/// it, and is over: called off again, it hands back nothing.
pub proof fn law_called_off_sends<M>(
    flow: SendFlow<M>,
    message: Option<M>,
    over: SendFlow<M>,
    nothing: Option<M>,
    after: SendFlow<M>,
)
    requires
        flow.wf(),
        flow.calls_off(message, over),
        over.calls_off(nothing, after),
    ensures
        flow.phase is Binding || flow.phase is Rebinding ==> message == Some(flow.submitted@),
        flow.phase is Offered ==> message is None,
        over.phase is Done && nothing is None,
        over.actor_id == flow.actor_id && over.deadline == flow.deadline && over.submitted
            == flow.submitted,
{
}

/// A message is measured exactly where a measure was declared, and a reference
/// belongs to the slot of its own identity and id.
pub proof fn law_measures_and_references<M>(
    size_hint: Option<crate::callbacks::SizeHint<M>>,
    message: M,
    size: Option<usize>,
    actor: ActorRef<M>,
    core: BindingCore<M>,
)
    ensures
        crate::delivery::sized(size_hint, message, size) ==> (size is Some <==> size_hint is Some),
        crate::delivery::sized(size_hint, message, size) && size_hint is Some
            ==> size_hint->0.measures(message, size->0),
        actor.refers_to(&core) <==> actor.identity == core.identity && actor.actor_id
            == core.actor_id,
{
}

/// An immediate send changes nothing of the slot but its counters.
pub proof fn law_immediate_sends_leave_the_slot<M>(
    actor: ActorRef<M>,
    core: BindingCore<M>,
    message: M,
    result: Result<(), SendError<M>>,
    receipt: Option<TryReceipt<M>>,
    after: BindingCore<M>,
)
    requires
        actor.sends_now(core, message, result, receipt, after),
    ensures
        after.current == core.current && after.monitors == core.monitors && after.outbound_monitors
            == core.outbound_monitors,
        after.latest_bind_run == core.latest_bind_run && after.released == core.released
            && after.size_hint == core.size_hint,
        after.identity == core.identity && after.actor_id == core.actor_id,
{
}

} // verus!
