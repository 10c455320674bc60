//! What an actor can rely on while it runs: its timers, its continuations, its
//! offloads, and the order in which the receive loop hands it messages.
use vstd::prelude::*;

use crate::context::{
    blocking_result, delaying, delivery_source, forwarding, joined_wait, scope_waiting, tick_at,
    ticking, watch_plan, ActorStatus, BlockingOutcome, Delivery, DeliveryStep, ForwardStep, Joined,
    JoinedTask, RawContext, ScopeWaitStep, WatchPlan,
};
use crate::error::BlockingCancelled;
use crate::handler::{LoopEvent, LoopPhase, LoopStep, ReceiveLoop};
use crate::mailbox::TryRecvError;
use crate::monitor::MonitorEvent;
use crate::registry::Registration;
use crate::stats::ActorStatsCounters;
use crate::timers::{TimerEntry, TimerKey, TimerTable, TimerWake};

verus! {

/// A timer of the table that `wake` stands for.
pub open spec fn stands_for<M>(entries: Seq<TimerEntry<M>>, wake: TimerWake, i: int) -> bool {
    0 <= i < entries.len() && entries[i].id == wake.id && entries[i].deadline == wake.deadline
}

/// `after` holds what `before` holds but for the entry at `i`.
pub open spec fn taken_out<M>(
    before: Seq<TimerEntry<M>>,
    i: int,
    after: Seq<TimerEntry<M>>,
) -> bool {
    &&& after.len() + 1 == before.len()
    &&& forall|j: int|
        0 <= j < before.len() && j != i ==> after.contains(#[trigger] before[j])
    &&& forall|k: int|
        0 <= k < after.len() ==> exists|j: int|
            0 <= j < before.len() && j != i && #[trigger] before[j] == #[trigger] after[k]
}

/// One message has been counted as received, and nothing else has been counted.
pub open spec fn counted_one(before: ActorStatsCounters, after: ActorStatsCounters) -> bool {
    &&& before.messages_received < u64::MAX ==> after.messages_received
        == before.messages_received + 1
    &&& after.messages_accepted == before.messages_accepted
    &&& after.messages_conflated == before.messages_conflated
    &&& after.sends_rejected == before.sends_rejected
    &&& after.message_bytes_accepted == before.message_bytes_accepted
    &&& after.outstanding_offloads == before.outstanding_offloads
    &&& after.observe_message_size == before.observe_message_size
}

/// The loop hands over `message`, which counts as received.
pub open spec fn hands_over<M>(
    step: LoopStep<M>,
    message: M,
    draining: bool,
    before: ActorStatsCounters,
    after: ActorStatsCounters,
) -> bool {
    step == (LoopStep::Handle { message, draining }) && counted_one(before, after)
}

/// The loop goes over to its end: what is queued is handled first, or dropped.
pub open spec fn winds_down<M>(step: LoopStep<M>, phase: LoopPhase, drain: bool) -> bool {
    &&& drain ==> step is Drain && phase is Draining
    &&& !drain ==> step is Discard && phase is Discarding
}

proof fn lemma_without_takes_out<M>(entries: Seq<TimerEntry<M>>, i: int)
    requires
        0 <= i < entries.len(),
    ensures
        taken_out(entries, i, crate::timers::without(entries, i)),
{
    let after = crate::timers::without(entries, i);
    let last = entries.len() - 1;
    assert forall|j: int| 0 <= j < entries.len() && j != i implies after.contains(
        #[trigger] entries[j],
    ) by {
        if j == last {
            assert(after[i] == entries[j]);
        } else {
            assert(after[j] == entries[j]);
        }
    }
    assert forall|k: int| 0 <= k < after.len() implies exists|j: int|
        0 <= j < entries.len() && j != i && #[trigger] entries[j] == #[trigger] after[k] by {
        if k == i {
            assert(entries[last] == after[k]);
        } else {
            assert(entries[k] == after[k]);
        }
    }
}

proof fn lemma_key_is_found<M>(entries: Seq<TimerEntry<M>>, key: Seq<char>, i: int)
    requires
        0 <= i < entries.len(),
        entries[i].key@ == key,
    ensures
        exists|k: int| #[trigger] crate::timers::key_at(entries, key, k),
    decreases i,
{
    if exists|j: int| 0 <= j < i && (#[trigger] entries[j]).key@ == key {
        let j = choose|j: int| 0 <= j < i && (#[trigger] entries[j]).key@ == key;
        lemma_key_is_found(entries, key, j);
    } else {
        assert(crate::timers::key_at(entries, key, i));
    }
}

proof fn lemma_wake_is_found<M>(entries: Seq<TimerEntry<M>>, wake: TimerWake, i: int)
    requires
        stands_for(entries, wake, i),
    ensures
        exists|k: int| #[trigger] crate::timers::wake_at(entries, wake, k),
    decreases i,
{
    if exists|j: int|
        0 <= j < i && (#[trigger] entries[j]).id == wake.id && entries[j].deadline
            == wake.deadline {
        let j = choose|j: int|
            0 <= j < i && (#[trigger] entries[j]).id == wake.id && entries[j].deadline
                == wake.deadline;
        lemma_wake_is_found(entries, wake, j);
    } else {
        assert(crate::timers::wake_at(entries, wake, i));
    }
}

/// Setting a timer leaves exactly one under its key: the new one, with the given
/// message, due the delay from now. The timers under other keys stay.
pub proof fn law_a_set_timer_is_due_after_its_delay<M>(
    table: TimerTable<M>,
    key: TimerKey,
    message: M,
    delay: u64,
    now: u64,
    after: TimerTable<M>,
)
    requires
        table.wf(),
        table.arms(key, message, delay, now, after),
    ensures
        ({
            let newest = after.entries@.last();
            &&& after.entries@.len() > 0
            &&& newest.key@ == key@
            &&& newest.message == message
            &&& delay < u64::MAX && now + delay <= u64::MAX ==> newest.deadline == now + delay
            &&& newest.deadline >= now
            &&& forall|j: int|
                0 <= j < after.entries@.len() - 1 ==> (#[trigger] after.entries@[j]).key@ != key@
                    && table.entries@.contains(after.entries@[j])
            &&& forall|j: int|
                0 <= j < table.entries@.len() && (#[trigger] table.entries@[j]).key@ != key@
                    ==> after.entries@.contains(table.entries@[j])
            &&& newest.id == table.next_id
            &&& after.next_id != table.next_id && after.next_id != 0
        }),
{
    let kept = crate::timers::cleared(table.entries@, key@);
    lemma_cleared(table, key@);
    assert forall|j: int| 0 <= j < after.entries@.len() - 1 implies (
    #[trigger] after.entries@[j]).key@ != key@ && table.entries@.contains(after.entries@[j]) by {
        assert(after.entries@[j] == kept[j]);
    }
    assert forall|j: int|
        0 <= j < table.entries@.len() && (
        #[trigger] table.entries@[j]).key@ != key@ implies after.entries@.contains(
        table.entries@[j],
    ) by {
        let k = choose|k: int| 0 <= k < kept.len() && kept[k] == table.entries@[j];
        assert(after.entries@[k] == kept[k]);
    }
}

proof fn lemma_cleared<M>(table: TimerTable<M>, key: Seq<char>)
    requires
        table.wf(),
    ensures
        ({
            let kept = crate::timers::cleared(table.entries@, key);
            &&& forall|j: int|
                0 <= j < kept.len() ==> (#[trigger] kept[j]).key@ != key && table.entries@.contains(
                    kept[j],
                )
            &&& forall|j: int|
                0 <= j < table.entries@.len() && (#[trigger] table.entries@[j]).key@ != key
                    ==> kept.contains(table.entries@[j])
        }),
{
    let entries = table.entries@;
    let kept = crate::timers::cleared(entries, key);
    if crate::timers::is_armed(entries, key) {
        let seen = choose|i: int| 0 <= i < entries.len() && (#[trigger] entries[i]).key@ == key;
        lemma_key_is_found(entries, key, seen);
        let i = choose|i: int| crate::timers::key_at(entries, key, i);
        lemma_without_takes_out(entries, i);
        assert forall|j: int| 0 <= j < kept.len() implies (#[trigger] kept[j]).key@ != key
            && entries.contains(kept[j]) by {
            let from = choose|from: int|
                0 <= from < entries.len() && from != i && #[trigger] entries[from] == kept[j];
            assert(entries[from].key@ != entries[i].key@);
        }
    } else {
        assert forall|j: int| 0 <= j < kept.len() implies (#[trigger] kept[j]).key@ != key
            && entries.contains(kept[j]) by {
            assert(entries[j] == kept[j]);
        }
    }
}

/// Clearing a timer leaves none under its key, and every other one.
pub proof fn law_a_cleared_timer_is_gone<M>(
    table: TimerTable<M>,
    key: TimerKey,
    after: TimerTable<M>,
)
    requires
        table.wf(),
        table.clears(key, after),
    ensures
        forall|j: int|
            0 <= j < after.entries@.len() ==> (#[trigger] after.entries@[j]).key@ != key@
                && table.entries@.contains(after.entries@[j]),
        forall|j: int|
            0 <= j < table.entries@.len() && (#[trigger] table.entries@[j]).key@ != key@
                ==> after.entries@.contains(table.entries@[j]),
        after.next_id == table.next_id,
{
    lemma_cleared(table, key@);
}

/// The next wake is that of an armed timer, and no armed timer is due before it.
/// There is none only where no timer is armed.
pub proof fn law_the_next_wake_is_the_earliest<M>(table: TimerTable<M>, wake: Option<TimerWake>)
    requires
        table.wakes_at(wake),
    ensures
        wake is None <==> table.entries@.len() == 0,
        wake matches Some(wake) ==> {
            &&& exists|i: int| #[trigger]
                stands_for(table.entries@, wake, i) && (forall|j: int|
                    0 <= j < i ==> (#[trigger] table.entries@[j]).deadline > wake.deadline)
            &&& forall|j: int|
                0 <= j < table.entries@.len() ==> wake.deadline <= (
                #[trigger] table.entries@[j]).deadline
        },
{
    if let Some(wake) = wake {
        let i = choose|i: int| #[trigger]
            crate::timers::earliest_at(table.entries@, i) && wake.id == table.entries@[i].id
                && wake.deadline == table.entries@[i].deadline;
        assert(stands_for(table.entries@, wake, i));
    }
}

/// A wake yields a message exactly where its time has come and its timer is
/// still armed. The message is that of the timer, which is then gone; the others
/// stay.
pub proof fn law_due_timers_fire<M>(
    table: TimerTable<M>,
    wake: TimerWake,
    now: u64,
    fired: Option<M>,
    after: TimerTable<M>,
)
    requires
        table.takes_fired(wake, now, fired, after),
    ensures
        fired is Some <==> wake.deadline <= now && exists|i: int| #[trigger]
            stands_for(table.entries@, wake, i),
        fired matches Some(message) ==> exists|i: int|
            {
                &&& #[trigger] stands_for(table.entries@, wake, i)
                &&& message == table.entries@[i].message
                &&& taken_out(table.entries@, i, after.entries@)
            },
        fired is None ==> after.entries@ == table.entries@,
        after.next_id == table.next_id,
{
    let entries = table.entries@;
    if let Some(message) = fired {
        let i = choose|i: int| #[trigger]
            crate::timers::wake_at(entries, wake, i) && message == entries[i].message
                && after.entries@ == crate::timers::without(entries, i);
        assert(stands_for(entries, wake, i));
        lemma_without_takes_out(entries, i);
    } else if wake.deadline <= now && exists|i: int| #[trigger] stands_for(entries, wake, i) {
        let i = choose|i: int| #[trigger] stands_for(entries, wake, i);
        lemma_wake_is_found(entries, wake, i);
    }
}

/// A timer that is set, not replaced and then woken fires with its message at
/// its deadline and later, and not before.
pub proof fn law_a_set_timer_fires<M>(
    table: TimerTable<M>,
    key: TimerKey,
    message: M,
    delay: u64,
    set_at: u64,
    armed: TimerTable<M>,
    wake: TimerWake,
    now: u64,
    fired: Option<M>,
    after: TimerTable<M>,
)
    requires
        table.wf(),
        table.ids_fresh(),
        table.next_id < u64::MAX,
        delay < u64::MAX,
        set_at + delay <= u64::MAX,
        table.arms(key, message, delay, set_at, armed),
        wake.id == table.next_id,
        wake.deadline == set_at + delay,
        armed.takes_fired(wake, now, fired, after),
    ensures
        now >= set_at + delay ==> fired == Some(message),
        now < set_at + delay ==> fired is None,
{
    let last = armed.entries@.len() - 1;
    assert(stands_for(armed.entries@, wake, last));
    law_due_timers_fire(armed, wake, now, fired, after);
    if fired is Some {
        let i = choose|i: int|
            {
                &&& #[trigger] stands_for(armed.entries@, wake, i)
                &&& fired->0 == armed.entries@[i].message
                &&& taken_out(armed.entries@, i, after.entries@)
            };
        if i < last {
            assert(armed.entries@[i].id != armed.entries@[last].id);
        }
    }
}

/// The context keeps its timers in the same way as a table of its own, and
/// nothing else of it changes.
pub proof fn law_contexts_keep_their_timers<M>(
    context: RawContext<M>,
    key: TimerKey,
    message: M,
    delay: u64,
    now: u64,
    wake: TimerWake,
    fired: Option<M>,
    after: RawContext<M>,
)
    requires
        context.wf(),
    ensures
        context.arms(key, message, delay, now, after) ==> {
            &&& after.timers.entries@.len() > 0
            &&& after.timers.entries@.last().key@ == key@
            &&& after.timers.entries@.last().message == message
            &&& delay < u64::MAX && now + delay <= u64::MAX
                ==> after.timers.entries@.last().deadline == now + delay
            &&& after.timers.entries@.last().id == context.timers.next_id
            &&& forall|j: int|
                0 <= j < after.timers.entries@.len() - 1 ==> (
                #[trigger] after.timers.entries@[j]).key@ != key@
            &&& forall|j: int|
                0 <= j < context.timers.entries@.len() && (
                #[trigger] context.timers.entries@[j]).key@ != key@
                    ==> after.timers.entries@.contains(context.timers.entries@[j])
        },
        context.clears(key, after) ==> {
            &&& forall|j: int|
                0 <= j < after.timers.entries@.len() ==> (
                #[trigger] after.timers.entries@[j]).key@ != key@
            &&& forall|j: int|
                0 <= j < context.timers.entries@.len() && (
                #[trigger] context.timers.entries@[j]).key@ != key@
                    ==> after.timers.entries@.contains(context.timers.entries@[j])
        },
        context.takes_fired(wake, now, fired, after) ==> {
            &&& fired is Some <==> wake.deadline <= now && exists|i: int| #[trigger]
                stands_for(context.timers.entries@, wake, i)
            &&& fired matches Some(message) ==> exists|i: int|
                {
                    &&& #[trigger] stands_for(context.timers.entries@, wake, i)
                    &&& message == context.timers.entries@[i].message
                    &&& taken_out(context.timers.entries@, i, after.timers.entries@)
                }
            &&& fired is None ==> after.timers.entries@ == context.timers.entries@
            &&& after.timers.next_id == context.timers.next_id
        },
        context.arms(key, message, delay, now, after) || context.clears(key, after)
            || context.takes_fired(wake, now, fired, after) ==> {
            &&& after.continuations == context.continuations
            &&& after.stop_requested == context.stop_requested
            &&& after.offloads == context.offloads
            &&& after.ready == context.ready
            &&& after.id == context.id
        },
{
    let entries = context.timers.entries@;
    lemma_cleared(context.timers, key@);
    if context.arms(key, message, delay, now, after) {
        let kept = crate::timers::cleared(entries, key@);
        assert forall|j: int| 0 <= j < after.timers.entries@.len() - 1 implies (
        #[trigger] after.timers.entries@[j]).key@ != key@ by {
            assert(after.timers.entries@[j] == kept[j]);
        }
        assert forall|j: int|
            0 <= j < entries.len() && (
            #[trigger] entries[j]).key@ != key@ implies after.timers.entries@.contains(
            entries[j],
        ) by {
            let k = choose|k: int| 0 <= k < kept.len() && kept[k] == entries[j];
            assert(after.timers.entries@[k] == kept[k]);
        }
    }
    if context.takes_fired(wake, now, fired, after) {
        if let Some(message) = fired {
            let i = choose|i: int| #[trigger]
                crate::timers::wake_at(entries, wake, i) && message == entries[i].message
                    && after.timers.entries@ == crate::timers::without(entries, i);
            assert(stands_for(entries, wake, i));
            lemma_without_takes_out(entries, i);
        } else if wake.deadline <= now && exists|i: int| #[trigger] stands_for(entries, wake, i) {
            let i = choose|i: int| #[trigger] stands_for(entries, wake, i);
            lemma_wake_is_found(entries, wake, i);
        }
    }
}

/// Continuations are handed back in the order in which they were queued: those
/// that are waiting first, and the one just queued last.
pub proof fn law_continuations_keep_their_order<M>(
    context: RawContext<M>,
    message: M,
    queued: RawContext<M>,
    taken: Option<M>,
    after: RawContext<M>,
)
    requires
        context.continues_with(message, queued),
        queued.takes_continuation(taken, after),
    ensures
        taken is Some,
        context.continuations@.len() == 0 ==> taken == Some(message) && after.continuations@.len()
            == 0,
        context.continuations@.len() > 0 ==> taken == Some(context.continuations@[0])
            && after.continuations@.last() == message,
        after.continuations@.len() == context.continuations@.len(),
        forall|j: int|
            1 <= j < context.continuations@.len() ==> after.continuations@[j - 1]
                == #[trigger] context.continuations@[j],
        after.timers == context.timers && after.stop_requested == context.stop_requested,
{
}

/// A drain shows first, then a requested stop, then the ordinary run.
pub proof fn law_shown_status<M>(context: RawContext<M>, draining: bool, status: ActorStatus)
    requires
        context.shows_status(draining, status),
    ensures
        status is Draining <==> draining,
        status is Stopping <==> !draining && context.stop_requested,
        status is Running <==> !draining && !context.stop_requested,
{
}

/// Started offloads are outstanding until they are joined. A finished one
/// delivers its message unless it was cancelled, a panic is passed on, and an
/// aborted one is passed over. The number outstanding is what is shown.
pub proof fn law_offloads_are_counted<M>(
    context: RawContext<M>,
    counters: ActorStatsCounters,
    started: RawContext<M>,
    started_counters: ActorStatsCounters,
    joined: JoinedTask<M>,
    result: Joined<M>,
    after: RawContext<M>,
    after_counters: ActorStatsCounters,
)
    requires
        context.offloads < usize::MAX,
        context.starts_offload(counters, started, started_counters),
        started.joins_offload(started_counters, joined, result, after, after_counters),
    ensures
        started.offloads == context.offloads + 1,
        started_counters.outstanding_offloads == context.offloads + 1,
        after.offloads == context.offloads,
        after_counters.outstanding_offloads == context.offloads,
        after_counters.messages_received == counters.messages_received,
        started.continuations == context.continuations && after.continuations
            == context.continuations,
        joined matches JoinedTask::Completed { message, cancelled } ==> {
            &&& !cancelled ==> result == Joined::Deliver(message)
            &&& cancelled ==> result is Ignored
        },
        joined is Panicked ==> result is Resume,
        joined is Aborted ==> result is Ignored,
{
}

/// What a delivery comes to: what the mailbox had is returned as it is, an
/// offload is joined, and a wait is forgotten without a message; a panic in
/// either is passed on.
pub proof fn law_deliveries<M>(
    context: RawContext<M>,
    counters: ActorStatsCounters,
    delivery: Delivery<M>,
    step: DeliveryStep<M>,
    after: RawContext<M>,
    after_counters: ActorStatsCounters,
)
    requires
        context.delivers(counters, delivery, step, after, after_counters),
        delivery is Offload ==> context.offloads > 0,
    ensures
        delivery matches Delivery::Mailbox(message) ==> step == DeliveryStep::Return(message)
            && after == context && after_counters == counters,
        delivery matches Delivery::Offload(joined) ==> {
            &&& after.offloads + 1 == context.offloads
            &&& after_counters.outstanding_offloads + 1 == context.offloads
            &&& after_counters.messages_received == counters.messages_received
            &&& after.continuations == context.continuations
            &&& joined is Panicked <==> step is Resume
            &&& joined matches JoinedTask::Completed { message, cancelled } ==> (!cancelled
                ==> step == DeliveryStep::Return(Some(message)))
            &&& joined matches JoinedTask::Completed { message, cancelled } ==> (cancelled
                ==> step is Again)
            &&& joined is Aborted ==> step is Again
        },
        delivery matches Delivery::ScopeWait { task, panicked } ==> {
            &&& panicked ==> step is Resume
            &&& !panicked ==> step is Again
            &&& after.offloads == context.offloads
            &&& after_counters == counters
            &&& context.scope_waits@.contains(task) ==> after.scope_waits@.len() + 1
                == context.scope_waits@.len()
            &&& !context.scope_waits@.contains(task) ==> after.scope_waits@ == context.scope_waits@
        },
{
}

/// A wait that is over is forgotten once; the others are kept in their order.
pub proof fn law_finished_waits_are_forgotten(
    before: Seq<u64>,
    i: int,
    task: u64,
    after: Seq<u64>,
)
    requires
        joined_wait(before, task, after),
        0 <= i < before.len(),
        before[i] == task,
        forall|j: int| 0 <= j < before.len() && j != i ==> #[trigger] before[j] != task,
    ensures
        after == before.subrange(0, i) + before.subrange(i + 1, before.len() as int),
        !after.contains(task),
{
    let k = choose|k: int| #[trigger]
        crate::context::wait_at(before, task, k) && after == before.remove(k);
    assert(k == i);
    assert(after =~= before.subrange(0, i) + before.subrange(i + 1, before.len() as int));
}

/// While draining, a message that is there is returned; the drain is over once
/// there is none and no offload is outstanding, and goes on otherwise.
pub proof fn law_drains_wait_for_offloads<M>(
    context: RawContext<M>,
    ready: Option<M>,
    step: DeliveryStep<M>,
)
    requires
        context.drains(ready, step),
    ensures
        ready is Some ==> step == DeliveryStep::Return(ready),
        ready is None && context.offloads == 0 ==> step == DeliveryStep::<M>::Return(None),
        ready is None && context.offloads > 0 ==> step is Again,
{
}

/// A receive returns what was delivered unless the actor is shutting down, and
/// counts exactly the messages that it returns.
pub proof fn law_receives<M>(
    context: RawContext<M>,
    counters: ActorStatsCounters,
    shutdown: bool,
    delivered: Option<M>,
    at_once: Result<M, TryRecvError>,
    message: Option<M>,
    after: ActorStatsCounters,
)
    ensures
        context.receives(counters, shutdown, delivered, message, after) ==> {
            &&& shutdown ==> message is None
            &&& !shutdown ==> message == delivered
            &&& message is Some ==> counted_one(counters, after)
            &&& message is None ==> after == counters
        },
        context.tries_receive(counters, at_once, message, after) ==> {
            &&& message is Some <==> at_once is Ok
            &&& at_once matches Ok(received) ==> message == Some(received)
            &&& message is Some ==> counted_one(counters, after)
            &&& message is None ==> after == counters
        },
{
}

/// An incarnation that is over gives up all of its waits and has no offload
/// outstanding any more.
pub proof fn law_released_contexts<M>(
    context: RawContext<M>,
    counters: ActorStatsCounters,
    aborted: Vec<u64>,
    after: RawContext<M>,
    after_counters: ActorStatsCounters,
)
    requires
        context.releases(counters, aborted, after, after_counters),
    ensures
        aborted@ == context.scope_waits@,
        after.scope_waits@ == Seq::<u64>::empty(),
        after_counters.outstanding_offloads == 0,
        after_counters.messages_received == counters.messages_received,
        after_counters.messages_accepted == counters.messages_accepted,
        after_counters.sends_rejected == counters.sends_rejected,
        after.continuations == context.continuations && after.timers == context.timers
            && after.stop_requested == context.stop_requested && after.ready == context.ready
            && after.offloads == context.offloads,
{
}

/// Finished waits are looked at before finished offloads, and the mailbox last.
pub proof fn law_where_to_look_first(wait_finished: bool, offload_finished: bool)
    ensures
        delivery_source(wait_finished, offload_finished) is ScopeWait <==> wait_finished,
        delivery_source(wait_finished, offload_finished) is Offload <==> !wait_finished
            && offload_finished,
        delivery_source(wait_finished, offload_finished) is Mailbox <==> !wait_finished
            && !offload_finished,
{
}

/// A watch is installed only for a new registration, and only where there is
/// something to run it on; a known one is shared, and a stale one is over.
pub proof fn law_watches_are_installed_once(registration: Registration, has_runtime: bool)
    ensures
        ({
            let plan = watch_plan(registration, has_runtime);
            &&& plan is Finished <==> registration is Stale
            &&& plan is Alias <==> registration is Existing
            &&& plan is Install <==> registration is Installed && has_runtime
            &&& plan is Abandon <==> registration is Installed && !has_runtime
            &&& registration matches Registration::Existing(watch) ==> plan == WatchPlan::Alias(
                watch,
            )
            &&& registration matches Registration::Installed(watch) ==> plan == WatchPlan::Install(
                watch,
            ) || plan == WatchPlan::Abandon(watch)
        }),
{
}

/// Forwarding hands on every event as it is until it is cancelled or its target
/// stops, and ends with the removal.
pub proof fn law_forwarding(cancelled: bool, stopped: bool, event: Option<MonitorEvent>)
    ensures
        ({
            let step = forwarding(cancelled, stopped, event);
            &&& step is Stop <==> cancelled || stopped
            &&& step is Send <==> !cancelled && !stopped && event is Some
            &&& step matches ForwardStep::Send { event: sent, terminal } ==> event == Some(sent)
                && (terminal <==> sent is Removed)
        }),
{
}

/// A wait on behalf of the actor hands on its output as it is, and nothing once
/// it is cancelled.
pub proof fn law_scope_waits<T>(cancelled: bool, output: Option<T>)
    ensures
        ({
            let step = scope_waiting(cancelled, output);
            &&& step is Stop <==> cancelled
            &&& step is Wait <==> !cancelled && output is None
            &&& step matches ScopeWaitStep::Send(sent) ==> output == Some(sent)
        }),
{
}

/// A delayed send happens only when it is due, and never once it was cancelled
/// or what it belongs to is over. An interval goes on after a tick unless one of
/// these holds or the tick could not be sent. Its first tick is a period from
/// now, and a period of nothing is refused.
pub proof fn law_delayed_sends(
    cancelled: bool,
    lifetime_over: bool,
    due: bool,
    sent: Option<bool>,
    now: u64,
    period: u64,
)
    ensures
        delaying(cancelled, lifetime_over, due) is Stop <==> cancelled || lifetime_over,
        delaying(cancelled, lifetime_over, due) is Send <==> !cancelled && !lifetime_over && due,
        ticking(cancelled, lifetime_over, sent) is Stop <==> cancelled || lifetime_over || (
        sent is Some && !sent->0),
        ticking(cancelled, lifetime_over, sent) is Stop || ticking(
            cancelled,
            lifetime_over,
            sent,
        ) is Wait,
        tick_at(now, period) is None <==> period == 0,
        tick_at(now, period) matches Some(tick) ==> (period < u64::MAX && now + period <= u64::MAX
            ==> tick == now + period),
{
    assert(sent == Some(false) <==> (sent is Some && !sent->0));
}

/// Blocking work hands back what it returned; a panic is passed on, and work
/// that was cancelled is an error.
pub proof fn law_blocking_work<R>(outcome: BlockingOutcome<R>)
    ensures
        outcome matches BlockingOutcome::Returned(value) ==> blocking_result(outcome) == Some(
            Ok::<R, BlockingCancelled>(value),
        ),
        outcome is Panicked <==> blocking_result(outcome) is None,
        outcome is Cancelled <==> (blocking_result(outcome) is Some && blocking_result(
            outcome,
        )->0 is Err),
{
}

/// A failed start ends the loop without a stop hook. After a successful one the
/// actor has reported that it is ready, and it receives, unless the start itself
/// asked for the stop.
pub proof fn law_starting<M>(
    receive: ReceiveLoop,
    context: RawContext<M>,
    success: bool,
    step: LoopStep<M>,
    after: ReceiveLoop,
    context_after: RawContext<M>,
)
    requires
        receive.starts(context, success, step, after, context_after),
    ensures
        !success ==> step == (LoopStep::<M>::Finish { success: false }) && after.phase is Done
            && context_after.ready == context.ready,
        success ==> context_after.ready.reported,
        success && context.stop_requested ==> winds_down(step, after.phase, context.drain_messages),
        success && !context.stop_requested ==> step is Again && after.phase is Receiving,
        context_after.continuations == context.continuations && context_after.timers
            == context.timers,
{
}

/// Between two messages a shutdown comes first: nothing is handed over any more.
/// Then come the continuations, the oldest first. Only where there is none does
/// the loop turn to its mailbox or to an elapsed timer.
pub proof fn law_what_is_handled_next<M>(
    receive: ReceiveLoop,
    context: RawContext<M>,
    counters: ActorStatsCounters,
    shutdown: bool,
    now: u64,
    step: LoopStep<M>,
    after: ReceiveLoop,
    context_after: RawContext<M>,
    counters_after: ActorStatsCounters,
)
    requires
        receive.advances(
            context,
            counters,
            shutdown,
            now,
            step,
            after,
            context_after,
            counters_after,
        ),
    ensures
        shutdown ==> {
            &&& winds_down(step, after.phase, context.drain_messages)
            &&& counters_after == counters
            &&& context_after == context
        },
        !shutdown && context.continuations@.len() > 0 ==> {
            &&& hands_over(step, context.continuations@[0], false, counters, counters_after)
            &&& context.continuations@ == seq![context.continuations@[0]]
                + context_after.continuations@
            &&& context_after.timers == context.timers
            &&& receive.phase matches LoopPhase::Elapsed { wake, queued } ==> after.phase == (
            LoopPhase::HandlingElapsed { wake, queued })
            &&& !(receive.phase is Elapsed) ==> after.phase is Handling
        },
        !shutdown && context.continuations@.len() == 0 && !(receive.phase is Elapsed) ==> {
            &&& step is Await
            &&& after.phase is Receiving
            &&& counters_after == counters
            &&& context_after.timers == context.timers
            &&& context_after.continuations@.len() == 0
        },
        !shutdown && context.continuations@.len() == 0 ==> (receive.phase matches LoopPhase::Elapsed {
            wake,
            queued,
        } ==> (queued > 0 ==> {
            &&& step is TryReceive
            &&& after.phase matches LoopPhase::Elapsed { wake: same, queued: left }
            &&& same == wake && left + 1 == queued
            &&& counters_after == counters
            &&& context_after.continuations@.len() == 0
            &&& context_after.timers == context.timers
        })),
        context_after.stop_requested == context.stop_requested && context_after.drain_messages
            == context.drain_messages && context_after.offloads == context.offloads
            && context_after.ready == context.ready && context_after.scope_waits
            == context.scope_waits,
{
    if !shutdown && context.continuations@.len() > 0 {
        assert(context.continuations@ =~= seq![context.continuations@[0]]
            + context_after.continuations@);
    }
}

/// While it waits for its mailbox the loop is woken no later than the first of
/// its timers is due, and by a timer only where one is armed.
pub proof fn law_waiting_looks_to_the_next_timer<M>(
    receive: ReceiveLoop,
    context: RawContext<M>,
    counters: ActorStatsCounters,
    shutdown: bool,
    now: u64,
    step: LoopStep<M>,
    after: ReceiveLoop,
    context_after: RawContext<M>,
    counters_after: ActorStatsCounters,
)
    requires
        receive.advances(
            context,
            counters,
            shutdown,
            now,
            step,
            after,
            context_after,
            counters_after,
        ),
        !shutdown,
        context.continuations@.len() == 0,
        !(receive.phase is Elapsed),
    ensures
        step matches LoopStep::Await { timer } && {
            &&& timer is None <==> context.timers.entries@.len() == 0
            &&& timer matches Some(wake) ==> {
                &&& exists|i: int| #[trigger] stands_for(context.timers.entries@, wake, i)
                &&& forall|j: int|
                    0 <= j < context.timers.entries@.len() ==> wake.deadline <= (
                    #[trigger] context.timers.entries@[j]).deadline
            }
        },
{
    if let LoopStep::Await { timer: Some(wake) } = step {
        let i = choose|i: int| #[trigger]
            crate::timers::earliest_at(context.timers.entries@, i) && wake.id
                == context.timers.entries@[i].id && wake.deadline
                == context.timers.entries@[i].deadline;
        assert(stands_for(context.timers.entries@, wake, i));
    }
}

/// An elapsed timer hands over its message once the messages that were queued
/// before it have been handled, provided that it is due and still armed. It is
/// then gone. Otherwise the loop goes on receiving and nothing has changed.
pub proof fn law_elapsed_timers_fire<M>(
    receive: ReceiveLoop,
    wake: TimerWake,
    context: RawContext<M>,
    counters: ActorStatsCounters,
    now: u64,
    step: LoopStep<M>,
    after: ReceiveLoop,
    context_after: RawContext<M>,
    counters_after: ActorStatsCounters,
)
    requires
        (receive.phase == (LoopPhase::Elapsed { wake, queued: 0 }) && context.continuations@.len()
            == 0 && receive.advances(
            context,
            counters,
            false,
            now,
            step,
            after,
            context_after,
            counters_after,
        )) || (receive.phase is Elapsed && receive.phase->Elapsed_wake == wake && receive.receives(
            context,
            counters,
            None,
            now,
            step,
            after,
            context_after,
            counters_after,
        )),
    ensures
        wake.deadline <= now && (exists|i: int| #[trigger]
            stands_for(context.timers.entries@, wake, i)) ==> {
            &&& after.phase is HandlingTimer
            &&& exists|i: int|
                {
                    &&& #[trigger] stands_for(context.timers.entries@, wake, i)
                    &&& hands_over(
                        step,
                        context.timers.entries@[i].message,
                        false,
                        counters,
                        counters_after,
                    )
                    &&& taken_out(context.timers.entries@, i, context_after.timers.entries@)
                }
        },
        wake.deadline > now || !(exists|i: int| #[trigger]
            stands_for(context.timers.entries@, wake, i)) ==> {
            &&& step is Again
            &&& after.phase is Receiving
            &&& counters_after == counters
            &&& context_after.timers.entries@ == context.timers.entries@
        },
        context_after.continuations@ == context.continuations@,
        context_after.stop_requested == context.stop_requested && context_after.drain_messages
            == context.drain_messages && context_after.offloads == context.offloads
            && context_after.ready == context.ready && context_after.scope_waits
            == context.scope_waits,
{
    let entries = context.timers.entries@;
    if wake.deadline <= now && exists|i: int| #[trigger] stands_for(entries, wake, i) {
        let seen = choose|i: int| #[trigger] stands_for(entries, wake, i);
        lemma_wake_is_found(entries, wake, seen);
        let i = choose|i: int|
            {
                &&& #[trigger] crate::timers::wake_at(entries, wake, i)
                &&& crate::handler::handles(
                    step,
                    entries[i].message,
                    false,
                    counters,
                    counters_after,
                )
                &&& context_after.timers.entries@ == crate::timers::without(entries, i)
                &&& after.phase == LoopPhase::HandlingTimer
            };
        lemma_without_takes_out(entries, i);
        assert(stands_for(entries, wake, i));
    } else if wake.deadline <= now {
        assert forall|i: int| !#[trigger] crate::timers::wake_at(entries, wake, i) by {
            assert(!stands_for(entries, wake, i));
        }
    }
}

/// What wakes the loop: a shutdown or the end of the mailbox winds it down, a
/// message is handed over, and a timer waits until what is queued already has
/// been handled.
pub proof fn law_waking<M>(
    receive: ReceiveLoop,
    context: RawContext<M>,
    counters: ActorStatsCounters,
    event: LoopEvent<M>,
    step: LoopStep<M>,
    after: ReceiveLoop,
    counters_after: ActorStatsCounters,
)
    requires
        receive.awakes(context, counters, event, step, after, counters_after),
    ensures
        event is Shutdown || event == LoopEvent::<M>::Message(None) ==> winds_down(
            step,
            after.phase,
            context.drain_messages,
        ) && counters_after == counters,
        event matches LoopEvent::Message(Some(message)) ==> hands_over(
            step,
            message,
            false,
            counters,
            counters_after,
        ) && after.phase is Handling,
        event matches LoopEvent::Timer { wake, queued } ==> step is Again && after.phase == (
        LoopPhase::Elapsed { wake, queued }) && counters_after == counters,
{
}

/// A message that was queued before the timer elapsed is handed over first, and
/// the timer stays pending.
pub proof fn law_queued_messages_precede_the_timer<M>(
    receive: ReceiveLoop,
    wake: TimerWake,
    queued: usize,
    context: RawContext<M>,
    counters: ActorStatsCounters,
    message: M,
    now: u64,
    step: LoopStep<M>,
    after: ReceiveLoop,
    context_after: RawContext<M>,
    counters_after: ActorStatsCounters,
    handled: LoopStep<M>,
    last: ReceiveLoop,
)
    requires
        receive.phase == (LoopPhase::Elapsed { wake, queued }),
        receive.receives(
            context,
            counters,
            Some(message),
            now,
            step,
            after,
            context_after,
            counters_after,
        ),
        after.handled(context_after, true, handled, last),
    ensures
        hands_over(step, message, false, counters, counters_after),
        context_after == context,
        !context.stop_requested ==> handled is Again && last.phase == receive.phase,
        context.stop_requested ==> winds_down(handled, last.phase, context.drain_messages),
{
}

/// A handler that fails ends the loop at once, without a stop hook. One that
/// succeeds lets it go on where it was, or winds it down where it asked for the
/// stop.
pub proof fn law_after_a_message<M>(
    receive: ReceiveLoop,
    context: RawContext<M>,
    success: bool,
    step: LoopStep<M>,
    after: ReceiveLoop,
)
    requires
        receive.handled(context, success, step, after),
    ensures
        !success ==> step == (LoopStep::<M>::Finish { success: false }) && after.phase is Done,
        success && receive.phase is HandlingDrained ==> step is Drain && after.phase is Draining,
        success && !(receive.phase is HandlingDrained) && context.stop_requested ==> winds_down(
            step,
            after.phase,
            context.drain_messages,
        ),
        success && !context.stop_requested && !(receive.phase is HandlingDrained) ==> step is Again,
        success && !context.stop_requested ==> (receive.phase matches LoopPhase::HandlingElapsed {
            wake,
            queued,
        } ==> after.phase == (LoopPhase::Elapsed { wake, queued })),
        success && !context.stop_requested && (receive.phase is Handling
            || receive.phase is HandlingTimer) ==> after.phase is Receiving,
{
}

/// The end of the loop: drained messages are handed over as such, one after the
/// other; the stop hook runs when there is none left, or at once where they are
/// dropped, and is told how many continuations were never handled; its success
/// is that of the whole run.
pub proof fn law_the_end<M>(
    receive: ReceiveLoop,
    context: RawContext<M>,
    counters: ActorStatsCounters,
    message: Option<M>,
    step: LoopStep<M>,
    after: ReceiveLoop,
    counters_after: ActorStatsCounters,
    success: bool,
    finish: LoopStep<M>,
    last: ReceiveLoop,
)
    requires
        context.continuations@.len() <= usize::MAX,
    ensures
        receive.drains(context, counters, message, step, after, counters_after) ==> {
            &&& message matches Some(message) ==> hands_over(
                step,
                message,
                true,
                counters,
                counters_after,
            ) && after.phase is HandlingDrained
            &&& message is None ==> {
                &&& step matches LoopStep::RunStop { dropped_continuations }
                &&& dropped_continuations == context.continuations@.len()
                &&& after.phase is Stopping
                &&& counters_after == counters
            }
        },
        receive.discards(context, step, after) ==> {
            &&& step matches LoopStep::RunStop { dropped_continuations }
            &&& dropped_continuations == context.continuations@.len()
            &&& after.phase is Stopping
        },
        receive.stops(success, finish, last) ==> finish == (LoopStep::<M>::Finish { success })
            && last.phase is Done,
{
}

/// Readiness is reported once, a requested stop stays requested, and neither
/// touches what the actor has queued or set.
pub proof fn law_requests_of_the_actor<M>(
    context: RawContext<M>,
    first: bool,
    after: RawContext<M>,
)
    ensures
        context.marks_ready(first, after) ==> after.ready.reported && first
            == !context.ready.reported && after.ready.manual == context.ready.manual
            && after.stop_requested == context.stop_requested,
        context.stops(after) ==> after.stop_requested && after.ready == context.ready,
        context.marks_ready(first, after) || context.stops(after) ==> after.continuations
            == context.continuations && after.timers == context.timers && after.offloads
            == context.offloads && after.scope_waits == context.scope_waits
            && after.drain_messages == context.drain_messages,
{
}

/// A wait that was started is known until it is over; a panic in it is passed on.
pub proof fn law_waits_are_known_until_they_are_over<M>(
    context: RawContext<M>,
    task: u64,
    started: RawContext<M>,
    panicked: bool,
    resume: bool,
    after: RawContext<M>,
)
    requires
        !context.scope_waits@.contains(task),
        context.starts_wait(task, started),
        started.joins_wait(task, panicked, resume, after),
    ensures
        started.scope_waits@.contains(task),
        after.scope_waits@ == context.scope_waits@,
        resume == panicked,
        after.offloads == context.offloads && after.continuations == context.continuations,
{
    let waits = started.scope_waits@;
    let last = waits.len() - 1;
    assert(waits[last] == task);
    let k = choose|k: int| #[trigger]
        crate::context::wait_at(waits, task, k) && after.scope_waits@ == waits.remove(k);
    if k < last {
        assert(context.scope_waits@[k] == task);
    }
    assert(after.scope_waits@ =~= context.scope_waits@);
}

/// A continuation is taken exactly where one is queued, the oldest one.
pub proof fn law_continuations_are_taken<M>(
    context: RawContext<M>,
    taken: Option<M>,
    after: RawContext<M>,
)
    requires
        context.takes_continuation(taken, after),
    ensures
        taken is Some <==> context.continuations@.len() > 0,
        taken matches Some(message) ==> context.continuations@ == seq![message]
            + after.continuations@,
        taken is None ==> after.continuations@ == context.continuations@,
        after.timers == context.timers && after.stop_requested == context.stop_requested
            && after.offloads == context.offloads,
{
    if taken is Some {
        assert(context.continuations@ =~= seq![taken->0] + after.continuations@);
    }
}

} // verus!
