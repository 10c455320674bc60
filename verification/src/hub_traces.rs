//! The order of a watch's events over any sequence of operations on one hub.
use vstd::prelude::*;

#[allow(unused_imports)]
use crate::hub::{HubView, MonitorRun, WatchView};
#[allow(unused_imports)]
use crate::hub_laws::{hub_inv, in_order, open_ended, ordered, watch_inv};
use crate::monitor::MonitorEvent;
use crate::policy::ExitStatus;

verus! {

broadcast use vstd::seq_lib::group_seq_properties;

/// One operation on a hub.
#[allow(inconsistent_fields)]
pub enum HubOp {
    /// A run is created.
    Create,
    /// A watch is registered.
    Register {
        /// Whether its observer has cancelled it.
        cancelled: bool,
        /// Whether its observing membership has ended.
        stopped: bool,
    },
    /// A run asks to start.
    Start(MonitorRun),
    /// A run exits.
    Exit {
        /// The run.
        run_id: u64,
        /// How it exits.
        status: ExitStatus,
    },
    /// A membership is removed.
    Remove(u64),
    /// The next event of a watch is delivered.
    Deliver(u64),
    /// A watch is cancelled by its observer.
    Cancel(u64),
    /// The observing membership of a watch ends.
    Stop(u64),
    /// The guard of a watch is given up.
    Release(u64),
}

/// The hub after one operation.
pub open spec fn applied(h: HubView, op: HubOp) -> HubView {
    match op {
        HubOp::Create => HubView { next_run_id: crate::hub::next(h.next_run_id), ..h },
        HubOp::Register { cancelled, stopped } => h.after_register(cancelled, stopped),
        HubOp::Start(run) => h.after_start(run),
        HubOp::Exit { run_id, status } => h.after_exit(run_id, status),
        HubOp::Remove(epoch) => h.after_removed(epoch),
        HubOp::Deliver(id) => h.after_pop(id),
        HubOp::Cancel(id) => h.after_cancel(id),
        HubOp::Stop(id) => h.after_stop(id),
        HubOp::Release(id) => h.after_release(id),
    }
}

/// The hub of `actor_id` after `ops`.
pub open spec fn reached(actor_id: String, ops: Seq<HubOp>) -> HubView
    decreases ops.len(),
{
    if ops.len() == 0 {
        HubView::initial(actor_id)
    } else {
        applied(reached(actor_id, ops.drop_last()), ops.last())
    }
}

/// What watch `id` has delivered over `ops`.
pub open spec fn delivered(actor_id: String, ops: Seq<HubOp>, id: u64) -> Seq<MonitorEvent>
    decreases ops.len(),
{
    if ops.len() == 0 {
        Seq::empty()
    } else {
        let before = delivered(actor_id, ops.drop_last(), id);
        match ops.last() {
            HubOp::Deliver(own) if own == id => match reached(
                actor_id,
                ops.drop_last(),
            ).next_event(id) {
                Some(event) => before.push(event),
                None => before,
            },
            _ => before,
        }
    }
}

/// Number of starts that `ops` ask for.
pub open spec fn starts(ops: Seq<HubOp>) -> nat
    decreases ops.len(),
{
    if ops.len() == 0 {
        0
    } else {
        starts(ops.drop_last()) + if ops.last() is Start {
            1nat
        } else {
            0nat
        }
    }
}

/// Number of watches that `ops` register.
pub open spec fn registrations(ops: Seq<HubOp>) -> nat
    decreases ops.len(),
{
    if ops.len() == 0 {
        0
    } else {
        registrations(ops.drop_last()) + if ops.last() is Register {
            1nat
        } else {
            0nat
        }
    }
}

/// No run asks to start twice.
pub open spec fn runs_start_once(ops: Seq<HubOp>) -> bool {
    forall|i: int, j: int|
        0 <= i < j < ops.len() && #[trigger] ops[i] is Start && #[trigger] ops[j] is Start
            ==> ops[i]->Start_0.run_id != ops[j]->Start_0.run_id
}

/// The starts of a trace have increasing generations.
pub open spec fn starts_increase(trace: Seq<MonitorEvent>) -> bool {
    forall|i: int, j: int|
        0 <= i < j < trace.len() && #[trigger] trace[i] is Started && #[trigger] trace[j] is Started
            ==> trace[i]->Started_generation < trace[j]->Started_generation
}

/// No two exits of a trace have the same generation.
pub open spec fn exits_once(trace: Seq<MonitorEvent>) -> bool {
    forall|i: int, j: int|
        0 <= i < j < trace.len() && #[trigger] trace[i] is Exited && #[trigger] trace[j] is Exited
            ==> trace[i]->Exited_generation != trace[j]->Exited_generation
}

/// The exit of `generation` is in `trace`.
pub open spec fn exited_in(trace: Seq<MonitorEvent>, generation: u64) -> bool {
    exists|i: int|
        0 <= i < trace.len() && #[trigger] trace[i] is Exited && trace[i]->Exited_generation
            == generation
}

/// A trace speaks of generations below `bound` alone.
pub open spec fn below(trace: Seq<MonitorEvent>, bound: u64) -> bool {
    forall|i: int|
        0 <= i < trace.len() ==> {
            &&& #[trigger] trace[i] is Started ==> trace[i]->Started_generation < bound
            &&& trace[i] is Exited ==> trace[i]->Exited_generation < bound
        }
}

/// What holds of the trace of one watch.
spec fn watch_traced(w: WatchView, h: HubView) -> bool {
    &&& starts_increase(w.trace)
    &&& exits_once(w.trace)
    &&& below(w.trace, h.next_generation)
    &&& forall|run_id: u64| #[trigger]
        h.runs.dom().contains(run_id) ==> !exited_in(w.trace, h.runs[run_id].generation)
}

/// What holds of the traces of all watches: generations are told apart.
spec fn traced(h: HubView) -> bool {
    &&& forall|a: u64, b: u64| #[trigger]
        h.runs.dom().contains(a) && #[trigger] h.runs.dom().contains(b) && a != b
            ==> h.runs[a].generation != h.runs[b].generation
    &&& forall|i: int| 0 <= i < h.watches.len() ==> watch_traced(#[trigger] h.watches[i], h)
    &&& h.epoch <= h.next_generation
}

/// A report of `event` keeps a trace.
proof fn lemma_push(trace: Seq<MonitorEvent>, event: MonitorEvent, bound: u64)
    requires
        starts_increase(trace),
        exits_once(trace),
        below(trace, bound),
        event is Started ==> event->Started_generation == bound && bound < u64::MAX,
        event is Exited ==> event->Exited_generation < bound && !exited_in(
            trace,
            event->Exited_generation,
        ),
    ensures
        starts_increase(trace.push(event)),
        exits_once(trace.push(event)),
        event is Started ==> below(trace.push(event), (bound + 1) as u64),
        !(event is Started) ==> below(trace.push(event), bound),
        forall|generation: u64| #[trigger]
            exited_in(trace.push(event), generation) ==> exited_in(trace, generation) || (event
                is Exited && event->Exited_generation == generation),
{
    let after = trace.push(event);
    assert forall|i: int, j: int|
        0 <= i < j < after.len() && #[trigger] after[i] is Started
            && #[trigger] after[j] is Started implies after[i]->Started_generation
        < after[j]->Started_generation by {
        assert(after[i] == trace[i]);
        if j < trace.len() {
            assert(after[j] == trace[j]);
        }
    }
    assert forall|i: int, j: int|
        0 <= i < j < after.len() && #[trigger] after[i] is Exited
            && #[trigger] after[j] is Exited implies after[i]->Exited_generation
        != after[j]->Exited_generation by {
        assert(after[i] == trace[i]);
        if j < trace.len() {
            assert(after[j] == trace[j]);
        }
    }
    assert forall|generation: u64| #[trigger]
        exited_in(after, generation) implies exited_in(trace, generation) || (event is Exited
        && event->Exited_generation == generation) by {
        let i = choose|i: int|
            0 <= i < after.len() && #[trigger] after[i] is Exited && after[i]->Exited_generation
                == generation;
        if i < trace.len() {
            assert(trace[i] == after[i]);
        }
    }
}

/// A watch that is reported an event of a run that has not exited, or a
/// removal, or nothing at all, keeps its trace below `bound`.
proof fn lemma_notified(w: WatchView, epoch: u64, event: MonitorEvent, bound: u64)
    requires
        starts_increase(w.trace),
        exits_once(w.trace),
        below(w.trace, bound),
        event is Started ==> event->Started_generation == bound && bound < u64::MAX,
        event is Exited ==> event->Exited_generation < bound && !exited_in(
            w.trace,
            event->Exited_generation,
        ),
    ensures
        ({
            let after = w.notified(epoch, event);
            &&& starts_increase(after.trace)
            &&& exits_once(after.trace)
            &&& event is Started ==> below(after.trace, (bound + 1) as u64)
            &&& !(event is Started) ==> below(after.trace, bound)
            &&& forall|generation: u64| #[trigger]
                exited_in(after.trace, generation) ==> exited_in(w.trace, generation) || (event
                    is Exited && event->Exited_generation == generation)
        }),
{
    lemma_push(w.trace, event, bound);
}

/// A fresh membership keeps the traces.
proof fn lemma_reopened(h: HubView)
    requires
        traced(h),
        h.epoch < u64::MAX,
    ensures
        ({
            let after = h.reopened();
            &&& after.runs == h.runs
            &&& after.next_generation == h.next_generation
            &&& after.epoch == h.epoch + 1
            &&& forall|i: int|
                0 <= i < after.watches.len() ==> watch_traced(#[trigger] after.watches[i], after)
        }),
{
    let after = h.reopened();
    let removed = crate::hub::removed_event(h.actor_id, h.last_generation);
    assert forall|i: int| 0 <= i < after.watches.len() implies watch_traced(
        #[trigger] after.watches[i],
        after,
    ) by {
        assert(watch_traced(h.watches[i], h));
        lemma_notified(h.watches[i], h.epoch, removed, h.next_generation);
    }
}

/// A start in the current membership keeps the traces.
proof fn lemma_with_run(h: HubView, run_id: u64)
    requires
        forall|a: u64, b: u64| #[trigger]
            h.runs.dom().contains(a) && #[trigger] h.runs.dom().contains(b) && a != b
                ==> h.runs[a].generation != h.runs[b].generation,
        forall|i: int| 0 <= i < h.watches.len() ==> watch_traced(#[trigger] h.watches[i], h),
        h.epoch <= h.next_generation + 1,
        ordered(h),
        h.next_generation < u64::MAX,
        !h.runs.dom().contains(run_id),
    ensures
        traced(h.with_run(run_id)),
{
    let after = h.with_run(run_id);
    let event = crate::hub::started_event(h.actor_id, h.next_generation);
    assert forall|i: int| 0 <= i < after.watches.len() implies watch_traced(
        #[trigger] after.watches[i],
        after,
    ) by {
        let w = h.watches[i];
        assert(watch_traced(w, h));
        lemma_notified(w, h.epoch, event, h.next_generation);
        assert forall|id: u64| #[trigger] after.runs.dom().contains(id) implies !exited_in(
            after.watches[i].trace,
            after.runs[id].generation,
        ) by {
            if exited_in(after.watches[i].trace, after.runs[id].generation) {
                assert(exited_in(w.trace, after.runs[id].generation));
                if id == run_id {
                    let k = choose|k: int|
                        0 <= k < w.trace.len() && #[trigger] w.trace[k] is Exited
                            && w.trace[k]->Exited_generation == h.next_generation;
                    assert(w.trace[k]->Exited_generation < h.next_generation);
                } else {
                    assert(h.runs.dom().contains(id));
                }
            }
        }
    }
    assert forall|a: u64, b: u64| #[trigger]
        after.runs.dom().contains(a) && #[trigger] after.runs.dom().contains(b) && a
            != b implies after.runs[a].generation != after.runs[b].generation by {
        if a != run_id {
            assert(h.runs.dom().contains(a));
        }
        if b != run_id {
            assert(h.runs.dom().contains(b));
        }
    }
}

/// A start keeps the traces.
proof fn lemma_start(h: HubView, run: MonitorRun)
    requires
        hub_inv(h),
        ordered(h),
        traced(h),
        h.next_generation < u64::MAX,
        !h.runs.dom().contains(run.run_id),
    ensures
        hub_inv(h.after_start(run)),
        ordered(h.after_start(run)),
        traced(h.after_start(run)),
{
    crate::hub_laws::law_start_keeps_order(h, run);
    match h.admits(run.reopens_epoch) {
        None => {},
        Some(true) => {
            lemma_reopened(h);
            crate::hub_laws::lemma_reopened(h);
            lemma_with_run(h.reopened(), run.run_id);
        },
        Some(false) => {
            lemma_with_run(h, run.run_id);
        },
    }
}

/// An exit keeps the traces.
proof fn lemma_exit(h: HubView, run_id: u64, status: ExitStatus)
    requires
        ordered(h),
        traced(h),
        h.runs.dom().contains(run_id),
    ensures
        traced(h.after_exit(run_id, status)),
{
    let after = h.after_exit(run_id, status);
    let run = h.runs[run_id];
    let exited = crate::hub::exited_event(h.actor_id, run.generation, status);
    assert forall|id: u64| #[trigger] after.runs.dom().contains(id) implies h.runs.dom().contains(
        id,
    ) && after.runs[id] == h.runs[id] && id != run_id by {}
    assert forall|i: int| 0 <= i < after.watches.len() implies watch_traced(
        #[trigger] after.watches[i],
        after,
    ) by {
        let w = h.watches[i];
        assert(watch_traced(w, h));
        lemma_notified(w, run.epoch, exited, h.next_generation);
        let mid = w.notified(run.epoch, exited);
        let last = crate::hub::removed_event(h.actor_id, h.last_generation);
        lemma_notified(mid, run.epoch, last, h.next_generation);
        let k = choose|k: int| crate::hub::retiring_at(h.retiring, run.epoch, k);
        let late = crate::hub::removed_event(h.actor_id, h.retiring[k].last_generation);
        lemma_notified(mid, run.epoch, late, h.next_generation);
        let updated = after.watches[i];
        assert(updated.trace == w.trace || updated.trace == mid.trace || updated.trace
            == mid.notified(run.epoch, last).trace || updated.trace == mid.notified(
            run.epoch,
            late,
        ).trace);
        assert forall|id: u64| #[trigger] after.runs.dom().contains(id) implies !exited_in(
            updated.trace,
            after.runs[id].generation,
        ) by {
            assert(h.runs.dom().contains(id));
            assert(h.runs[id].generation != run.generation);
        }
    }
}

/// A removal keeps the traces.
proof fn lemma_removed(h: HubView, epoch: u64)
    requires
        traced(h),
    ensures
        traced(h.after_removed(epoch)),
{
    let after = h.after_removed(epoch);
    let removed = crate::hub::removed_event(h.actor_id, h.last_generation);
    assert forall|i: int| 0 <= i < after.watches.len() implies watch_traced(
        #[trigger] after.watches[i],
        after,
    ) by {
        assert(watch_traced(h.watches[i], h));
        lemma_notified(h.watches[i], epoch, removed, h.next_generation);
    }
}

/// A registration keeps the traces.
proof fn lemma_registered(h: HubView, cancelled: bool, stopped: bool)
    requires
        ordered(h),
        traced(h),
    ensures
        traced(h.after_register(cancelled, stopped)),
{
    let after = h.after_register(cancelled, stopped);
    let n = h.watches.len() as int;
    let added = h.new_watch(cancelled, stopped);
    assert forall|i: int| 0 <= i < after.watches.len() implies watch_traced(
        #[trigger] after.watches[i],
        after,
    ) by {
        if i < n {
            assert(after.watches[i] == h.watches[i].pruned(h.epoch));
            assert(watch_traced(h.watches[i], h));
        } else {
            assert(after.watches[i] == added);
            assert(added.trace.len() <= 1);
            assert forall|generation: u64| !#[trigger] exited_in(added.trace, generation) by {
                if exited_in(added.trace, generation) {
                    let k = choose|k: int|
                        0 <= k < added.trace.len() && #[trigger] added.trace[k] is Exited
                            && added.trace[k]->Exited_generation == generation;
                    assert(!(added.trace[k] is Exited));
                }
            }
        }
    }
}

/// Operations on watches alone keep the traces.
proof fn lemma_same_traces(h: HubView, after: HubView)
    requires
        traced(h),
        after == (HubView { watches: after.watches, next_run_id: after.next_run_id, ..h }),
        forall|i: int|
            0 <= i < after.watches.len() ==> exists|j: int|
                0 <= j < h.watches.len() && (#[trigger] after.watches[i]).trace == (
                #[trigger] h.watches[j]).trace,
    ensures
        traced(after),
{
    assert forall|i: int| 0 <= i < after.watches.len() implies watch_traced(
        #[trigger] after.watches[i],
        after,
    ) by {
        let j = choose|j: int|
            0 <= j < h.watches.len() && after.watches[i].trace == (#[trigger] h.watches[j]).trace;
        assert(watch_traced(h.watches[j], h));
    }
}

/// What holds after `ops`.
proof fn lemma_reached(actor_id: String, ops: Seq<HubOp>)
    requires
        starts(ops) <= u64::MAX,
        registrations(ops) <= u64::MAX,
        runs_start_once(ops),
    ensures
        ({
            let h = reached(actor_id, ops);
            &&& hub_inv(h)
            &&& ordered(h)
            &&& traced(h)
            &&& h.next_generation <= starts(ops)
            &&& h.next_watch == registrations(ops)
            &&& forall|run_id: u64| #[trigger]
                h.runs.dom().contains(run_id) ==> exists|i: int|
                    0 <= i < ops.len() && #[trigger] ops[i] is Start && ops[i]->Start_0.run_id
                        == run_id
        }),
    decreases ops.len(),
{
    if ops.len() > 0 {
        let init = ops.drop_last();
        let op = ops.last();
        assert forall|i: int, j: int|
            0 <= i < j < init.len() && #[trigger] init[i] is Start
                && #[trigger] init[j] is Start implies init[i]->Start_0.run_id
            != init[j]->Start_0.run_id by {
            assert(init[i] == ops[i] && init[j] == ops[j]);
        }
        lemma_reached(actor_id, init);
        let h = reached(actor_id, init);
        let after = reached(actor_id, ops);
        match op {
            HubOp::Create => {
                lemma_same_traces(h, after);
            },
            HubOp::Register { cancelled, stopped } => {
                crate::hub_laws::law_register_keeps_order(h, cancelled, stopped);
                lemma_registered(h, cancelled, stopped);
            },
            HubOp::Start(run) => {
                if h.runs.dom().contains(run.run_id) {
                    let i = choose|i: int|
                        0 <= i < init.len() && #[trigger] init[i] is Start
                            && init[i]->Start_0.run_id == run.run_id;
                    assert(init[i] == ops[i]);
                    assert(ops[ops.len() - 1] is Start);
                }
                lemma_start(h, run);
            },
            HubOp::Exit { run_id, status } => {
                crate::hub_laws::law_exit_keeps_order(h, run_id, status);
                if h.runs.dom().contains(run_id) {
                    lemma_exit(h, run_id, status);
                }
            },
            HubOp::Remove(epoch) => {
                crate::hub_laws::law_removal_keeps_order(h, epoch);
                lemma_removed(h, epoch);
            },
            HubOp::Deliver(id) => {
                if h.next_event(id) is Some {
                    let i = crate::hub::watch_position(h.watches, id)->0;
                    crate::hub_laws::law_delivery_keeps_order(h, i);
                }
                assert forall|i: int| 0 <= i < after.watches.len() implies exists|j: int|
                    0 <= j < h.watches.len() && (#[trigger] after.watches[i]).trace == (
                    #[trigger] h.watches[j]).trace by {
                    assert(after.watches[i].trace == h.watches[i].trace);
                }
                lemma_same_traces(h, after);
            },
            HubOp::Cancel(id) => {
                crate::hub_laws::lemma_flags(h, after);
                assert forall|i: int| 0 <= i < after.watches.len() implies exists|j: int|
                    0 <= j < h.watches.len() && (#[trigger] after.watches[i]).trace == (
                    #[trigger] h.watches[j]).trace by {
                    assert(after.watches[i].trace == h.watches[i].trace);
                }
                lemma_same_traces(h, after);
            },
            HubOp::Stop(id) => {
                crate::hub_laws::lemma_flags(h, after);
                assert forall|i: int| 0 <= i < after.watches.len() implies exists|j: int|
                    0 <= j < h.watches.len() && (#[trigger] after.watches[i]).trace == (
                    #[trigger] h.watches[j]).trace by {
                    assert(after.watches[i].trace == h.watches[i].trace);
                }
                lemma_same_traces(h, after);
            },
            HubOp::Release(id) => {
                if crate::hub::watch_position(h.watches, id) is Some {
                    let k = crate::hub::watch_position(h.watches, id)->0;
                    crate::hub_laws::law_ending_a_watch_keeps_order(h, id, k);
                    assert forall|i: int| 0 <= i < after.watches.len() implies exists|j: int|
                        0 <= j < h.watches.len() && (#[trigger] after.watches[i]).trace == (
                        #[trigger] h.watches[j]).trace by {
                        let j = if i < k {
                            i
                        } else {
                            i + 1
                        };
                        assert(after.watches[i] == h.watches[j]);
                    }
                    lemma_same_traces(h, after);
                }
            },
        }
        assert forall|run_id: u64| #[trigger]
            after.runs.dom().contains(run_id) implies exists|i: int|
            0 <= i < ops.len() && #[trigger] ops[i] is Start && ops[i]->Start_0.run_id
                == run_id by {
            if h.runs.dom().contains(run_id) {
                let i = choose|i: int|
                    0 <= i < init.len() && #[trigger] init[i] is Start && init[i]->Start_0.run_id
                        == run_id;
                assert(ops[i] == init[i]);
            } else {
                assert(ops[ops.len() - 1] == op);
            }
        }
    }
}

/// No event of `events` is a marker.
pub open spec fn lossless(events: Seq<MonitorEvent>) -> bool {
    forall|i: int| 0 <= i < events.len() ==> !(#[trigger] events[i] is Lagged)
}

/// What a watch has delivered and still holds is all that was staged for it,
/// unless a marker stands for dropped events.
spec fn carried(d: Seq<MonitorEvent>, w: WatchView) -> bool {
    lossless(d + w.events) ==> d + w.events =~= w.trace
}

/// Staging an event loses none without a marker.
proof fn lemma_carried_event(d: Seq<MonitorEvent>, w: WatchView, event: MonitorEvent)
    requires
        carried(d, w),
    ensures
        carried(d, w.with_event(event)),
{
    let after = w.with_event(event);
    if lossless(d + after.events) {
        if w.events.len() < crate::monitor::WATCH_BUFFER_CAP {
            assert(after.events =~= w.events.push(event));
            assert forall|k: int| 0 <= k < (d + w.events).len() implies !(#[trigger] (d
                + w.events)[k] is Lagged) by {
                assert((d + after.events)[k] == (d + w.events)[k]);
            }
            assert(d + after.events =~= (d + w.events).push(event));
        } else {
            assert(after.events[0] is Lagged);
            assert((d + after.events)[d.len() as int] == after.events[0]);
        }
    }
}

/// A report loses nothing without a marker.
proof fn lemma_carried_report(d: Seq<MonitorEvent>, w: WatchView, epoch: u64, event: MonitorEvent)
    requires
        carried(d, w),
    ensures
        carried(d, w.notified(epoch, event)),
        carried(d, w.retired(epoch, event)),
{
    lemma_carried_event(d, w, event);
}

/// A watch that has not been registered has delivered nothing.
proof fn lemma_unregistered(actor_id: String, ops: Seq<HubOp>, id: u64)
    requires
        starts(ops) <= u64::MAX,
        registrations(ops) <= u64::MAX,
        runs_start_once(ops),
        id >= reached(actor_id, ops).next_watch,
    ensures
        delivered(actor_id, ops, id).len() == 0,
    decreases ops.len(),
{
    if ops.len() > 0 {
        let init = ops.drop_last();
        lemma_init(ops);
        lemma_reached(actor_id, ops);
        lemma_reached(actor_id, init);
        lemma_unregistered(actor_id, init, id);
        let h = reached(actor_id, init);
        if h.next_event(id) is Some {
            let i = crate::hub::watch_position(h.watches, id)->0;
            assert(watch_inv(h.watches[i], h));
        }
    }
}

/// Fewer operations start no run twice either.
proof fn lemma_init(ops: Seq<HubOp>)
    requires
        ops.len() > 0,
        runs_start_once(ops),
    ensures
        runs_start_once(ops.drop_last()),
{
    let init = ops.drop_last();
    assert forall|i: int, j: int|
        0 <= i < j < init.len() && #[trigger] init[i] is Start
            && #[trigger] init[j] is Start implies init[i]->Start_0.run_id
        != init[j]->Start_0.run_id by {
        assert(init[i] == ops[i] && init[j] == ops[j]);
    }
}

/// The watch at `j` before and at `i` after an operation other than its own
/// registration and delivery.
proof fn lemma_carried_op(d: Seq<MonitorEvent>, h: HubView, op: HubOp, i: int)
    requires
        hub_inv(h),
        !(op is Register),
        !(op is Deliver),
        !(op is Release),
        0 <= i < h.watches.len(),
        carried(d, h.watches[i]),
    ensures
        applied(h, op).watches.len() == h.watches.len(),
        applied(h, op).watches[i].id == h.watches[i].id,
        carried(d, applied(h, op).watches[i]),
{
    let w = h.watches[i];
    match op {
        HubOp::Start(run) => {
            let removed = crate::hub::removed_event(h.actor_id, h.last_generation);
            let started = crate::hub::started_event(h.actor_id, h.next_generation);
            lemma_carried_report(d, w, h.epoch, removed);
            lemma_carried_report(d, w, h.epoch, started);
            lemma_carried_report(d, w, crate::hub::next(h.epoch), started);
            lemma_carried_report(
                d,
                w.retired(h.epoch, removed),
                crate::hub::next(h.epoch),
                started,
            );
        },
        HubOp::Exit { run_id, status } => {
            let run = h.runs[run_id];
            let exited = crate::hub::exited_event(h.actor_id, run.generation, status);
            let mid = w.notified(run.epoch, exited);
            let k = choose|k: int| crate::hub::retiring_at(h.retiring, run.epoch, k);
            lemma_carried_report(d, w, run.epoch, exited);
            lemma_carried_report(
                d,
                mid,
                run.epoch,
                crate::hub::removed_event(h.actor_id, h.last_generation),
            );
            lemma_carried_report(
                d,
                mid,
                run.epoch,
                crate::hub::removed_event(h.actor_id, h.retiring[k].last_generation),
            );
        },
        HubOp::Remove(epoch) => {
            lemma_carried_report(
                d,
                w,
                epoch,
                crate::hub::removed_event(h.actor_id, h.last_generation),
            );
        },
        _ => {},
    }
}

/// Without a marker, deliveries and what is still held are all that was staged.
proof fn lemma_carried(actor_id: String, ops: Seq<HubOp>, i: int)
    requires
        starts(ops) <= u64::MAX,
        registrations(ops) <= u64::MAX,
        runs_start_once(ops),
        0 <= i < reached(actor_id, ops).watches.len(),
    ensures
        ({
            let w = reached(actor_id, ops).watches[i];
            carried(delivered(actor_id, ops, w.id), w)
        }),
    decreases ops.len(),
{
    if ops.len() > 0 {
        let init = ops.drop_last();
        let op = ops.last();
        lemma_init(ops);
        lemma_reached(actor_id, init);
        let h = reached(actor_id, init);
        let after = reached(actor_id, ops);
        let w = after.watches[i];
        let d = delivered(actor_id, init, w.id);
        match op {
            HubOp::Register { cancelled, stopped } => {
                if i < h.watches.len() {
                    assert(w == h.watches[i].pruned(h.epoch));
                    lemma_carried(actor_id, init, i);
                } else {
                    assert(w == h.new_watch(cancelled, stopped));
                    lemma_unregistered(actor_id, init, w.id);
                    assert(d =~= Seq::empty());
                    let silent = WatchView {
                        id: h.next_watch,
                        epoch: Some(h.epoch),
                        min_generation: h.next_generation,
                        cancelled,
                        stopped,
                        actor_id: h.actor_id,
                        events: Seq::empty(),
                        trace: Seq::empty(),
                    };
                    match h.lifecycle {
                        crate::hub::Lifecycle::Removed(generation) => {
                            lemma_carried_event(
                                d,
                                WatchView { epoch: None, ..silent },
                                crate::hub::removed_event(h.actor_id, generation),
                            );
                        },
                        crate::hub::Lifecycle::Running { generation, .. } => {
                            lemma_carried_event(
                                d,
                                WatchView { min_generation: generation, ..silent },
                                crate::hub::started_event(h.actor_id, generation),
                            );
                        },
                        _ => {},
                    }
                }
            },
            HubOp::Deliver(id) => {
                lemma_carried(actor_id, init, i);
                let before = h.watches[i];
                assert(w.id == before.id);
                if id == w.id {
                    assert forall|j: int| 0 <= j < i implies (#[trigger] h.watches[j]).id != id by {
                        assert(h.watches[i].id == id);
                    }
                    assert(crate::hub::watch_at(h.watches, id, i));
                    let p = crate::hub::watch_position(h.watches, id)->0;
                    assert(crate::hub::watch_at(h.watches, id, p));
                    assert(p == i);
                    if before.events.len() > 0 {
                        assert(d.push(before.events[0]) + w.events =~= d + before.events);
                    }
                } else {
                    assert(w == before);
                }
            },
            HubOp::Release(id) => {
                if crate::hub::watch_position(h.watches, id) is Some {
                    let k = crate::hub::watch_position(h.watches, id)->0;
                    let j = if i < k {
                        i
                    } else {
                        i + 1
                    };
                    assert(w == h.watches[j]);
                    lemma_carried(actor_id, init, j);
                } else {
                    lemma_carried(actor_id, init, i);
                }
            },
            _ => {
                assert(i < h.watches.len()) by {
                    if h.watches.len() > 0 {
                        assert(after.watches.len() == h.watches.len());
                    }
                }
                lemma_carried(actor_id, init, i);
                lemma_carried_op(
                    delivered(actor_id, init, h.watches[i].id),
                    h,
                    op,
                    i,
                );
            },
        }
    }
}

/// Over any operations on one hub, a watch whose buffer has never overflowed
/// delivers what was staged for it, oldest first and without a gap, so that
/// its observer sees the lifecycle in order.
pub proof fn law_observers_see_the_lifecycle_in_order(actor_id: String, ops: Seq<HubOp>, i: int)
    requires
        starts(ops) <= u64::MAX,
        registrations(ops) <= u64::MAX,
        runs_start_once(ops),
        0 <= i < reached(actor_id, ops).watches.len(),
        ({
            let w = reached(actor_id, ops).watches[i];
            lossless(delivered(actor_id, ops, w.id) + w.events)
        }),
    ensures
        ({
            let w = reached(actor_id, ops).watches[i];
            let seen = delivered(actor_id, ops, w.id);
            &&& seen + w.events == w.trace
            &&& starts_increase(seen)
            &&& exits_once(seen)
            &&& in_order(seen)
        }),
{
    let w = reached(actor_id, ops).watches[i];
    let seen = delivered(actor_id, ops, w.id);
    lemma_carried(actor_id, ops, i);
    law_watches_hear_the_lifecycle_in_order(actor_id, ops, i);
    assert(seen + w.events =~= w.trace);
    assert forall|k: int| 0 <= k < seen.len() implies #[trigger] seen[k] == w.trace[k] by {
        assert((seen + w.events)[k] == seen[k]);
    }
    assert forall|k: int| 0 <= k < seen.len() && #[trigger] seen[k] is Exited implies
        crate::hub_laws::started_in(seen.take(k), seen[k]->Exited_generation) by {
        assert(w.trace[k] is Exited);
        assert(seen.take(k) =~= w.trace.take(k));
    }
    assert forall|k: int| 0 <= k < seen.len() && #[trigger] seen[k] is Removed implies k
        == seen.len() - 1 by {
        assert(w.trace[k] is Removed);
    }
}

/// A removal waits for the runs of its membership: while one of them has not
/// exited, nothing is staged, and a membership that is not the current one is
/// not removed at all.
pub proof fn law_removal_waits_for_runs(h: HubView, epoch: u64)
    ensures
        crate::hub::has_active(h.runs, epoch) ==> h.after_removed(epoch).watches == h.watches,
        epoch != h.epoch ==> h.after_removed(epoch) == h,
{
}

/// Over any operations on one hub, a watch is told of its target's lifecycle in
/// order: starts have increasing generations, every exit comes after the start
/// of its generation and occurs once, and nothing comes after the removal.
pub proof fn law_watches_hear_the_lifecycle_in_order(actor_id: String, ops: Seq<HubOp>, i: int)
    requires
        starts(ops) <= u64::MAX,
        registrations(ops) <= u64::MAX,
        runs_start_once(ops),
        0 <= i < reached(actor_id, ops).watches.len(),
    ensures
        starts_increase(reached(actor_id, ops).watches[i].trace),
        exits_once(reached(actor_id, ops).watches[i].trace),
        in_order(reached(actor_id, ops).watches[i].trace),
{
    lemma_reached(actor_id, ops);
    assert(watch_traced(reached(actor_id, ops).watches[i], reached(actor_id, ops)));
}

} // verus!
