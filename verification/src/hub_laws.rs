//! Laws of the monitor hub: what every operation keeps, and in which order a
//! watch sees the lifecycle of its target.
use vstd::prelude::*;

#[allow(unused_imports)]
use crate::hub::{HubView, Lifecycle, MonitorRun, WatchView};
#[allow(unused_imports)]
use crate::monitor::MonitorEvent;
#[allow(unused_imports)]
use crate::policy::ExitStatus;

verus! {

broadcast use vstd::seq_lib::group_seq_properties;

/// `Started` of `generation` is in `trace`.
pub open spec fn started_in(trace: Seq<MonitorEvent>, generation: u64) -> bool {
    exists|i: int|
        0 <= i < trace.len() && #[trigger] trace[i] is Started && trace[i]->Started_generation
            == generation
}

/// No `Removed` is in `trace`.
pub open spec fn open_ended(trace: Seq<MonitorEvent>) -> bool {
    forall|i: int| 0 <= i < trace.len() ==> !(#[trigger] trace[i] is Removed)
}

/// Lifecycle order: every exit comes after the start of its generation, and
/// nothing comes after the removal.
pub open spec fn in_order(trace: Seq<MonitorEvent>) -> bool {
    &&& forall|i: int|
        0 <= i < trace.len() && #[trigger] trace[i] is Exited ==> started_in(
            trace.take(i),
            trace[i]->Exited_generation,
        )
    &&& forall|i: int|
        0 <= i < trace.len() && #[trigger] trace[i] is Removed ==> i == trace.len() - 1
}

/// What holds of one watch, beside the runs that it may still hear of.
pub open spec fn watch_inv(w: WatchView, h: HubView) -> bool {
    &&& w.events.len() <= crate::monitor::WATCH_BUFFER_CAP
    &&& crate::monitor::marker_leads(w.events)
    &&& crate::monitor::is_suffix(crate::monitor::retained(w.events), w.trace)
    &&& w.id < h.next_watch
    &&& w.epoch matches Some(epoch) ==> {
        &&& epoch == h.epoch || crate::hub::is_retiring(h.retiring, epoch)
        &&& epoch == h.epoch ==> !(h.lifecycle is Removed)
        &&& open_ended(w.trace)
    }
    &&& w.min_generation <= h.next_generation
    &&& forall|i: int| 0 <= i < w.trace.len() ==> !(#[trigger] w.trace[i] is Lagged)
}

/// The start of every run that a registered watch will hear the exit of has
/// been reported to it.
pub open spec fn starts_reported(w: WatchView, h: HubView) -> bool {
    w.epoch matches Some(epoch) ==> forall|run_id: u64|
        #[trigger] h.runs.dom().contains(run_id) && h.runs[run_id].epoch == epoch
            && h.runs[run_id].generation >= w.min_generation ==> started_in(
            w.trace,
            h.runs[run_id].generation,
        )
}

/// What every operation of the hub keeps.
pub open spec fn hub_inv(h: HubView) -> bool {
    &&& forall|run_id: u64| #[trigger]
        h.runs.dom().contains(run_id) ==> h.runs[run_id].epoch == h.epoch
            || crate::hub::is_retiring(h.retiring, h.runs[run_id].epoch)
    &&& h.lifecycle is Removed ==> !crate::hub::has_active(h.runs, h.epoch)
    &&& h.removal_requested && !(h.lifecycle is Removed) ==> crate::hub::has_active(
        h.runs,
        h.epoch,
    )
    &&& h.lifecycle matches Lifecycle::Running { run_id, generation } ==> {
        &&& h.runs.dom().contains(run_id)
        &&& h.runs[run_id].epoch == h.epoch
        &&& h.runs[run_id].generation == generation
        &&& generation <= h.next_generation
    }
    &&& forall|i: int|
        0 <= i < h.retiring.len() ==> {
            &&& (#[trigger] h.retiring[i]).epoch < h.epoch
            &&& crate::hub::has_active(h.runs, h.retiring[i].epoch)
        }
    &&& forall|i: int, j: int|
        0 <= i < j < h.retiring.len() ==> (#[trigger] h.retiring[i]).epoch != (
        #[trigger] h.retiring[j]).epoch
    &&& forall|i: int| 0 <= i < h.watches.len() ==> watch_inv(#[trigger] h.watches[i], h)
    &&& forall|i: int, j: int|
        0 <= i < j < h.watches.len() ==> (#[trigger] h.watches[i]).id != (
        #[trigger] h.watches[j]).id
}

/// Lifecycle order of everything reported.
pub open spec fn ordered(h: HubView) -> bool {
    &&& forall|run_id: u64| #[trigger]
        h.runs.dom().contains(run_id) ==> h.runs[run_id].generation < h.next_generation
    &&& h.lifecycle matches Lifecycle::Running { generation, .. } ==> generation + 1
        == h.next_generation
    &&& forall|i: int|
        0 <= i < h.watches.len() ==> in_order((#[trigger] h.watches[i]).trace)
            && starts_reported(h.watches[i], h)
}

/// Appending to a trace loses no start.
proof fn lemma_started_push(trace: Seq<MonitorEvent>, event: MonitorEvent, generation: u64)
    requires
        started_in(trace, generation),
    ensures
        started_in(trace.push(event), generation),
{
    let i = choose|i: int|
        0 <= i < trace.len() && #[trigger] trace[i] is Started && trace[i]->Started_generation
            == generation;
    assert(trace.push(event)[i] == trace[i]);
}

/// Appending keeps lifecycle order when the trace is open ended and an exit
/// has had its start.
proof fn lemma_in_order_push(trace: Seq<MonitorEvent>, event: MonitorEvent)
    requires
        in_order(trace),
        open_ended(trace),
        event is Exited ==> started_in(trace, event->Exited_generation),
    ensures
        in_order(trace.push(event)),
{
    let after = trace.push(event);
    assert forall|i: int| 0 <= i < after.len() && #[trigger] after[i] is Exited implies started_in(
        after.take(i),
        after[i]->Exited_generation,
    ) by {
        assert(after.take(i) =~= trace.take(i));
        if i == trace.len() {
            assert(trace.take(i) =~= trace);
        } else {
            assert(after[i] == trace[i]);
        }
    }
    assert forall|i: int| 0 <= i < after.len() && #[trigger] after[i] is Removed implies i
        == after.len() - 1 by {
        if i < trace.len() {
            assert(after[i] == trace[i]);
        }
    }
}

/// Staging keeps what holds of a watch's buffer.
proof fn lemma_staged_buffer(w: WatchView, event: MonitorEvent)
    requires
        w.events.len() <= crate::monitor::WATCH_BUFFER_CAP,
        crate::monitor::marker_leads(w.events),
        crate::monitor::is_suffix(crate::monitor::retained(w.events), w.trace),
        !(event is Lagged),
    ensures
        ({
            let after = w.with_event(event);
            &&& after.events.len() <= crate::monitor::WATCH_BUFFER_CAP
            &&& crate::monitor::marker_leads(after.events)
            &&& crate::monitor::is_suffix(crate::monitor::retained(after.events), after.trace)
        }),
{
    crate::monitor::law_staging_is_bounded(w.actor_id, w.events, event);
    crate::monitor::law_buffer_is_a_suffix(w.actor_id, w.events, w.trace, event);
}

/// A report keeps a watch in order, given that an exit has had its start.
proof fn lemma_notified(w: WatchView, epoch: u64, event: MonitorEvent, h: HubView)
    requires
        watch_inv(w, h),
        !(event is Lagged),
    ensures
        ({
            let after = w.notified(epoch, event);
            &&& after.events.len() <= crate::monitor::WATCH_BUFFER_CAP
            &&& crate::monitor::marker_leads(after.events)
            &&& crate::monitor::is_suffix(crate::monitor::retained(after.events), after.trace)
            &&& after.id == w.id && after.min_generation == w.min_generation
            &&& after.epoch is Some ==> after.epoch == w.epoch
            &&& w.epoch != Some(epoch) ==> after == w
            &&& forall|i: int|
                0 <= i < after.trace.len() ==> !(#[trigger] after.trace[i] is Lagged)
            &&& after.epoch is Some && !(event is Removed) ==> open_ended(after.trace)
            &&& in_order(w.trace) && (event is Exited && event->Exited_generation
                >= w.min_generation && w.epoch == Some(epoch) ==> started_in(
                w.trace,
                event->Exited_generation,
            )) ==> in_order(after.trace)
            &&& forall|generation: u64| #[trigger]
                started_in(w.trace, generation) ==> started_in(after.trace, generation)
        }),
{
    let after = w.notified(epoch, event);
    if after != w && after.trace != w.trace {
        lemma_staged_buffer(w, event);
        assert forall|generation: u64| #[trigger] started_in(
            w.trace,
            generation,
        ) implies started_in(after.trace, generation) by {
            lemma_started_push(w.trace, event, generation);
        }
        if in_order(w.trace) && (event is Exited ==> started_in(
            w.trace,
            event->Exited_generation,
        )) {
            lemma_in_order_push(w.trace, event);
        }
    }
}

/// A final report keeps a watch in order.
proof fn lemma_retired(w: WatchView, epoch: u64, event: MonitorEvent, h: HubView)
    requires
        watch_inv(w, h),
        event is Removed,
    ensures
        ({
            let after = w.retired(epoch, event);
            &&& after.events.len() <= crate::monitor::WATCH_BUFFER_CAP
            &&& crate::monitor::marker_leads(after.events)
            &&& crate::monitor::is_suffix(crate::monitor::retained(after.events), after.trace)
            &&& after.id == w.id && after.min_generation == w.min_generation
            &&& w.epoch == Some(epoch) ==> after.epoch is None
            &&& w.epoch != Some(epoch) ==> after == w
            &&& forall|i: int|
                0 <= i < after.trace.len() ==> !(#[trigger] after.trace[i] is Lagged)
            &&& in_order(w.trace) ==> in_order(after.trace)
        }),
{
    lemma_notified(w, epoch, event, h);
}

/// A fresh hub is in order.
pub proof fn law_new_hub(h: HubView)
    requires
        h.lifecycle == Lifecycle::Pending,
        h.runs == Map::<u64, crate::hub::ActiveRun>::empty(),
        !h.removal_requested,
        h.watches.len() == 0,
        h.retiring.len() == 0,
    ensures
        hub_inv(h),
        ordered(h),
{
}

/// Registering a watch keeps the hub in order.
pub proof fn law_register_keeps_order(h: HubView, cancelled: bool, stopped: bool)
    requires
        hub_inv(h),
        ordered(h),
        h.next_watch < u64::MAX,
    ensures
        hub_inv(h.after_register(cancelled, stopped)),
        ordered(h.after_register(cancelled, stopped)),
{
    let after = h.after_register(cancelled, stopped);
    let n = h.watches.len() as int;
    let added = h.new_watch(cancelled, stopped);
    let silent = WatchView {
        id: h.next_watch,
        epoch: Some(h.epoch),
        min_generation: h.next_generation,
        cancelled,
        stopped,
        actor_id: h.actor_id,
        events: Seq::empty(),
        trace: Seq::empty(),
    };
    assert(crate::monitor::is_suffix(crate::monitor::retained(silent.events), silent.trace));
    lemma_staged_buffer(silent, crate::hub::removed_event(h.actor_id, h.last_generation));
    match h.lifecycle {
        Lifecycle::Removed(generation) => {
            lemma_staged_buffer(
                WatchView { epoch: None, ..silent },
                crate::hub::removed_event(h.actor_id, generation),
            );
            assert(in_order(added.trace));
        },
        Lifecycle::Running { generation, .. } => {
            lemma_staged_buffer(
                WatchView { min_generation: generation, ..silent },
                crate::hub::started_event(h.actor_id, generation),
            );
            assert(added.trace[0] == crate::hub::started_event(h.actor_id, generation));
            assert(started_in(added.trace, generation));
            assert(in_order(added.trace));
        },
        _ => {
            assert(in_order(added.trace));
        },
    }
    assert forall|i: int| 0 <= i < after.watches.len() implies watch_inv(
        #[trigger] after.watches[i],
        after,
    ) by {
        if i < n {
            assert(after.watches[i] == h.watches[i].pruned(h.epoch));
            assert(watch_inv(h.watches[i], h));
        } else {
            assert(after.watches[i] == added);
        }
    }
    assert forall|i: int, j: int| 0 <= i < j < after.watches.len() implies (
    #[trigger] after.watches[i]).id != (#[trigger] after.watches[j]).id by {
        assert(after.watches[i] == h.watches[i].pruned(h.epoch));
        assert(watch_inv(h.watches[i], h));
        if j < n {
            assert(after.watches[j] == h.watches[j].pruned(h.epoch));
        } else {
            assert(after.watches[j] == added);
        }
    }
    assert forall|i: int| 0 <= i < after.watches.len() implies in_order(
        (#[trigger] after.watches[i]).trace,
    ) && starts_reported(after.watches[i], after) by {
        if i < n {
            assert(after.watches[i] == h.watches[i].pruned(h.epoch));
            assert(in_order(h.watches[i].trace) && starts_reported(h.watches[i], h));
        } else {
            assert(after.watches[i] == added);
            assert forall|run_id: u64| #[trigger]
                h.runs.dom().contains(run_id) && h.runs[run_id].epoch == h.epoch
                    && h.runs[run_id].generation
                    >= added.min_generation && added.epoch is Some implies started_in(
                added.trace,
                h.runs[run_id].generation,
            ) by {
                assert(h.runs[run_id].generation < h.next_generation);
            }
        }
    }
}

/// The hub with a fresh membership stays in order.
pub(crate) proof fn lemma_reopened(h: HubView)
    requires
        hub_inv(h),
        ordered(h),
        h.epoch < u64::MAX,
    ensures
        hub_inv(h.reopened()),
        ordered(h.reopened()),
        forall|i: int|
            0 <= i < h.watches.len() ==> (#[trigger] h.reopened().watches[i]).epoch != Some(
                h.reopened().epoch,
            ),
{
    let after = h.reopened();
    let lingers = crate::hub::has_active(h.runs, h.epoch);
    let removed = crate::hub::removed_event(h.actor_id, h.last_generation);
    let n = h.retiring.len() as int;
    let pushed = !(h.lifecycle is Removed) && lingers;
    assert(pushed ==> after.retiring[n].epoch == h.epoch);
    assert forall|i: int| 0 <= i < n implies after.retiring[i] == #[trigger] h.retiring[i] by {}
    assert forall|epoch: u64| crate::hub::is_retiring(
        h.retiring,
        epoch,
    ) implies #[trigger] crate::hub::is_retiring(after.retiring, epoch) by {
        let i = choose|i: int|
            0 <= i < h.retiring.len() && (#[trigger] h.retiring[i]).epoch == epoch;
        assert(after.retiring[i].epoch == epoch);
    }
    assert forall|run_id: u64| #[trigger] after.runs.dom().contains(run_id) implies after.runs[
        run_id].epoch == after.epoch || crate::hub::is_retiring(
        after.retiring,
        after.runs[run_id].epoch,
    ) by {
        if h.runs[run_id].epoch == h.epoch {
            assert(lingers);
            assert(after.retiring[n].epoch == h.epoch);
        }
    }
    assert forall|i: int| 0 <= i < h.watches.len() implies watch_inv(
        #[trigger] after.watches[i],
        after,
    ) && after.watches[i].epoch != Some(after.epoch) && in_order(after.watches[i].trace) && starts_reported(after.watches[i], after) by {
        let w = h.watches[i];
        assert(watch_inv(w, h));
        lemma_retired(w, h.epoch, removed, h);
        if w.epoch is Some {
            let epoch = w.epoch->0;
            if epoch == h.epoch && !(h.lifecycle is Removed) && lingers {
                assert(after.retiring[n].epoch == epoch);
                assert(crate::hub::is_retiring(after.retiring, epoch));
            } else if epoch != h.epoch {
                assert(crate::hub::is_retiring(h.retiring, epoch));
                let k = choose|k: int|
                    0 <= k < h.retiring.len() && (#[trigger] h.retiring[k]).epoch == epoch;
                assert(h.retiring[k].epoch < h.epoch);
                assert(crate::hub::is_retiring(after.retiring, epoch));
            }
        }
        assert(in_order(w.trace) && starts_reported(w, h));
    }
    assert forall|i: int, j: int| 0 <= i < j < after.watches.len() implies (
    #[trigger] after.watches[i]).id != (#[trigger] after.watches[j]).id by {
        assert(after.watches[i].id == h.watches[i].id);
        assert(after.watches[j].id == h.watches[j].id);
    }
}

/// A start in the current membership keeps the hub in order.
proof fn lemma_with_run(h: HubView, run_id: u64)
    requires
        hub_inv(h),
        ordered(h),
        !(h.lifecycle is Removed),
        !h.runs.dom().contains(run_id),
        h.next_generation < u64::MAX,
    ensures
        hub_inv(h.with_run(run_id)),
        ordered(h.with_run(run_id)),
{
    let after = h.with_run(run_id);
    let generation = h.next_generation;
    let event = crate::hub::started_event(h.actor_id, generation);
    assert forall|epoch: u64| crate::hub::has_active(
        h.runs,
        epoch,
    ) implies #[trigger] crate::hub::has_active(after.runs, epoch) by {
        let id = choose|id: u64| #[trigger]
            h.runs.dom().contains(id) && h.runs[id].epoch == epoch;
        assert(after.runs.dom().contains(id) && after.runs[id].epoch == epoch);
    }
    assert(after.runs.dom().contains(run_id) && after.runs[run_id].epoch == h.epoch);
    assert forall|i: int| 0 <= i < h.watches.len() implies watch_inv(
        #[trigger] after.watches[i],
        after,
    ) && in_order(after.watches[i].trace)
        && starts_reported(after.watches[i], after) by {
        let w = h.watches[i];
        let updated = after.watches[i];
        assert(watch_inv(w, h));
        assert(updated == w.notified(h.epoch, event));
        lemma_notified(w, h.epoch, event, h);
        assert(in_order(w.trace) && starts_reported(w, h));
        assert forall|id: u64| #[trigger]
            after.runs.dom().contains(id) && updated.epoch is Some && after.runs[id].epoch
                == updated.epoch->0 && after.runs[id].generation
                >= updated.min_generation implies started_in(
            updated.trace,
            after.runs[id].generation,
        ) by {
            if id == run_id {
                assert(updated == w.with_event(event));
                assert(updated.trace[w.trace.len() as int] == event);
            } else {
                assert(h.runs.dom().contains(id));
                assert(started_in(w.trace, h.runs[id].generation));
            }
        }
    }
    assert forall|i: int, j: int| 0 <= i < j < after.watches.len() implies (
    #[trigger] after.watches[i]).id != (#[trigger] after.watches[j]).id by {
        assert(after.watches[i].id == h.watches[i].id);
        assert(after.watches[j].id == h.watches[j].id);
    }
}

/// Starting a run keeps the hub in order, whether the run is refused, joins
/// the current membership or begins a new one.
pub proof fn law_start_keeps_order(h: HubView, run: MonitorRun)
    requires
        hub_inv(h),
        ordered(h),
        h.admits(run.reopens_epoch) == Some(true) ==> h.epoch < u64::MAX,
        h.admits(run.reopens_epoch) is Some ==> h.next_generation < u64::MAX,
        !h.runs.dom().contains(run.run_id),
    ensures
        hub_inv(h.after_start(run)),
        ordered(h.after_start(run)),
{
    match h.admits(run.reopens_epoch) {
        None => {},
        Some(true) => {
            lemma_reopened(h);
            lemma_with_run(h.reopened(), run.run_id);
        },
        Some(false) => {
            lemma_with_run(h, run.run_id);
        },
    }
}

/// What holds of the watches after an exit.
proof fn lemma_watches_after_exit(
    h: HubView,
    run_id: u64,
    status: ExitStatus,
    removed: Option<MonitorEvent>,
    i: int,
)
    requires
        hub_inv(h),
        ordered(h),
        h.runs.dom().contains(run_id),
        removed matches Some(event) ==> event is Removed,
        0 <= i < h.watches.len(),
    ensures
        ({
            let run = h.runs[run_id];
            let w = h.watches[i];
            let after = h.watches_after_exit(
                run.epoch,
                crate::hub::exited_event(h.actor_id, run.generation, status),
                removed,
            )[i];
            &&& after.events.len() <= crate::monitor::WATCH_BUFFER_CAP
            &&& crate::monitor::marker_leads(after.events)
            &&& crate::monitor::is_suffix(crate::monitor::retained(after.events), after.trace)
            &&& after.id == w.id && after.min_generation == w.min_generation
            &&& after.epoch is Some ==> after.epoch == w.epoch && open_ended(after.trace)
            &&& removed is Some ==> after.epoch != Some(run.epoch)
            &&& forall|j: int|
                0 <= j < after.trace.len() ==> !(#[trigger] after.trace[j] is Lagged)
            &&& in_order(after.trace)
            &&& after.epoch is Some ==> forall|generation: u64| #[trigger]
                started_in(w.trace, generation) ==> started_in(after.trace, generation)
        }),
{
    let run = h.runs[run_id];
    let w = h.watches[i];
    let exited = crate::hub::exited_event(h.actor_id, run.generation, status);
    assert(watch_inv(w, h));
    lemma_notified(w, run.epoch, exited, h);
    assert(in_order(w.trace) && starts_reported(w, h));
    let mid = w.notified(run.epoch, exited);
    if removed is Some {
        assert(watch_inv(mid, h));
        lemma_retired(mid, run.epoch, removed->0, h);
    }
}

/// The exit of an active run keeps the hub in order.
proof fn lemma_exit(h: HubView, run_id: u64, status: ExitStatus)
    requires
        hub_inv(h),
        ordered(h),
        h.runs.dom().contains(run_id),
    ensures
        hub_inv(h.after_exit(run_id, status)),
        ordered(h.after_exit(run_id, status)),
{
    let after = h.after_exit(run_id, status);
    let run = h.runs[run_id];
    let rest = h.runs.remove(run_id);
    let last = !crate::hub::has_active(rest, run.epoch);
    let exited = crate::hub::exited_event(h.actor_id, run.generation, status);
    assert(after.runs == rest);
    assert forall|epoch: u64|
        crate::hub::has_active(h.runs, epoch) && epoch
            != run.epoch implies #[trigger] crate::hub::has_active(rest, epoch) by {
        let id = choose|id: u64| #[trigger]
            h.runs.dom().contains(id) && h.runs[id].epoch == epoch;
        assert(rest.dom().contains(id) && rest[id].epoch == epoch);
    }
    assert forall|id: u64| #[trigger] rest.dom().contains(id) implies h.runs.dom().contains(id)
        && rest[id] == h.runs[id] by {}
    let current = run.epoch == h.epoch;
    let closes = if current {
        h.removal_requested && last
    } else {
        last
    };
    if !current {
        assert(crate::hub::is_retiring(h.retiring, run.epoch));
    }
    let k = choose|k: int| crate::hub::retiring_at(h.retiring, run.epoch, k);
    if !current {
        let m = choose|m: int|
            0 <= m < h.retiring.len() && (#[trigger] h.retiring[m]).epoch == run.epoch;
        assert(crate::hub::retiring_at(h.retiring, run.epoch, m));
        assert(0 <= k < h.retiring.len() && h.retiring[k].epoch == run.epoch);
    }
    let removed: Option<MonitorEvent> = if !closes {
        None
    } else if current {
        Some(crate::hub::removed_event(h.actor_id, h.last_generation))
    } else {
        Some(crate::hub::removed_event(h.actor_id, h.retiring[k].last_generation))
    };
    assert(after.watches == h.watches_after_exit(run.epoch, exited, removed));
    assert forall|epoch: u64|
        crate::hub::is_retiring(h.retiring, epoch) && (epoch != run.epoch || current
            || !last) implies #[trigger] crate::hub::is_retiring(after.retiring, epoch) by {
        let m = choose|m: int|
            0 <= m < h.retiring.len() && (#[trigger] h.retiring[m]).epoch == epoch;
        if !current && last {
            let shifted = if m < k {
                m
            } else {
                m - 1
            };
            assert(after.retiring[shifted].epoch == epoch);
        } else {
            assert(after.retiring[m].epoch == epoch);
        }
    }
    assert forall|i: int| 0 <= i < after.retiring.len() implies {
        &&& (#[trigger] after.retiring[i]).epoch < after.epoch
        &&& crate::hub::has_active(after.runs, after.retiring[i].epoch)
    } by {
        let m = if !current && last && i >= k {
            i + 1
        } else {
            i
        };
        assert(after.retiring[i] == h.retiring[m]);
        assert(crate::hub::has_active(h.runs, h.retiring[m].epoch));
        if !current && last {
            assert(h.retiring[m].epoch != run.epoch);
        }
    }
    assert forall|i: int, j: int| 0 <= i < j < after.retiring.len() implies (
    #[trigger] after.retiring[i]).epoch != (#[trigger] after.retiring[j]).epoch by {
        if !current && last {
            let mi = if i >= k {
                i + 1
            } else {
                i
            };
            let mj = if j >= k {
                j + 1
            } else {
                j
            };
            assert(after.retiring[i] == h.retiring[mi] && after.retiring[j] == h.retiring[mj]);
        }
    }
    assert forall|id: u64| #[trigger] after.runs.dom().contains(id) implies after.runs[id].epoch
        == after.epoch || crate::hub::is_retiring(after.retiring, after.runs[id].epoch) by {
        if rest[id].epoch == run.epoch {
            assert(crate::hub::has_active(rest, run.epoch));
        }
    }
    assert forall|i: int| 0 <= i < h.watches.len() implies watch_inv(
        #[trigger] after.watches[i],
        after,
    ) && in_order(after.watches[i].trace)
        && starts_reported(after.watches[i], after) by {
        let w = h.watches[i];
        let updated = after.watches[i];
        lemma_watches_after_exit(h, run_id, status, removed, i);
        assert(watch_inv(w, h));
        assert(starts_reported(w, h));
        if updated.epoch is Some {
            let epoch = updated.epoch->0;
            if epoch == run.epoch {
                assert(!closes);
            }
        }
    }
    assert forall|i: int, j: int| 0 <= i < j < after.watches.len() implies (
    #[trigger] after.watches[i]).id != (#[trigger] after.watches[j]).id by {
        lemma_watches_after_exit(h, run_id, status, removed, i);
        lemma_watches_after_exit(h, run_id, status, removed, j);
    }
    if after.lifecycle is Running {
        assert(after.lifecycle == h.lifecycle);
        assert(h.lifecycle->run_id != run_id || run.epoch != h.epoch);
        assert(rest.dom().contains(h.lifecycle->run_id));
    }
    if h.lifecycle is Removed {
        assert(!current);
        if crate::hub::has_active(rest, h.epoch) {
            let id = choose|id: u64| #[trigger]
                rest.dom().contains(id) && rest[id].epoch == h.epoch;
            assert(h.runs.dom().contains(id) && h.runs[id].epoch == h.epoch);
        }
    }
}

/// Removing a membership keeps the hub in order.
pub proof fn law_removal_keeps_order(h: HubView, epoch: u64)
    requires
        hub_inv(h),
        ordered(h),
    ensures
        hub_inv(h.after_removed(epoch)),
        ordered(h.after_removed(epoch)),
{
    let after = h.after_removed(epoch);
    let removed = crate::hub::removed_event(h.actor_id, h.last_generation);
    if epoch == h.epoch && !(h.lifecycle is Removed) {
        let ends = !crate::hub::has_active(h.runs, epoch);
        assert forall|i: int| 0 <= i < h.watches.len() implies watch_inv(
            #[trigger] after.watches[i],
            after,
        ) && in_order(after.watches[i].trace)
            && starts_reported(after.watches[i], after) by {
            let w = h.watches[i];
            assert(watch_inv(w, h));
            lemma_retired(w, epoch, removed, h);
            assert(in_order(w.trace) && starts_reported(w, h));
            assert(after.watches[i] == if ends {
                w.retired(epoch, removed)
            } else {
                w
            });
        }
        assert forall|i: int, j: int| 0 <= i < j < after.watches.len() implies (
        #[trigger] after.watches[i]).id != (#[trigger] after.watches[j]).id by {
            lemma_retired(h.watches[i], epoch, removed, h);
            lemma_retired(h.watches[j], epoch, removed, h);
        }
    }
}

/// An exit keeps the hub in order.
pub proof fn law_exit_keeps_order(h: HubView, run_id: u64, status: ExitStatus)
    requires
        hub_inv(h),
        ordered(h),
    ensures
        hub_inv(h.after_exit(run_id, status)),
        ordered(h.after_exit(run_id, status)),
{
    if h.runs.dom().contains(run_id) {
        lemma_exit(h, run_id, status);
    }
}

/// Cancelling or stopping a watch, and giving it up, keeps the hub in order.
pub proof fn law_ending_a_watch_keeps_order(h: HubView, id: u64, k: int)
    requires
        hub_inv(h),
        ordered(h),
        0 <= k < h.watches.len(),
    ensures
        hub_inv(h.after_cancel(id)) && ordered(h.after_cancel(id)),
        hub_inv(h.after_stop(id)) && ordered(h.after_stop(id)),
        hub_inv(h.after_close(k)) && ordered(h.after_close(k)),
{
    lemma_flags(h, h.after_cancel(id));
    lemma_flags(h, h.after_stop(id));
    let after = h.after_close(k);
    assert forall|i: int| 0 <= i < after.watches.len() implies #[trigger] after.watches[i]
        == h.watches[if i < k {
        i
    } else {
        i + 1
    }] by {}
    assert forall|i: int| 0 <= i < after.watches.len() implies watch_inv(
        #[trigger] after.watches[i],
        after,
    ) by {
        let j = if i < k {
            i
        } else {
            i + 1
        };
        assert(watch_inv(h.watches[j], h));
    }
    assert forall|i: int| 0 <= i < after.watches.len() implies in_order(
        (#[trigger] after.watches[i]).trace,
    ) && starts_reported(after.watches[i], after) by {
        let j = if i < k {
            i
        } else {
            i + 1
        };
        assert(in_order(h.watches[j].trace) && starts_reported(h.watches[j], h));
    }
}

/// A hub that differs in the flags of its watches alone is in order as well.
pub(crate) proof fn lemma_flags(h: HubView, after: HubView)
    requires
        hub_inv(h),
        ordered(h),
        after == (HubView { watches: after.watches, ..h }),
        after.watches.len() == h.watches.len(),
        forall|i: int|
            0 <= i < h.watches.len() ==> #[trigger] after.watches[i] == (WatchView {
                cancelled: after.watches[i].cancelled,
                stopped: after.watches[i].stopped,
                ..h.watches[i]
            }),
    ensures
        hub_inv(after),
        ordered(after),
{
    assert forall|i: int| 0 <= i < after.watches.len() implies watch_inv(
        #[trigger] after.watches[i],
        after,
    ) by {
        assert(watch_inv(h.watches[i], h));
    }
    assert forall|i: int| 0 <= i < after.watches.len() implies in_order(
        (#[trigger] after.watches[i]).trace,
    ) && starts_reported(after.watches[i], after) by {
        assert(in_order(h.watches[i].trace) && starts_reported(h.watches[i], h));
    }
    assert forall|i: int, j: int| 0 <= i < j < after.watches.len() implies (
    #[trigger] after.watches[i]).id != (#[trigger] after.watches[j]).id by {
        assert(h.watches[i].id != h.watches[j].id);
    }
}

/// A run exits once: a second report of the same exit changes nothing.
pub proof fn law_exit_is_reported_once(
    h: HubView,
    run_id: u64,
    status: ExitStatus,
    again: ExitStatus,
)
    ensures
        h.after_exit(run_id, status).after_exit(run_id, again) == h.after_exit(run_id, status),
{
}

/// A watch that has heard of the removal hears of nothing else.
pub proof fn law_removal_is_final(w: WatchView, h: HubView, epoch: u64, event: MonitorEvent)
    requires
        watch_inv(w, h),
        !open_ended(w.trace),
    ensures
        w.notified(epoch, event) == w,
        w.retired(epoch, event) == w,
{
}

/// Each admitted start gets a generation above all earlier ones.
pub proof fn law_generations_increase(h: HubView, run: MonitorRun)
    requires
        hub_inv(h),
        ordered(h),
        h.next_generation < u64::MAX,
        h.admits(run.reopens_epoch) is Some,
    ensures
        h.after_start(run).runs[run.run_id].generation == h.next_generation,
        h.after_start(run).next_generation == h.next_generation + 1,
        forall|run_id: u64| #[trigger]
            h.runs.dom().contains(run_id) ==> h.runs[run_id].generation < h.after_start(
                run,
            ).runs[run.run_id].generation,
{
}

/// A reopening run replaces an epoch once: a second run created for the same
/// epoch can only join the replacement, and not once that one is over or
/// about to be.
pub proof fn law_epoch_is_reopened_once(h: HubView, first: MonitorRun, second: MonitorRun)
    requires
        h.epoch < u64::MAX,
        first.reopens_epoch == Some(h.epoch),
        second.reopens_epoch == Some(h.epoch),
    ensures
        h.after_start(first).admits(second.reopens_epoch) == Some(false),
        h.after_start(first).after_removed(next_epoch(h)).admits(second.reopens_epoch) is None,
{
    let after = h.after_start(first);
    assert(after.runs.dom().contains(first.run_id));
    assert(after.runs[first.run_id].epoch == after.epoch);
    assert(crate::hub::has_active(after.runs, after.epoch));
}

/// The epoch that directly replaces the current one.
pub open spec fn next_epoch(h: HubView) -> u64 {
    crate::hub::next(h.epoch)
}

/// Delivering an event keeps the hub in order; the events still to come stay
/// a suffix of what was staged.
pub proof fn law_delivery_keeps_order(h: HubView, i: int)
    requires
        hub_inv(h),
        ordered(h),
        0 <= i < h.watches.len(),
        h.watches[i].events.len() > 0,
    ensures
        ({
            let delivered = WatchView {
                events: h.watches[i].events.drop_first(),
                ..h.watches[i]
            };
            let after = HubView { watches: h.watches.update(i, delivered), ..h };
            hub_inv(after) && ordered(after)
        }),
{
    let w = h.watches[i];
    let delivered = WatchView { events: w.events.drop_first(), ..w };
    let after = HubView { watches: h.watches.update(i, delivered), ..h };
    assert(watch_inv(w, h));
    let before_tail = crate::monitor::retained(w.events);
    let tail = crate::monitor::retained(delivered.events);
    assert(forall|k: int|
        0 <= k < delivered.events.len() ==> #[trigger] delivered.events[k] == w.events[k + 1]);
    if delivered.events.len() > 0 {
        assert(!(w.events[1] is Lagged));
        assert(delivered.events[0] == w.events[1]);
    }
    assert(tail == delivered.events);
    assert forall|k: int| 0 <= k < tail.len() implies tail[k] == w.trace[w.trace.len() - tail.len()
        + k] by {
        if w.events[0] is Lagged {
            assert(before_tail[k] == w.events[k + 1]);
        } else {
            assert(before_tail[k + 1] == w.events[k + 1]);
        }
    }
    assert(crate::monitor::is_suffix(tail, delivered.trace));
    assert(crate::monitor::marker_leads(delivered.events));
    assert forall|j: int| 0 <= j < after.watches.len() implies watch_inv(
        #[trigger] after.watches[j],
        after,
    ) by {
        assert(watch_inv(h.watches[j], h));
    }
    assert forall|j: int, k: int| 0 <= j < k < after.watches.len() implies (
    #[trigger] after.watches[j]).id != (#[trigger] after.watches[k]).id by {
        assert(after.watches[j].id == h.watches[j].id);
        assert(after.watches[k].id == h.watches[k].id);
    }
    assert forall|j: int| 0 <= j < after.watches.len() implies in_order(
        (#[trigger] after.watches[j]).trace,
    ) && starts_reported(after.watches[j], after) by {
        assert(in_order(h.watches[j].trace) && starts_reported(h.watches[j], h));
    }
}

/// While nothing was dropped, an observer receives exactly what was staged,
/// oldest first.
pub proof fn law_delivery_without_loss(w: WatchView, h: HubView)
    requires
        watch_inv(w, h),
        w.events.len() > 0,
        !(w.events[0] is Lagged),
    ensures
        w.events =~= w.trace.subrange(w.trace.len() - w.events.len(), w.trace.len() as int),
        w.events[0] == w.trace[w.trace.len() - w.events.len()],
{
}

} // verus!
