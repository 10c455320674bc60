//! What each watch of a hub is told, event by event.
use vstd::prelude::*;

use crate::hub::{ActiveRun, HubView, Lifecycle, MonitorRun, WatchView};
use crate::monitor::MonitorEvent;
use crate::policy::ExitStatus;

verus! {

/// Some run other than `run_id` goes on in membership `epoch`.
pub open spec fn goes_on(hub: HubView, run_id: Option<u64>, epoch: u64) -> bool {
    exists|other: u64|
        #[trigger] hub.runs.dom().contains(other) && Some(other) != run_id
            && hub.runs[other].epoch == epoch
}

/// A watch that is registered with membership `epoch` and still wanted.
pub open spec fn hears(watch: WatchView, epoch: u64) -> bool {
    watch.epoch == Some(epoch) && !watch.cancelled && !watch.stopped
}

/// `after` is `before` once it was told `news`, in that order, behind what it was
/// told earlier: all of it is recorded, and undelivered as long as the buffer
/// has room. Nothing else about the watch has changed but its registration.
pub open spec fn told(before: WatchView, after: WatchView, news: Seq<MonitorEvent>) -> bool {
    &&& after.trace == before.trace + news
    &&& before.events.len() + news.len() <= 128 ==> after.events == before.events + news
    &&& after.id == before.id
    &&& after.min_generation == before.min_generation
    &&& after.cancelled == before.cancelled
    &&& after.stopped == before.stopped
    &&& after.actor_id == before.actor_id
}

/// The exit of a run of the current membership reaches every watch of that
/// membership with the run's own generation and the very status that was
/// recorded. Where the removal was waiting for this run, it follows at once and
/// ends the watch.
pub proof fn law_watches_hear_the_exit(hub: HubView, run_id: u64, status: ExitStatus, i: int)
    requires
        hub.runs.dom().contains(run_id),
        hub.runs[run_id].epoch == hub.epoch,
        0 <= i < hub.watches.len(),
        hears(hub.watches[i], hub.epoch),
        hub.watches[i].min_generation <= hub.runs[run_id].generation,
    ensures
        ({
            let after = hub.after_exit(run_id, status);
            let exited = MonitorEvent::Exited {
                actor_id: hub.actor_id,
                generation: hub.runs[run_id].generation,
                status,
            };
            let removed = MonitorEvent::Removed {
                actor_id: hub.actor_id,
                generation: hub.last_generation,
            };
            if hub.removal_requested && !goes_on(hub, Some(run_id), hub.epoch) {
                &&& told(hub.watches[i], after.watches[i], seq![exited, removed])
                &&& after.watches[i].epoch is None
                &&& after.lifecycle == Lifecycle::Removed(hub.last_generation)
            } else {
                &&& told(hub.watches[i], after.watches[i], seq![exited])
                &&& after.watches[i].epoch == Some(hub.epoch)
            }
        }),
{
    let rest = hub.runs.remove(run_id);
    lemma_goes_on(hub, run_id, hub.epoch);
    let after = hub.after_exit(run_id, status);
    let w = hub.watches[i];
    let exited = MonitorEvent::Exited {
        actor_id: hub.actor_id,
        generation: hub.runs[run_id].generation,
        status,
    };
    let removed = MonitorEvent::Removed {
        actor_id: hub.actor_id,
        generation: hub.last_generation,
    };
    assert(w.trace + seq![exited] =~= w.trace.push(exited));
    assert(w.events + seq![exited] =~= w.events.push(exited));
    assert(w.trace + seq![exited, removed] =~= w.trace.push(exited).push(removed));
    assert(w.events + seq![exited, removed] =~= w.events.push(exited).push(removed));
}

/// Removing a run leaves the others.
proof fn lemma_goes_on(hub: HubView, run_id: u64, epoch: u64)
    ensures
        crate::hub::has_active(hub.runs.remove(run_id), epoch) == goes_on(
            hub,
            Some(run_id),
            epoch,
        ),
        crate::hub::has_active(hub.runs, epoch) == goes_on(hub, None, epoch),
{
    let rest = hub.runs.remove(run_id);
    if crate::hub::has_active(rest, epoch) {
        let other = choose|other: u64| #[trigger]
            rest.dom().contains(other) && rest[other].epoch == epoch;
        assert(hub.runs.dom().contains(other));
    }
    if goes_on(hub, Some(run_id), epoch) {
        let other = choose|other: u64| #[trigger]
            hub.runs.dom().contains(other) && Some(other) != Some(run_id) && hub.runs[other].epoch
                == epoch;
        assert(rest.dom().contains(other));
    }
    if goes_on(hub, None, epoch) {
        let other = choose|other: u64| #[trigger]
            hub.runs.dom().contains(other) && Some(other) != None::<u64> && hub.runs[other].epoch
                == epoch;
        assert(hub.runs.dom().contains(other));
    }
}

/// The exit of a run of a replaced membership reaches the watches of that
/// membership, in the same way. After its last run the membership is removed,
/// with its own last generation.
pub proof fn law_watches_of_a_replaced_membership_hear_the_exit(
    hub: HubView,
    run_id: u64,
    status: ExitStatus,
    i: int,
    r: int,
)
    requires
        hub.runs.dom().contains(run_id),
        hub.runs[run_id].epoch != hub.epoch,
        0 <= r < hub.retiring.len(),
        hub.retiring[r].epoch == hub.runs[run_id].epoch,
        forall|k: int|
            0 <= k < hub.retiring.len() && (#[trigger] hub.retiring[k]).epoch
                == hub.runs[run_id].epoch ==> k == r,
        0 <= i < hub.watches.len(),
        hears(hub.watches[i], hub.runs[run_id].epoch),
        hub.watches[i].min_generation <= hub.runs[run_id].generation,
    ensures
        ({
            let after = hub.after_exit(run_id, status);
            let epoch = hub.runs[run_id].epoch;
            let exited = MonitorEvent::Exited {
                actor_id: hub.actor_id,
                generation: hub.runs[run_id].generation,
                status,
            };
            let removed = MonitorEvent::Removed {
                actor_id: hub.actor_id,
                generation: hub.retiring[r].last_generation,
            };
            if goes_on(hub, Some(run_id), epoch) {
                &&& told(hub.watches[i], after.watches[i], seq![exited])
                &&& after.watches[i].epoch == Some(epoch)
                &&& after.retiring == hub.retiring
            } else {
                &&& told(hub.watches[i], after.watches[i], seq![exited, removed])
                &&& after.watches[i].epoch is None
                &&& after.retiring == hub.retiring.remove(r)
            }
        }),
{
    lemma_goes_on(hub, run_id, hub.runs[run_id].epoch);
    assert(crate::hub::retiring_at(hub.retiring, hub.runs[run_id].epoch, r));
    assert(crate::hub::is_retiring(hub.retiring, hub.runs[run_id].epoch));
    let w = hub.watches[i];
    let exited = MonitorEvent::Exited {
        actor_id: hub.actor_id,
        generation: hub.runs[run_id].generation,
        status,
    };
    let removed = MonitorEvent::Removed {
        actor_id: hub.actor_id,
        generation: hub.retiring[r].last_generation,
    };
    assert(w.trace + seq![exited] =~= w.trace.push(exited));
    assert(w.events + seq![exited] =~= w.events.push(exited));
    assert(w.trace + seq![exited, removed] =~= w.trace.push(exited).push(removed));
    assert(w.events + seq![exited, removed] =~= w.events.push(exited).push(removed));
}

/// An exit takes its run off the books and leaves every other run, the counters
/// and the membership alone; a run that is not on the books changes nothing.
/// The newest run's exit is the actor's, and an older one's is not.
pub proof fn law_exits_are_booked(hub: HubView, run_id: u64, status: ExitStatus)
    ensures
        ({
            let after = hub.after_exit(run_id, status);
            &&& !hub.runs.dom().contains(run_id) ==> after == hub
            &&& !after.runs.dom().contains(run_id)
            &&& forall|other: u64|
                other != run_id ==> (#[trigger] after.runs.dom().contains(other)
                    <==> hub.runs.dom().contains(other))
            &&& forall|other: u64| #[trigger]
                after.runs.dom().contains(other) ==> after.runs[other] == hub.runs[other]
            &&& after.actor_id == hub.actor_id
            &&& after.epoch == hub.epoch
            &&& after.next_generation == hub.next_generation
            &&& after.next_run_id == hub.next_run_id
            &&& after.next_watch == hub.next_watch
            &&& after.last_generation == hub.last_generation
            &&& after.removal_requested == hub.removal_requested
            &&& after.watches.len() == hub.watches.len()
            &&& hub.runs.dom().contains(run_id) && hub.runs[run_id].epoch == hub.epoch && !(
            hub.removal_requested && !goes_on(hub, Some(run_id), hub.epoch)) ==> after.lifecycle
                == match hub.lifecycle {
                Lifecycle::Running { run_id: newest, generation } => if newest == run_id {
                    Lifecycle::Exited
                } else {
                    Lifecycle::Running { run_id: newest, generation }
                },
                Lifecycle::Pending => Lifecycle::Pending,
                Lifecycle::Exited => Lifecycle::Exited,
                Lifecycle::Removed(generation) => Lifecycle::Removed(generation),
            }
            &&& hub.runs.dom().contains(run_id) && hub.runs[run_id].epoch != hub.epoch
                ==> after.lifecycle == hub.lifecycle
        }),
{
    if hub.runs.dom().contains(run_id) {
        lemma_goes_on(hub, run_id, hub.runs[run_id].epoch);
    }
}

/// No event reaches a watch of another membership, a watch that is no longer
/// wanted, or, of an exit, one that came after the run had started.
pub proof fn law_exits_reach_nobody_else(hub: HubView, run_id: u64, status: ExitStatus, i: int)
    requires
        hub.runs.dom().contains(run_id),
        0 <= i < hub.watches.len(),
        !hears(hub.watches[i], hub.runs[run_id].epoch) || (hub.watches[i].min_generation
            > hub.runs[run_id].generation && !(hub.removal_requested)),
        hub.runs[run_id].epoch == hub.epoch,
    ensures
        hub.after_exit(run_id, status).watches[i].trace == hub.watches[i].trace,
        hub.after_exit(run_id, status).watches[i].events == hub.watches[i].events,
{
}

/// Whether a run may start. An ordinary run needs a membership that has not been
/// removed. A run made to reopen a membership starts the next one while that
/// membership is current, joins the next one while this is neither removed nor
/// about to be, and is refused otherwise.
pub proof fn law_admission(hub: HubView, run: MonitorRun)
    ensures
        run.reopens_epoch is None ==> (hub.admits(run.reopens_epoch) is None
            <==> hub.lifecycle is Removed),
        run.reopens_epoch is None ==> hub.admits(run.reopens_epoch) != Some(true),
        run.reopens_epoch matches Some(epoch) ==> (hub.admits(run.reopens_epoch) == Some(true)
            <==> epoch == hub.epoch),
        run.reopens_epoch matches Some(epoch) ==> (epoch < u64::MAX ==> (hub.admits(
            run.reopens_epoch,
        ) == Some(false) <==> epoch + 1 == hub.epoch && !(hub.lifecycle is Removed)
            && !hub.removal_requested)),
        hub.admits(run.reopens_epoch) is None ==> hub.after_start(run) == hub,
{
}

/// A run that starts in the current membership gets the next generation, is the
/// newest one, and is told to every watch of the membership.
pub proof fn law_watches_hear_the_start(hub: HubView, run: MonitorRun, i: int)
    requires
        hub.admits(run.reopens_epoch) == Some(false),
        hub.next_generation < u64::MAX,
        0 <= i < hub.watches.len(),
        hears(hub.watches[i], hub.epoch),
        hub.watches[i].min_generation <= hub.next_generation,
    ensures
        ({
            let after = hub.after_start(run);
            let started = MonitorEvent::Started {
                actor_id: hub.actor_id,
                generation: hub.next_generation,
            };
            &&& told(hub.watches[i], after.watches[i], seq![started])
            &&& after.watches[i].epoch == Some(hub.epoch)
        }),
{
    let w = hub.watches[i];
    let started = MonitorEvent::Started {
        actor_id: hub.actor_id,
        generation: hub.next_generation,
    };
    assert(w.trace + seq![started] =~= w.trace.push(started));
    assert(w.events + seq![started] =~= w.events.push(started));
}

/// A start is booked under its generation and leaves the other runs alone; one
/// that reopens a membership begins the next epoch.
pub proof fn law_starts_are_booked(hub: HubView, run: MonitorRun)
    requires
        hub.admits(run.reopens_epoch) is Some,
        hub.next_generation < u64::MAX,
        hub.epoch < u64::MAX,
    ensures
        ({
            let after = hub.after_start(run);
            let reopens = hub.admits(run.reopens_epoch) == Some(true);
            &&& after.epoch == hub.epoch + if reopens {
                1int
            } else {
                0int
            }
            &&& after.next_generation == hub.next_generation + 1
            &&& after.last_generation == Some(hub.next_generation)
            &&& after.lifecycle == (Lifecycle::Running {
                run_id: run.run_id,
                generation: hub.next_generation,
            })
            &&& after.runs.dom().contains(run.run_id)
            &&& after.runs[run.run_id] == (ActiveRun {
                epoch: after.epoch,
                generation: hub.next_generation,
            })
            &&& forall|other: u64|
                other != run.run_id ==> (#[trigger] after.runs.dom().contains(other)
                    <==> hub.runs.dom().contains(other))
            &&& forall|other: u64| #[trigger]
                after.runs.dom().contains(other) && other != run.run_id ==> after.runs[other]
                    == hub.runs[other]
            &&& after.removal_requested == (hub.removal_requested && !reopens)
            &&& after.actor_id == hub.actor_id
            &&& after.next_run_id == hub.next_run_id
            &&& after.next_watch == hub.next_watch
            &&& after.watches.len() == hub.watches.len()
        }),
{
}

/// A start that begins the next membership tells the watches of the current one
/// of its removal, unless runs of it go on, which they hear of first, or they
/// have been told already. Nobody hears of the start itself: a watch belongs to
/// one membership.
pub proof fn law_reopening_removes_the_old_membership(hub: HubView, run: MonitorRun, i: int)
    requires
        hub.admits(run.reopens_epoch) == Some(true),
        hub.epoch < u64::MAX,
        0 <= i < hub.watches.len(),
        hears(hub.watches[i], hub.epoch),
    ensures
        ({
            let after = hub.after_start(run);
            let removed = MonitorEvent::Removed {
                actor_id: hub.actor_id,
                generation: hub.last_generation,
            };
            if hub.lifecycle is Removed || goes_on(hub, None, hub.epoch) {
                after.watches[i] == hub.watches[i]
            } else {
                &&& told(hub.watches[i], after.watches[i], seq![removed])
                &&& after.watches[i].epoch is None
            }
        }),
        !(hub.lifecycle is Removed) && goes_on(hub, None, hub.epoch) ==> {
            let left = hub.after_start(run).retiring;
            &&& left.len() == hub.retiring.len() + 1
            &&& left.drop_last() == hub.retiring
            &&& left.last().epoch == hub.epoch
            &&& left.last().last_generation == hub.last_generation
        },
{
    lemma_goes_on(hub, 0, hub.epoch);
    let w = hub.watches[i];
    let removed = MonitorEvent::Removed { actor_id: hub.actor_id, generation: hub.last_generation };
    assert(w.trace + seq![removed] =~= w.trace.push(removed));
    assert(w.events + seq![removed] =~= w.events.push(removed));
    if !(hub.lifecycle is Removed) && goes_on(hub, None, hub.epoch) {
        assert(hub.after_start(run).retiring.drop_last() =~= hub.retiring);
    }
}

/// A removal of the current membership is told to its watches with the last
/// generation, and ends them. While runs go on it is only asked for; what is not
/// current, or removed already, is left alone.
pub proof fn law_watches_hear_the_removal(hub: HubView, epoch: u64, i: int)
    requires
        0 <= i < hub.watches.len(),
    ensures
        ({
            let after = hub.after_removed(epoch);
            let removed = MonitorEvent::Removed {
                actor_id: hub.actor_id,
                generation: hub.last_generation,
            };
            if epoch != hub.epoch || hub.lifecycle is Removed {
                after == hub
            } else if goes_on(hub, None, epoch) {
                after == (HubView { removal_requested: true, ..hub })
            } else {
                &&& after == (HubView {
                    lifecycle: Lifecycle::Removed(hub.last_generation),
                    watches: after.watches,
                    ..hub
                })
                &&& after.watches.len() == hub.watches.len()
                &&& hears(hub.watches[i], epoch) ==> told(
                    hub.watches[i],
                    after.watches[i],
                    seq![removed],
                ) && after.watches[i].epoch is None
                &&& !hears(hub.watches[i], epoch) ==> told(
                    hub.watches[i],
                    after.watches[i],
                    Seq::empty(),
                )
            }
        }),
{
    lemma_goes_on(hub, 0, epoch);
    let w = hub.watches[i];
    let removed = MonitorEvent::Removed { actor_id: hub.actor_id, generation: hub.last_generation };
    assert(w.trace + seq![removed] =~= w.trace.push(removed));
    assert(w.events + seq![removed] =~= w.events.push(removed));
    assert(w.trace + Seq::empty() =~= w.trace);
    assert(w.events + Seq::empty() =~= w.events);
}

/// What a new watch begins with: the start of the incarnation that runs, or the
/// removal of a membership that is over, or nothing until the next start. It
/// hears of nothing that started before.
pub proof fn law_registration_tells_the_present(hub: HubView, cancelled: bool, stopped: bool)
    requires
        hub.next_watch < u64::MAX,
    ensures
        ({
            let after = hub.after_register(cancelled, stopped);
            let watch = after.watches.last();
            &&& after == (HubView {
                watches: after.watches,
                next_watch: (hub.next_watch + 1) as u64,
                ..hub
            })
            &&& after.watches.len() == hub.watches.len() + 1
            &&& forall|j: int|
                0 <= j < hub.watches.len() ==> {
                    &&& (#[trigger] after.watches[j]).trace == hub.watches[j].trace
                    &&& after.watches[j].events == hub.watches[j].events
                    &&& after.watches[j].id == hub.watches[j].id
                    &&& hub.watches[j].cancelled || hub.watches[j].stopped || after.watches[j]
                        == hub.watches[j]
                }
            &&& watch.id == hub.next_watch
            &&& watch.cancelled == cancelled
            &&& watch.stopped == stopped
            &&& watch.actor_id == hub.actor_id
            &&& watch.trace == watch.events
            &&& match hub.lifecycle {
                Lifecycle::Running { generation, .. } => {
                    &&& watch.events == seq![
                        MonitorEvent::Started { actor_id: hub.actor_id, generation },
                    ]
                    &&& watch.epoch == Some(hub.epoch)
                    &&& watch.min_generation == generation
                },
                Lifecycle::Removed(generation) => {
                    &&& watch.events == seq![
                        MonitorEvent::Removed { actor_id: hub.actor_id, generation },
                    ]
                    &&& watch.epoch is None
                },
                _ => {
                    &&& watch.events.len() == 0
                    &&& watch.epoch == Some(hub.epoch)
                    &&& watch.min_generation == hub.next_generation
                },
            }
        }),
{
    let after = hub.after_register(cancelled, stopped);
    let watch = after.watches.last();
    match hub.lifecycle {
        Lifecycle::Running { generation, .. } => {
            assert(watch.events =~= seq![
                MonitorEvent::Started { actor_id: hub.actor_id, generation },
            ]);
            assert(watch.trace =~= watch.events);
        },
        Lifecycle::Removed(generation) => {
            assert(watch.events =~= seq![
                MonitorEvent::Removed { actor_id: hub.actor_id, generation },
            ]);
            assert(watch.trace =~= watch.events);
        },
        _ => {
            assert(watch.trace =~= watch.events);
        },
    }
}

/// Events are delivered oldest first, each once, and to the watch that they are
/// for.
pub proof fn law_events_are_delivered_in_order(hub: HubView, i: int)
    requires
        0 <= i < hub.watches.len(),
        forall|j: int|
            0 <= j < hub.watches.len() && (#[trigger] hub.watches[j]).id == hub.watches[i].id ==> j
                == i,
    ensures
        ({
            let id = hub.watches[i].id;
            let after = hub.after_pop(id);
            &&& match hub.next_event(id) {
                Some(event) => {
                    &&& hub.watches[i].events == seq![event] + after.watches[i].events
                    &&& after.watches[i].trace == hub.watches[i].trace
                    &&& after.watches[i].epoch == hub.watches[i].epoch
                },
                None => hub.watches[i].events.len() == 0 && after == hub,
            }
            &&& after == (HubView { watches: after.watches, ..hub })
            &&& after.watches.len() == hub.watches.len()
            &&& forall|j: int|
                0 <= j < hub.watches.len() && j != i ==> #[trigger] after.watches[j]
                    == hub.watches[j]
        }),
{
    let id = hub.watches[i].id;
    assert(crate::hub::watch_at(hub.watches, id, i));
    assert(forall|j: int| #[trigger] crate::hub::watch_at(hub.watches, id, j) ==> j == i);
    assert(crate::hub::watch_position(hub.watches, id) == Some(i));
    if hub.watches[i].events.len() > 0 {
        assert(hub.watches[i].events =~= seq![hub.watches[i].events[0]]
            + hub.watches[i].events.drop_first());
    }
}

/// A watch that its observer cancelled, or whose observer is gone, hears no
/// more; the others are left alone.
pub proof fn law_ended_watches_are_deaf(hub: HubView, id: u64, i: int)
    requires
        0 <= i < hub.watches.len(),
        forall|j: int|
            0 <= j < hub.watches.len() && (#[trigger] hub.watches[j]).id == hub.watches[i].id ==> j
                == i,
    ensures
        ({
            let cancelled = hub.after_cancel(id).watches[i];
            let stopped = hub.after_stop(id).watches[i];
            if hub.watches[i].id == id {
                &&& cancelled == (WatchView { cancelled: true, ..hub.watches[i] })
                &&& stopped == (WatchView { stopped: true, ..hub.watches[i] })
                &&& forall|epoch: u64| !hears(cancelled, epoch) && !hears(stopped, epoch)
            } else {
                cancelled == hub.watches[i] && stopped == hub.watches[i]
            }
        }),
{
    if hub.watches[i].id == id {
        assert(crate::hub::watch_at(hub.watches, id, i));
    }
}

/// A full buffer of 128 events keeps the newest ones: the two oldest make room
/// for a marker that tells how many events are missing.
pub proof fn law_full_buffers_keep_the_newest(
    actor_id: String,
    events: Seq<MonitorEvent>,
    event: MonitorEvent,
)
    requires
        events.len() == 128,
    ensures
        ({
            let after = crate::monitor::staged(actor_id, events, event);
            &&& after.len() == 128
            &&& after.last() == event
            &&& forall|j: int| 1 <= j < 127 ==> after[j] == #[trigger] events[j + 1]
            &&& after[0] matches MonitorEvent::Lagged { actor_id: named, dropped }
            &&& events[0] matches MonitorEvent::Lagged { actor_id: earlier, dropped: missing }
                ==> named == earlier && (missing < u64::MAX ==> dropped == missing + 1)
            &&& !(events[0] is Lagged) ==> named == actor_id && dropped == 2
        }),
{
    let after = crate::monitor::staged(actor_id, events, event);
    assert forall|j: int| 1 <= j < 127 implies after[j] == #[trigger] events[j + 1] by {}
}

/// The hub hands out runs under ever larger ids, and those for the next
/// membership know which one they replace.
pub proof fn law_runs_are_handed_out(
    hub: HubView,
    reopens_terminal: bool,
    run: MonitorRun,
    after: HubView,
)
    requires
        hub.hands_out(reopens_terminal, run, after),
    ensures
        run.run_id == hub.next_run_id,
        hub.next_run_id < u64::MAX ==> after.next_run_id == hub.next_run_id + 1,
        run.reopens_epoch is Some <==> reopens_terminal,
        run.reopens_epoch matches Some(epoch) ==> epoch == hub.epoch,
        after.watches == hub.watches && after.runs == hub.runs && after.epoch == hub.epoch
            && after.next_generation == hub.next_generation && after.lifecycle == hub.lifecycle,
{
}

/// A watch whose guard is gone is forgotten; the others stay, in their order.
pub proof fn law_released_watches_are_forgotten(hub: HubView, i: int, j: int)
    requires
        0 <= i < hub.watches.len(),
        forall|k: int|
            0 <= k < hub.watches.len() && (#[trigger] hub.watches[k]).id == hub.watches[i].id ==> k
                == i,
        0 <= j < hub.watches.len(),
    ensures
        ({
            let after = hub.after_release(hub.watches[i].id);
            &&& after.watches.len() + 1 == hub.watches.len()
            &&& j < i ==> after.watches[j] == hub.watches[j]
            &&& j > i ==> after.watches[j - 1] == hub.watches[j]
            &&& after == (HubView { watches: after.watches, ..hub })
        }),
{
    assert(crate::hub::watch_at(hub.watches, hub.watches[i].id, i));
}

/// The watches of a membership are counted one by one.
pub proof fn law_watches_are_counted(watches: Seq<WatchView>, watch: WatchView, epoch: u64)
    ensures
        crate::hub::registered(Seq::<WatchView>::empty(), epoch) == 0,
        watch.epoch == Some(epoch) ==> crate::hub::registered(watches.push(watch), epoch)
            == crate::hub::registered(watches, epoch) + 1,
        watch.epoch != Some(epoch) ==> crate::hub::registered(watches.push(watch), epoch)
            == crate::hub::registered(watches, epoch),
{
    assert(watches.push(watch).drop_last() =~= watches);
}

} // verus!
