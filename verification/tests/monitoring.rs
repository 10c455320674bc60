use kokage::context::{plan_watch, WatchPlan};
use kokage::hub::MonitorHub;
use kokage::monitor::{WatchQueue, WATCH_BUFFER_CAP};
use kokage::registry::{ActorMonitors, Registration};
use kokage::stats::ActorStatsCounters;
use kokage::{ExitStatus, MonitorEvent};

fn peer() -> String {
    "peer".to_owned()
}

fn started_event(generation: u64) -> MonitorEvent {
    MonitorEvent::Started { actor_id: peer(), generation }
}

fn failed(cancelled: bool) -> ExitStatus {
    ExitStatus::Failed { message: "boom".to_owned(), cancelled }
}

fn exited_event(generation: u64) -> MonitorEvent {
    MonitorEvent::Exited { actor_id: peer(), generation, status: failed(false) }
}

fn removed_event(generation: Option<u64>) -> MonitorEvent {
    MonitorEvent::Removed { actor_id: peer(), generation }
}

fn drain(queue: &mut WatchQueue) -> Vec<MonitorEvent> {
    let mut events = Vec::new();
    while let Some(event) = queue.pop() {
        events.push(event);
    }
    events
}

fn lagged_count(events: &[MonitorEvent]) -> u64 {
    let markers = events
        .iter()
        .filter_map(|event| match event {
            MonitorEvent::Lagged { dropped, .. } => Some(*dropped),
            _ => None,
        })
        .collect::<Vec<_>>();
    assert!(markers.len() <= 1, "at most one coalesced Lagged marker is kept");
    assert!(
        markers.is_empty() || matches!(events.first(), Some(MonitorEvent::Lagged { .. })),
        "the Lagged marker leads the buffer"
    );
    markers.first().copied().unwrap_or(0)
}

#[test]
fn outbound_monitor_lifetime_rotates_for_a_reopened_membership() {
    let mut monitors = ActorMonitors::new();
    let subject = 1;
    let old_lease = monitors.lease();
    let installed = monitors.register(&old_lease, subject);
    assert!(installed.installed());
    assert!(!monitors.is_stopped(&old_lease));

    monitors.terminate();
    assert!(monitors.is_stopped(&old_lease));
    let new_lease = monitors.reopen();

    let stale = monitors.register(&old_lease, subject);
    assert!(!stale.installed());
    assert_eq!(stale, Registration::Stale);

    let installed = monitors.register(&new_lease, subject);
    assert!(installed.installed());
    assert!(!monitors.is_stopped(&new_lease));
}

#[test]
fn registering_a_pair_again_finds_the_watch() {
    let mut monitors = ActorMonitors::new();
    let lease = monitors.lease();
    assert_eq!(monitors.register(&lease, 5), Registration::Installed(0));
    assert_eq!(monitors.register(&lease, 5), Registration::Existing(0));
    assert_eq!(monitors.register(&lease, 6), Registration::Installed(1));
    monitors.cancel(0);
    assert_eq!(monitors.register(&lease, 5), Registration::Installed(2));
    monitors.finish(2);
    assert_eq!(monitors.register(&lease, 5), Registration::Installed(3));
    monitors.subject_dropped(6);
    assert_eq!(monitors.register(&lease, 6), Registration::Installed(4));
    assert_eq!(monitors.register(&lease, 5), Registration::Existing(3));
}

#[test]
fn queue_coalesces_overflow_into_lagged() {
    let mut queue = WatchQueue::new(&peer());
    let overflow = 5;
    let total = WATCH_BUFFER_CAP as u64 + overflow;
    for generation in 0..total {
        queue.push(started_event(generation));
    }

    let events = drain(&mut queue);
    assert_eq!(events.len(), WATCH_BUFFER_CAP);
    assert!(lagged_count(&events) > 0);
    assert_eq!(events.last(), Some(&started_event(total - 1)));
    assert_eq!(lagged_count(&events) + WATCH_BUFFER_CAP as u64 - 1, total);
}

#[test]
fn alternating_overflow_is_flagged_not_silent() {
    let mut queue = WatchQueue::new(&peer());
    for generation in 0..(WATCH_BUFFER_CAP as u64) {
        queue.push(started_event(generation));
        queue.push(exited_event(generation));
    }

    let events = drain(&mut queue);
    assert_eq!(events.len(), WATCH_BUFFER_CAP);
    assert!(
        matches!(events.first(), Some(MonitorEvent::Lagged { .. })),
        "overflow must surface a resync marker, not silently orphan a transition"
    );
    assert!(lagged_count(&events) > 0);
}

#[test]
fn first_overflow_drops_two_transitions() {
    let mut queue = WatchQueue::new(&peer());
    for generation in 0..=(WATCH_BUFFER_CAP as u64) {
        queue.push(started_event(generation));
    }
    assert_eq!(queue.pop(), Some(MonitorEvent::Lagged { actor_id: peer(), dropped: 2 }));
    assert_eq!(queue.pop(), Some(started_event(2)));
}

#[test]
fn dropping_guard_closes_queue_and_prunes_watcher() {
    let mut hub = MonitorHub::new(&peer());
    let watch = hub.register_watch(false, false);
    assert_eq!(hub.registered_watches(), 1);

    assert!(hub.close_watch(watch));
    let run = hub.new_run(false);
    assert_eq!(hub.started(&run), Some(false));
    assert_eq!(
        hub.registered_watches(),
        0,
        "a closed watch must be pruned on the next lifecycle event"
    );
    assert!(!hub.close_watch(watch));
}

#[test]
fn late_exit_keeps_the_generation_of_its_own_run() {
    let mut hub = MonitorHub::new(&peer());
    let watch = hub.register_watch(false, false);
    let first = hub.new_run(false);
    let second = hub.new_run(false);

    assert_eq!(hub.started(&first), Some(false));
    assert_eq!(hub.started(&second), Some(false));
    let epoch = hub.current_epoch();
    hub.removed(epoch);
    hub.exited(&first, failed(false));
    hub.exited(&second, failed(false));

    assert_eq!(hub.pop(watch), Some(started_event(0)));
    assert_eq!(hub.pop(watch), Some(started_event(1)));
    assert_eq!(hub.pop(watch), Some(exited_event(0)));
    assert_eq!(hub.pop(watch), Some(exited_event(1)));
    assert_eq!(hub.pop(watch), Some(removed_event(Some(1))));
    assert_eq!(hub.pop(watch), None);
}

#[test]
fn watch_registered_during_overlap_ignores_displaced_run_exit() {
    let mut hub = MonitorHub::new(&peer());
    let first = hub.new_run(false);
    let second = hub.new_run(false);
    assert_eq!(hub.started(&first), Some(false));
    assert_eq!(hub.started(&second), Some(false));
    let watch = hub.register_watch(false, false);

    hub.exited(&first, failed(false));
    hub.exited(&second, failed(false));

    assert_eq!(hub.pop(watch), Some(started_event(1)));
    assert_eq!(hub.pop(watch), Some(exited_event(1)));
    assert_eq!(hub.pop(watch), None);
}

#[test]
fn terminal_hub_rejects_a_late_run_start() {
    let mut hub = MonitorHub::new(&peer());
    let late = hub.new_run(false);
    let epoch = hub.current_epoch();
    hub.removed(epoch);

    assert_eq!(hub.started(&late), None);
    let watch = hub.register_watch(false, false);
    assert_eq!(hub.pop(watch), Some(removed_event(None)));
    assert_eq!(hub.pop(watch), None);

    let replacement = hub.new_run(true);
    assert_eq!(hub.started(&replacement), Some(true));
    let replacement_watch = hub.register_watch(false, false);
    assert_eq!(hub.pop(replacement_watch), Some(started_event(0)));
}

#[test]
fn reopen_retires_old_watchers_even_when_replacement_starts_first() {
    let mut hub = MonitorHub::new(&peer());
    let first = hub.new_run(false);
    assert_eq!(hub.started(&first), Some(false));
    let old_watch = hub.register_watch(false, false);
    assert_eq!(hub.pop(old_watch), Some(started_event(0)));
    let old_epoch = hub.current_epoch();

    let replacement = hub.new_run(true);
    assert_eq!(hub.started(&replacement), Some(true));
    hub.removed(old_epoch);
    let replacement_watch = hub.register_watch(false, false);
    assert_eq!(hub.pop(replacement_watch), Some(started_event(1)));
    assert_eq!(hub.pop(old_watch), None);

    hub.exited(&first, failed(false));
    assert_eq!(hub.pop(old_watch), Some(exited_event(0)));
    assert_eq!(hub.pop(old_watch), Some(removed_event(Some(0))));
    assert_eq!(hub.pop(old_watch), None);
    assert_eq!(hub.pop(replacement_watch), None);

    hub.exited(&replacement, failed(false));
    assert_eq!(hub.pop(replacement_watch), Some(exited_event(1)));
}

#[test]
fn old_reopen_token_cannot_join_a_termination_pending_epoch() {
    let mut hub = MonitorHub::new(&peer());
    let first_replacement = hub.new_run(true);
    let stale_replacement = hub.new_run(true);
    assert_eq!(hub.started(&first_replacement), Some(true));
    let epoch = hub.current_epoch();
    hub.removed(epoch);

    assert_eq!(hub.started(&stale_replacement), None);
    hub.exited(&first_replacement, failed(true));
    let watch = hub.register_watch(false, false);
    assert_eq!(hub.pop(watch), Some(removed_event(Some(0))));
}

#[test]
fn second_reopen_token_joins_the_replacement() {
    let mut hub = MonitorHub::new(&peer());
    let first = hub.new_run(true);
    let second = hub.new_run(true);
    assert_eq!(hub.started(&first), Some(true));
    assert_eq!(hub.started(&second), Some(false));
    assert_eq!(hub.current_epoch(), 1);
}

#[test]
fn terminal_event_survives_overflow() {
    let mut queue = WatchQueue::new(&peer());
    for generation in 0..(WATCH_BUFFER_CAP as u64 * 2) {
        queue.push(started_event(generation));
    }
    let removed = removed_event(Some(7));
    queue.push(removed.clone());

    let mut last = None;
    while let Some(event) = queue.pop() {
        last = Some(event);
    }
    assert_eq!(last, Some(removed));
}

#[test]
fn exit_is_reported_once() {
    let mut hub = MonitorHub::new(&peer());
    let watch = hub.register_watch(false, false);
    let run = hub.new_run(false);
    hub.started(&run);
    hub.exited(&run, ExitStatus::Completed { cancelled: false });
    hub.exited(&run, failed(false));
    assert_eq!(hub.pop(watch), Some(started_event(0)));
    assert_eq!(
        hub.pop(watch),
        Some(MonitorEvent::Exited {
            actor_id: peer(),
            generation: 0,
            status: ExitStatus::Completed { cancelled: false },
        })
    );
    assert_eq!(hub.pop(watch), None);
}

#[test]
fn cancelled_and_stopped_watches_hear_nothing_more() {
    let mut hub = MonitorHub::new(&peer());
    let cancelled = hub.register_watch(false, false);
    let stopped = hub.register_watch(false, false);
    let live = hub.register_watch(false, false);
    hub.cancel_watch(cancelled);
    hub.stop_watch(stopped);
    let run = hub.new_run(false);
    hub.started(&run);
    assert_eq!(hub.registered_watches(), 1);
    assert_eq!(hub.pop(cancelled), None);
    assert_eq!(hub.pop(stopped), None);
    assert_eq!(hub.pop(live), Some(started_event(0)));
}

#[test]
fn watch_between_incarnations_is_silent_until_the_next_start() {
    let mut hub = MonitorHub::new(&peer());
    let first = hub.new_run(false);
    hub.started(&first);
    hub.exited(&first, failed(false));
    let watch = hub.register_watch(false, false);
    assert_eq!(hub.pop(watch), None);
    let second = hub.new_run(false);
    hub.started(&second);
    assert_eq!(hub.pop(watch), Some(started_event(1)));
}

#[test]
fn an_observer_sees_the_lifecycle_in_order() {
    let mut hub = MonitorHub::new(&peer());
    let watch = hub.register_watch(false, false);
    for generation in 0..3 {
        let run = hub.new_run(false);
        assert_eq!(hub.started(&run), Some(false));
        assert_eq!(hub.pop(watch), Some(started_event(generation)));
        hub.exited(&run, failed(false));
        hub.exited(&run, failed(true));
        assert_eq!(hub.pop(watch), Some(exited_event(generation)));
        assert_eq!(hub.pop(watch), None);
    }
    let epoch = hub.current_epoch();
    hub.removed(epoch);
    hub.removed(epoch);
    assert_eq!(hub.pop(watch), Some(removed_event(Some(2))));
    assert_eq!(hub.pop(watch), None);
}

#[test]
fn removal_waits_for_active_runs() {
    let mut hub = MonitorHub::new(&peer());
    let watch = hub.register_watch(false, false);
    let run = hub.new_run(false);
    assert_eq!(hub.started(&run), Some(false));
    let epoch = hub.current_epoch();
    hub.removed(epoch + 1);
    hub.removed(epoch);
    assert_eq!(hub.pop(watch), Some(started_event(0)));
    assert_eq!(hub.pop(watch), None);
    hub.exited(&run, failed(false));
    assert_eq!(hub.pop(watch), Some(exited_event(0)));
    assert_eq!(hub.pop(watch), Some(removed_event(Some(0))));
}

#[test]
fn a_repeated_watch_is_an_alias() {
    let mut monitors = ActorMonitors::new();
    let lease = monitors.lease();
    let first = monitors.register(&lease, 1);
    let other = monitors.register(&lease, 2);
    assert_eq!((first, other), (Registration::Installed(0), Registration::Installed(1)));
    monitors.cancel(1);
    monitors.subject_dropped(3);
    assert!(monitors.register(&lease, 4).installed());
    let later = monitors.lease();
    assert_eq!(monitors.register(&later, 1), Registration::Existing(0));
    assert_eq!(plan_watch(Registration::Existing(0), true), WatchPlan::Alias(0));
    monitors.cancel(0);
    assert!(monitors.register(&later, 1).installed());
}

#[test]
fn snapshots_show_the_sums_of_what_was_recorded() {
    let mut counters = ActorStatsCounters::new();
    counters.record_send(true);
    counters.record_received();
    counters.record_send(false);
    counters.record_message_size(3);
    counters.record_conflated(2);
    counters.enable_message_size();
    counters.record_send(true);
    counters.record_message_size(4);
    counters.record_conflated(1);
    counters.set_outstanding_offloads(9);
    counters.set_outstanding_offloads(5);
    let stats = counters.snapshot(&peer(), 6, 7);
    assert_eq!((stats.messages_accepted, stats.sends_rejected, stats.messages_received), (2, 1, 1));
    assert_eq!((stats.messages_conflated, stats.message_bytes_accepted), (3, Some(7)));
    assert_eq!(stats.outstanding_offloads, 5);
    assert_eq!((stats.mailbox_depth, stats.mailbox_capacity), (6, 7));
    assert_eq!(counters.snapshot(&peer(), 6, 7), stats);
}
