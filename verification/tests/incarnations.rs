use kokage::context::{
    first_tick, forward_step, interval_sent, plan_watch, scope_wait_step, settle_blocking,
    timer_step, try_delivery_source, BlockingOutcome, Delivery, DeliveryStep, ForwardStep,
    JoinedTask, ScopeWaitStep, TimerStep, TrySource, WatchPlan,
};
use kokage::handler::{LoopEvent, LoopPhase, LoopStep, ReceiveLoop};
use kokage::host::ActorReadySignal;
use kokage::mailbox::TryRecvError;
use kokage::registry::{ActorMonitors, Registration};
use kokage::stats::ActorStatsCounters;
use kokage::timers::TimerTable;
use kokage::{
    ActorSpec, ActorStatus, BlockingCancelled, MonitorEvent, RawContext, ScopeRef, TimerKey,
};

fn context(drain: bool) -> RawContext<&'static str> {
    let mut spec = ActorSpec::new("worker".to_owned(), 1);
    let lease = ActorMonitors::new().lease();
    let ready = ActorReadySignal::new(true);
    RawContext::new(spec.actor_ref(), drain, lease, ready, ScopeRef::unavailable())
}

fn handled(step: LoopStep<&'static str>) -> (&'static str, bool) {
    match step {
        LoopStep::Handle { message, draining } => (message, draining),
        _ => panic!("a message is handled"),
    }
}

fn receiving(context: &mut RawContext<&'static str>) -> ReceiveLoop {
    let mut receive = ReceiveLoop::new();
    assert!(matches!(receive.on_started(context, true), LoopStep::Again));
    assert!(context.ready.reported);
    receive
}

#[test]
fn timeouts_are_replaced_by_key() {
    let mut table = TimerTable::new();
    assert_eq!(table.next_wake(), None);
    table.insert(TimerKey::new("tick"), 1, 10, 0);
    let stale = table.next_wake().expect("one timeout is armed");
    table.insert(TimerKey::from("tick"), 2, 20, 0);
    table.insert(TimerKey::new("tock"), 3, 30, 0);
    assert_eq!(table.take_fired(stale, 50), None);
    let wake = table.next_wake().expect("two timeouts are armed");
    assert_eq!(wake.deadline, 20);
    assert_eq!(table.take_fired(wake, 19), None);
    assert_eq!(table.take_fired(wake, 20), Some(2));
    assert_eq!(table.take_fired(wake, 20), None);
    table.clear(TimerKey::new("tock"));
    assert_eq!(table.next_wake(), None);
    assert_eq!(TimerKey::new("tick").as_str(), "tick");
}

#[test]
fn equal_deadlines_fire_in_table_order() {
    let mut table = TimerTable::new();
    table.insert(TimerKey::new("a"), 1, 5, 0);
    table.insert(TimerKey::new("b"), 2, 5, 0);
    let first = table.next_wake().expect("armed");
    assert_eq!(table.take_fired(first, 5), Some(1));
    let second = table.next_wake().expect("armed");
    assert_eq!(table.take_fired(second, 5), Some(2));
}

#[test]
fn timer_ids_skip_zero() {
    let mut table = TimerTable::new();
    table.next_id = u64::MAX;
    table.insert(TimerKey::new("a"), (), 1, 0);
    table.insert(TimerKey::new("b"), (), 2, 0);
    assert_eq!(table.entries[0].id, u64::MAX);
    assert_eq!(table.entries[1].id, 1);
}

#[test]
fn follow_ups_come_before_the_mailbox_and_after_shutdown() {
    let mut context = context(false);
    let mut counters = ActorStatsCounters::new();
    let mut receive = receiving(&mut context);
    context.continue_with("first");
    context.continue_with("second");
    let step = receive.advance(&mut context, &mut counters, false, 0);
    assert_eq!(handled(step), ("first", false));
    assert!(matches!(receive.on_handled::<&'static str>(&context, true), LoopStep::Again));
    assert!(matches!(
        receive.advance(&mut context, &mut counters, true, 0),
        LoopStep::Discard
    ));
    assert!(matches!(
        receive.on_discarded(&context),
        LoopStep::RunStop { dropped_continuations: 1 }
    ));
    assert!(matches!(
        receive.on_stopped::<&'static str>(true),
        LoopStep::Finish { success: true }
    ));
    assert_eq!(counters.messages_received, 1);
}

#[test]
fn queued_messages_can_retract_an_elapsed_timer() {
    let key = TimerKey::new("tick");
    let mut context = context(true);
    let mut counters = ActorStatsCounters::new();
    let mut receive = receiving(&mut context);
    context.set_timeout(key, "tick", 10, 0);
    let wake = match receive.advance(&mut context, &mut counters, false, 0) {
        LoopStep::Await { timer } => timer.expect("one timeout is armed"),
        _ => panic!("the loop waits"),
    };
    let elapsed = LoopEvent::Timer { wake, queued: 1 };
    assert!(matches!(receive.on_event(&context, &mut counters, elapsed), LoopStep::Again));
    assert!(matches!(
        receive.advance(&mut context, &mut counters, false, 10),
        LoopStep::TryReceive
    ));
    let step = receive.on_try_receive(&mut context, &mut counters, Some("retract"), 10);
    assert_eq!(handled(step), ("retract", false));
    context.clear_timeout(key);
    assert!(matches!(receive.on_handled::<&'static str>(&context, true), LoopStep::Again));
    assert!(matches!(
        receive.advance(&mut context, &mut counters, false, 10),
        LoopStep::Again
    ));
    assert_eq!(receive.phase, LoopPhase::Receiving);
    assert_eq!(counters.messages_received, 1);
}

#[test]
fn an_empty_mailbox_lets_the_timer_fire() {
    let mut context = context(true);
    let mut counters = ActorStatsCounters::new();
    let mut receive = receiving(&mut context);
    context.set_timeout(TimerKey::new("tick"), "tick", 10, 0);
    let wake = context.next_timer_wake().expect("one timeout is armed");
    receive.on_event(&context, &mut counters, LoopEvent::Timer { wake, queued: 2 });
    receive.advance(&mut context, &mut counters, false, 10);
    let step = receive.on_try_receive(&mut context, &mut counters, None, 10);
    assert_eq!(handled(step), ("tick", false));
    assert_eq!(receive.phase, LoopPhase::HandlingTimer);
    assert_eq!(context.take_fired_timer(wake, 10), None);
}

#[test]
fn a_stop_request_drains_accepted_work() {
    let mut context = context(true);
    let mut counters = ActorStatsCounters::new();
    let mut receive = receiving(&mut context);
    let step = receive.on_event(&context, &mut counters, LoopEvent::Message(Some("stop")));
    assert_eq!(handled(step), ("stop", false));
    assert_eq!(context.status(false), ActorStatus::Running);
    context.stop();
    assert_eq!(context.status(false), ActorStatus::Stopping);
    assert_eq!(context.status(true), ActorStatus::Draining);
    assert!(matches!(receive.on_handled::<&'static str>(&context, true), LoopStep::Drain));
    let step = receive.on_drained(&context, &mut counters, Some("late"));
    assert_eq!(handled(step), ("late", true));
    assert!(matches!(receive.on_handled::<&'static str>(&context, true), LoopStep::Drain));
    assert!(matches!(
        receive.on_drained(&context, &mut counters, None),
        LoopStep::RunStop { dropped_continuations: 0 }
    ));
    assert!(matches!(
        receive.on_stopped::<&'static str>(false),
        LoopStep::Finish { success: false }
    ));
}

#[test]
fn hooks_that_fail_end_the_actor() {
    let mut failing = context(true);
    let mut receive = ReceiveLoop::new();
    assert!(matches!(
        receive.on_started(&mut failing, false),
        LoopStep::Finish { success: false }
    ));
    assert!(!failing.ready.reported);

    let mut context = context(true);
    let mut counters = ActorStatsCounters::new();
    let mut receive = receiving(&mut context);
    receive.on_event(&context, &mut counters, LoopEvent::Message(Some("boom")));
    assert!(matches!(
        receive.on_handled::<&'static str>(&context, false),
        LoopStep::Finish { success: false }
    ));
}

#[test]
fn a_stop_during_startup_skips_the_loop_and_reports_ready() {
    let mut stopped = context(false);
    stopped.stop();
    let mut receive = ReceiveLoop::new();
    assert!(matches!(receive.on_started(&mut stopped, true), LoopStep::Discard));
    assert!(stopped.ready.reported);
}

#[test]
fn a_closed_mailbox_or_shutdown_ends_the_loop() {
    for event in [LoopEvent::Message(None), LoopEvent::Shutdown] {
        let mut context = context(true);
        let mut counters = ActorStatsCounters::new();
        let mut receive = receiving(&mut context);
        assert!(matches!(receive.on_event(&context, &mut counters, event), LoopStep::Drain));
        assert_eq!(counters.messages_received, 0);
    }
}

#[test]
fn offloads_deliver_unless_cancelled() {
    let mut context = context(true);
    let mut counters = ActorStatsCounters::new();
    for _ in 0..4 {
        context.offload_started(&mut counters);
    }
    assert_eq!(counters.outstanding_offloads, 4);
    let completed = |cancelled| {
        Delivery::Offload(JoinedTask::Completed { message: "done", cancelled })
    };
    assert!(matches!(
        context.on_delivery(&mut counters, completed(false)),
        DeliveryStep::Return(Some("done"))
    ));
    assert!(matches!(
        context.on_delivery(&mut counters, completed(true)),
        DeliveryStep::Again
    ));
    assert!(matches!(
        context.on_delivery(&mut counters, Delivery::Offload(JoinedTask::Panicked)),
        DeliveryStep::Resume
    ));
    assert!(matches!(context.drain_step(None), DeliveryStep::Again));
    assert!(matches!(context.drain_step(Some("queued")), DeliveryStep::Return(Some("queued"))));
    assert!(matches!(
        context.on_delivery(&mut counters, Delivery::Offload(JoinedTask::Aborted)),
        DeliveryStep::Again
    ));
    assert_eq!(counters.outstanding_offloads, 0);
    assert!(matches!(context.drain_step(None), DeliveryStep::Return(None)));
}

#[test]
fn scope_waits_never_deliver_to_the_loop() {
    let mut context = context(true);
    let mut counters = ActorStatsCounters::new();
    context.scope_wait_started(3);
    context.scope_wait_started(4);
    context.scope_wait_started(5);
    let finished = |task, panicked| Delivery::ScopeWait { task, panicked };
    assert!(matches!(
        context.on_delivery(&mut counters, finished(4, false)),
        DeliveryStep::Again
    ));
    assert!(matches!(
        context.on_delivery(&mut counters, finished(9, true)),
        DeliveryStep::Resume
    ));
    assert_eq!(context.abort_scope_waits(), vec![3, 5]);
    assert_eq!(context.abort_scope_waits(), Vec::<u64>::new());
    context.scope_wait_started(6);
    context.offload_started(&mut counters);
    assert_eq!(context.release(&mut counters), vec![6]);
    assert_eq!(counters.outstanding_offloads, 0);

    assert_eq!(scope_wait_step(true, Some(1)), ScopeWaitStep::Stop);
    assert_eq!(scope_wait_step(false, Some(1)), ScopeWaitStep::Send(1));
    assert_eq!(scope_wait_step(false, None::<u8>), ScopeWaitStep::Wait);
}

#[test]
fn receives_count_what_they_deliver() {
    let context = context(true);
    let mut counters = ActorStatsCounters::new();
    assert_eq!(context.recv(&mut counters, true, Some("queued")), None);
    assert_eq!(context.recv(&mut counters, false, Some("queued")), Some("queued"));
    assert_eq!(context.recv(&mut counters, false, None), None);
    assert_eq!(context.try_recv(&mut counters, Ok("drained")), Some("drained"));
    assert_eq!(context.try_recv(&mut counters, Err(TryRecvError::Empty)), None);
    assert_eq!(counters.messages_received, 2);
    assert_eq!(try_delivery_source(true, true), TrySource::ScopeWait);
    assert_eq!(try_delivery_source(false, true), TrySource::Offload);
    assert_eq!(try_delivery_source(false, false), TrySource::Mailbox);
}

#[test]
fn contexts_know_their_actor() {
    let mut context = context(true);
    assert_eq!(context.id(), "worker");
    assert_eq!(context.myself().identity, 1);
    assert!(context.mark_ready());
    assert!(!context.mark_ready());
    assert!(!context.is_stop_requested());
    context.continue_with("next");
    assert_eq!(context.take_continuation(), Some("next"));
    assert_eq!(context.take_continuation(), None);
}

#[test]
fn watches_are_shared_by_pair() {
    assert_eq!(plan_watch(Registration::Stale, true), WatchPlan::Finished);
    assert_eq!(plan_watch(Registration::Existing(3), true), WatchPlan::Alias(3));
    assert_eq!(plan_watch(Registration::Installed(3), true), WatchPlan::Install(3));
    assert_eq!(plan_watch(Registration::Installed(3), false), WatchPlan::Abandon(3));
}

#[test]
fn forwarders_stop_before_the_mapper_runs() {
    let removed = || MonitorEvent::Removed { actor_id: "peer".to_owned(), generation: None };
    let lagged = || MonitorEvent::Lagged { actor_id: "peer".to_owned(), dropped: 1 };
    assert_eq!(forward_step(true, false, Some(removed())), ForwardStep::Stop);
    assert_eq!(forward_step(false, true, Some(removed())), ForwardStep::Stop);
    assert_eq!(
        forward_step(false, false, Some(removed())),
        ForwardStep::Send { event: removed(), terminal: true }
    );
    assert_eq!(
        forward_step(false, false, Some(lagged())),
        ForwardStep::Send { event: lagged(), terminal: false }
    );
    assert_eq!(forward_step(false, false, None), ForwardStep::Wait);
}

#[test]
fn mailbox_timers_end_with_their_incarnation() {
    assert_eq!(timer_step(true, false, true), TimerStep::Stop);
    assert_eq!(timer_step(false, true, true), TimerStep::Stop);
    assert_eq!(timer_step(false, false, true), TimerStep::Send);
    assert_eq!(timer_step(false, false, false), TimerStep::Wait);
    assert_eq!(interval_sent(false, false, Some(true)), TimerStep::Wait);
    assert_eq!(interval_sent(false, false, Some(false)), TimerStep::Stop);
    assert_eq!(interval_sent(false, true, None), TimerStep::Stop);
    assert_eq!(first_tick(5, 0), None);
    assert_eq!(first_tick(5, 7), Some(12));
}

#[test]
fn blocking_work_is_classified() {
    assert_eq!(settle_blocking(BlockingOutcome::Returned(3)), Some(Ok(3)));
    assert_eq!(settle_blocking(BlockingOutcome::<u8>::Panicked), None);
    assert_eq!(
        settle_blocking(BlockingOutcome::<u8>::Cancelled),
        Some(Err(BlockingCancelled))
    );
}
