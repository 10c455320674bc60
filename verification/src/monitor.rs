//! Lifecycle monitoring: bounded watch queues, the per-actor hub that stages
//! events, and the membership-owned registry of outbound watches.
use std::collections::VecDeque;
use vstd::prelude::*;

use crate::policy::ExitStatus;

verus! {

/// Maximum number of undelivered events staged for a single watch.
///
/// Beyond the bound the oldest staged event is dropped, which coalesces a
/// restart storm into recent history plus the current state.
pub const WATCH_BUFFER_CAP: usize = 128;

/// Lifecycle transition of a watched logical actor.
///
/// Events for one watch arrive in lifecycle order: every `Started` for a
/// generation precedes its `Exited`, and `Removed` is final.
#[derive(Debug, PartialEq, Eq)]
#[allow(inconsistent_fields)]
pub enum MonitorEvent {
    /// An incarnation of the watched actor is running.
    Started {
        /// Stable id of the watched actor.
        actor_id: String,
        /// Incarnation counter, starting at zero.
        generation: u64,
    },
    /// The incarnation exited.
    Exited {
        /// Stable id of the watched actor.
        actor_id: String,
        /// Incarnation counter, starting at zero.
        generation: u64,
        /// How the watched incarnation exited.
        status: ExitStatus,
    },
    /// Transitions were dropped because the observer could not keep up.
    Lagged {
        /// Stable id of the watched actor.
        actor_id: String,
        /// Number of transitions dropped since the last delivered event.
        dropped: u64,
    },
    /// The actor is permanently gone.
    Removed {
        /// Stable id of the watched actor.
        actor_id: String,
        /// The last incarnation that ran, or `None` if the actor never
        /// started.
        generation: Option<u64>,
    },
}

impl Clone for MonitorEvent {
    fn clone(&self) -> (event: Self)
        ensures
            event == *self,
    {
        match self {
            MonitorEvent::Started { actor_id, generation } => MonitorEvent::Started {
                actor_id: actor_id.clone(),
                generation: *generation,
            },
            MonitorEvent::Exited { actor_id, generation, status } => MonitorEvent::Exited {
                actor_id: actor_id.clone(),
                generation: *generation,
                status: status.clone(),
            },
            MonitorEvent::Lagged { actor_id, dropped } => MonitorEvent::Lagged {
                actor_id: actor_id.clone(),
                dropped: *dropped,
            },
            MonitorEvent::Removed { actor_id, generation } => MonitorEvent::Removed {
                actor_id: actor_id.clone(),
                generation: *generation,
            },
        }
    }
}

/// `a + b`, capped at the largest `u64`.
pub open spec fn saturating(a: u64, b: int) -> u64 {
    if a + b > u64::MAX {
        u64::MAX
    } else {
        (a + b) as u64
    }
}

/// Transitions lost from a buffer: the count of its leading marker.
pub open spec fn lost(events: Seq<MonitorEvent>) -> int {
    if events.len() > 0 {
        match events[0] {
            MonitorEvent::Lagged { dropped, .. } => dropped as int,
            _ => 0,
        }
    } else {
        0
    }
}

/// The buffered transitions: the contents without a leading marker.
pub open spec fn retained(events: Seq<MonitorEvent>) -> Seq<MonitorEvent> {
    if events.len() > 0 && events[0] is Lagged {
        events.subrange(1, events.len() as int)
    } else {
        events
    }
}

/// Only the first buffered entry may be a marker.
pub open spec fn marker_leads(events: Seq<MonitorEvent>) -> bool {
    forall|i: int| 1 <= i < events.len() ==> !(#[trigger] events[i] is Lagged)
}

/// The marker that leads a full buffer once it has made room for one event.
pub open spec fn marker(actor_id: String, events: Seq<MonitorEvent>) -> MonitorEvent {
    match events[0] {
        MonitorEvent::Lagged { actor_id, dropped } => MonitorEvent::Lagged {
            actor_id,
            dropped: saturating(dropped, 1),
        },
        _ => MonitorEvent::Lagged { actor_id, dropped: 2 },
    }
}

/// The buffer after staging `event`: appended while there is room, otherwise
/// behind a marker that stands for everything dropped so far.
pub open spec fn staged(
    actor_id: String,
    events: Seq<MonitorEvent>,
    event: MonitorEvent,
) -> Seq<MonitorEvent> {
    if events.len() < WATCH_BUFFER_CAP {
        events.push(event)
    } else {
        (seq![marker(actor_id, events)] + events.subrange(2, events.len() as int)).push(event)
    }
}

/// Bounded, drop-oldest staging buffer between a target's hub and one
/// observer.
pub struct WatchQueue {
    /// Id of the watched actor, carried by markers.
    pub actor_id: String,
    /// Staged events, oldest first.
    pub events: VecDeque<MonitorEvent>,
}

impl View for WatchQueue {
    type V = Seq<MonitorEvent>;

    open spec fn view(&self) -> Seq<MonitorEvent> {
        self.events@
    }
}

impl WatchQueue {
    /// The buffer is within its bound.
    pub open spec fn wf(&self) -> bool {
        self@.len() <= WATCH_BUFFER_CAP
    }

    /// Creates an empty buffer for events of `actor_id`.
    pub fn new(actor_id: &String) -> (queue: Self)
        ensures
            queue.wf(),
            queue.actor_id == *actor_id,
            queue@ == Seq::<MonitorEvent>::empty(),
    {
        WatchQueue { actor_id: actor_id.clone(), events: VecDeque::new() }
    }

    /// Stages one event. A full buffer drops its oldest transitions and
    /// records the loss in a single marker at the front.
    pub fn push(&mut self, event: MonitorEvent)
        requires
            old(self).wf(),
        ensures
            final(self).wf(),
            final(self).actor_id == old(self).actor_id,
            final(self)@ == staged(old(self).actor_id, old(self)@, event),
            final(self)@.last() == event,
    {
        let ghost before = self@;
        if self.events.len() >= WATCH_BUFFER_CAP {
            if !matches!(self.events[0], MonitorEvent::Lagged { .. }) {
                self.record_drop();
            }
            self.record_drop();
            assert(self@ =~= seq![marker(self.actor_id, before)] + before.subrange(
                2,
                before.len() as int,
            ));
        }
        self.events.push_back(event);
    }

    /// Frees one slot by folding the oldest transition into the leading
    /// marker, or turns the oldest transition into a fresh marker.
    fn record_drop(&mut self)
        requires
            old(self)@.len() >= 2,
        ensures
            final(self).actor_id == old(self).actor_id,
            final(self)@ == match old(self)@[0] {
                MonitorEvent::Lagged { actor_id, dropped } => seq![
                    MonitorEvent::Lagged { actor_id, dropped: saturating(dropped, 1) },
                ] + old(self)@.subrange(2, old(self)@.len() as int),
                _ => seq![
                    MonitorEvent::Lagged { actor_id: old(self).actor_id, dropped: 1 },
                ] + old(self)@.subrange(1, old(self)@.len() as int),
            },
    {
        let ghost before = self@;
        let front = self.events.pop_front();
        match front {
            Some(MonitorEvent::Lagged { actor_id, dropped }) => {
                let _oldest = self.events.pop_front();
                self.events.push_front(
                    MonitorEvent::Lagged { actor_id, dropped: dropped.saturating_add(1) },
                );
            },
            _ => {
                self.events.push_front(
                    MonitorEvent::Lagged { actor_id: self.actor_id.clone(), dropped: 1 },
                );
            },
        }
        assert(before.len() >= 2);
    }

    /// The queue `after` a delivery.
    pub open spec fn pops(&self, event: Option<MonitorEvent>, after: Self) -> bool {
        &&& after.wf()
        &&& after.actor_id == self.actor_id
        &&& match event {
            Some(event) => self@.len() > 0 && event == self@[0] && after@
                == self@.drop_first(),
            None => self@.len() == 0 && after@ == self@,
        }
    }

    /// Removes the next staged event, if any.
    pub fn pop(&mut self) -> (event: Option<MonitorEvent>)
        requires
            old(self).wf(),
        ensures
            old(self).pops(event, *final(self)),
    {
        let event = self.events.pop_front();
        assert(event is Some ==> self@ =~= old(self)@.drop_first());
        event
    }
}

/// Staging keeps the buffer bounded, keeps a marker at the front only, and
/// never drops the event being staged, in particular not the terminal one.
pub proof fn law_staging_is_bounded(
    actor_id: String,
    events: Seq<MonitorEvent>,
    event: MonitorEvent,
)
    requires
        events.len() <= WATCH_BUFFER_CAP,
        marker_leads(events),
        !(event is Lagged),
    ensures
        staged(actor_id, events, event).len() <= WATCH_BUFFER_CAP,
        marker_leads(staged(actor_id, events, event)),
        staged(actor_id, events, event).last() == event,
{
}

/// Every staged transition is either still buffered or counted by the marker,
/// as long as the count does not saturate.
pub proof fn law_drops_are_accounted_for(
    actor_id: String,
    events: Seq<MonitorEvent>,
    event: MonitorEvent,
)
    requires
        events.len() <= WATCH_BUFFER_CAP,
        !(event is Lagged),
        lost(events) < u64::MAX,
    ensures
        lost(staged(actor_id, events, event)) + retained(staged(actor_id, events, event)).len()
            == lost(events) + retained(events).len() + 1,
{
}

/// `suffix` is the end of `whole`.
pub open spec fn is_suffix(suffix: Seq<MonitorEvent>, whole: Seq<MonitorEvent>) -> bool {
    suffix.len() <= whole.len() && suffix =~= whole.subrange(
        whole.len() - suffix.len(),
        whole.len() as int,
    )
}

/// Overflow drops the oldest transitions only: what is buffered stays a
/// suffix of everything that was staged.
pub proof fn law_buffer_is_a_suffix(
    actor_id: String,
    events: Seq<MonitorEvent>,
    trace: Seq<MonitorEvent>,
    event: MonitorEvent,
)
    requires
        events.len() <= WATCH_BUFFER_CAP,
        is_suffix(retained(events), trace),
        !(event is Lagged),
    ensures
        is_suffix(retained(staged(actor_id, events, event)), trace.push(event)),
{
    let before = retained(events);
    let after = retained(staged(actor_id, events, event));
    if events.len() < WATCH_BUFFER_CAP {
        assert(after =~= before.push(event));
    } else {
        let kept = events.subrange(2, events.len() as int);
        assert(staged(actor_id, events, event)[0] == marker(actor_id, events));
        assert(after =~= kept.push(event));
        assert forall|i: int| 0 <= i < kept.len() implies kept[i] == trace[trace.len() - kept.len()
            + i] by {
            if events[0] is Lagged {
                assert(before[i + 1] == kept[i]);
            } else {
                assert(before[i + 2] == kept[i]);
            }
        }
    }
}

/// Events are delivered oldest first, each once.
pub proof fn law_the_oldest_event_is_delivered(
    queue: WatchQueue,
    event: Option<MonitorEvent>,
    after: WatchQueue,
)
    requires
        queue.pops(event, after),
    ensures
        event is None <==> queue@.len() == 0,
        event matches Some(event) ==> queue@ == seq![event] + after@,
        event is None ==> after@ == queue@,
        after.actor_id == queue.actor_id,
{
    if event is Some {
        assert(queue@ =~= seq![event->0] + after@);
    }
}

} // verus!
