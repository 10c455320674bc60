//! Message counters and mailbox gauges.
use vstd::prelude::*;

use crate::policy::ScopePathSegment;

verus! {

/// A point-in-time snapshot of one actor's message and mailbox statistics.
///
/// Message counters accumulate for the lifetime of the actor binding and
/// therefore survive restarts. Outstanding-work gauges and mailbox fields
/// describe the currently bound incarnation and are zero while no mailbox is
/// bound.
#[derive(Debug, PartialEq, Eq)]
pub struct ActorStats {
    /// Actor id used to correlate these stats with supervisor snapshots.
    pub actor_id: String,
    /// Messages delivered to the actor for handling.
    pub messages_received: u64,
    /// Messages accepted into the mailbox.
    pub messages_accepted: u64,
    /// Unread messages replaced by newer ones in a conflating mailbox.
    pub messages_conflated: u64,
    /// Total bytes reported for accepted messages, or `None` when message-size
    /// observation is off.
    pub message_bytes_accepted: Option<u64>,
    /// Mailbox sends rejected before acceptance.
    pub sends_rejected: u64,
    /// Offloads currently owned by this actor incarnation.
    pub outstanding_offloads: u64,
    /// Messages currently occupying the bound mailbox.
    pub mailbox_depth: usize,
    /// Maximum capacity of the currently bound mailbox.
    pub mailbox_capacity: usize,
}

impl Clone for ActorStats {
    fn clone(&self) -> (stats: Self)
        ensures
            stats == *self,
    {
        ActorStats {
            actor_id: self.actor_id.clone(),
            messages_received: self.messages_received,
            messages_accepted: self.messages_accepted,
            messages_conflated: self.messages_conflated,
            message_bytes_accepted: self.message_bytes_accepted,
            sends_rejected: self.sends_rejected,
            outstanding_offloads: self.outstanding_offloads,
            mailbox_depth: self.mailbox_depth,
            mailbox_capacity: self.mailbox_capacity,
        }
    }
}

/// Actor statistics paired with their current supervision membership.
#[derive(Debug, PartialEq, Eq)]
pub struct ScopedActorStats {
    /// Identity path of the nested scopes containing the actor.
    pub scope_path: Vec<ScopePathSegment>,
    /// Identity of the actor's current supervisor membership.
    pub lineage: u64,
    /// Actor-local counters, gauges, and mailbox data.
    pub stats: ActorStats,
}

/// Counters of one actor binding. They wrap on overflow.
#[derive(Clone, Copy, Debug, PartialEq, Eq, Structural)]
pub struct ActorStatsCounters {
    /// Messages delivered for handling.
    pub messages_received: u64,
    /// Messages accepted into a mailbox.
    pub messages_accepted: u64,
    /// Unread messages replaced by newer ones.
    pub messages_conflated: u64,
    /// Sends rejected before acceptance.
    pub sends_rejected: u64,
    /// Bytes reported for accepted messages.
    pub message_bytes_accepted: u64,
    /// Whether message sizes are observed.
    pub observe_message_size: bool,
    /// Offloads owned by the current incarnation.
    pub outstanding_offloads: u64,
}

impl ActorStatsCounters {
    /// Counters of a binding that has seen nothing.
    pub fn new() -> (counters: Self)
        ensures
            counters == (ActorStatsCounters {
                messages_received: 0,
                messages_accepted: 0,
                messages_conflated: 0,
                sends_rejected: 0,
                message_bytes_accepted: 0,
                observe_message_size: false,
                outstanding_offloads: 0,
            }),
    {
        ActorStatsCounters {
            messages_received: 0,
            messages_accepted: 0,
            messages_conflated: 0,
            sends_rejected: 0,
            message_bytes_accepted: 0,
            observe_message_size: false,
            outstanding_offloads: 0,
        }
    }

    /// The counters after one delivery.
    pub open spec fn with_received(self) -> Self {
        ActorStatsCounters {
            messages_received: self.messages_received.wrapping_add(1),
            ..self
        }
    }

    /// The counters after one send.
    pub open spec fn with_send(self, accepted: bool) -> Self {
        if accepted {
            ActorStatsCounters {
                messages_accepted: self.messages_accepted.wrapping_add(1),
                ..self
            }
        } else {
            ActorStatsCounters { sends_rejected: self.sends_rejected.wrapping_add(1), ..self }
        }
    }

    /// The counters after `count` replacements.
    pub open spec fn with_conflated(self, count: u64) -> Self {
        ActorStatsCounters {
            messages_conflated: self.messages_conflated.wrapping_add(count),
            ..self
        }
    }

    /// The counters after an accepted message of `size` bytes.
    pub open spec fn with_message_size(self, size: usize) -> Self {
        ActorStatsCounters {
            message_bytes_accepted: self.message_bytes_accepted.wrapping_add(size as u64),
            ..self
        }
    }

    /// The counters after an acceptance: one accepted message, its
    /// replacements, and its size where one was taken.
    pub open spec fn with_accepted(self, conflated: u64, size: Option<usize>) -> Self {
        let counted = self.with_send(true).with_conflated(conflated);
        match size {
            Some(size) => counted.with_message_size(size),
            None => counted,
        }
    }

    /// Counts one delivery.
    pub fn record_received(&mut self)
        ensures
            *final(self) == old(self).with_received(),
    {
        self.messages_received = self.messages_received.wrapping_add(1);
    }

    /// Counts one send.
    pub fn record_send(&mut self, accepted: bool)
        ensures
            *final(self) == old(self).with_send(accepted),
    {
        if accepted {
            self.messages_accepted = self.messages_accepted.wrapping_add(1);
        } else {
            self.sends_rejected = self.sends_rejected.wrapping_add(1);
        }
    }

    /// Counts `count` replaced messages.
    pub fn record_conflated(&mut self, count: u64)
        ensures
            *final(self) == old(self).with_conflated(count),
    {
        self.messages_conflated = self.messages_conflated.wrapping_add(count);
    }

    /// Adds the size of an accepted message.
    pub fn record_message_size(&mut self, size: usize)
        ensures
            *final(self) == old(self).with_message_size(size),
    {
        self.message_bytes_accepted = self.message_bytes_accepted.wrapping_add(size as u64);
    }

    /// Counts an accepted message with its replacements and its size.
    pub fn record_accepted(&mut self, conflated: u64, size: Option<usize>)
        ensures
            *final(self) == old(self).with_accepted(conflated, size),
    {
        self.record_send(true);
        self.record_conflated(conflated);
        if let Some(size) = size {
            self.record_message_size(size);
        }
    }

    /// Turns message-size observation on.
    pub fn enable_message_size(&mut self)
        ensures
            *final(self) == (ActorStatsCounters { observe_message_size: true, ..*old(self) }),
    {
        self.observe_message_size = true;
    }

    /// Sets the number of offloads owned by the current incarnation.
    pub fn set_outstanding_offloads(&mut self, outstanding: usize)
        ensures
            *final(self) == (ActorStatsCounters {
                outstanding_offloads: outstanding as u64,
                ..*old(self)
            }),
    {
        self.outstanding_offloads = outstanding as u64;
    }

    /// What a snapshot of these counters shows.
    pub open spec fn shows(
        self,
        stats: ActorStats,
        actor_id: Seq<char>,
        depth: usize,
        capacity: usize,
    ) -> bool {
        &&& stats.actor_id@ == actor_id
        &&& stats.messages_received == self.messages_received
        &&& stats.messages_accepted == self.messages_accepted
        &&& stats.messages_conflated == self.messages_conflated
        &&& stats.message_bytes_accepted == if self.observe_message_size {
            Some(self.message_bytes_accepted)
        } else {
            None
        }
        &&& stats.sends_rejected == self.sends_rejected
        &&& stats.outstanding_offloads == self.outstanding_offloads
        &&& stats.mailbox_depth == depth
        &&& stats.mailbox_capacity == capacity
    }

    /// Samples the counters.
    pub fn snapshot(
        &self,
        actor_id: &String,
        mailbox_depth: usize,
        mailbox_capacity: usize,
    ) -> (stats: ActorStats)
        ensures
            self.shows(stats, actor_id@, mailbox_depth, mailbox_capacity),
    {
        ActorStats {
            actor_id: actor_id.clone(),
            messages_received: self.messages_received,
            messages_accepted: self.messages_accepted,
            messages_conflated: self.messages_conflated,
            message_bytes_accepted: if self.observe_message_size {
                Some(self.message_bytes_accepted)
            } else {
                None
            },
            sends_rejected: self.sends_rejected,
            outstanding_offloads: self.outstanding_offloads,
            mailbox_depth,
            mailbox_capacity,
        }
    }
}

/// One recording.
pub enum Recording {
    /// A delivery.
    Received,
    /// A send, accepted or not.
    Send(bool),
    /// Replaced messages.
    Conflated(u64),
    /// The size of an accepted message.
    MessageSize(usize),
    /// Sizes are observed from now on.
    EnableMessageSize,
    /// The number of offloads.
    OutstandingOffloads(usize),
}

/// The counters after `recordings`.
pub open spec fn recorded(
    counters: ActorStatsCounters,
    recordings: Seq<Recording>,
) -> ActorStatsCounters
    decreases recordings.len(),
{
    if recordings.len() == 0 {
        counters
    } else {
        let before = recorded(counters, recordings.drop_last());
        match recordings.last() {
            Recording::Received => before.with_received(),
            Recording::Send(accepted) => before.with_send(accepted),
            Recording::Conflated(count) => before.with_conflated(count),
            Recording::MessageSize(size) => before.with_message_size(size),
            Recording::EnableMessageSize => ActorStatsCounters {
                observe_message_size: true,
                ..before
            },
            Recording::OutstandingOffloads(outstanding) => ActorStatsCounters {
                outstanding_offloads: outstanding as u64,
                ..before
            },
        }
    }
}

/// What recordings sum to.
pub struct Totals {
    pub received: nat,
    pub accepted: nat,
    pub rejected: nat,
    pub conflated: nat,
    pub bytes: nat,
    pub observes_size: bool,
    pub offloads: nat,
}

/// The sums over `recordings`, and the last number of offloads.
pub open spec fn totals(recordings: Seq<Recording>) -> Totals
    decreases recordings.len(),
{
    if recordings.len() == 0 {
        Totals {
            received: 0,
            accepted: 0,
            rejected: 0,
            conflated: 0,
            bytes: 0,
            observes_size: false,
            offloads: 0,
        }
    } else {
        let before = totals(recordings.drop_last());
        match recordings.last() {
            Recording::Received => Totals { received: before.received + 1, ..before },
            Recording::Send(true) => Totals { accepted: before.accepted + 1, ..before },
            Recording::Send(false) => Totals { rejected: before.rejected + 1, ..before },
            Recording::Conflated(count) => Totals {
                conflated: before.conflated + count as nat,
                ..before
            },
            Recording::MessageSize(size) => Totals { bytes: before.bytes + size as nat, ..before },
            Recording::EnableMessageSize => Totals { observes_size: true, ..before },
            Recording::OutstandingOffloads(outstanding) => Totals {
                offloads: outstanding as nat,
                ..before
            },
        }
    }
}

/// Whatever is recorded on fresh counters, in any order, each counter is the sum
/// of its recordings and a snapshot shows these sums, as long as none exceeds
/// the largest `u64`.
pub proof fn law_snapshots_show_the_totals(
    fresh: ActorStatsCounters,
    recordings: Seq<Recording>,
    stats: ActorStats,
    actor_id: Seq<char>,
    depth: usize,
    capacity: usize,
)
    requires
        fresh == (ActorStatsCounters {
            messages_received: 0,
            messages_accepted: 0,
            messages_conflated: 0,
            sends_rejected: 0,
            message_bytes_accepted: 0,
            observe_message_size: false,
            outstanding_offloads: 0,
        }),
        totals(recordings).received <= u64::MAX,
        totals(recordings).accepted <= u64::MAX,
        totals(recordings).rejected <= u64::MAX,
        totals(recordings).conflated <= u64::MAX,
        totals(recordings).bytes <= u64::MAX,
        recorded(fresh, recordings).shows(stats, actor_id, depth, capacity),
    ensures
        stats.actor_id@ == actor_id,
        stats.messages_received == totals(recordings).received,
        stats.messages_accepted == totals(recordings).accepted,
        stats.sends_rejected == totals(recordings).rejected,
        stats.messages_conflated == totals(recordings).conflated,
        stats.message_bytes_accepted is Some == totals(recordings).observes_size,
        stats.message_bytes_accepted matches Some(bytes) ==> bytes == totals(recordings).bytes,
        stats.outstanding_offloads == totals(recordings).offloads,
        stats.mailbox_depth == depth,
        stats.mailbox_capacity == capacity,
{
    lemma_recorded(fresh, recordings);
}

/// Each counter is the sum of its recordings.
proof fn lemma_recorded(fresh: ActorStatsCounters, recordings: Seq<Recording>)
    requires
        fresh == (ActorStatsCounters {
            messages_received: 0,
            messages_accepted: 0,
            messages_conflated: 0,
            sends_rejected: 0,
            message_bytes_accepted: 0,
            observe_message_size: false,
            outstanding_offloads: 0,
        }),
        totals(recordings).received <= u64::MAX,
        totals(recordings).accepted <= u64::MAX,
        totals(recordings).rejected <= u64::MAX,
        totals(recordings).conflated <= u64::MAX,
        totals(recordings).bytes <= u64::MAX,
    ensures
        ({
            let counters = recorded(fresh, recordings);
            let sums = totals(recordings);
            &&& counters.messages_received == sums.received
            &&& counters.messages_accepted == sums.accepted
            &&& counters.sends_rejected == sums.rejected
            &&& counters.messages_conflated == sums.conflated
            &&& counters.message_bytes_accepted == sums.bytes
            &&& counters.observe_message_size == sums.observes_size
            &&& counters.outstanding_offloads == sums.offloads
        }),
    decreases recordings.len(),
{
    if recordings.len() > 0 {
        lemma_recorded(fresh, recordings.drop_last());
    }
}

/// Counters go round at their end: what was counted is exact up to multiples of
/// their range, and each event moves the counter it is about and no other.
pub proof fn law_counters_go_round(
    counters: ActorStatsCounters,
    conflated: u64,
    size: usize,
    accepted: bool,
)
    ensures
        ({
            let after = counters.with_received();
            &&& after.messages_received as int == (counters.messages_received + 1) % 0x1_0000_0000_0000_0000
            &&& after == (ActorStatsCounters {
                messages_received: after.messages_received,
                ..counters
            })
        }),
        ({
            let after = counters.with_send(accepted);
            &&& accepted ==> after.messages_accepted as int == (counters.messages_accepted + 1)
                % 0x1_0000_0000_0000_0000 && after.sends_rejected == counters.sends_rejected
            &&& !accepted ==> after.sends_rejected as int == (counters.sends_rejected + 1)
                % 0x1_0000_0000_0000_0000 && after.messages_accepted == counters.messages_accepted
            &&& after.messages_received == counters.messages_received && after.messages_conflated
                == counters.messages_conflated && after.message_bytes_accepted
                == counters.message_bytes_accepted
        }),
        ({
            let after = counters.with_conflated(conflated);
            &&& after.messages_conflated as int == (counters.messages_conflated + conflated)
                % 0x1_0000_0000_0000_0000
            &&& after.messages_accepted == counters.messages_accepted && after.sends_rejected
                == counters.sends_rejected && after.messages_received
                == counters.messages_received && after.message_bytes_accepted
                == counters.message_bytes_accepted
        }),
        ({
            let after = counters.with_message_size(size);
            &&& after.message_bytes_accepted as int == (counters.message_bytes_accepted + size)
                % 0x1_0000_0000_0000_0000
            &&& after.messages_accepted == counters.messages_accepted && after.messages_conflated
                == counters.messages_conflated && after.messages_received
                == counters.messages_received
        }),
{
}

} // verus!
