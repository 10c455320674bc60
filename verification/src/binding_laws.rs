//! What holds of an actor's slot and of what the actor watches, from one run to
//! the next.
use vstd::prelude::*;

use crate::binding::{BindingCore, BindingGuard, BindingState};
use crate::channel::{MailboxRef, UsageReceipt};
use crate::hub::MonitorRun;
use crate::hub_reports::{goes_on, hears, told};
use crate::monitor::MonitorEvent;
use crate::policy::RestartMode;
use crate::registry::{
    ActorMonitorLease, ActorMonitors, MembershipWatch, MonitorsView, Registration,
};
use crate::stats::ActorStats;

verus! {

/// The slot is bound to that very mailbox.
pub open spec fn holds<M>(core: BindingCore<M>, mailbox: MailboxRef<M>) -> bool {
    core.current matches BindingState::Bound(current) && current.identity() == mailbox.identity()
}

/// The watch at `i` is one of the current membership, which no run keeps open.
pub open spec fn awaits_removal<M>(core: BindingCore<M>, i: int) -> bool {
    &&& 0 <= i < core.monitors@.watches.len()
    &&& hears(core.monitors@.watches[i], core.monitors@.epoch)
    &&& !goes_on(core.monitors@, None, core.monitors@.epoch)
    &&& !(core.monitors@.lifecycle is Removed)
}

/// The watch at `i` has been told that the actor is gone, and nothing more.
pub open spec fn told_removal<M>(core: BindingCore<M>, after: BindingCore<M>, i: int) -> bool {
    told(
        core.monitors@.watches[i],
        after.monitors@.watches[i],
        seq![
            MonitorEvent::Removed {
                actor_id: core.monitors@.actor_id,
                generation: core.monitors@.last_generation,
            },
        ],
    )
}

/// Whether a watch still hands on what it hears.
pub open spec fn is_live(watch: MembershipWatch, terminated: bool) -> bool {
    !(watch.cancelled || watch.finished || watch.subject_gone || terminated)
}

/// Runs are handed out under ever larger ids. A run asked for after the actor was
/// removed is one that starts the next membership; every other one is not.
pub proof fn law_runs_are_numbered<M>(
    core: BindingCore<M>,
    first: MonitorRun,
    between: BindingCore<M>,
    second: MonitorRun,
    after: BindingCore<M>,
)
    requires
        core.opens_run(first, between),
        between.opens_run(second, after),
        core.monitors@.next_run_id < u64::MAX - 1,
    ensures
        first.run_id == core.monitors@.next_run_id,
        second.run_id == first.run_id + 1,
        core.current is Terminated ==> first.reopens_epoch == Some(core.monitors@.epoch)
            && second.reopens_epoch == Some(core.monitors@.epoch),
        !(core.current is Terminated) ==> first.reopens_epoch is None && second.reopens_epoch is None,
        after.current == core.current && after.latest_bind_run == core.latest_bind_run
            && after.outbound_monitors == core.outbound_monitors,
        after.monitors@.watches == core.monitors@.watches && after.monitors@.runs
            == core.monitors@.runs && after.monitors@.epoch == core.monitors@.epoch,
{
}

/// A run that comes late finds the slot taken: once a later run has had it, an
/// earlier one gets no lease and changes nothing.
pub proof fn law_late_runs_come_away_empty<M>(
    core: BindingCore<M>,
    newer: MonitorRun,
    mailbox: MailboxRef<M>,
    lease: Option<ActorMonitorLease>,
    bound: BindingCore<M>,
    older: MonitorRun,
    stale: MailboxRef<M>,
    nothing: Option<ActorMonitorLease>,
    after: BindingCore<M>,
)
    requires
        core.binds(mailbox, newer, lease, bound),
        lease is Some,
        older.run_id < newer.run_id,
        bound.binds(stale, older, nothing, after),
    ensures
        bound.current == BindingState::Bound(mailbox),
        bound.latest_bind_run == Some(newer.run_id),
        nothing is None,
        after.current == bound.current,
        after.latest_bind_run == bound.latest_bind_run,
        after.monitors == bound.monitors,
        after.outbound_monitors == bound.outbound_monitors,
{
}

/// Who gets the slot: a run that is not older than the newest one that had it,
/// that the membership lets in and that reopens the slot where it is closed. A
/// run that the membership refuses closes the slot.
pub proof fn law_who_gets_the_slot<M>(
    core: BindingCore<M>,
    mailbox: MailboxRef<M>,
    run: MonitorRun,
    lease: Option<ActorMonitorLease>,
    after: BindingCore<M>,
)
    requires
        core.binds(mailbox, run, lease, after),
    ensures
        ({
            let in_order = match core.latest_bind_run {
                Some(newest) => newest <= run.run_id,
                None => true,
            };
            let open = core.current is Terminated ==> run.reopens_epoch is Some;
            let admitted = core.monitors@.admits(run.reopens_epoch) is Some;
            &&& lease is Some <==> in_order && open && admitted
            &&& lease is Some ==> after.current == BindingState::Bound(mailbox)
            &&& lease matches Some(lease) ==> lease.epoch == after.outbound_monitors.epoch
            &&& in_order && open && !admitted ==> after.current is Terminated
            &&& in_order && open ==> after.latest_bind_run == Some(run.run_id)
            &&& !(in_order && open) ==> after.current == core.current && after.monitors
                == core.monitors
            &&& after.counters == core.counters && after.identity == core.identity
                && after.actor_id == core.actor_id && after.size_hint == core.size_hint
                && after.released == core.released
        }),
{
}

/// A run that starts the next membership gets a lease of its own, which no
/// earlier one equals, and starts out watching nobody. Every other run keeps what
/// the actor watches.
pub proof fn law_leases_follow_the_membership<M>(
    core: BindingCore<M>,
    mailbox: MailboxRef<M>,
    run: MonitorRun,
    lease: Option<ActorMonitorLease>,
    after: BindingCore<M>,
)
    requires
        core.binds(mailbox, run, lease, after),
        lease is Some,
    ensures
        run.reopens_epoch == Some(core.monitors@.epoch) ==> {
            &&& lease->0.epoch > core.outbound_monitors.epoch
            &&& after.outbound_monitors.watches@.len() == 0
            &&& !after.outbound_monitors.terminated
        },
        run.reopens_epoch != Some(core.monitors@.epoch) ==> {
            &&& lease->0.epoch == core.outbound_monitors.epoch
            &&& after.outbound_monitors == core.outbound_monitors
        },
{
    crate::hub_reports::law_admission(core.monitors@, run);
}

/// Taking the mailbox away leaves the slot open for the next run. It happens only
/// to a bound slot, and, where a mailbox is named, only to the one bound to it.
pub proof fn law_unbound_slots_wait_for_the_next_run<M>(
    core: BindingCore<M>,
    mailbox: MailboxRef<M>,
    changed: bool,
    after: BindingCore<M>,
)
    ensures
        core.unbinds(changed, after) ==> (changed <==> core.current is Bound),
        core.unbinds_mailbox(mailbox, changed, after) ==> (changed <==> holds(core, mailbox)),
        core.unbinds(changed, after) || core.unbinds_mailbox(mailbox, changed, after) ==> {
            &&& changed ==> after.current is Unbound
            &&& !changed ==> after.current@ == core.current@
            &&& after.monitors == core.monitors
            &&& after.outbound_monitors == core.outbound_monitors
            &&& after.latest_bind_run == core.latest_bind_run
            &&& after.counters == core.counters
        },
{
}

/// A removed actor's slot is closed, its watches hear that it is gone, and what
/// it watched itself is over. Where a mailbox is named, this happens only to the
/// slot that is bound to it.
pub proof fn law_removed_actors_are_gone<M>(
    core: BindingCore<M>,
    mailbox: MailboxRef<M>,
    changed: bool,
    after: BindingCore<M>,
    i: int,
)
    requires
        awaits_removal(core, i),
    ensures
        core.terminates(after) ==> after.current is Terminated && told_removal(core, after, i)
            && after.outbound_monitors.terminated && after.latest_bind_run == core.latest_bind_run
            && after.counters == core.counters,
        core.terminates_mailbox(mailbox, changed, after) ==> {
            &&& changed <==> holds(core, mailbox)
            &&& changed ==> after.current is Terminated && told_removal(core, after, i)
                && after.outbound_monitors.terminated && after.latest_bind_run
                == core.latest_bind_run
            &&& !changed ==> after == core
        },
        core.releases(after) ==> after.released && after.current == core.current && told_removal(
            core,
            after,
            i,
        ) && after.outbound_monitors.terminated && after.counters == core.counters,
        core.releases(after) || core.terminates(after) ==> after.identity == core.identity
            && after.actor_id == core.actor_id && after.size_hint == core.size_hint
            && after.latest_bind_run == core.latest_bind_run && after.outbound_monitors.watches
            == core.outbound_monitors.watches && after.outbound_monitors.epoch
            == core.outbound_monitors.epoch,
{
    crate::hub_reports::law_watches_hear_the_removal(core.monitors@, core.monitors@.epoch, i);
}

/// A run that is dropped without a word frees the slot if it still has it: for
/// the next run where its policy restarts after failures, and for good where it
/// does not. A slot that another run has by then is left alone.
pub proof fn law_dropped_runs_free_the_slot<M>(
    guard: BindingGuard<M>,
    core: BindingCore<M>,
    cleared: bool,
    after: BindingCore<M>,
    i: int,
)
    requires
        guard.gives_back(core, cleared, after),
        awaits_removal(core, i),
    ensures
        cleared <==> holds(core, guard.mailbox),
        !cleared ==> after.current@ == core.current@,
        cleared && guard.restart_policy.mode != RestartMode::Never ==> after.current is Unbound,
        cleared && guard.restart_policy.mode == RestartMode::Never ==> after.current is Terminated
            && told_removal(core, after, i) && after.outbound_monitors.terminated,
        !cleared || guard.restart_policy.mode != RestartMode::Never ==> after.monitors
            == core.monitors && after.outbound_monitors == core.outbound_monitors,
        after.latest_bind_run == core.latest_bind_run && after.counters == core.counters,
{
    crate::hub_reports::law_watches_hear_the_removal(core.monitors@, core.monitors@.epoch, i);
}

/// A lease is over once its actor was removed or added again.
pub proof fn law_when_leases_end(monitors: ActorMonitors, lease: ActorMonitorLease)
    ensures
        monitors.stopped(lease) <==> monitors.terminated || lease.epoch != monitors.epoch,
        forall|after: ActorMonitors| #[trigger]
            monitors.terminates(after) ==> after.stopped(lease) && after.watches
                == monitors.watches && after.epoch == monitors.epoch,
        forall|fresh: ActorMonitorLease, after: ActorMonitors| #[trigger]
            monitors.reopens(fresh, after) ==> !after.stopped(fresh) && after.watches@.len() == 0
                && after.next_watch == monitors.next_watch && (lease.epoch <= monitors.epoch
                ==> after.stopped(lease)),
{
}

/// Cancelling, finishing and losing the subject each silence the watches they are
/// about, and no others; nothing else about a watch changes.
pub proof fn law_silenced_watches(m: MonitorsView, id: u64, subject: u64, i: int)
    requires
        0 <= i < m.watches.len(),
    ensures
        ({
            let watch = m.watches[i];
            let cancelled = m.after_cancel(id);
            let finished = m.after_finish(id);
            let gone = m.after_drop(subject);
            &&& cancelled.watches[i].cancelled == (watch.cancelled || watch.id == id)
            &&& cancelled.watches[i].finished == watch.finished
            &&& cancelled.watches[i].subject_gone == watch.subject_gone
            &&& finished.watches[i].finished == (watch.finished || watch.id == id)
            &&& finished.watches[i].cancelled == watch.cancelled
            &&& finished.watches[i].subject_gone == watch.subject_gone
            &&& gone.watches[i].subject_gone == (watch.subject_gone || watch.subject == subject)
            &&& gone.watches[i].cancelled == watch.cancelled
            &&& gone.watches[i].finished == watch.finished
            &&& cancelled.watches[i].id == watch.id && cancelled.watches[i].subject
                == watch.subject
            &&& finished.watches[i].id == watch.id && finished.watches[i].subject == watch.subject
            &&& gone.watches[i].id == watch.id && gone.watches[i].subject == watch.subject
            &&& cancelled.watches.len() == m.watches.len()
            &&& finished.watches.len() == m.watches.len()
            &&& gone.watches.len() == m.watches.len()
            &&& cancelled.epoch == m.epoch && finished.epoch == m.epoch && gone.epoch == m.epoch
            &&& cancelled.next_watch == m.next_watch && finished.next_watch == m.next_watch
                && gone.next_watch == m.next_watch
            &&& cancelled.terminated == m.terminated && finished.terminated == m.terminated
                && gone.terminated == m.terminated
        }),
{
}

/// A lease that is over registers nothing.
pub proof fn law_stale_leases_register_nothing(
    m: MonitorsView,
    lease: ActorMonitorLease,
    subject: u64,
)
    ensures
        m.after_register(lease, subject).1 is Stale <==> lease.epoch != m.epoch,
        lease.epoch != m.epoch ==> m.after_register(lease, subject).0 == m,
{
}

proof fn lemma_live_ones_are_kept(m: MonitorsView, watch: MembershipWatch)
    ensures
        crate::registry::delivering(m.watches, m.terminated).contains(watch)
            <==> m.watches.contains(watch) && is_live(watch, m.terminated),
{
    broadcast use vstd::seq_lib::group_seq_properties;

    let pred = |watch: MembershipWatch| crate::registry::delivers(watch, m.terminated);
    assert(crate::registry::delivering(m.watches, m.terminated) == m.watches.filter(pred));
    if m.watches.contains(watch) && is_live(watch, m.terminated) {
        let k = choose|k: int| 0 <= k < m.watches.len() && m.watches[k] == watch;
        m.watches.lemma_filter_contains(pred, k);
    }
    if m.watches.filter(pred).contains(watch) {
        m.watches.lemma_filter_contains_rev(pred, watch);
    }
}

/// Registering keeps the live watches, in their order, and drops the others. A
/// subject that a live one watches is watched by that one; any other gets a new
/// watch, under an id that was never used.
pub proof fn law_registering_keeps_the_live_watches(
    m: MonitorsView,
    lease: ActorMonitorLease,
    subject: u64,
    watch: MembershipWatch,
)
    requires
        m.wf(),
        lease.epoch == m.epoch,
        m.next_watch < u64::MAX,
    ensures
        ({
            let (after, found) = m.after_register(lease, subject);
            let watched = exists|i: int|
                0 <= i < m.watches.len() && (#[trigger] m.watches[i]).subject == subject && is_live(
                    m.watches[i],
                    m.terminated,
                );
            let fresh = MembershipWatch {
                id: m.next_watch,
                subject,
                cancelled: false,
                finished: false,
                subject_gone: false,
            };
            &&& watched <==> found is Existing
            &&& !watched <==> found is Installed
            &&& m.watches.contains(watch) && is_live(watch, m.terminated) ==> after.watches.contains(
                watch,
            )
            &&& m.watches.contains(watch) && is_live(watch, m.terminated) && watch.subject
                == subject ==> found == Registration::Existing(watch.id)
            &&& after.watches.contains(watch) ==> watch == fresh || (m.watches.contains(watch)
                && is_live(watch, m.terminated))
            &&& !watched ==> found == Registration::Installed(m.next_watch)
                && after.watches.last() == fresh && after.watches.len() > 0 && after.next_watch
                == m.next_watch + 1
            &&& watched ==> after.next_watch == m.next_watch
            &&& after.epoch == m.epoch && after.terminated == m.terminated
        }),
{
    broadcast use vstd::seq_lib::group_seq_properties;

    let (after, found) = m.after_register(lease, subject);
    let live = crate::registry::delivering(m.watches, m.terminated);
    let fresh = MembershipWatch {
        id: m.next_watch,
        subject,
        cancelled: false,
        finished: false,
        subject_gone: false,
    };
    lemma_live_ones_are_kept(m, watch);
    if crate::registry::watches_subject(live, subject) {
        let k = choose|k: int| 0 <= k < live.len() && (#[trigger] live[k]).subject == subject;
        lemma_first_of_subject(live, subject, k);
        let at = choose|at: int| crate::registry::subject_at(live, subject, at);
        assert(live.contains(live[at]));
        lemma_live_ones_are_kept(m, live[at]);
        let i = choose|i: int| 0 <= i < m.watches.len() && m.watches[i] == live[at];
        assert(m.watches[i].subject == subject);
        if m.watches.contains(watch) && is_live(watch, m.terminated) && watch.subject == subject {
            let j = choose|j: int| 0 <= j < m.watches.len() && m.watches[j] == watch;
            assert(m.watches[j].subject == m.watches[i].subject);
            assert(i == j);
        }
    } else {
        assert forall|i: int|
            0 <= i < m.watches.len() && (#[trigger] m.watches[i]).subject
                == subject implies !is_live(m.watches[i], m.terminated) by {
            if is_live(m.watches[i], m.terminated) {
                assert(m.watches.contains(m.watches[i]));
                lemma_live_ones_are_kept(m, m.watches[i]);
                let k = choose|k: int| 0 <= k < live.len() && live[k] == m.watches[i];
                assert(live[k].subject == subject);
            }
        }
        assert(after.watches == live.push(fresh));
        if m.watches.contains(watch) && is_live(watch, m.terminated) {
            let k = choose|k: int| 0 <= k < live.len() && live[k] == watch;
            assert(after.watches[k] == watch);
        }
        if after.watches.contains(watch) && watch != fresh {
            let k = choose|k: int| 0 <= k < after.watches.len() && after.watches[k] == watch;
            assert(live[k] == watch);
        }
    }
}

proof fn lemma_first_of_subject(watches: Seq<MembershipWatch>, subject: u64, k: int)
    requires
        0 <= k < watches.len(),
        watches[k].subject == subject,
    ensures
        exists|i: int| crate::registry::subject_at(watches, subject, i),
    decreases k,
{
    if forall|j: int| 0 <= j < k ==> (#[trigger] watches[j]).subject != subject {
        assert(crate::registry::subject_at(watches, subject, k));
    } else {
        let j = choose|j: int| 0 <= j < k && (#[trigger] watches[j]).subject == subject;
        lemma_first_of_subject(watches, subject, j);
    }
}

/// A slot without a mailbox shows no messages and no capacity; one with a mailbox
/// shows what its mailbox tells. Either way the counters are shown as they are.
pub proof fn law_slots_are_sampled<M>(
    core: BindingCore<M>,
    stats: ActorStats,
    receipt: Option<UsageReceipt<M>>,
)
    requires
        core.samples(stats, receipt),
    ensures
        stats.actor_id@ == core.actor_id@,
        stats.messages_received == core.counters.messages_received && stats.messages_accepted
            == core.counters.messages_accepted && stats.messages_conflated
            == core.counters.messages_conflated && stats.sends_rejected
            == core.counters.sends_rejected && stats.outstanding_offloads
            == core.counters.outstanding_offloads,
        core.counters.observe_message_size ==> stats.message_bytes_accepted == Some(
            core.counters.message_bytes_accepted,
        ),
        !core.counters.observe_message_size ==> stats.message_bytes_accepted is None,
        !(core.current is Bound) ==> stats.mailbox_depth == 0 && stats.mailbox_capacity == 0
            && receipt is None,
        core.current matches BindingState::Bound(mailbox) ==> stats.mailbox_capacity
            == mailbox.sender.slots() && receipt is Some && mailbox.sender.uses(
            (stats.mailbox_depth, stats.mailbox_capacity),
            receipt->0,
        ),
{
}

/// A run that gets the slot runs under the next generation, and the watches of an
/// ongoing membership hear that it started.
pub proof fn law_bound_runs_are_booked<M>(
    core: BindingCore<M>,
    mailbox: MailboxRef<M>,
    run: MonitorRun,
    lease: Option<ActorMonitorLease>,
    after: BindingCore<M>,
    i: int,
)
    requires
        core.binds(mailbox, run, lease, after),
        lease is Some,
        core.monitors@.next_generation < u64::MAX,
        core.monitors@.epoch < u64::MAX,
        0 <= i < core.monitors@.watches.len(),
        hears(core.monitors@.watches[i], core.monitors@.epoch),
        core.monitors@.watches[i].min_generation <= core.monitors@.next_generation,
    ensures
        after.monitors@.runs.dom().contains(run.run_id),
        after.monitors@.runs[run.run_id].generation == core.monitors@.next_generation,
        after.monitors@.next_generation == core.monitors@.next_generation + 1,
        run.reopens_epoch is None ==> after.monitors@.epoch == core.monitors@.epoch && told(
            core.monitors@.watches[i],
            after.monitors@.watches[i],
            seq![
                MonitorEvent::Started {
                    actor_id: core.monitors@.actor_id,
                    generation: core.monitors@.next_generation,
                },
            ],
        ),
{
    crate::hub_reports::law_admission(core.monitors@, run);
    crate::hub_reports::law_starts_are_booked(core.monitors@, run);
    if run.reopens_epoch is None {
        crate::hub_reports::law_watches_hear_the_start(core.monitors@, run, i);
    }
}

} // verus!
