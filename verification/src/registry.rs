//! Outbound watches of one actor membership.
//!
//! A watch belongs to the observing and the watched membership rather than to
//! an incarnation of either. Registering the same pair again finds the watch
//! that exists; terminating the membership ends all of its watches.
use vstd::prelude::*;

verus! {

/// A watch held by this membership.
#[derive(Clone, Copy, Debug, PartialEq, Eq, Structural)]
pub struct MembershipWatch {
    /// Identity of the watch.
    pub id: u64,
    /// Identity of the watched hub.
    pub subject: u64,
    /// Whether the observer cancelled the watch.
    pub cancelled: bool,
    /// Whether delivery is over.
    pub finished: bool,
    /// Whether the watched hub is gone.
    pub subject_gone: bool,
}

/// One actor incarnation's authority to register membership-owned watches.
///
/// Reopening a terminated membership advances its epoch, so contexts of the
/// retired membership cannot attach watches to its replacement.
#[derive(Clone, Copy, Debug, PartialEq, Eq, Structural)]
pub struct ActorMonitorLease {
    /// Epoch the lease was issued for.
    pub epoch: u64,
}

/// What a registration found.
#[derive(Clone, Copy, Debug, PartialEq, Eq, Structural)]
pub enum Registration {
    /// The lease is from an earlier membership; the watch is finished.
    Stale,
    /// The pair is already watched under this id.
    Existing(u64),
    /// A new watch, whose forwarder the caller installs.
    Installed(u64),
}

impl Registration {
    /// Reports whether the caller must install a forwarder.
    pub fn installed(self) -> (installed: bool)
        ensures
            installed == (self is Installed),
    {
        matches!(self, Registration::Installed(_))
    }
}

/// Owns the watches created by one actor membership.
pub struct ActorMonitors {
    /// Epoch of the current membership.
    pub epoch: u64,
    /// Whether the current membership has been terminated.
    pub terminated: bool,
    /// Watches of the current membership.
    pub watches: Vec<MembershipWatch>,
    /// Identity of the next watch.
    pub next_watch: u64,
}

/// Whether a watch of a membership still delivers.
pub open spec fn delivers(watch: MembershipWatch, terminated: bool) -> bool {
    !watch.cancelled && !terminated && !watch.finished && !watch.subject_gone
}

/// The watches that still deliver, in registration order.
pub open spec fn delivering(
    watches: Seq<MembershipWatch>,
    terminated: bool,
) -> Seq<MembershipWatch> {
    watches.filter(|watch: MembershipWatch| delivers(watch, terminated))
}

/// The first watch of `subject` stands at `i`.
pub open spec fn subject_at(watches: Seq<MembershipWatch>, subject: u64, i: int) -> bool {
    &&& 0 <= i < watches.len()
    &&& watches[i].subject == subject
    &&& forall|j: int| 0 <= j < i ==> (#[trigger] watches[j]).subject != subject
}

/// Some watch of `watches` is on `subject`.
pub open spec fn watches_subject(watches: Seq<MembershipWatch>, subject: u64) -> bool {
    exists|i: int| 0 <= i < watches.len() && (#[trigger] watches[i]).subject == subject
}

/// The id under which `watches` watch `subject`, if they do.
pub open spec fn watch_of(watches: Seq<MembershipWatch>, subject: u64) -> Option<u64> {
    if watches_subject(watches, subject) {
        Some(watches[choose|i: int| subject_at(watches, subject, i)].id)
    } else {
        None
    }
}

/// Mathematical content of [`ActorMonitors`].
pub struct MonitorsView {
    pub epoch: u64,
    pub terminated: bool,
    pub watches: Seq<MembershipWatch>,
    pub next_watch: u64,
}

impl View for ActorMonitors {
    type V = MonitorsView;

    open spec fn view(&self) -> MonitorsView {
        MonitorsView {
            epoch: self.epoch,
            terminated: self.terminated,
            watches: self.watches@,
            next_watch: self.next_watch,
        }
    }
}

impl MonitorsView {
    /// Ids are unique and below the next one, and no subject is watched twice.
    pub open spec fn wf(self) -> bool {
        &&& forall|i: int|
            0 <= i < self.watches.len() ==> (#[trigger] self.watches[i]).id < self.next_watch
        &&& forall|i: int, j: int|
            0 <= i < j < self.watches.len() ==> (#[trigger] self.watches[i]).id != (
            #[trigger] self.watches[j]).id && self.watches[i].subject != self.watches[j].subject
    }

    /// The registry after a registration, and what that found: the watch that
    /// already delivers, or a new one.
    pub open spec fn after_register(self, lease: ActorMonitorLease, subject: u64) -> (
        MonitorsView,
        Registration,
    ) {
        let live = delivering(self.watches, self.terminated);
        if lease.epoch != self.epoch {
            (self, Registration::Stale)
        } else {
            match watch_of(live, subject) {
                Some(id) => (MonitorsView { watches: live, ..self }, Registration::Existing(id)),
                None => (
                    MonitorsView {
                        watches: live.push(
                            MembershipWatch {
                                id: self.next_watch,
                                subject,
                                cancelled: false,
                                finished: false,
                                subject_gone: false,
                            },
                        ),
                        next_watch: (self.next_watch + 1) as u64,
                        ..self
                    },
                    Registration::Installed(self.next_watch),
                ),
            }
        }
    }

    /// The registry once the observer has cancelled watch `id`.
    pub open spec fn after_cancel(self, id: u64) -> MonitorsView {
        MonitorsView {
            watches: Seq::new(
                self.watches.len(),
                |i: int|
                    if self.watches[i].id == id {
                        MembershipWatch { cancelled: true, ..self.watches[i] }
                    } else {
                        self.watches[i]
                    },
            ),
            ..self
        }
    }

    /// The registry once delivery of watch `id` is over.
    pub open spec fn after_finish(self, id: u64) -> MonitorsView {
        MonitorsView {
            watches: Seq::new(
                self.watches.len(),
                |i: int|
                    if self.watches[i].id == id {
                        MembershipWatch { finished: true, ..self.watches[i] }
                    } else {
                        self.watches[i]
                    },
            ),
            ..self
        }
    }

    /// The registry once the hub of `subject` is gone.
    pub open spec fn after_drop(self, subject: u64) -> MonitorsView {
        MonitorsView {
            watches: Seq::new(
                self.watches.len(),
                |i: int|
                    if self.watches[i].subject == subject {
                        MembershipWatch { subject_gone: true, ..self.watches[i] }
                    } else {
                        self.watches[i]
                    },
            ),
            ..self
        }
    }
}

impl ActorMonitors {
    /// Ids are unique and below the next one, and no subject is watched twice.
    pub open spec fn wf(&self) -> bool {
        &&& forall|i: int|
            0 <= i < self.watches@.len() ==> (#[trigger] self.watches@[i]).id < self.next_watch
        &&& forall|i: int, j: int|
            0 <= i < j < self.watches@.len() ==> (#[trigger] self.watches@[i]).id != (
            #[trigger] self.watches@[j]).id && self.watches@[i].subject != self.watches@[j].subject
    }

    /// Whether the watches issued under `lease` have been stopped.
    pub open spec fn stopped(&self, lease: ActorMonitorLease) -> bool {
        lease.epoch != self.epoch || self.terminated
    }

    /// Creates the registry of a membership without watches.
    pub fn new() -> (monitors: Self)
        ensures
            monitors.wf(),
            monitors.epoch == 0,
            !monitors.terminated,
            monitors.watches@ == Seq::<MembershipWatch>::empty(),
            monitors.next_watch == 0,
    {
        ActorMonitors { epoch: 0, terminated: false, watches: Vec::new(), next_watch: 0 }
    }

    /// Issues a lease of the current membership.
    pub fn lease(&self) -> (lease: ActorMonitorLease)
        ensures
            lease.epoch == self.epoch,
    {
        ActorMonitorLease { epoch: self.epoch }
    }

    /// Reports whether watches issued under `lease` have been stopped.
    pub fn is_stopped(&self, lease: &ActorMonitorLease) -> (stopped: bool)
        ensures
            stopped == self.stopped(*lease),
    {
        lease.epoch != self.epoch || self.terminated
    }

    /// Drops the watches that no longer deliver.
    fn prune(&mut self)
        requires
            old(self).wf(),
        ensures
            final(self).wf(),
            final(self).epoch == old(self).epoch,
            final(self).terminated == old(self).terminated,
            final(self).next_watch == old(self).next_watch,
            final(self).watches@ == delivering(old(self).watches@, old(self).terminated),
    {
        let terminated = self.terminated;
        let ghost pred = |watch: MembershipWatch| delivers(watch, terminated);
        let mut kept: Vec<MembershipWatch> = Vec::new();
        let mut i: usize = 0;
        assert(self.watches@.take(0) =~= Seq::empty());
        proof {
            reveal(Seq::filter);
        }
        while i < self.watches.len()
            invariant
                i <= self.watches@.len(),
                self.wf(),
                pred == (|watch: MembershipWatch| delivers(watch, terminated)),
                kept@ == self.watches@.take(i as int).filter(pred),
                forall|k: int|
                    0 <= k < kept@.len() ==> exists|m: int|
                        0 <= m < i && #[trigger] self.watches@[m] == #[trigger] kept@[k],
                forall|k: int, l: int|
                    0 <= k < l < kept@.len() ==> (#[trigger] kept@[k]).id != (
                    #[trigger] kept@[l]).id && kept@[k].subject != kept@[l].subject,
            decreases self.watches.len() - i,
        {
            let watch = self.watches[i];
            let ghost before = kept@;
            assert(self.watches@.take(i + 1).drop_last() =~= self.watches@.take(i as int));
            assert(self.watches@.take(i + 1).last() == watch);
            proof {
                reveal(Seq::filter);
            }
            if !watch.cancelled && !terminated && !watch.finished && !watch.subject_gone {
                kept.push(watch);
                assert forall|k: int| 0 <= k < before.len() implies (#[trigger] kept@[k]).id
                    != watch.id && kept@[k].subject != watch.subject by {
                    let m = choose|m: int|
                        0 <= m < i && #[trigger] self.watches@[m] == before[k];
                    assert(self.watches@[m] == kept@[k]);
                    assert(self.watches@[i as int] == watch);
                }
                assert forall|k: int| 0 <= k < kept@.len() implies exists|m: int|
                    0 <= m < i + 1 && #[trigger] self.watches@[m] == #[trigger] kept@[k] by {
                    if k < before.len() {
                        let m = choose|m: int|
                            0 <= m < i && #[trigger] self.watches@[m] == before[k];
                        assert(self.watches@[m] == kept@[k]);
                    } else {
                        assert(self.watches@[i as int] == kept@[k]);
                    }
                }
            }
            i += 1;
        }
        assert(self.watches@.take(i as int) =~= self.watches@);
        assert forall|k: int| 0 <= k < kept@.len() implies (#[trigger] kept@[k]).id
            < self.next_watch by {
            let m = choose|m: int| 0 <= m < i && #[trigger] self.watches@[m] == kept@[k];
            assert(self.watches@[m].id < self.next_watch);
        }
        self.watches = kept;
    }

    /// Returns the unique live watch on `subject`, or adds one.
    pub fn register(&mut self, lease: &ActorMonitorLease, subject: u64) -> (found: Registration)
        requires
            old(self).wf(),
            old(self).next_watch < u64::MAX,
        ensures
            final(self).wf(),
            (final(self)@, found) == old(self)@.after_register(*lease, subject),
    {
        if lease.epoch != self.epoch {
            return Registration::Stale;
        }
        self.prune();
        let mut i: usize = 0;
        while i < self.watches.len() && self.watches[i].subject != subject
            invariant
                i <= self.watches@.len(),
                forall|j: int| 0 <= j < i ==> (#[trigger] self.watches@[j]).subject != subject,
            decreases self.watches.len() - i,
        {
            i += 1;
        }
        if i < self.watches.len() {
            proof {
                assert(subject_at(self.watches@, subject, i as int));
                assert(watches_subject(self.watches@, subject));
                let k = choose|k: int| subject_at(self.watches@, subject, k);
                assert(subject_at(self.watches@, subject, k));
                assert(k == i);
            }
            return Registration::Existing(self.watches[i].id);
        }
        let id = self.next_watch;
        self.next_watch = id + 1;
        self.watches.push(
            MembershipWatch {
                id,
                subject,
                cancelled: false,
                finished: false,
                subject_gone: false,
            },
        );
        Registration::Installed(id)
    }

    /// The registry `after` its actor was removed.
    pub open spec fn terminates(&self, after: Self) -> bool {
        &&& after.wf()
        &&& after == (ActorMonitors { terminated: true, ..*self })
    }

    /// Ends the membership: all of its watches stop.
    pub fn terminate(&mut self)
        requires
            old(self).wf(),
        ensures
            old(self).terminates(*final(self)),
    {
        self.terminated = true;
    }

    /// The registry `after` its actor was added again.
    pub open spec fn reopens(&self, lease: ActorMonitorLease, after: Self) -> bool {
        &&& after.wf()
        &&& after.epoch == self.epoch + 1
        &&& lease.epoch == after.epoch
        &&& !after.terminated
        &&& after.watches@ == Seq::<MembershipWatch>::empty()
        &&& after.next_watch == self.next_watch
    }

    /// Opens a fresh membership without watches and issues its lease.
    pub fn reopen(&mut self) -> (lease: ActorMonitorLease)
        requires
            old(self).wf(),
            old(self).epoch < u64::MAX,
        ensures
            old(self).reopens(lease, *final(self)),
    {
        self.epoch = self.epoch + 1;
        self.terminated = false;
        self.watches.clear();
        ActorMonitorLease { epoch: self.epoch }
    }

    /// Marks watch `id` as cancelled by its observer.
    pub fn cancel(&mut self, id: u64)
        requires
            old(self).wf(),
        ensures
            final(self).wf(),
            final(self)@ == old(self)@.after_cancel(id),
    {
        let ghost before = self.watches@;
        let mut i: usize = 0;
        while i < self.watches.len()
            invariant
                i <= self.watches@.len(),
                self.watches@.len() == before.len(),
                *self == (ActorMonitors { watches: self.watches, ..*old(self) }),
                forall|j: int|
                    0 <= j < i ==> #[trigger] self.watches@[j] == (if before[j].id == id {
                        MembershipWatch { cancelled: true, ..before[j] }
                    } else {
                        before[j]
                    }),
                forall|j: int| i <= j < before.len() ==> #[trigger] self.watches@[j] == before[j],
            decreases self.watches.len() - i,
        {
            if self.watches[i].id == id {
                self.watches[i].cancelled = true;
            }
            i += 1;
        }
        assert(self@.watches =~= old(self)@.after_cancel(id).watches);
        assert forall|j: int, k: int| 0 <= j < k < before.len() implies (
        #[trigger] self.watches@[j]).id != (#[trigger] self.watches@[k]).id
            && self.watches@[j].subject != self.watches@[k].subject by {
            assert(before[j].id != before[k].id && before[j].subject != before[k].subject);
        }
    }

    /// Marks watch `id` as finished.
    pub fn finish(&mut self, id: u64)
        requires
            old(self).wf(),
        ensures
            final(self).wf(),
            final(self)@ == old(self)@.after_finish(id),
    {
        let ghost before = self.watches@;
        let mut i: usize = 0;
        while i < self.watches.len()
            invariant
                i <= self.watches@.len(),
                self.watches@.len() == before.len(),
                *self == (ActorMonitors { watches: self.watches, ..*old(self) }),
                forall|j: int|
                    0 <= j < i ==> #[trigger] self.watches@[j] == (if before[j].id == id {
                        MembershipWatch { finished: true, ..before[j] }
                    } else {
                        before[j]
                    }),
                forall|j: int| i <= j < before.len() ==> #[trigger] self.watches@[j] == before[j],
            decreases self.watches.len() - i,
        {
            if self.watches[i].id == id {
                self.watches[i].finished = true;
            }
            i += 1;
        }
        assert(self@.watches =~= old(self)@.after_finish(id).watches);
        assert forall|j: int, k: int| 0 <= j < k < before.len() implies (
        #[trigger] self.watches@[j]).id != (#[trigger] self.watches@[k]).id
            && self.watches@[j].subject != self.watches@[k].subject by {
            assert(before[j].id != before[k].id && before[j].subject != before[k].subject);
        }
    }

    /// Marks every watch on `subject` as having lost its hub.
    pub fn subject_dropped(&mut self, subject: u64)
        requires
            old(self).wf(),
        ensures
            final(self).wf(),
            final(self)@ == old(self)@.after_drop(subject),
    {
        let ghost before = self.watches@;
        let mut i: usize = 0;
        while i < self.watches.len()
            invariant
                i <= self.watches@.len(),
                self.watches@.len() == before.len(),
                *self == (ActorMonitors { watches: self.watches, ..*old(self) }),
                forall|j: int|
                    0 <= j < i ==> #[trigger] self.watches@[j] == (if before[j].subject == subject {
                        MembershipWatch { subject_gone: true, ..before[j] }
                    } else {
                        before[j]
                    }),
                forall|j: int| i <= j < before.len() ==> #[trigger] self.watches@[j] == before[j],
            decreases self.watches.len() - i,
        {
            if self.watches[i].subject == subject {
                self.watches[i].subject_gone = true;
            }
            i += 1;
        }
        assert(self@.watches =~= old(self)@.after_drop(subject).watches);
        assert forall|j: int, k: int| 0 <= j < k < before.len() implies (
        #[trigger] self.watches@[j]).id != (#[trigger] self.watches@[k]).id
            && self.watches@[j].subject != self.watches@[k].subject by {
            assert(before[j].id != before[k].id && before[j].subject != before[k].subject);
        }
    }
}

/// One operation on the registry of a membership that goes on.
pub enum RegistryOp {
    /// A watch on a subject is asked for.
    Register(ActorMonitorLease, u64),
    /// A watch is cancelled by its observer.
    Cancel(u64),
    /// Delivery of a watch is over.
    Finish(u64),
    /// The hub of a subject is gone.
    Drop(u64),
}

/// The registry after one operation.
pub open spec fn applied(m: MonitorsView, op: RegistryOp) -> MonitorsView {
    match op {
        RegistryOp::Register(lease, subject) => m.after_register(lease, subject).0,
        RegistryOp::Cancel(id) => m.after_cancel(id),
        RegistryOp::Finish(id) => m.after_finish(id),
        RegistryOp::Drop(subject) => m.after_drop(subject),
    }
}

/// The registry after `ops`.
pub open spec fn reached(m: MonitorsView, ops: Seq<RegistryOp>) -> MonitorsView
    decreases ops.len(),
{
    if ops.len() == 0 {
        m
    } else {
        applied(reached(m, ops.drop_last()), ops.last())
    }
}

/// No operation ends watch `id` on `subject`.
pub open spec fn spares(ops: Seq<RegistryOp>, id: u64, subject: u64) -> bool {
    forall|i: int|
        0 <= i < ops.len() ==> {
            &&& #[trigger] ops[i] != RegistryOp::Cancel(id)
            &&& ops[i] != RegistryOp::Finish(id)
            &&& ops[i] != RegistryOp::Drop(subject)
        }
}

/// `subject` is watched under `id`, and under no other id.
spec fn watched_as(m: MonitorsView, subject: u64, id: u64) -> bool {
    &&& !m.terminated
    &&& m.watches.contains(
        MembershipWatch { id, subject, cancelled: false, finished: false, subject_gone: false },
    )
    &&& forall|i: int|
        0 <= i < m.watches.len() && (#[trigger] m.watches[i]).subject == subject
            ==> m.watches[i].id == id
}

/// A watched subject is found under its id by the next registration.
proof fn lemma_found(m: MonitorsView, lease: ActorMonitorLease, subject: u64, id: u64)
    requires
        watched_as(m, subject, id),
        lease.epoch == m.epoch,
    ensures
        m.after_register(lease, subject).1 == Registration::Existing(id),
        watched_as(m.after_register(lease, subject).0, subject, id),
{
    lemma_kept(m, subject, id);
    let live = delivering(m.watches, m.terminated);
    let watch = MembershipWatch {
        id,
        subject,
        cancelled: false,
        finished: false,
        subject_gone: false,
    };
    let k = choose|k: int| 0 <= k < live.len() && live[k] == watch;
    assert(live[k].subject == subject);
    lemma_first(live, subject, k);
    let i = choose|i: int| subject_at(live, subject, i);
    assert(subject_at(live, subject, i));
    assert(live[i].id == id);
}

/// A subject that is watched at all is watched for the first time somewhere.
proof fn lemma_first(watches: Seq<MembershipWatch>, subject: u64, k: int)
    requires
        0 <= k < watches.len(),
        watches[k].subject == subject,
    ensures
        exists|i: int| subject_at(watches, subject, i),
    decreases k,
{
    if forall|j: int| 0 <= j < k ==> (#[trigger] watches[j]).subject != subject {
        assert(subject_at(watches, subject, k));
    } else {
        let j = choose|j: int| 0 <= j < k && (#[trigger] watches[j]).subject == subject;
        lemma_first(watches, subject, j);
    }
}

/// Dropping the watches that no longer deliver keeps a live one.
proof fn lemma_kept(m: MonitorsView, subject: u64, id: u64)
    requires
        watched_as(m, subject, id),
    ensures
        watched_as(
            MonitorsView { watches: delivering(m.watches, m.terminated), ..m },
            subject,
            id,
        ),
{
    broadcast use vstd::seq_lib::group_seq_properties;

    let pred = |watch: MembershipWatch| delivers(watch, m.terminated);
    let live = delivering(m.watches, m.terminated);
    let watch = MembershipWatch {
        id,
        subject,
        cancelled: false,
        finished: false,
        subject_gone: false,
    };
    let k = choose|k: int| 0 <= k < m.watches.len() && m.watches[k] == watch;
    m.watches.lemma_filter_contains(pred, k);
    assert(live == m.watches.filter(pred));
    assert forall|i: int| 0 <= i < live.len() && (#[trigger] live[i]).subject
        == subject implies live[i].id == id by {
        assert(live.contains(live[i]));
        m.watches.lemma_filter_contains_rev(pred, live[i]);
        let j = choose|j: int| 0 <= j < m.watches.len() && m.watches[j] == live[i];
        assert(m.watches[j].subject == subject);
    }
}

/// An operation that spares a watch keeps it.
proof fn lemma_spared(m: MonitorsView, op: RegistryOp, subject: u64, id: u64)
    requires
        watched_as(m, subject, id),
        op != RegistryOp::Cancel(id),
        op != RegistryOp::Finish(id),
        op != RegistryOp::Drop(subject),
    ensures
        watched_as(applied(m, op), subject, id),
        applied(m, op).epoch == m.epoch,
{
    let after = applied(m, op);
    let watch = MembershipWatch {
        id,
        subject,
        cancelled: false,
        finished: false,
        subject_gone: false,
    };
    let k = choose|k: int| 0 <= k < m.watches.len() && m.watches[k] == watch;
    match op {
        RegistryOp::Register(lease, other) => {
            if lease.epoch == m.epoch {
                lemma_kept(m, subject, id);
                let live = delivering(m.watches, m.terminated);
                if other == subject {
                    lemma_found(m, lease, subject, id);
                } else if watch_of(live, other) is None {
                    let at = choose|at: int| 0 <= at < live.len() && live[at] == watch;
                    assert(after.watches[at] == watch);
                    assert forall|i: int| 0 <= i < after.watches.len() && (
                    #[trigger] after.watches[i]).subject == subject implies after.watches[i].id
                        == id by {
                        assert(i < live.len());
                        assert(live[i] == after.watches[i]);
                    }
                }
            }
        },
        _ => {
            assert(after.watches[k] == watch);
            assert forall|i: int| 0 <= i < after.watches.len() && (
            #[trigger] after.watches[i]).subject == subject implies after.watches[i].id == id by {
                assert(m.watches[i].subject == subject);
            }
        },
    }
}

/// Operations that spare a watch keep it.
proof fn lemma_all_spared(m: MonitorsView, ops: Seq<RegistryOp>, subject: u64, id: u64)
    requires
        watched_as(m, subject, id),
        spares(ops, id, subject),
    ensures
        watched_as(reached(m, ops), subject, id),
        reached(m, ops).epoch == m.epoch,
    decreases ops.len(),
{
    if ops.len() > 0 {
        let init = ops.drop_last();
        assert forall|i: int| 0 <= i < init.len() implies {
            &&& #[trigger] init[i] != RegistryOp::Cancel(id)
            &&& init[i] != RegistryOp::Finish(id)
            &&& init[i] != RegistryOp::Drop(subject)
        } by {
            assert(init[i] == ops[i]);
        }
        lemma_all_spared(m, init, subject, id);
        assert(ops[ops.len() - 1] == ops.last());
        lemma_spared(reached(m, init), ops.last(), subject, id);
    }
}

/// Watching a pair again shares the first watch: whatever else the membership
/// registers, cancels or finishes meanwhile, and however often either actor
/// restarts, the second request finds the first watch, adds none and installs
/// no forwarder, so that its own mapper is never called. Both stand for one id,
/// so that cancelling it ends the watch for both.
pub proof fn law_repeated_watch_is_an_alias(
    m: MonitorsView,
    first: ActorMonitorLease,
    subject: u64,
    ops: Seq<RegistryOp>,
    again: ActorMonitorLease,
    has_runtime: bool,
    id: u64,
)
    requires
        m.wf(),
        !m.terminated,
        first.epoch == m.epoch,
        again.epoch == m.epoch,
        m.after_register(first, subject).1 == Registration::Installed(id) || m.after_register(
            first,
            subject,
        ).1 == Registration::Existing(id),
        spares(ops, id, subject),
    ensures
        ({
            let later = reached(m.after_register(first, subject).0, ops);
            let (after, found) = later.after_register(again, subject);
            &&& found == Registration::Existing(id)
            &&& crate::context::watch_plan(found, has_runtime)
                == crate::context::WatchPlan::Alias(id)
            &&& after.next_watch == later.next_watch
            &&& after.watches == delivering(later.watches, later.terminated)
            &&& forall|i: int|
                0 <= i < after.watches.len() && (#[trigger] after.watches[i]).subject == subject
                    ==> after.watches[i].id == id
            &&& forall|i: int|
                0 <= i < after.watches.len() && (#[trigger] after.watches[i]).id == id ==> !delivers(
                    after.after_cancel(id).watches[i],
                    after.terminated,
                )
        }),
{
    broadcast use vstd::seq_lib::group_seq_properties;

    let start = m.after_register(first, subject).0;
    let live = delivering(m.watches, m.terminated);
    let pred = |watch: MembershipWatch| delivers(watch, m.terminated);
    assert(live == m.watches.filter(pred));
    match watch_of(live, subject) {
        Some(found) => {
            let k = choose|k: int| 0 <= k < live.len() && (#[trigger] live[k]).subject == subject;
            lemma_first(live, subject, k);
            let p = choose|p: int| subject_at(live, subject, p);
            assert(subject_at(live, subject, p));
            m.watches.lemma_filter_pred(pred, p);
            assert(live.contains(live[p]));
            m.watches.lemma_filter_contains_rev(pred, live[p]);
            let x = choose|x: int| 0 <= x < m.watches.len() && m.watches[x] == live[p];
            assert forall|i: int| 0 <= i < live.len() && (#[trigger] live[i]).subject
                == subject implies live[i].id == id by {
                assert(live.contains(live[i]));
                m.watches.lemma_filter_contains_rev(pred, live[i]);
                let y = choose|y: int| 0 <= y < m.watches.len() && m.watches[y] == live[i];
                assert(m.watches[x].subject == m.watches[y].subject);
            }
            assert(start.watches.contains(live[p]));
        },
        None => {
            let n = live.len() as int;
            assert(start.watches[n].subject == subject);
            assert forall|i: int| 0 <= i < start.watches.len() && (
            #[trigger] start.watches[i]).subject == subject implies start.watches[i].id == id by {
                if i < n {
                    assert(live[i] == start.watches[i]);
                    assert(watches_subject(live, subject));
                }
            }
        },
    }
    assert(watched_as(start, subject, id));
    lemma_all_spared(start, ops, subject, id);
    let later = reached(start, ops);
    lemma_found(later, again, subject, id);
}

/// Reopening stops every watch issued before it and no lease issued after it.
pub proof fn law_reopening_rotates_the_lifetime(
    before: ActorMonitors,
    after: ActorMonitors,
    old_lease: ActorMonitorLease,
    new_lease: ActorMonitorLease,
)
    requires
        old_lease.epoch <= before.epoch,
        after.epoch == before.epoch + 1,
        !after.terminated,
        new_lease.epoch == after.epoch,
    ensures
        after.stopped(old_lease),
        !after.stopped(new_lease),
{
}

} // verus!
