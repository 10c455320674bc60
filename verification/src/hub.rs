//! The per-actor monitor hub: runs, generations, membership epochs and the
//! watches they are reported to.
use vstd::prelude::*;

use crate::monitor::{MonitorEvent, WatchQueue, WATCH_BUFFER_CAP};
use crate::policy::ExitStatus;

verus! {

/// One observer's watch on this hub's actor.
pub struct Watch {
    /// Identity of the watch within its hub.
    pub id: u64,
    /// Membership epoch the watch is registered with, or `None` once no
    /// further event will be staged.
    pub epoch: Option<u64>,
    /// Transitions of earlier generations are not reported.
    pub min_generation: u64,
    /// Whether the observer cancelled the watch.
    pub cancelled: bool,
    /// Whether the observing membership ended.
    pub stopped: bool,
    /// Undelivered events.
    pub queue: WatchQueue,
    /// Every event staged so far.
    pub trace: Ghost<Seq<MonitorEvent>>,
}

/// Mathematical content of a [`Watch`].
pub struct WatchView {
    pub id: u64,
    pub epoch: Option<u64>,
    pub min_generation: u64,
    pub cancelled: bool,
    pub stopped: bool,
    pub actor_id: String,
    pub events: Seq<MonitorEvent>,
    pub trace: Seq<MonitorEvent>,
}

impl View for Watch {
    type V = WatchView;

    open spec fn view(&self) -> WatchView {
        WatchView {
            id: self.id,
            epoch: self.epoch,
            min_generation: self.min_generation,
            cancelled: self.cancelled,
            stopped: self.stopped,
            actor_id: self.queue.actor_id,
            events: self.queue@,
            trace: self.trace@,
        }
    }
}

/// Whether a watch has no interest in `event`: it speaks of a generation from
/// before the watch.
pub open spec fn predates(event: MonitorEvent, min_generation: u64) -> bool {
    match event {
        MonitorEvent::Started { generation, .. } => generation < min_generation,
        MonitorEvent::Exited { generation, .. } => generation < min_generation,
        _ => false,
    }
}

impl WatchView {
    /// Neither cancelled nor stopped.
    pub open spec fn live(self) -> bool {
        !self.cancelled && !self.stopped
    }

    /// The watch with `event` staged.
    pub open spec fn with_event(self, event: MonitorEvent) -> WatchView {
        WatchView {
            events: crate::monitor::staged(self.actor_id, self.events, event),
            trace: self.trace.push(event),
            ..self
        }
    }

    /// The watch after `event` of membership `epoch`: a dead watch is
    /// unregistered, a live one stages the event unless it predates the watch.
    pub open spec fn notified(self, epoch: u64, event: MonitorEvent) -> WatchView {
        if self.epoch != Some(epoch) {
            self
        } else if !self.live() {
            WatchView { epoch: None, ..self }
        } else if predates(event, self.min_generation) {
            self
        } else {
            self.with_event(event)
        }
    }

    /// The watch once membership `epoch` is over: `event` is its last one.
    pub open spec fn retired(self, epoch: u64, event: MonitorEvent) -> WatchView {
        if self.epoch != Some(epoch) {
            self
        } else {
            WatchView { epoch: None, ..self.notified(epoch, event) }
        }
    }
}

impl Watch {
    /// Neither cancelled nor stopped.
    pub fn is_live(&self) -> (live: bool)
        ensures
            live == self@.live(),
    {
        !self.cancelled && !self.stopped
    }

    /// Reports `event` of membership `epoch` to this watch.
    pub fn notify(&mut self, epoch: u64, event: &MonitorEvent)
        requires
            old(self).queue.wf(),
        ensures
            final(self).queue.wf(),
            final(self)@ == old(self)@.notified(epoch, *event),
    {
        if self.epoch != Some(epoch) {
            return;
        }
        if !self.is_live() {
            self.epoch = None;
            return;
        }
        let skip = match event {
            MonitorEvent::Started { generation, .. } => *generation < self.min_generation,
            MonitorEvent::Exited { generation, .. } => *generation < self.min_generation,
            _ => false,
        };
        if skip {
            return;
        }
        self.queue.push(event.clone());
        self.trace = Ghost(self.trace@.push(*event));
    }

    /// Reports the last `event` of membership `epoch` to this watch and
    /// unregisters it.
    pub fn retire(&mut self, epoch: u64, event: &MonitorEvent)
        requires
            old(self).queue.wf(),
        ensures
            final(self).queue.wf(),
            final(self)@ == old(self)@.retired(epoch, *event),
    {
        if self.epoch == Some(epoch) {
            self.notify(epoch, event);
            self.epoch = None;
        }
    }
}

/// Contents of a list of watches.
pub open spec fn watch_views(watches: Seq<Watch>) -> Seq<WatchView> {
    Seq::new(watches.len(), |i: int| watches[i]@)
}

/// Every watch of a list has a well-formed queue.
pub open spec fn queues_wf(watches: Seq<Watch>) -> bool {
    forall|i: int| 0 <= i < watches.len() ==> (#[trigger] watches[i]).queue.wf()
}

/// Reports `event` of membership `epoch` to every watch.
fn notify_all(watches: &mut Vec<Watch>, epoch: u64, event: &MonitorEvent)
    requires
        queues_wf(old(watches)@),
    ensures
        queues_wf(final(watches)@),
        watch_views(final(watches)@) == Seq::new(
            old(watches)@.len(),
            |i: int| old(watches)@[i]@.notified(epoch, *event),
        ),
{
    let ghost before = watches@;
    let mut i: usize = 0;
    while i < watches.len()
        invariant
            i <= watches.len(),
            watches@.len() == before.len(),
            queues_wf(watches@),
            forall|j: int| 0 <= j < i ==> (#[trigger] watches@[j])@ == before[j]@.notified(epoch, *event),
            forall|j: int| i <= j < watches@.len() ==> #[trigger] watches@[j] == before[j],
        decreases watches.len() - i,
    {
        let watch = &mut watches[i];
        watch.notify(epoch, event);
        i += 1;
    }
}

/// Reports the last `event` of membership `epoch` to every watch.
fn retire_all(watches: &mut Vec<Watch>, epoch: u64, event: &MonitorEvent)
    requires
        queues_wf(old(watches)@),
    ensures
        queues_wf(final(watches)@),
        watch_views(final(watches)@) == Seq::new(
            old(watches)@.len(),
            |i: int| old(watches)@[i]@.retired(epoch, *event),
        ),
{
    let ghost before = watches@;
    let mut i: usize = 0;
    while i < watches.len()
        invariant
            i <= watches.len(),
            watches@.len() == before.len(),
            queues_wf(watches@),
            forall|j: int|
                0 <= j < i ==> (#[trigger] watches@[j])@ == before[j]@.retired(epoch, *event),
            forall|j: int| i <= j < watches@.len() ==> #[trigger] watches@[j] == before[j],
        decreases watches.len() - i,
    {
        let watch = &mut watches[i];
        watch.retire(epoch, event);
        i += 1;
    }
}

/// Where a started run belongs.
#[derive(Clone, Copy, Debug, PartialEq, Eq, Structural)]
pub struct ActiveRun {
    /// Membership epoch of the run.
    pub epoch: u64,
    /// Generation of the run.
    pub generation: u64,
}

/// A started run under its id.
#[derive(Clone, Copy, Debug, PartialEq, Eq, Structural)]
pub struct RunEntry {
    /// Id of the run.
    pub run_id: u64,
    /// Where it belongs.
    pub run: ActiveRun,
}

/// The runs that have started and not exited.
pub struct RunTable {
    /// One entry per run.
    pub entries: Vec<RunEntry>,
}

/// Some entry has the id `run_id`.
pub open spec fn has_entry(entries: Seq<RunEntry>, run_id: u64) -> bool {
    exists|i: int| 0 <= i < entries.len() && #[trigger] entries[i].run_id == run_id
}

/// Where the entry with the id `run_id` stands.
pub open spec fn entry_index(entries: Seq<RunEntry>, run_id: u64) -> int {
    choose|i: int| 0 <= i < entries.len() && #[trigger] entries[i].run_id == run_id
}

impl View for RunTable {
    type V = Map<u64, ActiveRun>;

    open spec fn view(&self) -> Map<u64, ActiveRun> {
        Map::new(
            |run_id: u64| has_entry(self.entries@, run_id),
            |run_id: u64| self.entries@[entry_index(self.entries@, run_id)].run,
        )
    }
}

/// Some run of `runs` belongs to membership `epoch`.
pub open spec fn has_active(runs: Map<u64, ActiveRun>, epoch: u64) -> bool {
    exists|run_id: u64| #[trigger] runs.dom().contains(run_id) && runs[run_id].epoch == epoch
}

impl RunTable {
    /// No id stands twice.
    pub open spec fn wf(&self) -> bool {
        forall|i: int, j: int|
            0 <= i < j < self.entries@.len() ==> (#[trigger] self.entries@[i]).run_id != (
            #[trigger] self.entries@[j]).run_id
    }

    /// No runs.
    pub fn new() -> (table: Self)
        ensures
            table.wf(),
            table@ == Map::<u64, ActiveRun>::empty(),
    {
        let table = RunTable { entries: Vec::new() };
        assert(table@ =~= Map::<u64, ActiveRun>::empty());
        table
    }

    /// The entry at `i` is what the table maps its id to.
    proof fn lemma_entry(&self, i: int)
        requires
            self.wf(),
            0 <= i < self.entries@.len(),
        ensures
            self@.dom().contains(self.entries@[i].run_id),
            self@[self.entries@[i].run_id] == self.entries@[i].run,
    {
        let run_id = self.entries@[i].run_id;
        let j = entry_index(self.entries@, run_id);
        assert(has_entry(self.entries@, run_id));
        assert(i == j);
    }

    /// Removes the run `run_id`.
    pub fn remove(&mut self, run_id: u64) -> (removed: Option<ActiveRun>)
        requires
            old(self).wf(),
        ensures
            final(self).wf(),
            final(self)@ == old(self)@.remove(run_id),
            match removed {
                Some(run) => old(self)@.dom().contains(run_id) && run == old(self)@[run_id],
                None => !old(self)@.dom().contains(run_id),
            },
    {
        let ghost before = *self;
        let mut i: usize = 0;
        while i < self.entries.len()
            invariant
                *self == before,
                before == *old(self),
                before.wf(),
                forall|j: int| 0 <= j < i ==> (#[trigger] before.entries@[j]).run_id != run_id,
            decreases self.entries.len() - i,
        {
            if self.entries[i].run_id == run_id {
                let entry = self.entries.remove(i);
                proof {
                    before.lemma_entry(i as int);
                    assert forall|j: int| 0 <= j < self.entries@.len() implies (
                    #[trigger] self.entries@[j]) == before.entries@[if j < i {
                        j
                    } else {
                        j + 1
                    }] by {}
                    assert(self.wf());
                    assert forall|id: u64| self@.dom().contains(id) == before@.remove(
                        run_id,
                    ).dom().contains(id) by {
                        if has_entry(self.entries@, id) {
                            let j = entry_index(self.entries@, id);
                            let k = if j < i {
                                j
                            } else {
                                j + 1
                            };
                            assert(before.entries@[k].run_id == id);
                        }
                        if has_entry(before.entries@, id) && id != run_id {
                            let k = entry_index(before.entries@, id);
                            let j = if k < i {
                                k
                            } else {
                                k - 1
                            };
                            assert(self.entries@[j].run_id == id);
                        }
                    }
                    assert forall|id: u64| self@.dom().contains(id) implies self@[id]
                        == before@.remove(run_id)[id] by {
                        let j = entry_index(self.entries@, id);
                        let k = if j < i {
                            j
                        } else {
                            j + 1
                        };
                        self.lemma_entry(j);
                        before.lemma_entry(k);
                    }
                    assert(self@ =~= before@.remove(run_id));
                }
                return Some(entry.run);
            }
            i += 1;
        }
        assert(!has_entry(before.entries@, run_id));
        assert(self@ =~= before@.remove(run_id));
        None
    }

    /// Records the run `run_id`, in place of an earlier one with that id.
    pub fn insert(&mut self, run_id: u64, run: ActiveRun)
        requires
            old(self).wf(),
        ensures
            final(self).wf(),
            final(self)@ == old(self)@.insert(run_id, run),
    {
        let ghost before = *self;
        let _replaced = self.remove(run_id);
        let ghost cleared = *self;
        assert(!cleared@.dom().contains(run_id));
        self.entries.push(RunEntry { run_id, run });
        proof {
            assert forall|j: int| 0 <= j < cleared.entries@.len() implies (
            #[trigger] self.entries@[j]) == cleared.entries@[j] && self.entries@[j].run_id
                != run_id by {
                assert(cleared.entries@[j].run_id == self.entries@[j].run_id);
                assert(has_entry(cleared.entries@, cleared.entries@[j].run_id));
            }
            assert(self.wf());
            let last = cleared.entries@.len() as int;
            self.lemma_entry(last);
            assert forall|id: u64| self@.dom().contains(id) == before@.insert(
                run_id,
                run,
            ).dom().contains(id) by {
                if has_entry(self.entries@, id) && id != run_id {
                    let j = entry_index(self.entries@, id);
                    assert(cleared.entries@[j].run_id == id);
                    assert(cleared@.dom().contains(id));
                }
                if before@.dom().contains(id) && id != run_id {
                    assert(cleared@.dom().contains(id));
                    let j = entry_index(cleared.entries@, id);
                    assert(self.entries@[j].run_id == id);
                }
            }
            assert forall|id: u64| self@.dom().contains(id) implies self@[id] == before@.insert(
                run_id,
                run,
            )[id] by {
                if id != run_id {
                    let j = entry_index(self.entries@, id);
                    self.lemma_entry(j);
                    cleared.lemma_entry(j);
                    assert(cleared@[id] == before@[id]);
                }
            }
            assert(self@ =~= before@.insert(run_id, run));
        }
    }

    /// Reports whether some run belongs to membership `epoch`.
    pub fn has_epoch(&self, epoch: u64) -> (found: bool)
        requires
            self.wf(),
        ensures
            found == has_active(self@, epoch),
    {
        let mut i: usize = 0;
        while i < self.entries.len()
            invariant
                self.wf(),
                forall|j: int| 0 <= j < i ==> (#[trigger] self.entries@[j]).run.epoch != epoch,
            decreases self.entries.len() - i,
        {
            if self.entries[i].run.epoch == epoch {
                proof {
                    self.lemma_entry(i as int);
                }
                return true;
            }
            i += 1;
        }
        proof {
            assert forall|run_id: u64| #[trigger] self@.dom().contains(run_id) implies self@[
                run_id].epoch != epoch by {
                let j = entry_index(self.entries@, run_id);
                self.lemma_entry(j);
            }
        }
        false
    }
}

/// State of the watched membership.
#[derive(Clone, Copy, Debug, PartialEq, Eq, Structural)]
pub enum Lifecycle {
    /// No incarnation of this membership has started.
    Pending,
    /// The newest incarnation is running.
    Running {
        /// Its run.
        run_id: u64,
        /// Its generation.
        generation: u64,
    },
    /// The newest incarnation has exited.
    Exited,
    /// The membership is over; the generation is its last one.
    Removed(Option<u64>),
}

/// A membership that has been replaced while some of its runs go on.
#[derive(Clone, Copy, Debug, PartialEq, Eq, Structural)]
pub struct RetiringMembership {
    /// Epoch of the membership.
    pub epoch: u64,
    /// Its last generation.
    pub last_generation: Option<u64>,
}

/// One run of the hub's actor, from its creation to its exit.
#[derive(Clone, Copy, Debug, PartialEq, Eq, Structural)]
pub struct MonitorRun {
    /// Id of the run; newer runs have larger ids.
    pub run_id: u64,
    /// Epoch that this run may replace, where it was created to reopen a
    /// terminated binding.
    pub reopens_epoch: Option<u64>,
}

impl MonitorRun {
    /// Returns the id of the run.
    pub fn id(&self) -> (id: u64)
        ensures
            id == self.run_id,
    {
        self.run_id
    }

    /// Reports whether the run may reopen a terminated binding.
    pub fn reopens_terminal(&self) -> (reopens: bool)
        ensures
            reopens == (self.reopens_epoch is Some),
    {
        self.reopens_epoch.is_some()
    }
}

/// `Started` of `generation`.
pub open spec fn started_event(actor_id: String, generation: u64) -> MonitorEvent {
    MonitorEvent::Started { actor_id, generation }
}

/// `Exited` of `generation`.
pub open spec fn exited_event(
    actor_id: String,
    generation: u64,
    status: ExitStatus,
) -> MonitorEvent {
    MonitorEvent::Exited { actor_id, generation, status }
}

/// `Removed` after `generation`.
pub open spec fn removed_event(actor_id: String, generation: Option<u64>) -> MonitorEvent {
    MonitorEvent::Removed { actor_id, generation }
}

/// Mathematical content of a [`MonitorHub`].
#[verifier::ext_equal]
pub struct HubView {
    pub actor_id: String,
    pub next_run_id: u64,
    pub next_generation: u64,
    pub epoch: u64,
    pub last_generation: Option<u64>,
    pub lifecycle: Lifecycle,
    pub runs: Map<u64, ActiveRun>,
    pub removal_requested: bool,
    pub watches: Seq<WatchView>,
    pub retiring: Seq<RetiringMembership>,
    pub next_watch: u64,
}

/// The next `u64`, or the largest one.
pub open spec fn next(n: u64) -> u64 {
    crate::monitor::saturating(n, 1)
}

/// Where membership `epoch` stands among `retiring`.
pub open spec fn retiring_at(retiring: Seq<RetiringMembership>, epoch: u64, i: int) -> bool {
    &&& 0 <= i < retiring.len()
    &&& retiring[i].epoch == epoch
    &&& forall|j: int| 0 <= j < i ==> (#[trigger] retiring[j]).epoch != epoch
}

/// Membership `epoch` is among `retiring`.
pub open spec fn is_retiring(retiring: Seq<RetiringMembership>, epoch: u64) -> bool {
    exists|i: int| 0 <= i < retiring.len() && (#[trigger] retiring[i]).epoch == epoch
}

impl HubView {
    /// The hub of an actor that has not started.
    pub open spec fn initial(actor_id: String) -> HubView {
        HubView {
            actor_id,
            next_run_id: 0,
            next_generation: 0,
            epoch: 0,
            last_generation: None,
            lifecycle: Lifecycle::Pending,
            runs: Map::empty(),
            removal_requested: false,
            watches: Seq::empty(),
            retiring: Seq::empty(),
            next_watch: 0,
        }
    }

    /// Whether a run may start: `None` refuses it, `Some(true)` admits it as
    /// the first of a new membership.
    ///
    /// A run created to reopen an epoch begins a new membership while that
    /// epoch is current. It joins the membership that directly replaced that
    /// epoch as long as this one is neither removed nor about to be. Any other
    /// run needs a membership that has not been removed.
    pub open spec fn admits(self, reopens_epoch: Option<u64>) -> Option<bool> {
        match reopens_epoch {
            Some(epoch) => if epoch == self.epoch {
                Some(true)
            } else if next(epoch) == self.epoch && !(self.lifecycle is Removed)
                && !self.removal_requested {
                Some(false)
            } else {
                None
            },
            None => if self.lifecycle is Removed {
                None
            } else {
                Some(false)
            },
        }
    }

    /// The hub with a fresh membership. Watches of the previous one learn of
    /// its removal now, or when its last run exits.
    pub open spec fn reopened(self) -> HubView {
        let lingers = has_active(self.runs, self.epoch);
        HubView {
            watches: if self.lifecycle is Removed || lingers {
                self.watches
            } else {
                Seq::new(
                    self.watches.len(),
                    |i: int|
                        self.watches[i].retired(
                            self.epoch,
                            removed_event(self.actor_id, self.last_generation),
                        ),
                )
            },
            retiring: if !(self.lifecycle is Removed) && lingers {
                self.retiring.push(
                    RetiringMembership {
                        epoch: self.epoch,
                        last_generation: self.last_generation,
                    },
                )
            } else {
                self.retiring
            },
            epoch: next(self.epoch),
            last_generation: None,
            lifecycle: Lifecycle::Pending,
            removal_requested: false,
            ..self
        }
    }

    /// The hub after run `run_id` has started in the current membership, with
    /// the next generation.
    pub open spec fn with_run(self, run_id: u64) -> HubView {
        let generation = self.next_generation;
        HubView {
            next_generation: next(generation),
            last_generation: Some(generation),
            runs: self.runs.insert(run_id, ActiveRun { epoch: self.epoch, generation }),
            lifecycle: Lifecycle::Running { run_id, generation },
            watches: Seq::new(
                self.watches.len(),
                |i: int|
                    self.watches[i].notified(self.epoch, started_event(self.actor_id, generation)),
            ),
            ..self
        }
    }

    /// The hub after `run` asked to start.
    pub open spec fn after_start(self, run: MonitorRun) -> HubView {
        match self.admits(run.reopens_epoch) {
            None => self,
            Some(true) => self.reopened().with_run(run.run_id),
            Some(false) => self.with_run(run.run_id),
        }
    }

    /// The watches after an exit of membership `epoch`, followed by its
    /// removal where this was the last run.
    pub open spec fn watches_after_exit(
        self,
        epoch: u64,
        exited: MonitorEvent,
        removed: Option<MonitorEvent>,
    ) -> Seq<WatchView> {
        Seq::new(
            self.watches.len(),
            |i: int|
                match removed {
                    Some(removed) => self.watches[i].notified(epoch, exited).retired(
                        epoch,
                        removed,
                    ),
                    None => self.watches[i].notified(epoch, exited),
                },
        )
    }

    /// The hub after an exit of run `run_id`; an exit is reported once, under
    /// the generation of its own run.
    pub open spec fn after_exit(self, run_id: u64, status: ExitStatus) -> HubView {
        if !self.runs.dom().contains(run_id) {
            self
        } else {
            let run = self.runs[run_id];
            let rest = self.runs.remove(run_id);
            let last = !has_active(rest, run.epoch);
            let exited = exited_event(self.actor_id, run.generation, status);
            let quiet = HubView { runs: rest, ..self };
            if run.epoch == self.epoch {
                if self.removal_requested && last {
                    HubView {
                        lifecycle: Lifecycle::Removed(self.last_generation),
                        watches: self.watches_after_exit(
                            run.epoch,
                            exited,
                            Some(removed_event(self.actor_id, self.last_generation)),
                        ),
                        ..quiet
                    }
                } else {
                    HubView {
                        lifecycle: match self.lifecycle {
                            Lifecycle::Running { run_id: current, .. } if current == run_id => {
                                Lifecycle::Exited
                            },
                            other => other,
                        },
                        watches: self.watches_after_exit(run.epoch, exited, None),
                        ..quiet
                    }
                }
            } else if !is_retiring(self.retiring, run.epoch) {
                quiet
            } else if last {
                let i = choose|i: int| retiring_at(self.retiring, run.epoch, i);
                HubView {
                    retiring: self.retiring.remove(i),
                    watches: self.watches_after_exit(
                        run.epoch,
                        exited,
                        Some(removed_event(self.actor_id, self.retiring[i].last_generation)),
                    ),
                    ..quiet
                }
            } else {
                HubView { watches: self.watches_after_exit(run.epoch, exited, None), ..quiet }
            }
        }
    }

    /// The hub after removal of membership `epoch`. Removal waits for runs
    /// that have not exited.
    pub open spec fn after_removed(self, epoch: u64) -> HubView {
        if epoch != self.epoch || self.lifecycle is Removed {
            self
        } else if has_active(self.runs, epoch) {
            HubView { removal_requested: true, ..self }
        } else {
            HubView {
                lifecycle: Lifecycle::Removed(self.last_generation),
                watches: Seq::new(
                    self.watches.len(),
                    |i: int|
                        self.watches[i].retired(
                            epoch,
                            removed_event(self.actor_id, self.last_generation),
                        ),
                ),
                ..self
            }
        }
    }

    /// The watch that a registration adds. A running target is reported at
    /// once, a removed one is reported and not watched further, and otherwise
    /// the watch is silent until the next start.
    pub open spec fn new_watch(self, cancelled: bool, stopped: bool) -> WatchView {
        let silent = WatchView {
            id: self.next_watch,
            epoch: Some(self.epoch),
            min_generation: self.next_generation,
            cancelled,
            stopped,
            actor_id: self.actor_id,
            events: Seq::empty(),
            trace: Seq::empty(),
        };
        match self.lifecycle {
            Lifecycle::Removed(generation) => WatchView { epoch: None, ..silent }.with_event(
                removed_event(self.actor_id, generation),
            ),
            Lifecycle::Running { generation, .. } => WatchView {
                min_generation: generation,
                ..silent
            }.with_event(started_event(self.actor_id, generation)),
            _ => silent,
        }
    }

    /// The hub after a registration.
    pub open spec fn after_register(self, cancelled: bool, stopped: bool) -> HubView {
        HubView {
            watches: Seq::new(
                self.watches.len(),
                |i: int| self.watches[i].pruned(self.epoch),
            ).push(self.new_watch(cancelled, stopped)),
            next_watch: (self.next_watch + 1) as u64,
            ..self
        }
    }
}

impl HubView {
    /// The hub after the observer of watch `id` cancelled it.
    pub open spec fn after_cancel(self, id: u64) -> HubView {
        HubView {
            watches: Seq::new(
                self.watches.len(),
                |i: int|
                    if watch_at(self.watches, id, i) {
                        WatchView { cancelled: true, ..self.watches[i] }
                    } else {
                        self.watches[i]
                    },
            ),
            ..self
        }
    }

    /// The hub after the observing membership of watch `id` ended.
    pub open spec fn after_stop(self, id: u64) -> HubView {
        HubView {
            watches: Seq::new(
                self.watches.len(),
                |i: int|
                    if watch_at(self.watches, id, i) {
                        WatchView { stopped: true, ..self.watches[i] }
                    } else {
                        self.watches[i]
                    },
            ),
            ..self
        }
    }

    /// The hub without the watch at `i`.
    pub open spec fn after_close(self, i: int) -> HubView {
        HubView { watches: self.watches.remove(i), ..self }
    }

    /// The hub `after` it handed out `run`.
    pub open spec fn hands_out(
        self,
        reopens_terminal: bool,
        run: MonitorRun,
        after: HubView,
    ) -> bool {
        &&& run.run_id == self.next_run_id
        &&& run.reopens_epoch == (if reopens_terminal {
            Some(self.epoch)
        } else {
            None
        })
        &&& after == (HubView { next_run_id: next(self.next_run_id), ..self })
    }

    /// The hub once the guard of watch `id` is gone.
    pub open spec fn after_release(self, id: u64) -> HubView {
        match watch_position(self.watches, id) {
            Some(i) => self.after_close(i),
            None => self,
        }
    }

    /// The next undelivered event of watch `id`.
    pub open spec fn next_event(self, id: u64) -> Option<MonitorEvent> {
        match watch_position(self.watches, id) {
            Some(i) => if self.watches[i].events.len() > 0 {
                Some(self.watches[i].events[0])
            } else {
                None
            },
            None => None,
        }
    }

    /// The hub after delivery of the next event of watch `id`, if there is one.
    pub open spec fn after_pop(self, id: u64) -> HubView {
        match watch_position(self.watches, id) {
            Some(i) => if self.watches[i].events.len() > 0 {
                HubView {
                    watches: self.watches.update(
                        i,
                        WatchView {
                            events: self.watches[i].events.drop_first(),
                            ..self.watches[i]
                        },
                    ),
                    ..self
                }
            } else {
                self
            },
            None => self,
        }
    }
}

impl WatchView {
    /// The watch without its registration in membership `epoch` if it is dead.
    pub open spec fn pruned(self, epoch: u64) -> WatchView {
        if self.epoch == Some(epoch) && !self.live() {
            WatchView { epoch: None, ..self }
        } else {
            self
        }
    }
}

/// The first watch with the id `id` stands at `i`.
pub open spec fn watch_at(watches: Seq<WatchView>, id: u64, i: int) -> bool {
    &&& 0 <= i < watches.len()
    &&& watches[i].id == id
    &&& forall|j: int| 0 <= j < i ==> (#[trigger] watches[j]).id != id
}

/// Where the first watch with the id `id` stands.
pub open spec fn watch_position(watches: Seq<WatchView>, id: u64) -> Option<int> {
    if exists|i: int| watch_at(watches, id, i) {
        Some(choose|i: int| watch_at(watches, id, i))
    } else {
        None
    }
}

/// Number of watches registered with membership `epoch`.
pub open spec fn registered(watches: Seq<WatchView>, epoch: u64) -> nat
    decreases watches.len(),
{
    if watches.len() == 0 {
        0
    } else {
        registered(watches.drop_last(), epoch) + if watches.last().epoch == Some(epoch) {
            1nat
        } else {
            0nat
        }
    }
}

/// Lifecycle hub of one logical actor.
pub struct MonitorHub {
    /// Id of the actor.
    pub actor_id: String,
    /// Id of the next run.
    pub next_run_id: u64,
    /// Generation of the next start.
    pub next_generation: u64,
    /// Epoch of the current membership.
    pub current_epoch: u64,
    /// Last generation of the current membership.
    pub current_last_generation: Option<u64>,
    /// State of the current membership.
    pub lifecycle: Lifecycle,
    /// Runs that have started and not exited.
    pub active_runs: RunTable,
    /// Whether the current membership is removed once its last run exits.
    pub removal_requested: bool,
    /// All watches whose guard is still held.
    pub watches: Vec<Watch>,
    /// Replaced memberships with runs that go on.
    pub retiring: Vec<RetiringMembership>,
    /// Id of the next watch.
    pub next_watch: u64,
}

impl View for MonitorHub {
    type V = HubView;

    open spec fn view(&self) -> HubView {
        HubView {
            actor_id: self.actor_id,
            next_run_id: self.next_run_id,
            next_generation: self.next_generation,
            epoch: self.current_epoch,
            last_generation: self.current_last_generation,
            lifecycle: self.lifecycle,
            runs: self.active_runs@,
            removal_requested: self.removal_requested,
            watches: watch_views(self.watches@),
            retiring: self.retiring@,
            next_watch: self.next_watch,
        }
    }
}

impl MonitorHub {
    /// The tables are well formed.
    pub open spec fn wf(&self) -> bool {
        self.active_runs.wf() && queues_wf(self.watches@)
    }

    /// Creates the hub of an actor that has not started.
    pub fn new(actor_id: &String) -> (hub: Self)
        ensures
            hub.wf(),
            hub@ == HubView::initial(*actor_id),
    {
        let hub = MonitorHub {
            actor_id: actor_id.clone(),
            next_run_id: 0,
            next_generation: 0,
            current_epoch: 0,
            current_last_generation: None,
            lifecycle: Lifecycle::Pending,
            active_runs: RunTable::new(),
            removal_requested: false,
            watches: Vec::new(),
            retiring: Vec::new(),
            next_watch: 0,
        };
        assert(hub@.watches =~= Seq::empty());
        hub
    }

    /// Creates the next run. With `reopens_terminal` it gets the authority to
    /// replace the current epoch.
    pub fn new_run(&mut self, reopens_terminal: bool) -> (run: MonitorRun)
        requires
            old(self).wf(),
        ensures
            final(self).wf(),
            old(self)@.hands_out(reopens_terminal, run, final(self)@),
    {
        let run_id = self.next_run_id;
        self.next_run_id = self.next_run_id.saturating_add(1);
        let reopens_epoch = if reopens_terminal {
            Some(self.current_epoch)
        } else {
            None
        };
        MonitorRun { run_id, reopens_epoch }
    }

    /// Returns the epoch of the current membership.
    pub fn current_epoch(&self) -> (epoch: u64)
        ensures
            epoch == self@.epoch,
    {
        self.current_epoch
    }

    /// Decides whether `run` may start.
    fn admission(&self, reopens_epoch: Option<u64>) -> (admitted: Option<bool>)
        ensures
            admitted == self@.admits(reopens_epoch),
    {
        let removed = matches!(self.lifecycle, Lifecycle::Removed(_));
        match reopens_epoch {
            Some(epoch) => if epoch == self.current_epoch {
                Some(true)
            } else if epoch.saturating_add(1) == self.current_epoch && !removed
                && !self.removal_requested {
                Some(false)
            } else {
                None
            },
            None => if removed {
                None
            } else {
                Some(false)
            },
        }
    }

    /// Replaces the current membership by a fresh one.
    fn reopen(&mut self)
        requires
            old(self).wf(),
        ensures
            final(self).wf(),
            final(self)@ == old(self)@.reopened(),
    {
        let ghost before = self@;
        if !matches!(self.lifecycle, Lifecycle::Removed(_)) {
            let epoch = self.current_epoch;
            let last_generation = self.current_last_generation;
            if self.active_runs.has_epoch(epoch) {
                self.retiring.push(RetiringMembership { epoch, last_generation });
            } else {
                let removed = self.removed_event(last_generation);
                self.report_removal(epoch, &removed);
            }
        }
        self.current_epoch = self.current_epoch.saturating_add(1);
        self.current_last_generation = None;
        self.lifecycle = Lifecycle::Pending;
        self.removal_requested = false;
        assert(self@ =~= before.reopened());
    }

    /// Starts `run`. Returns `None` when the run is refused, and otherwise
    /// whether it is the first of a new membership.
    ///
    /// No membership follows the one with the largest epoch, which its
    /// successor could not be told from.
    pub fn started(&mut self, run: &MonitorRun) -> (admitted: Option<bool>)
        requires
            old(self).wf(),
            old(self)@.admits(run.reopens_epoch) == Some(true) ==> old(self)@.epoch < u64::MAX,
        ensures
            final(self).wf(),
            admitted == old(self)@.admits(run.reopens_epoch),
            final(self)@ == old(self)@.after_start(*run),
    {
        let admitted = self.admission(run.reopens_epoch);
        match admitted {
            None => {
                return None;
            },
            Some(begins_epoch) => {
                if begins_epoch {
                    self.reopen();
                }
            },
        }
        let ghost opened = self@;
        let generation = self.next_generation;
        let epoch = self.current_epoch;
        self.next_generation = self.next_generation.saturating_add(1);
        self.current_last_generation = Some(generation);
        self.active_runs.insert(run.run_id, ActiveRun { epoch, generation });
        self.lifecycle = Lifecycle::Running { run_id: run.run_id, generation };
        let started = self.started_event(generation);
        notify_all(&mut self.watches, epoch, &started);
        assert(self@ =~= opened.with_run(run.run_id));
        admitted
    }

    /// Reports the end of membership `epoch` to its watches.
    fn report_removal(&mut self, epoch: u64, removed: &MonitorEvent)
        requires
            old(self).wf(),
        ensures
            final(self).wf(),
            final(self)@ == (HubView {
                watches: Seq::new(
                    old(self)@.watches.len(),
                    |i: int| old(self)@.watches[i].retired(epoch, *removed),
                ),
                ..old(self)@
            }),
    {
        let ghost before = self@;
        retire_all(&mut self.watches, epoch, removed);
        assert(self@.watches =~= Seq::new(
            before.watches.len(),
            |i: int| before.watches[i].retired(epoch, *removed),
        ));
    }

    /// Records the exit of `run`.
    pub fn exited(&mut self, run: &MonitorRun, status: ExitStatus)
        requires
            old(self).wf(),
        ensures
            final(self).wf(),
            final(self)@ == old(self)@.after_exit(run.run_id, status),
    {
        let ghost before = self@;
        let run_id = run.run_id;
        let run = match self.active_runs.remove(run_id) {
            Some(run) => run,
            None => {
                assert(self@.runs =~= before.runs);
                assert(self@ =~= before);
                return;
            },
        };
        let exited = self.exited_event(run.generation, status);
        let last = !self.active_runs.has_epoch(run.epoch);
        if run.epoch == self.current_epoch {
            if let Lifecycle::Running { run_id: current, .. } = self.lifecycle {
                if current == run_id {
                    self.lifecycle = Lifecycle::Exited;
                }
            }
            notify_all(&mut self.watches, run.epoch, &exited);
            assert(self@.watches =~= before.watches_after_exit(run.epoch, exited, None));
            if self.removal_requested && last {
                let last_generation = self.current_last_generation;
                self.lifecycle = Lifecycle::Removed(last_generation);
                let removed = self.removed_event(last_generation);
                self.report_removal(run.epoch, &removed);
                assert(self@.watches =~= before.watches_after_exit(
                    run.epoch,
                    exited,
                    Some(removed),
                ));
            }
            assert(self@ =~= before.after_exit(run_id, status));
            return;
        }
        let mut index: usize = 0;
        while index < self.retiring.len() && self.retiring[index].epoch != run.epoch
            invariant
                index <= self.retiring@.len(),
                forall|j: int|
                    0 <= j < index ==> (#[trigger] self.retiring@[j]).epoch != run.epoch,
            decreases self.retiring.len() - index,
        {
            index += 1;
        }
        if index == self.retiring.len() {
            assert(!is_retiring(before.retiring, run.epoch));
            assert(self@ =~= before.after_exit(run_id, status));
            return;
        }
        proof {
            assert(retiring_at(before.retiring, run.epoch, index as int));
            let chosen = choose|i: int| retiring_at(before.retiring, run.epoch, i);
            assert(chosen == index as int);
            assert(is_retiring(before.retiring, run.epoch));
        }
        notify_all(&mut self.watches, run.epoch, &exited);
        assert(self@.watches =~= before.watches_after_exit(run.epoch, exited, None));
        if last {
            let membership = self.retiring.remove(index);
            let removed = self.removed_event(membership.last_generation);
            self.report_removal(run.epoch, &removed);
            assert(self@.watches =~= before.watches_after_exit(run.epoch, exited, Some(removed)));
        }
        assert(self@ =~= before.after_exit(run_id, status));
    }

    /// Removes membership `epoch`, now or once its last run has exited. A
    /// membership that is no longer current is left alone.
    pub fn removed(&mut self, epoch: u64)
        requires
            old(self).wf(),
        ensures
            final(self).wf(),
            final(self)@ == old(self)@.after_removed(epoch),
    {
        let ghost before = self@;
        if epoch != self.current_epoch || matches!(self.lifecycle, Lifecycle::Removed(_)) {
            return;
        }
        if self.active_runs.has_epoch(epoch) {
            self.removal_requested = true;
            return;
        }
        let generation = self.current_last_generation;
        self.lifecycle = Lifecycle::Removed(generation);
        let removed = self.removed_event(generation);
        self.report_removal(epoch, &removed);
        assert(self@ =~= before.after_removed(epoch));
    }

    /// Registers a watch and returns its id.
    pub fn register_watch(&mut self, cancelled: bool, stopped: bool) -> (id: u64)
        requires
            old(self).wf(),
            old(self)@.next_watch < u64::MAX,
        ensures
            final(self).wf(),
            id == old(self)@.next_watch,
            final(self)@ == old(self)@.after_register(cancelled, stopped),
    {
        let ghost before = self@;
        let epoch = self.current_epoch;
        let ghost entries = self.watches@;
        let mut i: usize = 0;
        while i < self.watches.len()
            invariant
                i <= self.watches@.len(),
                self.watches@.len() == entries.len(),
                queues_wf(self.watches@),
                self.active_runs.wf(),
                self@ == (HubView { watches: self@.watches, ..before }),
                forall|j: int|
                    0 <= j < i ==> (#[trigger] self.watches@[j])@ == entries[j]@.pruned(epoch),
                forall|j: int|
                    i <= j < self.watches@.len() ==> #[trigger] self.watches@[j] == entries[j],
            decreases self.watches.len() - i,
        {
            let watch = &mut self.watches[i];
            if watch.epoch == Some(epoch) && !watch.is_live() {
                watch.epoch = None;
            }
            i += 1;
        }
        let id = self.next_watch;
        self.next_watch = id + 1;
        let mut watch = Watch {
            id,
            epoch: Some(epoch),
            min_generation: self.next_generation,
            cancelled,
            stopped,
            queue: WatchQueue::new(&self.actor_id),
            trace: Ghost(Seq::empty()),
        };
        match self.lifecycle {
            Lifecycle::Removed(generation) => {
                let removed = self.removed_event(generation);
                watch.queue.push(removed);
                watch.trace = Ghost(watch.trace@.push(removed));
                watch.epoch = None;
            },
            Lifecycle::Running { generation, .. } => {
                let started = self.started_event(generation);
                watch.queue.push(started);
                watch.trace = Ghost(watch.trace@.push(started));
                watch.min_generation = generation;
            },
            _ => {},
        }
        assert(watch@ =~= before.new_watch(cancelled, stopped));
        self.watches.push(watch);
        assert(self@ =~= before.after_register(cancelled, stopped));
        id
    }

    /// Finds the watch `id`.
    fn find_watch(&self, id: u64) -> (found: Option<usize>)
        ensures
            match found {
                Some(i) => watch_at(self@.watches, id, i as int),
                None => forall|i: int|
                    0 <= i < self@.watches.len() ==> (#[trigger] self@.watches[i]).id != id,
            },
    {
        let mut i: usize = 0;
        while i < self.watches.len()
            invariant
                i <= self.watches@.len(),
                forall|j: int| 0 <= j < i ==> (#[trigger] self@.watches[j]).id != id,
            decreases self.watches.len() - i,
        {
            if self.watches[i].id == id {
                assert(self@.watches[i as int].id == id);
                return Some(i);
            }
            assert(self@.watches[i as int].id != id);
            i += 1;
        }
        None
    }

    /// Takes the next undelivered event of watch `id`.
    pub fn pop(&mut self, id: u64) -> (event: Option<MonitorEvent>)
        requires
            old(self).wf(),
        ensures
            final(self).wf(),
            event == old(self)@.next_event(id),
            final(self)@ == old(self)@.after_pop(id),
    {
        let ghost before = self@;
        let index = match self.find_watch(id) {
            Some(index) => index,
            None => {
                return None;
            },
        };
        let watch = &mut self.watches[index];
        let event = watch.queue.pop();
        proof {
            let i = index as int;
            assert(forall|j: int| #[trigger] watch_at(before.watches, id, j) ==> i == j);
            if event is Some {
                assert(self@.watches =~= before.watches.update(
                    i,
                    WatchView {
                        events: before.watches[i].events.drop_first(),
                        ..before.watches[i]
                    },
                ));
            } else {
                assert(self@.watches =~= before.watches);
            }
        }
        event
    }

    /// Marks watch `id` as cancelled by its observer.
    pub fn cancel_watch(&mut self, id: u64)
        requires
            old(self).wf(),
        ensures
            final(self).wf(),
            final(self)@ == old(self)@.after_cancel(id),
    {
        let ghost before = self@;
        if let Some(index) = self.find_watch(id) {
            self.watches[index].cancelled = true;
        }
        assert(self@.watches =~= before.after_cancel(id).watches);
    }

    /// Marks watch `id` as ended with the observing membership.
    pub fn stop_watch(&mut self, id: u64)
        requires
            old(self).wf(),
        ensures
            final(self).wf(),
            final(self)@ == old(self)@.after_stop(id),
    {
        let ghost before = self@;
        if let Some(index) = self.find_watch(id) {
            self.watches[index].stopped = true;
        }
        assert(self@.watches =~= before.after_stop(id).watches);
    }

    /// Gives up watch `id` together with its undelivered events. Reports
    /// whether there was one.
    pub fn close_watch(&mut self, id: u64) -> (closed: bool)
        requires
            old(self).wf(),
        ensures
            final(self).wf(),
            closed == (watch_position(old(self)@.watches, id) is Some),
            final(self)@ == old(self)@.after_release(id),
    {
        let ghost before = self@;
        match self.find_watch(id) {
            Some(index) => {
                let ghost entries = self.watches@;
                let _closed = self.watches.remove(index);
                proof {
                    assert forall|j: int| 0 <= j < self.watches@.len() implies (
                    #[trigger] self.watches@[j]) == entries[if j < index {
                        j
                    } else {
                        j + 1
                    }] by {}
                    assert(self@.watches =~= before.watches.remove(index as int));
                    assert(watch_at(before.watches, id, index as int));
                }
                true
            },
            None => false,
        }
    }

    /// Returns the number of watches registered with the current membership.
    pub fn registered_watches(&self) -> (count: usize)
        ensures
            count == registered(self@.watches, self@.epoch),
    {
        let mut count: usize = 0;
        let mut i: usize = 0;
        assert(self@.watches.subrange(0, 0) =~= Seq::empty());
        while i < self.watches.len()
            invariant
                i <= self.watches@.len(),
                count <= i,
                count == registered(self@.watches.subrange(0, i as int), self@.epoch),
            decreases self.watches.len() - i,
        {
            assert(self@.watches.subrange(0, i + 1).drop_last() =~= self@.watches.subrange(
                0,
                i as int,
            ));
            if self.watches[i].epoch == Some(self.current_epoch) {
                count += 1;
            }
            i += 1;
        }
        assert(self@.watches.subrange(0, i as int) =~= self@.watches);
        count
    }

    fn started_event(&self, generation: u64) -> (event: MonitorEvent)
        ensures
            event == started_event(self.actor_id, generation),
    {
        MonitorEvent::Started { actor_id: self.actor_id.clone(), generation }
    }

    fn exited_event(&self, generation: u64, status: ExitStatus) -> (event: MonitorEvent)
        ensures
            event == exited_event(self.actor_id, generation, status),
    {
        MonitorEvent::Exited { actor_id: self.actor_id.clone(), generation, status }
    }

    fn removed_event(&self, generation: Option<u64>) -> (event: MonitorEvent)
        ensures
            event == removed_event(self.actor_id, generation),
    {
        MonitorEvent::Removed { actor_id: self.actor_id.clone(), generation }
    }
}

} // verus!
