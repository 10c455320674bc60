//! The restart-stable binding slot of one actor.
use vstd::prelude::*;

use crate::callbacks::SizeHint;
use crate::channel::{LatestReceipt, MailboxIdentity, MailboxRef, UsageReceipt};
use crate::hub::{MonitorHub, MonitorRun};
use crate::policy::RestartPolicy;
use crate::registry::{ActorMonitorLease, ActorMonitors};
use crate::stats::{ActorStats, ActorStatsCounters};

verus! {

/// The current lifecycle state of an actor mailbox binding.
#[verifier::reject_recursive_types(M)]
pub enum BindingState<M> {
    /// Not yet started, or between restarts where a new mailbox is expected.
    Unbound,
    /// A live mailbox.
    Bound(MailboxRef<M>),
    /// No restart is scheduled.
    Terminated,
}

/// A [`BindingState`] with its mailbox by identity.
#[verifier::reject_recursive_types(M)]
pub enum BindingView<M> {
    Unbound,
    Bound(MailboxIdentity<M>),
    Terminated,
}

impl<M> View for BindingState<M> {
    type V = BindingView<M>;

    open spec fn view(&self) -> BindingView<M> {
        match self {
            BindingState::Unbound => BindingView::Unbound,
            BindingState::Bound(mailbox) => BindingView::Bound(mailbox.identity()),
            BindingState::Terminated => BindingView::Terminated,
        }
    }
}

impl<M> BindingState<M> {
    /// Returns the state with its own reference to the mailbox.
    pub fn share(&self) -> (other: Self)
        ensures
            other@ == self@,
            self matches BindingState::Bound(mailbox) ==> other matches BindingState::Bound(copy)
                && mailbox.same_mailbox(&copy) && copy.sender.is_counted(),
    {
        match self {
            BindingState::Unbound => BindingState::Unbound,
            BindingState::Bound(mailbox) => BindingState::Bound(mailbox.share()),
            BindingState::Terminated => BindingState::Terminated,
        }
    }

    /// Gives up the reference to a bound mailbox.
    pub fn release(self) -> (receipt: Option<LatestReceipt<M>>)
        ensures
            match self {
                BindingState::Bound(mailbox) => mailbox.sender.released_by(receipt),
                _ => receipt is None,
            },
    {
        match self {
            BindingState::Bound(mailbox) => mailbox.release(),
            _ => None,
        }
    }

    /// Moves on to `next` and gives up the reference to a bound mailbox.
    fn replace(&mut self, next: Self)
        ensures
            *final(self) == next,
    {
        let mut stale = next;
        core::mem::swap(self, &mut stale);
        stale.release();
    }

    /// Reports whether `mailbox` is bound.
    pub fn is_bound_to(&self, mailbox: &MailboxRef<M>) -> (bound: bool)
        ensures
            bound == (self@ == BindingView::Bound(mailbox.identity())),
    {
        match self {
            BindingState::Bound(own) => own.same_channel(mailbox),
            _ => false,
        }
    }
}

/// Long-lived binding slot for one actor's current mailbox.
///
/// References to the actor look at this slot, so they follow the current
/// mailbox across restarts.
#[verifier::reject_recursive_types(M)]
pub struct BindingCore<M> {
    /// Identity of the binding.
    pub identity: u64,
    /// Id of the actor.
    pub actor_id: String,
    /// Current state.
    pub current: BindingState<M>,
    /// Message counters, kept across restarts.
    pub counters: ActorStatsCounters,
    /// What measures accepted messages, where sizes are observed.
    pub size_hint: Option<SizeHint<M>>,
    /// Lifecycle of the actor for its watchers.
    pub monitors: MonitorHub,
    /// Watches that the actor holds on others.
    pub outbound_monitors: ActorMonitors,
    /// Newest run that has been bound.
    pub latest_bind_run: Option<u64>,
    /// Whether the owner of the binding is gone, so that it cannot change any
    /// more.
    pub released: bool,
}

/// Whether `run` is older than the newest bound run.
pub open spec fn is_outdated(latest: Option<u64>, run: MonitorRun) -> bool {
    latest matches Some(newest) && run.run_id < newest
}

impl<M> BindingCore<M> {
    /// The hub and the registry are well formed, and a bound mailbox is one of
    /// this actor.
    pub open spec fn wf(&self) -> bool {
        &&& self.monitors.wf()
        &&& self.outbound_monitors.wf()
        &&& self.counters.observe_message_size == self.size_hint is Some
        &&& self.current matches BindingState::Bound(mailbox) ==> mailbox.actor_id@
            == self.actor_id@
    }

    /// The actor has not started and nothing has been sent to it; only the
    /// observation of sizes is open.
    pub open spec fn fresh(&self) -> bool {
        &&& self.current@ is Unbound
        &&& self.counters == (ActorStatsCounters {
            messages_received: 0,
            messages_accepted: 0,
            messages_conflated: 0,
            sends_rejected: 0,
            message_bytes_accepted: 0,
            observe_message_size: self.counters.observe_message_size,
            outstanding_offloads: 0,
        })
        &&& self.latest_bind_run is None
        &&& !self.released
        &&& self.monitors@ == crate::hub::HubView::initial(self.actor_id)
        &&& self.outbound_monitors.epoch == 0
        &&& !self.outbound_monitors.terminated
        &&& self.outbound_monitors.watches@ == Seq::<crate::registry::MembershipWatch>::empty()
        &&& self.outbound_monitors.next_watch == 0
    }

    /// Nothing but the state, the run order and the monitors differs from
    /// `other`.
    pub open spec fn same_slot(&self, other: &Self) -> bool {
        &&& self.identity == other.identity
        &&& self.actor_id == other.actor_id
        &&& self.counters == other.counters
        &&& self.size_hint == other.size_hint
        &&& self.released == other.released
    }

    /// Whether a run may take the slot: it is not older than the newest bound
    /// run, and a terminated binding takes only a run created to reopen it.
    pub open spec fn takes(&self, run: MonitorRun) -> bool {
        &&& !is_outdated(self.latest_bind_run, run)
        &&& self.current@ is Terminated ==> run.reopens_epoch is Some
    }

    /// Creates the slot of an actor that has not started.
    pub fn new(identity: u64, actor_id: String) -> (core: Self)
        ensures
            core.wf(),
            core.identity == identity,
            core.actor_id == actor_id,
            core.fresh(),
            core.size_hint is None,
            !core.counters.observe_message_size,
    {
        let monitors = MonitorHub::new(&actor_id);
        BindingCore {
            identity,
            actor_id,
            current: BindingState::Unbound,
            counters: ActorStatsCounters::new(),
            size_hint: None,
            monitors,
            outbound_monitors: ActorMonitors::new(),
            latest_bind_run: None,
            released: false,
        }
    }

    /// Turns message-size observation on, before the first mailbox binds.
    pub fn set_message_size(&mut self, size_hint: SizeHint<M>)
        requires
            old(self).wf(),
            old(self).size_hint is None,
        ensures
            final(self).wf(),
            *final(self) == (BindingCore {
                counters: ActorStatsCounters {
                    observe_message_size: true,
                    ..old(self).counters
                },
                size_hint: Some(size_hint),
                ..*old(self)
            }),
    {
        self.counters.enable_message_size();
        self.size_hint = Some(size_hint);
    }

    /// Returns what measures messages, where sizes are observed.
    pub fn message_size(&self) -> (size_hint: Option<SizeHint<M>>)
        ensures
            size_hint == self.size_hint,
    {
        match &self.size_hint {
            Some(size_hint) => Some(size_hint.clone()),
            None => None,
        }
    }

    /// Returns the id of the actor.
    pub fn actor_id(&self) -> (id: &String)
        ensures
            *id == self.actor_id,
    {
        &self.actor_id
    }

    /// Returns the identity of the binding.
    pub fn identity(&self) -> (identity: u64)
        ensures
            identity == self.identity,
    {
        self.identity
    }

    /// `stats` are the counters and the usage of the bound mailbox, as `receipt`
    /// tells, which is zero while none is bound.
    pub open spec fn samples(&self, stats: ActorStats, receipt: Option<UsageReceipt<M>>) -> bool {
        &&& self.counters.shows(
            stats,
            self.actor_id@,
            stats.mailbox_depth,
            stats.mailbox_capacity,
        )
        &&& match self.current {
            BindingState::Bound(mailbox) => receipt matches Some(receipt) && mailbox.sender.uses(
                (stats.mailbox_depth, stats.mailbox_capacity),
                receipt,
            ),
            _ => receipt is None && stats.mailbox_depth == 0 && stats.mailbox_capacity == 0,
        }
    }

    /// Samples the counters and the usage of the bound mailbox.
    pub fn stats(&self) -> (sampled: (ActorStats, Option<UsageReceipt<M>>))
        ensures
            self.samples(sampled.0, sampled.1),
    {
        let ((depth, capacity), receipt) = match &self.current {
            BindingState::Bound(mailbox) => {
                let (usage, receipt) = mailbox.usage();
                (usage, Some(receipt))
            },
            _ => ((0, 0), None),
        };
        (self.counters.snapshot(&self.actor_id, depth, capacity), receipt)
    }

    /// The slot `after` it handed out `run`.
    pub open spec fn opens_run(&self, run: MonitorRun, after: Self) -> bool {
        &&& after.wf()
        &&& after.same_slot(self)
        &&& after.current == self.current
        &&& after.latest_bind_run == self.latest_bind_run
        &&& after.outbound_monitors == self.outbound_monitors
        &&& after.monitors@ == (crate::hub::HubView {
            next_run_id: crate::hub::next(self.monitors@.next_run_id),
            ..self.monitors@
        })
        &&& run.run_id == self.monitors@.next_run_id
        &&& run.reopens_epoch == (if self.current@ is Terminated {
            Some(self.monitors@.epoch)
        } else {
            None
        })
    }

    /// Creates the next run. A terminated binding gives it the authority to
    /// reopen the membership that ended.
    pub fn monitor_run(&mut self) -> (run: MonitorRun)
        requires
            old(self).wf(),
        ensures
            old(self).opens_run(run, *final(self)),
    {
        let reopens_terminal = matches!(self.current, BindingState::Terminated);
        self.monitors.new_run(reopens_terminal)
    }

    /// The slot `after` `run` asked for it, and the lease that the run got.
    pub open spec fn binds(
        &self,
        mailbox: MailboxRef<M>,
        run: MonitorRun,
        lease: Option<ActorMonitorLease>,
        after: Self,
    ) -> bool {
        &&& after.wf()
        &&& after.same_slot(self)
        &&& lease is Some <==> self.takes(run) && self.monitors@.admits(
            run.reopens_epoch,
        ) is Some
        &&& !self.takes(run) ==> {
            &&& after.current == self.current
            &&& after.latest_bind_run == self.latest_bind_run
            &&& after.monitors == self.monitors
            &&& after.outbound_monitors == self.outbound_monitors
        }
        &&& self.takes(run) ==> {
            &&& after.latest_bind_run == Some(run.run_id)
            &&& after.monitors@ == self.monitors@.after_start(run)
            &&& after.current@ == if lease is Some {
                BindingView::Bound(mailbox.identity())
            } else {
                BindingView::Terminated
            }
        }
        &&& lease is Some ==> after.current == BindingState::Bound(mailbox)
        &&& lease matches Some(lease) ==> lease.epoch == after.outbound_monitors.epoch
        &&& lease is Some && self.monitors@.admits(run.reopens_epoch) == Some(true) ==> {
            &&& after.outbound_monitors.epoch == self.outbound_monitors.epoch + 1
            &&& !after.outbound_monitors.terminated
            &&& after.outbound_monitors.watches@.len() == 0
        }
        &&& !(lease is Some && self.monitors@.admits(run.reopens_epoch) == Some(true)) ==> (
        after.outbound_monitors == self.outbound_monitors)
    }

    /// Binds the mailbox of `run` and starts the run for the watchers.
    ///
    /// `None` refuses the run. A run that the slot takes but the hub refuses
    /// leaves the binding terminated: the terminal decision came first.
    pub fn bind(&mut self, mailbox: MailboxRef<M>, run: &MonitorRun) -> (lease: Option<
        ActorMonitorLease,
    >)
        requires
            old(self).wf(),
            mailbox.actor_id@ == old(self).actor_id@,
            old(self).monitors@.admits(run.reopens_epoch) == Some(true) ==> old(self).monitors@.epoch
                < u64::MAX && old(self).outbound_monitors.epoch < u64::MAX,
        ensures
            old(self).binds(mailbox, *run, lease, *final(self)),
    {
        if let Some(latest) = self.latest_bind_run {
            if run.run_id < latest {
                mailbox.release();
                return None;
            }
        }
        if matches!(self.current, BindingState::Terminated) && !run.reopens_terminal() {
            mailbox.release();
            return None;
        }
        self.latest_bind_run = Some(run.run_id);
        match self.monitors.started(run) {
            Some(reopened) => {
                self.current.replace(BindingState::Bound(mailbox));
                let lease = if reopened {
                    self.outbound_monitors.reopen()
                } else {
                    self.outbound_monitors.lease()
                };
                Some(lease)
            },
            None => {
                mailbox.release();
                self.current.replace(BindingState::Terminated);
                None
            },
        }
    }

    /// The slot `after` its mailbox was taken away.
    pub open spec fn unbinds(&self, changed: bool, after: Self) -> bool {
        &&& after.wf()
        &&& after == (BindingCore { current: after.current, ..*self })
        &&& changed == (self.current@ is Bound)
        &&& after.current@ == if changed {
            BindingView::Unbound
        } else {
            self.current@
        }
    }

    /// Clears a bound mailbox. A terminated binding stays terminated, or its
    /// senders would wait for a rebind that never comes.
    pub fn unbind(&mut self) -> (changed: bool)
        requires
            old(self).wf(),
        ensures
            old(self).unbinds(changed, *final(self)),
    {
        if matches!(self.current, BindingState::Bound(_)) {
            self.current.replace(BindingState::Unbound);
            true
        } else {
            false
        }
    }

    /// The slot `after` that one mailbox was taken away.
    pub open spec fn unbinds_mailbox(
        &self,
        mailbox: MailboxRef<M>,
        changed: bool,
        after: Self,
    ) -> bool {
        &&& after.wf()
        &&& after == (BindingCore { current: after.current, ..*self })
        &&& changed == (self.current@ == BindingView::Bound(mailbox.identity()))
        &&& after.current@ == if changed {
            BindingView::Unbound
        } else {
            self.current@
        }
    }

    /// Clears `mailbox` if it is the bound one.
    pub fn unbind_mailbox(&mut self, mailbox: &MailboxRef<M>) -> (changed: bool)
        requires
            old(self).wf(),
        ensures
            old(self).unbinds_mailbox(*mailbox, changed, *final(self)),
    {
        if self.current.is_bound_to(mailbox) {
            self.current.replace(BindingState::Unbound);
            true
        } else {
            false
        }
    }

    /// The slot `after` the run of that one mailbox was its last.
    pub open spec fn terminates_mailbox(
        &self,
        mailbox: MailboxRef<M>,
        changed: bool,
        after: Self,
    ) -> bool {
        &&& after.wf()
        &&& after.same_slot(self)
        &&& after.latest_bind_run == self.latest_bind_run
        &&& changed == (self.current@ == BindingView::Bound(mailbox.identity()))
        &&& changed ==> {
            &&& after.current@ is Terminated
            &&& after.monitors@ == self.monitors@.after_removed(
                self.monitors@.epoch,
            )
            &&& after.outbound_monitors == (ActorMonitors {
                terminated: true,
                ..self.outbound_monitors
            })
        }
        &&& !changed ==> after == *self
    }

    /// Ends the membership if `mailbox` is the bound one.
    pub fn terminate_mailbox(&mut self, mailbox: &MailboxRef<M>) -> (changed: bool)
        requires
            old(self).wf(),
        ensures
            old(self).terminates_mailbox(*mailbox, changed, *final(self)),
    {
        if self.current.is_bound_to(mailbox) {
            self.terminate();
            true
        } else {
            false
        }
    }

    /// The slot `after` the actor was removed.
    pub open spec fn terminates(&self, after: Self) -> bool {
        &&& after.wf()
        &&& after.same_slot(self)
        &&& after.latest_bind_run == self.latest_bind_run
        &&& after.current@ is Terminated
        &&& after.monitors@ == self.monitors@.after_removed(self.monitors@.epoch)
        &&& after.outbound_monitors == (ActorMonitors {
            terminated: true,
            ..self.outbound_monitors
        })
    }

    /// Ends the membership: the binding becomes terminal, watchers learn of
    /// the removal once every run has exited, and the actor's own watches
    /// stop.
    pub fn terminate(&mut self)
        requires
            old(self).wf(),
        ensures
            old(self).terminates(*final(self)),
    {
        let epoch = self.monitors.current_epoch();
        self.current.replace(BindingState::Terminated);
        self.monitors.removed(epoch);
        self.outbound_monitors.terminate();
    }

    /// The slot `after` nothing refers to it any more.
    pub open spec fn releases(&self, after: Self) -> bool {
        &&& after.wf()
        &&& after.released
        &&& after.identity == self.identity
        &&& after.actor_id == self.actor_id
        &&& after.counters == self.counters
        &&& after.size_hint == self.size_hint
        &&& after.latest_bind_run == self.latest_bind_run
        &&& after.current == self.current
        &&& after.monitors@ == self.monitors@.after_removed(self.monitors@.epoch)
        &&& after.outbound_monitors == (ActorMonitors {
            terminated: true,
            ..self.outbound_monitors
        })
    }

    /// Gives the binding up: it keeps its last state, which nothing changes
    /// any more.
    pub fn release(&mut self)
        requires
            old(self).wf(),
        ensures
            old(self).releases(*final(self)),
    {
        let epoch = self.monitors.current_epoch();
        self.monitors.removed(epoch);
        self.outbound_monitors.terminate();
        self.released = true;
    }
}

/// What one run holds of its binding from bind to teardown.
#[verifier::reject_recursive_types(M)]
pub struct BindingGuard<M> {
    /// Mailbox of the run, which stays open as long as the run holds it.
    pub mailbox: MailboxRef<M>,
    /// Restart policy of the actor.
    pub restart_policy: RestartPolicy,
    /// Authority to register watches.
    pub monitor_lease: ActorMonitorLease,
}

impl<M> BindingGuard<M> {
    /// The slot `after` `run` asked for it, and the guard that the run got.
    pub open spec fn taken(
        core: BindingCore<M>,
        mailbox: MailboxRef<M>,
        run: MonitorRun,
        restart_policy: RestartPolicy,
        guard: Option<Self>,
        after: BindingCore<M>,
    ) -> bool {
        &&& after.wf()
        &&& after.same_slot(&core)
        &&& guard is Some <==> core.takes(run) && core.monitors@.admits(
            run.reopens_epoch,
        ) is Some
        &&& guard matches Some(guard) ==> {
            &&& mailbox.same_mailbox(&guard.mailbox)
            &&& guard.mailbox.identity() == mailbox.identity()
            &&& guard.restart_policy == restart_policy
            &&& guard.monitor_lease.epoch == after.outbound_monitors.epoch
            &&& after.current == BindingState::Bound(mailbox)
            &&& after.monitors@ == core.monitors@.after_start(run)
        }
        &&& core.takes(run) ==> after.latest_bind_run == Some(run.run_id)
        &&& guard is None && !core.takes(run) ==> {
            &&& after.current == core.current
            &&& after.latest_bind_run == core.latest_bind_run
            &&& after.monitors == core.monitors
        }
        &&& guard is None && core.takes(run) ==> {
            &&& after.current@ is Terminated
            &&& after.monitors@ == core.monitors@.after_start(run)
        }
        &&& guard is Some && core.monitors@.admits(run.reopens_epoch) == Some(true) ==> {
            &&& after.outbound_monitors.epoch == core.outbound_monitors.epoch + 1
            &&& !after.outbound_monitors.terminated
            &&& after.outbound_monitors.watches@.len() == 0
        }
        &&& !(guard is Some && core.monitors@.admits(run.reopens_epoch) == Some(true)) ==> (
        after.outbound_monitors == core.outbound_monitors)
    }

    /// Binds the mailbox of `run`, or refuses the run.
    pub fn bind(
        core: &mut BindingCore<M>,
        mailbox: MailboxRef<M>,
        run: &MonitorRun,
        restart_policy: RestartPolicy,
    ) -> (guard: Option<Self>)
        requires
            old(core).wf(),
            mailbox.actor_id@ == old(core).actor_id@,
            old(core).monitors@.admits(run.reopens_epoch) == Some(true) ==> old(core).monitors@.epoch
                < u64::MAX && old(core).outbound_monitors.epoch < u64::MAX,
        ensures
            BindingGuard::taken(*old(core), mailbox, *run, restart_policy, guard, *final(core)),
    {
        let own = mailbox.share();
        match core.bind(mailbox, run) {
            Some(monitor_lease) => Some(BindingGuard { mailbox: own, restart_policy, monitor_lease }),
            None => {
                own.release();
                None
            },
        }
    }

    /// Returns the authority to register watches.
    pub fn monitor_lease(&self) -> (lease: ActorMonitorLease)
        ensures
            lease == self.monitor_lease,
    {
        self.monitor_lease
    }

    /// The slot `after` this guard was dropped.
    pub open spec fn gives_back(
        &self,
        core: BindingCore<M>,
        cleared: bool,
        after: BindingCore<M>,
    ) -> bool {
        &&& after.wf()
        &&& after.same_slot(&core)
        &&& after.latest_bind_run == core.latest_bind_run
        &&& cleared == (core.current@ == BindingView::Bound(self.mailbox.identity()))
        &&& after.current@ == if !cleared {
            core.current@
        } else if self.restart_policy.restarts(true) {
            BindingView::Unbound
        } else {
            BindingView::Terminated
        }
        &&& !cleared || self.restart_policy.restarts(true) ==> after.monitors
            == core.monitors && after.outbound_monitors == core.outbound_monitors
        &&& cleared && !self.restart_policy.restarts(true) ==> after.monitors@ == core.monitors@.after_removed(core.monitors@.epoch)
            && after.outbound_monitors == (ActorMonitors {
            terminated: true,
            ..core.outbound_monitors
        })
    }

    /// Clears the binding when the run ends, unless a later run has taken it.
    /// A dropped run is a failure, so every policy but `never` expects a
    /// rebind. Reports whether the binding was cleared.
    pub fn release(self, core: &mut BindingCore<M>) -> (cleared: bool)
        requires
            old(core).wf(),
        ensures
            self.gives_back(*old(core), cleared, *final(core)),
    {
        let cleared = if self.restart_policy.is_never() {
            core.terminate_mailbox(&self.mailbox)
        } else {
            core.unbind_mailbox(&self.mailbox)
        };
        self.mailbox.release();
        cleared
    }
}

/// An older run never replaces the mailbox of a newer one.
pub proof fn law_older_run_is_refused<M>(core: BindingCore<M>, older: MonitorRun, newer: MonitorRun)
    requires
        core.latest_bind_run == Some(newer.run_id),
        older.run_id < newer.run_id,
    ensures
        !core.takes(older),
{
}

/// A terminated binding refuses every run that was created before its
/// termination was seen.
pub proof fn law_terminal_binding_refuses_late_runs<M>(core: BindingCore<M>, late: MonitorRun)
    requires
        core.current@ is Terminated,
        late.reopens_epoch is None,
    ensures
        !core.takes(late),
{
}

/// The next run of a terminated binding reopens it: the slot takes the run and
/// its membership begins a new epoch.
pub proof fn law_next_run_reopens<M>(core: BindingCore<M>, run: MonitorRun)
    requires
        core.current@ is Terminated,
        run.reopens_epoch == Some(core.monitors@.epoch),
        core.latest_bind_run matches Some(newest) ==> newest <= run.run_id,
    ensures
        core.takes(run),
        core.monitors@.admits(run.reopens_epoch) == Some(true),
{
}

} // verus!
