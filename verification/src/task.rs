//! Tracking of one supervised task membership.
use vstd::prelude::*;

use crate::error::quote;
use crate::observe::{
    ChildEventKind, ChildMembershipView, ChildSnapshot, ChildStateView, LifecycleEvent,
    LifecycleEventKind, SupervisorSnapshot, SupervisorStateView,
};
use crate::policy::{ExitStatus, RestartMode, Strategy};

verus! {

/// A task reference can no longer observe its task membership.
#[derive(Debug, PartialEq, Eq)]
pub enum TaskError {
    /// The task stopped before reporting explicit startup readiness.
    StoppedBeforeReady {
        /// Id of the task that stopped.
        task_id: String,
    },
    /// The task membership ended without an observable exit.
    Unavailable {
        /// Id of the unavailable task.
        task_id: String,
    },
}

impl Clone for TaskError {
    fn clone(&self) -> (error: Self)
        ensures
            error == *self,
    {
        match self {
            TaskError::StoppedBeforeReady { task_id } => TaskError::StoppedBeforeReady {
                task_id: task_id.clone(),
            },
            TaskError::Unavailable { task_id } => TaskError::Unavailable {
                task_id: task_id.clone(),
            },
        }
    }
}

impl TaskError {
    /// Describes the error.
    pub fn to_string(&self) -> (text: String)
        ensures
            text@ == match *self {
                TaskError::StoppedBeforeReady { task_id } => crate::error::quoted(
                    "task `"@,
                    task_id@,
                    "` stopped before reporting readiness"@,
                ),
                TaskError::Unavailable { task_id } => crate::error::quoted(
                    "task `"@,
                    task_id@,
                    "` is no longer available"@,
                ),
            },
    {
        match self {
            TaskError::StoppedBeforeReady { task_id } => quote(
                "task `",
                task_id,
                "` stopped before reporting readiness",
            ),
            TaskError::Unavailable { task_id } => quote(
                "task `",
                task_id,
                "` is no longer available",
            ),
        }
    }
}

/// What is known of a task membership.
#[derive(Debug, PartialEq, Eq)]
pub struct TaskTrackingState {
    /// Whether the task has become ready.
    pub started: bool,
    /// How the membership ended, once it has.
    pub outcome: Option<Result<ExitStatus, TaskError>>,
}

/// Membership `(id, lineage)` of a snapshot stands at `i`.
pub open spec fn member_at(
    children: Seq<ChildSnapshot>,
    id: Seq<char>,
    lineage: u64,
    i: int,
) -> bool {
    &&& 0 <= i < children.len()
    &&& children[i].id@ == id && children[i].lineage == lineage
    &&& forall|j: int|
        0 <= j < i ==> (#[trigger] children[j]).id@ != id || children[j].lineage != lineage
}

/// A snapshot lists membership `(id, lineage)`.
pub open spec fn is_member(children: Seq<ChildSnapshot>, id: Seq<char>, lineage: u64) -> bool {
    exists|i: int|
        0 <= i < children.len() && (#[trigger] children[i]).id@ == id && children[i].lineage
            == lineage
}

/// The snapshot of membership `(id, lineage)`.
pub open spec fn member(children: Seq<ChildSnapshot>, id: Seq<char>, lineage: u64) -> ChildSnapshot {
    children[choose|i: int| member_at(children, id, lineage, i)]
}

/// Finds the exact membership: a later member with the same id is ignored.
pub fn task_snapshot<'a>(snapshot: &'a SupervisorSnapshot, id: &String, lineage: u64) -> (found:
    Option<&'a ChildSnapshot>)
    ensures
        found is Some <==> is_member(snapshot.children@, id@, lineage),
        found matches Some(child) ==> *child == member(snapshot.children@, id@, lineage),
{
    let mut i: usize = 0;
    while i < snapshot.children.len() && !(snapshot.children[i].id == *id
        && snapshot.children[i].lineage == lineage)
        invariant
            i <= snapshot.children@.len(),
            forall|j: int|
                0 <= j < i ==> (#[trigger] snapshot.children@[j]).id@ != id@
                    || snapshot.children@[j].lineage != lineage,
        decreases snapshot.children.len() - i,
    {
        i += 1;
    }
    if i < snapshot.children.len() {
        proof {
            assert(member_at(snapshot.children@, id@, lineage, i as int));
            let chosen = choose|k: int| member_at(snapshot.children@, id@, lineage, k);
            assert(chosen == i as int);
            assert(snapshot.children@[i as int].id@ == id@);
        }
        Some(&snapshot.children[i])
    } else {
        None
    }
}

/// Whether a restart of siblings can bring a stopped member back.
pub open spec fn revivable(snapshot: SupervisorSnapshot, child: ChildSnapshot) -> bool {
    child.restart_policy.restarts(true) && match snapshot.strategy {
        Strategy::OneForOne => false,
        Strategy::OneForAll => true,
        Strategy::RestForOne => snapshot.children@.len() > 0 && snapshot.children@[0].lineage
            != child.lineage,
    }
}

/// Reports whether a restart of siblings can bring a stopped member back: with
/// `RestForOne` only a member behind the first one.
pub fn task_is_revivable_by_group(snapshot: &SupervisorSnapshot, child: &ChildSnapshot) -> (result:
    bool)
    ensures
        result == revivable(*snapshot, *child),
{
    if child.restart_policy.is_never() {
        return false;
    }
    match snapshot.strategy {
        Strategy::OneForOne => false,
        Strategy::OneForAll => true,
        Strategy::RestForOne => snapshot.children.len() > 0 && snapshot.children[0].lineage
            != child.lineage,
    }
}

/// Whether another incarnation of a member may follow its `exit`.
pub open spec fn may_restart(
    snapshot: SupervisorSnapshot,
    child: ChildSnapshot,
    exit: ExitStatus,
) -> bool {
    &&& snapshot.state == SupervisorStateView::Running
    &&& child.membership == ChildMembershipView::Active
    &&& child.restart_policy.restarts(!(exit is Completed)) || revivable(snapshot, child)
}

/// What a snapshot tells of a member: its exit is final once no incarnation is
/// left, none may follow, and none is scheduled.
pub open spec fn member_state(
    snapshot: SupervisorSnapshot,
    child: ChildSnapshot,
) -> TaskTrackingState {
    TaskTrackingState {
        started: child.state.was_started(),
        outcome: match child.state.exit() {
            Some(exit) => if child.state.terminal() && !may_restart(snapshot, child, exit)
                && child.next_restart_in is None {
                Some(Ok(exit))
            } else {
                None
            },
            None => None,
        },
    }
}

/// Reads the state of membership `(id, lineage)` from a snapshot.
pub fn task_state_from_snapshot(snapshot: &SupervisorSnapshot, id: &String, lineage: u64) -> (state:
    Option<TaskTrackingState>)
    ensures
        state == if is_member(snapshot.children@, id@, lineage) {
            Some(member_state(*snapshot, member(snapshot.children@, id@, lineage)))
        } else {
            None
        },
{
    let child = match task_snapshot(snapshot, id, lineage) {
        Some(child) => child,
        None => {
            return None;
        },
    };
    let started = child.state.has_started();
    let outcome = match child.state.last_exit() {
        Some(exit) => {
            let can_restart = snapshot.state == SupervisorStateView::Running && child.membership
                == ChildMembershipView::Active && (child.restart_policy.should_restart(
                exit.is_failure(),
            ) || task_is_revivable_by_group(snapshot, child));
            if child.state.is_terminal() && !can_restart && child.next_restart_in.is_none() {
                Some(Ok(exit))
            } else {
                None
            }
        },
        None => None,
    };
    Some(TaskTrackingState { started, outcome })
}

/// Follows one task membership through a lifecycle stream.
pub struct TaskTracker {
    /// Id of the task.
    pub id: String,
    /// Membership identity of the task.
    pub lineage: u64,
    /// Last exit seen.
    pub last_exit: Option<ExitStatus>,
    /// What is known.
    pub state: TaskTrackingState,
}

impl TaskTracker {
    /// Tracking is over.
    pub open spec fn finished(&self) -> bool {
        self.state.outcome is Some
    }

    /// The tracker follows the same membership.
    pub open spec fn same_task(&self, other: &Self) -> bool {
        self.id == other.id && self.lineage == other.lineage
    }

    /// The end of a membership without a final snapshot: the last exit seen,
    /// or that it is unavailable.
    pub open spec fn closing(&self) -> Option<Result<ExitStatus, TaskError>> {
        Some(
            match self.last_exit {
                Some(exit) => Ok(exit),
                None => Err(TaskError::Unavailable { task_id: self.id }),
            },
        )
    }

    /// Starts tracking with nothing known.
    pub fn new(id: String, lineage: u64) -> (tracker: Self)
        ensures
            tracker.id == id,
            tracker.lineage == lineage,
            tracker.last_exit is None,
            tracker.state == (TaskTrackingState { started: false, outcome: None }),
    {
        TaskTracker {
            id,
            lineage,
            last_exit: None,
            state: TaskTrackingState { started: false, outcome: None },
        }
    }

    /// Reports whether tracking is over.
    pub fn is_finished(&self) -> (finished: bool)
        ensures
            finished == self.finished(),
    {
        self.state.outcome.is_some()
    }

    /// The tracker `after` its first snapshot, and whether tracking is over.
    pub open spec fn begins(
        &self,
        snapshot: SupervisorSnapshot,
        after: TaskTracker,
        finished: bool,
    ) -> bool {
        &&& after.same_task(self)
        &&& finished == (is_member(snapshot.children@, self.id@, self.lineage) && after.finished())
        &&& !is_member(snapshot.children@, self.id@, self.lineage) ==> after == *self
        &&& is_member(snapshot.children@, self.id@, self.lineage) ==> {
            &&& after.state == member_state(
                snapshot,
                member(snapshot.children@, self.id@, self.lineage),
            )
            &&& after.last_exit == match after.state.outcome {
                Some(Ok(exit)) => Some(exit),
                _ => self.last_exit,
            }
        }
    }

    /// Takes the first snapshot. Reports whether tracking is over.
    pub fn begin(&mut self, snapshot: &SupervisorSnapshot) -> (finished: bool)
        ensures
            old(self).begins(*snapshot, *final(self), finished),
    {
        match task_state_from_snapshot(snapshot, &self.id, self.lineage) {
            Some(state) => {
                if let Some(Ok(exit)) = &state.outcome {
                    self.last_exit = Some(exit.clone());
                }
                self.state = state;
                self.state.outcome.is_some()
            },
            None => false,
        }
    }

    /// `event` is a transition of this membership.
    pub open spec fn concerns(&self, event: LifecycleEvent) -> bool {
        event.kind matches LifecycleEventKind::Child(child) && child.child_id@ == self.id@
            && child.lineage == self.lineage
    }

    /// The last exit seen, once `event` has been taken.
    pub open spec fn exit_after(&self, event: LifecycleEvent) -> Option<ExitStatus> {
        if self.concerns(event) && event.kind->Child_0.kind is Exited {
            Some(event.kind->Child_0.kind->exit)
        } else {
            self.last_exit
        }
    }

    /// The tracker `after` an event, and whether tracking is over.
    pub open spec fn takes(
        &self,
        event: LifecycleEvent,
        snapshot: SupervisorSnapshot,
        after: TaskTracker,
        finished: bool,
    ) -> bool {
        &&& after.same_task(self)
        &&& after.last_exit == self.exit_after(event)
        &&& self.concerns(event) && event.kind->Child_0.kind is Removed ==> finished
            && after.closes(self)
        &&& (self.concerns(event) && !(event.kind->Child_0.kind is Removed))
            || event.kind is Lagged ==> {
            if is_member(snapshot.children@, self.id@, self.lineage) {
                &&& after.state == member_state(
                    snapshot,
                    member(snapshot.children@, self.id@, self.lineage),
                )
                &&& finished == after.finished()
            } else {
                after.state == self.state && !finished
            }
        }
        &&& !self.concerns(event) && !(event.kind is Lagged) ==> after.state == self.state
            && !finished
    }

    /// Tracking, which stood as `before`, has ended with the last exit seen.
    pub open spec fn closes(&self, before: &TaskTracker) -> bool {
        &&& self.same_task(before)
        &&& self.last_exit == before.last_exit
        &&& self.state == (TaskTrackingState {
            started: before.state.started,
            outcome: before.closing(),
        })
    }

    /// Takes `event` of the stream together with the snapshot of that moment.
    /// Reports whether tracking is over.
    ///
    /// A transition of this membership and a lag marker read the snapshot
    /// again; events of other memberships are ignored, also of a later task
    /// with the same id. Removal ends tracking with the last exit seen.
    pub fn on_event(&mut self, event: &LifecycleEvent, snapshot: &SupervisorSnapshot) -> (finished:
        bool)
        ensures
            old(self).takes(*event, *snapshot, *final(self), finished),
    {
        let mut relevant = false;
        match &event.kind {
            LifecycleEventKind::Child(child) => {
                if child.child_id == self.id && child.lineage == self.lineage {
                    relevant = true;
                    match &child.kind {
                        ChildEventKind::Exited { exit } => {
                            self.last_exit = Some(exit.clone());
                        },
                        ChildEventKind::Removed => {
                            self.close();
                            return true;
                        },
                        _ => {},
                    }
                }
            },
            LifecycleEventKind::Lagged { .. } => {
                relevant = true;
            },
            _ => {},
        }
        if relevant {
            if let Some(state) = task_state_from_snapshot(snapshot, &self.id, self.lineage) {
                self.state = state;
                return self.state.outcome.is_some();
            }
        }
        false
    }

    /// Ends tracking with the last exit seen.
    fn close(&mut self)
        ensures
            final(self).closes(old(self)),
    {
        let outcome = match &self.last_exit {
            Some(exit) => Ok(exit.clone()),
            None => Err(TaskError::Unavailable { task_id: self.id.clone() }),
        };
        self.state.outcome = Some(outcome);
    }

    /// The stream is over.
    pub fn on_end(&mut self)
        ensures
            final(self).closes(old(self)),
            final(self).finished(),
    {
        self.close();
    }

    /// What a wait for the terminal exit is answered.
    pub open spec fn answer(&self) -> Option<Result<ExitStatus, TaskError>> {
        self.state.outcome
    }

    /// What a wait for readiness is answered.
    pub open spec fn started_answer(&self) -> Option<Result<(), TaskError>> {
        if self.state.started {
            Some(Ok(()))
        } else {
            match self.state.outcome {
                None => None,
                Some(Ok(_)) => Some(Err(TaskError::StoppedBeforeReady { task_id: self.id })),
                Some(Err(error)) => Some(Err(error)),
            }
        }
    }

    /// Answers a wait for the terminal exit, or `None` to go on waiting.
    pub fn wait(&self) -> (answer: Option<Result<ExitStatus, TaskError>>)
        ensures
            answer == self.answer(),
    {
        match &self.state.outcome {
            Some(Ok(exit)) => Some(Ok(exit.clone())),
            Some(Err(error)) => Some(Err(error.clone())),
            None => None,
        }
    }

    /// Answers a wait for readiness, or `None` to go on waiting. A task that
    /// ended without having been ready has stopped before it.
    pub fn wait_started(&self) -> (answer: Option<Result<(), TaskError>>)
        ensures
            answer == self.started_answer(),
    {
        if self.state.started {
            return Some(Ok(()));
        }
        match &self.state.outcome {
            None => None,
            Some(Ok(_)) => Some(Err(TaskError::StoppedBeforeReady { task_id: self.id.clone() })),
            Some(Err(error)) => Some(Err(error.clone())),
        }
    }
}

/// A tracked task never takes over a later member with the same id: an event
/// of another lineage changes nothing, and neither does a snapshot that lists
/// only the later member.
pub proof fn law_tracking_is_bound_to_its_membership(
    tracker: TaskTracker,
    event: LifecycleEvent,
    children: Seq<ChildSnapshot>,
)
    requires
        event.kind matches LifecycleEventKind::Child(child) && child.lineage != tracker.lineage,
        forall|i: int|
            0 <= i < children.len() ==> (#[trigger] children[i]).lineage != tracker.lineage,
    ensures
        !tracker.concerns(event),
        tracker.exit_after(event) == tracker.last_exit,
        !is_member(children, tracker.id@, tracker.lineage),
{
}

/// The exit of a restarting membership is not final: while the scope runs, the
/// member is active and its policy restarts after that exit, no outcome is
/// reported.
pub proof fn law_intermediate_exits_are_skipped(
    snapshot: SupervisorSnapshot,
    child: ChildSnapshot,
    exit: ExitStatus,
)
    requires
        snapshot.state == SupervisorStateView::Running,
        child.membership == ChildMembershipView::Active,
        child.state.exit() == Some(exit),
        child.restart_policy.restarts(!(exit is Completed)),
    ensures
        member_state(snapshot, child).outcome is None,
{
}

/// Which restart modes follow an exit, in so many words.
pub open spec fn mode_restarts(mode: RestartMode, exit: ExitStatus) -> bool {
    ||| mode == RestartMode::Always
    ||| mode == RestartMode::OnFailure && (exit is Failed || exit is Panicked || exit is Aborted)
}

/// The supervisor may start the child again after its exit: it runs, the child
/// is a member, and either the child's own policy restarts it after such an exit
/// or, unless its policy is never to restart it, a failure of a sibling can take
/// it along: any sibling under one-for-all, and an earlier one under
/// rest-for-one.
pub open spec fn can_come_back(
    snapshot: SupervisorSnapshot,
    child: ChildSnapshot,
    exit: ExitStatus,
) -> bool {
    &&& snapshot.state == SupervisorStateView::Running
    &&& child.membership == ChildMembershipView::Active
    &&& {
        ||| mode_restarts(child.restart_policy.mode, exit)
        ||| child.restart_policy.mode != RestartMode::Never && snapshot.strategy
            == Strategy::OneForAll
        ||| child.restart_policy.mode != RestartMode::Never && snapshot.strategy
            == Strategy::RestForOne && snapshot.children@.len() > 0
            && snapshot.children@[0].lineage != child.lineage
    }
}

/// A state that nothing follows by itself, reached by `exit`.
pub open spec fn ended_with(state: ChildStateView, exit: ExitStatus) -> bool {
    match state {
        ChildStateView::Stopped { last_exit, .. } => last_exit == Some(exit),
        ChildStateView::StartupAborted { last_exit } => last_exit == Some(exit),
        _ => false,
    }
}

/// A final exit is reported, whatever kind of exit it is, and no other: the
/// outcome of a member is its exit exactly where its state is terminal, no
/// restart is scheduled and none can come.
pub proof fn law_final_exits_are_reported(snapshot: SupervisorSnapshot, child: ChildSnapshot)
    ensures
        forall|exit: ExitStatus|
            (#[trigger] member_state(snapshot, child).outcome) == Some(
                Ok::<ExitStatus, TaskError>(exit),
            ) <==> {
                &&& ended_with(child.state, exit)
                &&& child.next_restart_in is None
                &&& !can_come_back(snapshot, child, exit)
            },
        !(member_state(snapshot, child).outcome matches Some(Err(_))),
{
}

/// A member counts as started while it runs, and afterwards if it had been
/// running.
pub proof fn law_running_members_have_started(snapshot: SupervisorSnapshot, child: ChildSnapshot)
    ensures
        child.state is Running ==> member_state(snapshot, child).started,
        child.state is Starting || child.state is StartupAborted ==> !member_state(
            snapshot,
            child,
        ).started,
        child.state matches ChildStateView::Stopping { started, .. } ==> member_state(
            snapshot,
            child,
        ).started == started,
        child.state matches ChildStateView::Stopped { started, .. } ==> member_state(
            snapshot,
            child,
        ).started == started,
{
}

/// The member that is looked up is one with the id and the lineage asked for.
pub proof fn law_members_are_found_by_identity(
    children: Seq<ChildSnapshot>,
    id: Seq<char>,
    lineage: u64,
)
    ensures
        is_member(children, id, lineage) <==> exists|i: int|
            0 <= i < children.len() && (#[trigger] children[i]).id@ == id && children[i].lineage
                == lineage,
        is_member(children, id, lineage) ==> {
            &&& children.contains(member(children, id, lineage))
            &&& member(children, id, lineage).id@ == id
            &&& member(children, id, lineage).lineage == lineage
        },
{
    if is_member(children, id, lineage) {
        lemma_first_member(children, id, lineage, children.len() as int);
        let i = choose|i: int| member_at(children, id, lineage, i);
        assert(member_at(children, id, lineage, i));
        assert(children[i] == member(children, id, lineage));
    }
}

/// Among the first `n` children there is a first one with the identity, if any.
proof fn lemma_first_member(children: Seq<ChildSnapshot>, id: Seq<char>, lineage: u64, n: int)
    requires
        0 <= n <= children.len(),
        exists|i: int|
            0 <= i < n && (#[trigger] children[i]).id@ == id && children[i].lineage == lineage,
    ensures
        exists|i: int| member_at(children, id, lineage, i),
    decreases n,
{
    if exists|i: int|
        0 <= i < n - 1 && (#[trigger] children[i]).id@ == id && children[i].lineage == lineage {
        lemma_first_member(children, id, lineage, n - 1);
    } else {
        assert(member_at(children, id, lineage, n - 1));
    }
}

/// A tracker that begins with a member's final exit is over and answers it; one
/// whose member may come back, or is not there, goes on.
pub proof fn law_tracking_begins_with_the_present(
    before: TaskTracker,
    snapshot: SupervisorSnapshot,
    after: TaskTracker,
    finished: bool,
    exit: ExitStatus,
)
    requires
        before.begins(snapshot, after, finished),
        before.state.outcome is None,
    ensures
        after.id == before.id,
        after.lineage == before.lineage,
        finished <==> after.answer() is Some,
        !is_member(snapshot.children@, before.id@, before.lineage) ==> !finished && after == before,
        is_member(snapshot.children@, before.id@, before.lineage) ==> {
            let child = member(snapshot.children@, before.id@, before.lineage);
            &&& ended_with(child.state, exit) && child.next_restart_in is None && !can_come_back(
                snapshot,
                child,
                exit,
            ) ==> after.answer() == Some(Ok::<ExitStatus, TaskError>(exit)) && after.last_exit
                == Some(exit)
            &&& !(child.state is Stopped) && !(child.state is StartupAborted) ==> after.answer()
                is None
            &&& child.next_restart_in is Some ==> after.answer() is None
            &&& child.state is Running ==> after.started_answer() == Some(
                Ok::<(), TaskError>(()),
            )
        },
{
    if is_member(snapshot.children@, before.id@, before.lineage) {
        law_final_exits_are_reported(
            snapshot,
            member(snapshot.children@, before.id@, before.lineage),
        );
    }
}

/// Only transitions of the tracked membership count, told apart by id and
/// lineage; an exit of it is remembered, and its removal ends tracking with the
/// last exit seen, or as unavailable if none was.
pub proof fn law_tracking_follows_its_membership(
    before: TaskTracker,
    event: LifecycleEvent,
    snapshot: SupervisorSnapshot,
    after: TaskTracker,
    finished: bool,
)
    requires
        before.takes(event, snapshot, after, finished),
    ensures
        after.id == before.id,
        after.lineage == before.lineage,
        event.kind is Supervisor ==> after.state == before.state && after.last_exit
            == before.last_exit && !finished,
        event.kind is Lagged ==> after.last_exit == before.last_exit,
        event.kind matches LifecycleEventKind::Child(child) ==> {
            let own = child.child_id@ == before.id@ && child.lineage == before.lineage;
            &&& !own ==> after.state == before.state && after.last_exit == before.last_exit
                && !finished
            &&& own && child.kind is Exited ==> after.last_exit == Some(child.kind->exit)
            &&& own && !(child.kind is Exited) ==> after.last_exit == before.last_exit
            &&& own && child.kind is Removed ==> {
                &&& finished
                &&& after.state.started == before.state.started
                &&& after.answer() == match before.last_exit {
                    Some(exit) => Some(Ok::<ExitStatus, TaskError>(exit)),
                    None => Some(Err(TaskError::Unavailable { task_id: before.id })),
                }
            }
            &&& own && !(child.kind is Removed) && !is_member(
                snapshot.children@,
                before.id@,
                before.lineage,
            ) ==> after.state == before.state && !finished
            &&& own && !(child.kind is Removed) && is_member(
                snapshot.children@,
                before.id@,
                before.lineage,
            ) ==> {
                let now = member(snapshot.children@, before.id@, before.lineage);
                &&& finished <==> after.answer() is Some
                &&& forall|exit: ExitStatus|
                    (#[trigger] after.state.outcome) == Some(Ok::<ExitStatus, TaskError>(exit))
                        <==> {
                        &&& ended_with(now.state, exit)
                        &&& now.next_restart_in is None
                        &&& !can_come_back(snapshot, now, exit)
                    }
            }
        },
{
    if is_member(snapshot.children@, before.id@, before.lineage) {
        law_final_exits_are_reported(
            snapshot,
            member(snapshot.children@, before.id@, before.lineage),
        );
    }
}

/// The end of the event stream ends tracking with the last exit seen, or as
/// unavailable if none was.
pub proof fn law_tracking_ends_with_the_stream(before: TaskTracker, after: TaskTracker)
    requires
        after.closes(&before),
    ensures
        after.id == before.id,
        after.lineage == before.lineage,
        after.last_exit == before.last_exit,
        after.state.started == before.state.started,
        before.last_exit matches Some(exit) ==> after.answer() == Some(
            Ok::<ExitStatus, TaskError>(exit),
        ),
        before.last_exit is None ==> after.answer() == Some(
            Err::<ExitStatus, TaskError>(TaskError::Unavailable { task_id: before.id }),
        ),
{
}

/// A wait for readiness is answered as soon as the task has been ready, also if
/// it has ended since; a task that ended without has stopped before it, and one
/// that cannot be observed any more is unavailable.
pub proof fn law_waits_for_readiness(tracker: TaskTracker)
    ensures
        tracker.state.started <==> tracker.started_answer() == Some(Ok::<(), TaskError>(())),
        tracker.started_answer() is None <==> !tracker.state.started && tracker.answer() is None,
        !tracker.state.started && (tracker.answer() matches Some(Ok(_))) ==> tracker.started_answer()
            == Some(
            Err::<(), TaskError>(TaskError::StoppedBeforeReady { task_id: tracker.id }),
        ),
        !tracker.state.started ==> (tracker.answer() matches Some(Err(error))
            ==> tracker.started_answer() == Some(Err::<(), TaskError>(error))),
        tracker.answer() == tracker.state.outcome,
{
}

} // verus!
