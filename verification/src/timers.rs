//! Keyed, loop-owned timeouts.
use vstd::prelude::*;

verus! {

/// Stable name for one keyed actor-local timeout slot.
///
/// Keys are static protocol vocabulary: setting the same key replaces the
/// existing timeout in that slot, while different keys remain independent.
#[derive(Clone, Copy, Debug, PartialEq, Eq, Hash)]
pub struct TimerKey {
    /// The name.
    pub name: &'static str,
}

impl View for TimerKey {
    type V = Seq<char>;

    open spec fn view(&self) -> Seq<char> {
        self.name@
    }
}

impl TimerKey {
    /// Creates a timer key.
    pub fn new(name: &'static str) -> (key: Self)
        ensures
            key@ == name@,
    {
        TimerKey { name }
    }

    /// Returns the key's static name.
    pub fn as_str(self) -> (name: &'static str)
        ensures
            name@ == self@,
    {
        self.name
    }

    /// Reports whether both name the same slot.
    pub fn same(self, other: TimerKey) -> (same: bool)
        ensures
            same == (self@ == other@),
    {
        self.name.to_owned() == other.name.to_owned()
    }
}

impl From<&'static str> for TimerKey {
    fn from(name: &'static str) -> (key: Self) {
        TimerKey { name }
    }
}

impl vstd::std_specs::convert::FromSpecImpl<&'static str> for TimerKey {
    open spec fn obeys_from_spec() -> bool {
        true
    }

    open spec fn from_spec(name: &'static str) -> Self {
        TimerKey { name }
    }
}

/// The next timeout to fire.
#[derive(Clone, Copy, Debug, PartialEq, Eq, Structural)]
pub struct TimerWake {
    /// Identity of the armed entry.
    pub id: u64,
    /// When it fires.
    pub deadline: u64,
}

/// One armed timeout.
pub struct TimerEntry<M> {
    /// Identity of this arming.
    pub id: u64,
    /// Slot of the timeout.
    pub key: TimerKey,
    /// When it fires.
    pub deadline: u64,
    /// Message to deliver.
    pub message: M,
}

/// The timeouts armed by one incarnation.
pub struct TimerTable<M> {
    /// Armed timeouts, one per key.
    pub entries: Vec<TimerEntry<M>>,
    /// Identity of the next arming.
    pub next_id: u64,
}

/// The entry of slot `key` stands at `i`.
pub open spec fn key_at<M>(entries: Seq<TimerEntry<M>>, key: Seq<char>, i: int) -> bool {
    &&& 0 <= i < entries.len()
    &&& entries[i].key@ == key
    &&& forall|j: int| 0 <= j < i ==> (#[trigger] entries[j]).key@ != key
}

/// Slot `key` is armed.
pub open spec fn is_armed<M>(entries: Seq<TimerEntry<M>>, key: Seq<char>) -> bool {
    exists|i: int| 0 <= i < entries.len() && (#[trigger] entries[i]).key@ == key
}

/// `entries` without the one at `i`, whose place the last one takes.
pub open spec fn without<M>(entries: Seq<TimerEntry<M>>, i: int) -> Seq<TimerEntry<M>> {
    entries.update(i, entries.last()).drop_last()
}

/// `entries` without slot `key`.
pub open spec fn cleared<M>(entries: Seq<TimerEntry<M>>, key: Seq<char>) -> Seq<TimerEntry<M>> {
    if is_armed(entries, key) {
        without(entries, choose|i: int| key_at(entries, key, i))
    } else {
        entries
    }
}

/// The earliest deadline stands at `i`, the first of them if several are
/// equal.
pub open spec fn earliest_at<M>(entries: Seq<TimerEntry<M>>, i: int) -> bool {
    &&& 0 <= i < entries.len()
    &&& forall|j: int|
        0 <= j < entries.len() ==> entries[i].deadline <= (#[trigger] entries[j]).deadline
    &&& forall|j: int| 0 <= j < i ==> entries[i].deadline < (#[trigger] entries[j]).deadline
}

/// The first entry that `wake` speaks of stands at `i`.
pub open spec fn wake_at<M>(entries: Seq<TimerEntry<M>>, wake: TimerWake, i: int) -> bool {
    &&& 0 <= i < entries.len()
    &&& entries[i].id == wake.id && entries[i].deadline == wake.deadline
    &&& forall|j: int|
        0 <= j < i ==> (#[trigger] entries[j]).id != wake.id || entries[j].deadline
            != wake.deadline
}

/// The id after `id`; zero is skipped.
pub open spec fn following_id(id: u64) -> u64 {
    if id == u64::MAX {
        1
    } else {
        (id + 1) as u64
    }
}

impl<M> TimerTable<M> {
    /// No key is armed twice.
    pub open spec fn wf(&self) -> bool {
        forall|i: int, j: int|
            0 <= i < j < self.entries@.len() ==> (#[trigger] self.entries@[i]).key@ != (
            #[trigger] self.entries@[j]).key@
    }

    /// Armed ids are distinct and below the next one, as long as ids have not
    /// wrapped.
    pub open spec fn ids_fresh(&self) -> bool {
        &&& forall|i: int|
            0 <= i < self.entries@.len() ==> (#[trigger] self.entries@[i]).id < self.next_id
        &&& forall|i: int, j: int|
            0 <= i < j < self.entries@.len() ==> (#[trigger] self.entries@[i]).id != (
            #[trigger] self.entries@[j]).id
    }

    /// No timeouts.
    pub fn new() -> (table: Self)
        ensures
            table.wf(),
            table.ids_fresh(),
            table.entries@.len() == 0,
            table.next_id == 1,
    {
        TimerTable { entries: Vec::new(), next_id: 1 }
    }

    /// Takes the next id.
    fn next_id(&mut self) -> (id: u64)
        ensures
            final(self).entries == old(self).entries,
            id == old(self).next_id,
            final(self).next_id == following_id(old(self).next_id),
    {
        let id = self.next_id;
        let next = self.next_id.wrapping_add(1);
        self.next_id = if next == 0 {
            1
        } else {
            next
        };
        id
    }

    /// The table `after` its timer under `key` was cleared.
    pub open spec fn clears(&self, key: TimerKey, after: Self) -> bool {
        &&& after.wf()
        &&& after.next_id == self.next_id
        &&& after.entries@ == cleared(self.entries@, key@)
        &&& self.ids_fresh() ==> after.ids_fresh()
    }

    /// Clears the timeout of slot `key`, if one is armed.
    pub fn clear(&mut self, key: TimerKey)
        requires
            old(self).wf(),
        ensures
            old(self).clears(key, *final(self)),
    {
        let ghost before = self.entries@;
        let mut i: usize = 0;
        while i < self.entries.len() && !self.entries[i].key.same(key)
            invariant
                i <= self.entries@.len(),
                forall|j: int| 0 <= j < i ==> (#[trigger] self.entries@[j]).key@ != key@,
            decreases self.entries.len() - i,
        {
            i += 1;
        }
        if i < self.entries.len() {
            proof {
                assert(key_at(before, key@, i as int));
                let chosen = choose|k: int| key_at(before, key@, k);
                assert(chosen == i as int);
                assert(before[i as int].key@ == key@);
                assert(is_armed(before, key@));
            }
            let _cleared = self.entries.swap_remove(i);
            assert(self.entries@ =~= without(before, i as int));
        } else {
            assert(!is_armed(before, key@));
        }
    }

    /// The table `after` a timer was set under `key`.
    pub open spec fn arms(
        &self,
        key: TimerKey,
        message: M,
        delay: u64,
        now: u64,
        after: Self,
    ) -> bool {
        &&& after.wf()
        &&& after.next_id == following_id(self.next_id)
        &&& after.entries@ == cleared(self.entries@, key@).push(
            TimerEntry {
                id: self.next_id,
                key,
                deadline: crate::clock::deadline(now, delay),
                message,
            },
        )
        &&& self.ids_fresh() && self.next_id < u64::MAX ==> after.ids_fresh()
    }

    /// Arms slot `key` to fire `delay` nanoseconds after `now`, in place of an
    /// earlier timeout of that slot.
    pub fn insert(&mut self, key: TimerKey, message: M, delay: u64, now: u64)
        requires
            old(self).wf(),
        ensures
            old(self).arms(key, message, delay, now, *final(self)),
    {
        let ghost before = self.entries@;
        self.clear(key);
        proof {
            lemma_cleared(before, key@);
        }
        let id = self.next_id();
        let deadline = crate::clock::deadline_after(now, delay);
        self.entries.push(TimerEntry { id, key, deadline, message });
    }

    /// `wake` is when the next timer is due.
    pub open spec fn wakes_at(&self, wake: Option<TimerWake>) -> bool {
        &&& wake is None <==> self.entries@.len() == 0
        &&& wake matches Some(wake) ==> exists|i: int| #[trigger]
            earliest_at(self.entries@, i) && wake.id == self.entries@[i].id && wake.deadline
                == self.entries@[i].deadline
    }

    /// Returns the timeout that fires next: the one with the earliest
    /// deadline.
    pub fn next_wake(&self) -> (wake: Option<TimerWake>)
        ensures
            self.wakes_at(wake),
    {
        if self.entries.len() == 0 {
            return None;
        }
        let mut best: usize = 0;
        let mut i: usize = 1;
        while i < self.entries.len()
            invariant
                best < i <= self.entries@.len(),
                forall|j: int|
                    0 <= j < i ==> self.entries@[best as int].deadline <= (
                    #[trigger] self.entries@[j]).deadline,
                forall|j: int|
                    0 <= j < best ==> self.entries@[best as int].deadline < (
                    #[trigger] self.entries@[j]).deadline,
            decreases self.entries.len() - i,
        {
            if self.entries[i].deadline < self.entries[best].deadline {
                best = i;
            }
            i += 1;
        }
        assert(earliest_at(self.entries@, best as int));
        Some(TimerWake { id: self.entries[best].id, deadline: self.entries[best].deadline })
    }

    /// What `wake` fires at `now`.
    pub open spec fn takes_fired(
        &self,
        wake: TimerWake,
        now: u64,
        fired: Option<M>,
        after: Self,
    ) -> bool {
        &&& after.wf()
        &&& after.next_id == self.next_id
        &&& self.ids_fresh() ==> after.ids_fresh()
        &&& match fired {
            Some(message) => wake.deadline <= now && exists|i: int| #[trigger]
                wake_at(self.entries@, wake, i) && message == self.entries@[i].message
                    && after.entries@ == without(self.entries@, i),
            None => after.entries@ == self.entries@ && (wake.deadline > now
                || forall|i: int| !#[trigger] wake_at(self.entries@, wake, i)),
        }
    }

    /// Takes the message of the timeout that `wake` speaks of, if it is still
    /// armed and has fired by `now`.
    pub fn take_fired(&mut self, wake: TimerWake, now: u64) -> (fired: Option<M>)
        requires
            old(self).wf(),
        ensures
            old(self).takes_fired(wake, now, fired, *final(self)),
    {
        let ghost before = self.entries@;
        let mut i: usize = 0;
        while i < self.entries.len() && !(self.entries[i].id == wake.id
            && self.entries[i].deadline == wake.deadline)
            invariant
                i <= self.entries@.len(),
                forall|j: int|
                    0 <= j < i ==> (#[trigger] self.entries@[j]).id != wake.id
                        || self.entries@[j].deadline != wake.deadline,
            decreases self.entries.len() - i,
        {
            i += 1;
        }
        if i == self.entries.len() || self.entries[i].deadline > now {
            return None;
        }
        assert(wake_at(before, wake, i as int));
        let entry = self.entries.swap_remove(i);
        assert(self.entries@ =~= without(before, i as int));
        Some(entry.message)
    }
}

/// What clearing a slot leaves: the other entries, and none of that slot.
proof fn lemma_cleared<M>(entries: Seq<TimerEntry<M>>, key: Seq<char>)
    requires
        forall|i: int, j: int|
            0 <= i < j < entries.len() ==> (#[trigger] entries[i]).key@ != (
            #[trigger] entries[j]).key@,
    ensures
        !is_armed(cleared(entries, key), key),
        forall|entry: TimerEntry<M>|
            entry.key@ != key ==> (#[trigger] cleared(entries, key).contains(entry)
                <==> entries.contains(entry)),
{
    if is_armed(entries, key) {
        let w = choose|i: int| 0 <= i < entries.len() && (#[trigger] entries[i]).key@ == key;
        assert(key_at(entries, key, w));
        let i = choose|i: int| key_at(entries, key, i);
        let after = without(entries, i);
        assert(cleared(entries, key) == after);
        assert forall|j: int| 0 <= j < after.len() implies (#[trigger] after[j]).key@ != key by {
            if j == i {
                assert(after[j] == entries[entries.len() - 1]);
            } else {
                assert(after[j] == entries[j]);
            }
        }
        assert forall|entry: TimerEntry<M>| entry.key@ != key implies (
        #[trigger] after.contains(entry) <==> entries.contains(entry)) by {
            if after.contains(entry) {
                let j = choose|j: int| 0 <= j < after.len() && after[j] == entry;
                if j == i {
                    assert(entries[entries.len() - 1] == entry);
                } else {
                    assert(entries[j] == entry);
                }
            }
            if entries.contains(entry) {
                let j = choose|j: int| 0 <= j < entries.len() && entries[j] == entry;
                assert(j != i);
                if j == entries.len() - 1 {
                    assert(after[i] == entry);
                } else {
                    assert(after[j] == entry);
                }
            }
        }
    }
}

/// Setting a timeout leaves exactly one timeout in its slot, and the timeouts
/// of other slots as they were.
pub proof fn law_set_replaces_its_slot<M>(before: TimerTable<M>, entry: TimerEntry<M>)
    requires
        before.wf(),
    ensures
        ({
            let after = cleared(before.entries@, entry.key@).push(entry);
            &&& after.contains(entry)
            &&& forall|other: TimerEntry<M>|
                other.key@ == entry.key@ && #[trigger] after.contains(other) ==> other == entry
            &&& forall|other: TimerEntry<M>|
                other.key@ != entry.key@ ==> (#[trigger] after.contains(other)
                    <==> before.entries@.contains(other))
        }),
{
    lemma_cleared(before.entries@, entry.key@);
    let kept = cleared(before.entries@, entry.key@);
    let after = kept.push(entry);
    assert(after[kept.len() as int] == entry);
    assert forall|other: TimerEntry<M>|
        other.key@ == entry.key@ && #[trigger] after.contains(other) implies other == entry by {
        let j = choose|j: int| 0 <= j < after.len() && after[j] == other;
        if j < kept.len() {
            assert(kept[j].key@ == entry.key@);
        }
    }
    assert forall|other: TimerEntry<M>| other.key@ != entry.key@ implies (
    #[trigger] after.contains(other) <==> before.entries@.contains(other)) by {
        if after.contains(other) {
            let j = choose|j: int| 0 <= j < after.len() && after[j] == other;
            assert(kept[j] == other);
            assert(kept.contains(other));
        }
        if before.entries@.contains(other) {
            assert(kept.contains(other));
            let j = choose|j: int| 0 <= j < kept.len() && kept[j] == other;
            assert(after[j] == other);
        }
    }
}

/// Clearing a slot retracts its timeout and no other.
pub proof fn law_clear_retracts_its_slot<M>(before: TimerTable<M>, key: Seq<char>)
    requires
        before.wf(),
    ensures
        !is_armed(cleared(before.entries@, key), key),
        forall|other: TimerEntry<M>|
            other.key@ != key ==> (#[trigger] cleared(before.entries@, key).contains(other)
                <==> before.entries@.contains(other)),
{
    lemma_cleared(before.entries@, key);
}

/// A wake computed before its timeout was replaced never fires the
/// replacement.
pub proof fn law_replaced_timeout_does_not_fire<M>(
    before: TimerTable<M>,
    i: int,
    entry: TimerEntry<M>,
)
    requires
        before.wf(),
        before.ids_fresh(),
        0 <= i < before.entries@.len(),
        entry.id == before.next_id,
        entry.key@ == before.entries@[i].key@,
    ensures
        forall|k: int|
            !#[trigger] wake_at(
                cleared(before.entries@, entry.key@).push(entry),
                TimerWake { id: before.entries@[i].id, deadline: before.entries@[i].deadline },
                k,
            ),
{
    let entries = before.entries@;
    let wake = TimerWake { id: entries[i].id, deadline: entries[i].deadline };
    let after = cleared(entries, entry.key@).push(entry);
    assert(is_armed(entries, entry.key@));
    assert(key_at(entries, entry.key@, i));
    let w = choose|w: int| key_at(entries, entry.key@, w);
    assert(w == i);
    assert forall|k: int| !#[trigger] wake_at(after, wake, k) by {
        if wake_at(after, wake, k) {
            if k < after.len() - 1 {
                if k == i {
                    assert(after[k] == entries[entries.len() - 1]);
                } else {
                    assert(after[k] == entries[k]);
                }
            } else {
                assert(after[k] == entry);
            }
        }
    }
}

} // verus!
