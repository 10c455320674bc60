//! Recursive statistics of a scope: which attached actors belong to it, and
//! where.
use vstd::prelude::*;

use crate::policy::ScopePathSegment;
use crate::scope::{AttachedChild, RuntimeAttachmentKind, ScopeRef, SupervisorView};
use crate::stats::{ActorStats, ScopedActorStats};

verus! {

/// Mathematical content of [`ScopedActorStats`].
pub struct ScopedStatsView {
    pub scope_path: Seq<(Seq<char>, u64, u64)>,
    pub lineage: u64,
    pub stats: ActorStats,
}

impl View for ScopedActorStats {
    type V = ScopedStatsView;

    open spec fn view(&self) -> ScopedStatsView {
        ScopedStatsView {
            scope_path: crate::policy::path_view(self.scope_path@),
            lineage: self.lineage,
            stats: self.stats,
        }
    }
}

/// Contents of a list of samples.
pub open spec fn sample_views(samples: Seq<ScopedActorStats>) -> Seq<ScopedStatsView> {
    Seq::new(samples.len(), |i: int| samples[i]@)
}

/// A member of the scope at `path` whose actor runtime is `owner`, attached by
/// that actor runtime.
pub open spec fn is_member(
    child: AttachedChild,
    path: Seq<(Seq<char>, u64, u64)>,
    owner: u64,
) -> bool {
    &&& child.place().len() > 0
    &&& child.place().drop_last() == path
    &&& child.attachment.owner == owner
}

/// What an attached actor is sampled as.
pub open spec fn sample_of(child: AttachedChild) -> ScopedStatsView {
    ScopedStatsView {
        scope_path: child.place().drop_last(),
        lineage: child.path@.last().lineage,
        stats: child.attachment.kind->stats,
    }
}

/// The samples of the members at `members` in the report.
pub open spec fn sampled(attached: Seq<AttachedChild>, members: Seq<int>) -> Seq<ScopedStatsView> {
    Seq::new(members.len(), |k: int| sample_of(attached[members[k]]))
}

/// A scope's own actors among the first `n` members of the report, each by its
/// place in the report.
pub open spec fn own_actors(
    attached: Seq<AttachedChild>,
    n: nat,
    path: Seq<(Seq<char>, u64, u64)>,
    owner: u64,
) -> Seq<int>
    decreases n,
{
    if n == 0 {
        Seq::empty()
    } else {
        let before = own_actors(attached, (n - 1) as nat, path, owner);
        let child = attached[n - 1];
        if is_member(child, path, owner) && child.attachment.kind is Actor {
            before.push(n - 1)
        } else {
            before
        }
    }
}

/// Length of the longest path of the report.
pub open spec fn longest(attached: Seq<AttachedChild>) -> nat
    decreases attached.len(),
{
    if attached.len() == 0 {
        0
    } else {
        let before = longest(attached.drop_last());
        let own = attached.last().path@.len();
        if own > before {
            own
        } else {
            before
        }
    }
}

/// No path of the report is longer than the longest one.
pub proof fn lemma_longest(attached: Seq<AttachedChild>, i: int)
    requires
        0 <= i < attached.len(),
    ensures
        attached[i].place().len() <= longest(attached),
    decreases attached.len(),
{
    if i < attached.len() - 1 {
        lemma_longest(attached.drop_last(), i);
    }
}

/// The actors of the scope at `path` whose actor runtime is `owner`, each by
/// its place in the report: the scope's own actors first, and then recursively
/// those of each subtree, both in the order of the report.
pub open spec fn scope_actors(
    attached: Seq<AttachedChild>,
    path: Seq<(Seq<char>, u64, u64)>,
    owner: u64,
) -> Seq<int>
    decreases longest(attached) - path.len(), attached.len() + 1,
{
    own_actors(attached, attached.len(), path, owner) + nested_actors(
        attached,
        attached.len(),
        path,
        owner,
    )
}

/// The actors of those subtrees of a scope that are among the first `n` members
/// of the report.
pub open spec fn nested_actors(
    attached: Seq<AttachedChild>,
    n: nat,
    path: Seq<(Seq<char>, u64, u64)>,
    owner: u64,
) -> Seq<int>
    decreases longest(attached) - path.len(), n,
{
    if n == 0 || n > attached.len() {
        Seq::empty()
    } else {
        let before = nested_actors(attached, (n - 1) as nat, path, owner);
        let child = attached[n - 1];
        match child.attachment.kind {
            RuntimeAttachmentKind::Subtree { actors } => if is_member(child, path, owner) {
                proof {
                    lemma_longest(attached, n - 1);
                }
                before + scope_actors(attached, child.place(), actors)
            } else {
                before
            },
            _ => before,
        }
    }
}

/// The samples of the scope that the report is of.
pub open spec fn samples(attached: Seq<AttachedChild>, root: u64) -> Seq<ScopedStatsView> {
    sampled(attached, scope_actors(attached, Seq::empty(), root))
}

/// Reports whether `scope` is the first `len` segments of `path`.
fn is_prefix(scope: &Vec<ScopePathSegment>, path: &Vec<ScopePathSegment>, len: usize) -> (same:
    bool)
    requires
        len <= path@.len(),
    ensures
        same == (crate::policy::path_view(scope@) == crate::policy::path_view(path@).take(
            len as int,
        )),
{
    let ghost left = crate::policy::path_view(scope@);
    let ghost right = crate::policy::path_view(path@).take(len as int);
    if scope.len() != len {
        assert(left.len() != right.len());
        return false;
    }
    let mut i: usize = 0;
    while i < len
        invariant
            i <= len,
            len == scope@.len(),
            len <= path@.len(),
            left == crate::policy::path_view(scope@),
            right == crate::policy::path_view(path@).take(len as int),
            forall|j: int| 0 <= j < i ==> left[j] == right[j],
        decreases len - i,
    {
        if !scope[i].same(&path[i]) {
            assert(left[i as int] != right[i as int]);
            return false;
        }
        i += 1;
    }
    assert(left =~= right);
    true
}

/// Copies the first `len` segments of `path`.
fn copy_path(path: &Vec<ScopePathSegment>, len: usize) -> (copy: Vec<ScopePathSegment>)
    requires
        len <= path@.len(),
    ensures
        crate::policy::path_view(copy@) == crate::policy::path_view(path@).take(len as int),
{
    let mut copy: Vec<ScopePathSegment> = Vec::new();
    let mut i: usize = 0;
    while i < len
        invariant
            i <= len,
            len <= path@.len(),
            copy@ =~= path@.take(i as int),
        decreases len - i,
    {
        copy.push(path[i].clone());
        i += 1;
    }
    assert(crate::policy::path_view(copy@) =~= crate::policy::path_view(path@).take(len as int));
    copy
}

/// Adds the samples of the scope at `path` whose actor runtime is `owner`.
fn collect_samples(
    attached: &Vec<AttachedChild>,
    path: &Vec<ScopePathSegment>,
    owner: u64,
    stats: &mut Vec<ScopedActorStats>,
)
    ensures
        sample_views(final(stats)@) == sample_views(old(stats)@) + sampled(
            attached@,
            scope_actors(attached@, crate::policy::path_view(path@), owner),
        ),
    decreases longest(attached@) - path@.len(),
{
    let ghost place = crate::policy::path_view(path@);
    let ghost before = sample_views(stats@);
    let mut i: usize = 0;
    while i < attached.len()
        invariant
            i <= attached@.len(),
            place == crate::policy::path_view(path@),
            sample_views(stats@) == before + sampled(
                attached@,
                own_actors(attached@, i as nat, place, owner),
            ),
        decreases attached.len() - i,
    {
        let child = &attached[i];
        let depth = child.path.len();
        if depth > 0 && child.attachment.belongs_to(owner) && is_prefix(
            path,
            &child.path,
            depth - 1,
        ) {
            proof {
                assert(child.place().take(depth - 1) =~= child.place().drop_last());
            }
            if let RuntimeAttachmentKind::Actor { stats: sample, .. } = &child.attachment.kind {
                let scope_path = copy_path(&child.path, depth - 1);
                let ghost sampled_before = sample_views(stats@);
                let lineage = child.path[depth - 1].lineage;
                stats.push(ScopedActorStats { scope_path, lineage, stats: sample.clone() });
                assert(sample_views(stats@) =~= sampled_before.push(sample_of(*child)));
                assert(sampled(attached@, own_actors(attached@, (i + 1) as nat, place, owner))
                    =~= sampled(attached@, own_actors(attached@, i as nat, place, owner)).push(
                    sample_of(*child),
                ));
            }
        } else {
            proof {
                if depth > 0 {
                    assert(child.place().take(depth - 1) =~= child.place().drop_last());
                }
            }
        }
        i += 1;
    }
    let ghost own = sample_views(stats@);
    i = 0;
    while i < attached.len()
        invariant
            i <= attached@.len(),
            place == crate::policy::path_view(path@),
            sample_views(stats@) == own + sampled(
                attached@,
                nested_actors(attached@, i as nat, place, owner),
            ),
        decreases attached.len() - i,
    {
        let child = &attached[i];
        let depth = child.path.len();
        proof {
            lemma_longest(attached@, i as int);
            if depth > 0 {
                assert(child.place().take(depth - 1) =~= child.place().drop_last());
            }
        }
        if depth > 0 && child.attachment.belongs_to(owner) && is_prefix(
            path,
            &child.path,
            depth - 1,
        ) {
            if let RuntimeAttachmentKind::Subtree { actors } = &child.attachment.kind {
                collect_samples(attached, &child.path, *actors, stats);
                assert(sampled(attached@, nested_actors(attached@, (i + 1) as nat, place, owner))
                    =~= sampled(attached@, nested_actors(attached@, i as nat, place, owner))
                    + sampled(attached@, scope_actors(attached@, child.place(), *actors)));
            }
        }
        i += 1;
    }
    assert(sampled(attached@, scope_actors(attached@, place, owner)) =~= sampled(
        attached@,
        own_actors(attached@, attached@.len(), place, owner),
    ) + sampled(attached@, nested_actors(attached@, attached@.len(), place, owner)));
}

impl ScopeRef {
    /// Samples the statistics of this scope's actors and of those in nested
    /// scopes, each with its scope path and membership. This scope's actors come
    /// first, followed recursively by those of each subtree in declaration
    /// order.
    ///
    /// Actors of memberships that are gone or were replaced do not appear:
    /// a sample needs a current attachment whose whole path belongs to this
    /// scope.
    pub fn actor_stats(&self, view: &SupervisorView) -> (stats: Vec<ScopedActorStats>)
        ensures
            sample_views(stats@) == samples(view.attached@, self.actors),
    {
        let mut stats: Vec<ScopedActorStats> = Vec::new();
        let path: Vec<ScopePathSegment> = Vec::new();
        proof {
            assert(crate::policy::path_view(path@) =~= Seq::empty());
            assert(sample_views(stats@) =~= Seq::empty());
        }
        collect_samples(&view.attached, &path, self.actors, &mut stats);
        stats
    }
}

/// The scope at `path` whose actor runtime is `owner` is the one that the report
/// is of, or a subtree that was attached by the actor runtime of a scope that
/// itself is one of these.
pub open spec fn is_scope_of(
    attached: Seq<AttachedChild>,
    path: Seq<(Seq<char>, u64, u64)>,
    owner: u64,
    root: u64,
) -> bool
    decreases path.len(),
{
    if path.len() == 0 {
        owner == root
    } else {
        exists|i: int|
            {
                &&& 0 <= i < attached.len()
                &&& (#[trigger] attached[i]).place() == path
                &&& attached[i].attachment.kind == (RuntimeAttachmentKind::Subtree {
                    actors: owner,
                })
                &&& is_scope_of(attached, path.drop_last(), attached[i].attachment.owner, root)
            }
    }
}

/// An actor of the report that belongs to the scope that the report is of, or
/// to a scope nested in it.
pub open spec fn is_sampled(attached: Seq<AttachedChild>, root: u64, i: int) -> bool {
    &&& 0 <= i < attached.len()
    &&& attached[i].place().len() > 0
    &&& attached[i].attachment.kind is Actor
    &&& is_scope_of(
        attached,
        attached[i].place().drop_last(),
        attached[i].attachment.owner,
        root,
    )
}

/// The place of a member is at `path` or below.
spec fn is_below(child: AttachedChild, path: Seq<(Seq<char>, u64, u64)>) -> bool {
    child.place().len() > path.len() && child.place().take(path.len() as int) == path
}

/// A scope's own actors are in the order of the report, each once.
proof fn lemma_own_actors(
    attached: Seq<AttachedChild>,
    n: nat,
    path: Seq<(Seq<char>, u64, u64)>,
    owner: u64,
)
    requires
        n <= attached.len(),
    ensures
        forall|i: int|
            own_actors(attached, n, path, owner).contains(i) <==> 0 <= i < n && is_member(
                #[trigger] attached[i],
                path,
                owner,
            ) && attached[i].attachment.kind is Actor,
        forall|i: int|
            #![trigger own_actors(attached, n, path, owner).contains(i)]
            own_actors(attached, n, path, owner).contains(i) ==> is_below(attached[i], path),
        own_actors(attached, n, path, owner).no_duplicates(),
    decreases n,
{
    if n > 0 {
        let before = own_actors(attached, (n - 1) as nat, path, owner);
        let now = own_actors(attached, n, path, owner);
        lemma_own_actors(attached, (n - 1) as nat, path, owner);
        assert forall|i: int|
            now.contains(i) <==> 0 <= i < n && is_member(#[trigger] attached[i], path, owner)
                && attached[i].attachment.kind is Actor by {
            if now.contains(i) && i < n - 1 {
                let k = now.index_of(i);
                assert(before[k] == i);
                assert(before.contains(i));
            }
            if before.contains(i) {
                let k = before.index_of(i);
                assert(now[k] == i);
            }
            if now.len() > before.len() {
                assert(now[now.len() - 1] == n - 1);
            }
            if now.contains(i) && i >= n {
                let k = now.index_of(i);
                assert(before[k] == i);
                assert(before.contains(i));
            }
        }
        assert forall|i: int| #[trigger] now.contains(i) implies is_below(attached[i], path) by {
            assert(is_member(attached[i], path, owner));
            assert(attached[i].place().take(path.len() as int) =~= attached[i].place().drop_last());
        }
        assert(now.no_duplicates()) by {
            assert(!before.contains(n - 1));
        }
    }
}

/// Every actor of a scope is below it and belongs to the report.
proof fn lemma_scope_actors(
    attached: Seq<AttachedChild>,
    path: Seq<(Seq<char>, u64, u64)>,
    owner: u64,
    root: u64,
)
    requires
        is_scope_of(attached, path, owner, root),
    ensures
        forall|i: int| #[trigger]
            scope_actors(attached, path, owner).contains(i) ==> is_sampled(attached, root, i)
                && is_below(attached[i], path),
    decreases longest(attached) - path.len(), attached.len() + 1,
{
    let own = own_actors(attached, attached.len(), path, owner);
    let nested = nested_actors(attached, attached.len(), path, owner);
    let all = scope_actors(attached, path, owner);
    lemma_own_actors(attached, attached.len(), path, owner);
    lemma_nested_actors(attached, attached.len(), path, owner, root);
    assert forall|i: int| #[trigger] all.contains(i) implies is_sampled(attached, root, i)
        && is_below(attached[i], path) by {
        let k = all.index_of(i);
        if k < own.len() {
            assert(own[k] == i);
            assert(own.contains(i));
            assert(is_member(attached[i], path, owner));
        } else {
            assert(nested[k - own.len()] == i);
            assert(nested.contains(i));
        }
    }
}

/// Every actor of a scope's subtrees is below the scope, not in it, and belongs
/// to the report.
proof fn lemma_nested_actors(
    attached: Seq<AttachedChild>,
    n: nat,
    path: Seq<(Seq<char>, u64, u64)>,
    owner: u64,
    root: u64,
)
    requires
        n <= attached.len(),
        is_scope_of(attached, path, owner, root),
    ensures
        forall|i: int| #[trigger]
            nested_actors(attached, n, path, owner).contains(i) ==> {
                &&& is_sampled(attached, root, i)
                &&& is_below(attached[i], path)
                &&& exists|j: int|
                    0 <= j < n && is_member(#[trigger] attached[j], path, owner)
                        && attached[j].attachment.kind is Subtree && is_below(
                        attached[i],
                        attached[j].place(),
                    )
            },
    decreases longest(attached) - path.len(), n,
{
    if n > 0 {
        let child = attached[n - 1];
        let before = nested_actors(attached, (n - 1) as nat, path, owner);
        let now = nested_actors(attached, n, path, owner);
        lemma_nested_actors(attached, (n - 1) as nat, path, owner, root);
        if is_member(child, path, owner) && child.attachment.kind is Subtree {
            let actors = child.attachment.kind->actors;
            let below = scope_actors(attached, child.place(), actors);
            lemma_longest(attached, n - 1);
            assert(is_scope_of(attached, child.place(), actors, root));
            lemma_scope_actors(attached, child.place(), actors, root);
            assert forall|i: int| #[trigger] now.contains(i) implies {
                &&& is_sampled(attached, root, i)
                &&& is_below(attached[i], path)
                &&& exists|j: int|
                    0 <= j < n && is_member(#[trigger] attached[j], path, owner)
                        && attached[j].attachment.kind is Subtree && is_below(
                        attached[i],
                        attached[j].place(),
                    )
            } by {
                let k = now.index_of(i);
                if k < before.len() {
                    assert(before[k] == i);
                    assert(before.contains(i));
                } else {
                    assert(below[k - before.len()] == i);
                    assert(below.contains(i));
                    let place = attached[i].place();
                    assert(is_below(attached[i], child.place()));
                    assert(place.take(path.len() as int) =~= place.take(
                        child.place().len() as int,
                    ).take(path.len() as int));
                    assert(child.place().take(path.len() as int) =~= child.place().drop_last());
                    assert(is_member(attached[n - 1], path, owner));
                }
            }
        }
    }
}

/// The actors of a subtree are among those of its scope.
proof fn lemma_subtree_is_sampled(
    attached: Seq<AttachedChild>,
    n: nat,
    path: Seq<(Seq<char>, u64, u64)>,
    owner: u64,
    i: int,
    member: int,
)
    requires
        0 <= i < n <= attached.len(),
        is_member(attached[i], path, owner),
        attached[i].attachment.kind is Subtree,
        scope_actors(attached, attached[i].place(), attached[i].attachment.kind->actors).contains(
            member,
        ),
    ensures
        nested_actors(attached, n, path, owner).contains(member),
    decreases n,
{
    let before = nested_actors(attached, (n - 1) as nat, path, owner);
    let now = nested_actors(attached, n, path, owner);
    if i < n - 1 {
        lemma_subtree_is_sampled(attached, (n - 1) as nat, path, owner, i, member);
        let k = before.index_of(member);
        assert(now[k] == member);
    } else {
        let below = scope_actors(
            attached,
            attached[i].place(),
            attached[i].attachment.kind->actors,
        );
        let k = below.index_of(member);
        assert(now[before.len() + k] == member);
    }
}

/// The actors of a nested scope are among those of the whole report.
proof fn lemma_nested_scope_is_sampled(
    attached: Seq<AttachedChild>,
    path: Seq<(Seq<char>, u64, u64)>,
    owner: u64,
    root: u64,
    member: int,
)
    requires
        is_scope_of(attached, path, owner, root),
        scope_actors(attached, path, owner).contains(member),
    ensures
        scope_actors(attached, Seq::empty(), root).contains(member),
    decreases path.len(),
{
    if path.len() == 0 {
        assert(path =~= Seq::empty());
    } else {
        let i = choose|i: int|
            {
                &&& 0 <= i < attached.len()
                &&& (#[trigger] attached[i]).place() == path
                &&& attached[i].attachment.kind == (RuntimeAttachmentKind::Subtree {
                    actors: owner,
                })
                &&& is_scope_of(attached, path.drop_last(), attached[i].attachment.owner, root)
            };
        let above = path.drop_last();
        let above_owner = attached[i].attachment.owner;
        lemma_subtree_is_sampled(attached, attached.len(), above, above_owner, i, member);
        let own = own_actors(attached, attached.len(), above, above_owner);
        let nested = nested_actors(attached, attached.len(), above, above_owner);
        let k = nested.index_of(member);
        assert(scope_actors(attached, above, above_owner)[own.len() + k] == member);
        lemma_nested_scope_is_sampled(attached, above, above_owner, root, member);
    }
}

/// The sampled actors are those that belong to the scope or to one nested in it,
/// and nothing else.
pub proof fn law_samples_are_attached(attached: Seq<AttachedChild>, root: u64, i: int)
    ensures
        scope_actors(attached, Seq::empty(), root).contains(i) <==> is_sampled(attached, root, i),
{
    lemma_scope_actors(attached, Seq::empty(), root, root);
    if is_sampled(attached, root, i) {
        let path = attached[i].place().drop_last();
        let owner = attached[i].attachment.owner;
        let own = own_actors(attached, attached.len(), path, owner);
        lemma_own_actors(attached, attached.len(), path, owner);
        assert(is_member(attached[i], path, owner));
        let k = own.index_of(i);
        assert(scope_actors(attached, path, owner)[k] == i);
        lemma_nested_scope_is_sampled(attached, path, owner, root, i);
    }
}

/// No two members of the report have the same place.
pub open spec fn places_are_distinct(attached: Seq<AttachedChild>) -> bool {
    forall|i: int, j: int|
        0 <= i < attached.len() && 0 <= j < attached.len() && (#[trigger] attached[i]).place() == (
        #[trigger] attached[j]).place() ==> i == j
}

/// The actors of a scope occur once, and so do those of its subtrees.
proof fn lemma_actors_occur_once(
    attached: Seq<AttachedChild>,
    n: nat,
    path: Seq<(Seq<char>, u64, u64)>,
    owner: u64,
    root: u64,
)
    requires
        n <= attached.len(),
        places_are_distinct(attached),
        is_scope_of(attached, path, owner, root),
    ensures
        nested_actors(attached, n, path, owner).no_duplicates(),
        n == attached.len() ==> scope_actors(attached, path, owner).no_duplicates(),
    decreases longest(attached) - path.len(), n,
{
    let nested = nested_actors(attached, n, path, owner);
    if n > 0 {
        let child = attached[n - 1];
        let before = nested_actors(attached, (n - 1) as nat, path, owner);
        lemma_actors_occur_once(attached, (n - 1) as nat, path, owner, root);
        if is_member(child, path, owner) && child.attachment.kind is Subtree {
            let actors = child.attachment.kind->actors;
            let below = scope_actors(attached, child.place(), actors);
            lemma_longest(attached, n - 1);
            assert(is_scope_of(attached, child.place(), actors, root));
            lemma_actors_occur_once(attached, attached.len(), child.place(), actors, root);
            lemma_scope_actors(attached, child.place(), actors, root);
            lemma_nested_actors(attached, (n - 1) as nat, path, owner, root);
            assert forall|i: int| #[trigger] before.contains(i) implies !below.contains(i) by {
                let j = choose|j: int|
                    0 <= j < n - 1 && is_member(#[trigger] attached[j], path, owner)
                        && attached[j].attachment.kind is Subtree && is_below(
                        attached[i],
                        attached[j].place(),
                    );
                if below.contains(i) {
                    assert(is_below(attached[i], child.place()));
                    assert(attached[j].place().len() == child.place().len());
                    assert(attached[j].place() == attached[n - 1].place());
                }
            }
            lemma_disjoint_append(before, below);
        }
    }
    if n == attached.len() {
        let own = own_actors(attached, n, path, owner);
        lemma_own_actors(attached, n, path, owner);
        lemma_nested_actors(attached, n, path, owner, root);
        assert forall|i: int| #[trigger] own.contains(i) implies !nested.contains(i) by {
            assert(is_member(attached[i], path, owner));
        }
        lemma_disjoint_append(own, nested);
    }
}

/// Sequences without duplicates and without a common element have no duplicates
/// together.
proof fn lemma_disjoint_append(left: Seq<int>, right: Seq<int>)
    requires
        left.no_duplicates(),
        right.no_duplicates(),
        forall|i: int| #[trigger] left.contains(i) ==> !right.contains(i),
    ensures
        (left + right).no_duplicates(),
{
    let all = left + right;
    assert forall|k: int, l: int|
        0 <= k < all.len() && 0 <= l < all.len() && k != l implies all[k] != all[l] by {
        if k < left.len() && l >= left.len() {
            assert(left.contains(left[k]));
            assert(right.contains(right[l - left.len()]));
        } else if l < left.len() && k >= left.len() {
            assert(left.contains(left[l]));
            assert(right.contains(right[k - left.len()]));
        }
    }
}

/// A report that lists each member once gives one sample per actor.
pub proof fn law_actors_are_sampled_once(attached: Seq<AttachedChild>, root: u64)
    requires
        places_are_distinct(attached),
    ensures
        scope_actors(attached, Seq::empty(), root).no_duplicates(),
        samples(attached, root).len() == scope_actors(attached, Seq::empty(), root).len(),
{
    lemma_actors_occur_once(attached, attached.len(), Seq::empty(), root, root);
}

/// Among the samples of any scope of the report, those of its own actors come
/// first.
pub proof fn law_own_actors_come_first(
    attached: Seq<AttachedChild>,
    path: Seq<(Seq<char>, u64, u64)>,
    owner: u64,
    root: u64,
    k: int,
    l: int,
)
    requires
        is_scope_of(attached, path, owner, root),
        0 <= k < l < scope_actors(attached, path, owner).len(),
        sampled(attached, scope_actors(attached, path, owner))[l].scope_path == path,
    ensures
        sampled(attached, scope_actors(attached, path, owner))[k].scope_path == path,
{
    let own = own_actors(attached, attached.len(), path, owner);
    let nested = nested_actors(attached, attached.len(), path, owner);
    let all = scope_actors(attached, path, owner);
    lemma_own_actors(attached, attached.len(), path, owner);
    lemma_nested_actors(attached, attached.len(), path, owner, root);
    if l >= own.len() {
        assert(all[l] == nested[l - own.len()]);
        assert(nested.contains(all[l]));
    }
    assert(all[k] == own[k]);
    assert(own.contains(all[k]));
    assert(is_member(attached[all[k]], path, owner));
}

/// A sample shows where its actor is attached, under which lineage, and the very
/// numbers that are attached there.
pub proof fn law_samples_show_what_is_attached(attached: Seq<AttachedChild>, root: u64, k: int)
    requires
        0 <= k < scope_actors(attached, Seq::empty(), root).len(),
    ensures
        ({
            let i = scope_actors(attached, Seq::empty(), root)[k];
            let sample = samples(attached, root)[k];
            &&& 0 <= i < attached.len()
            &&& attached[i].path@.len() > 0
            &&& attached[i].attachment.kind matches RuntimeAttachmentKind::Actor { stats, .. }
            &&& sample.stats == stats
            &&& sample.lineage == attached[i].path@[attached[i].path@.len() - 1].lineage
            &&& sample.scope_path.len() + 1 == attached[i].path@.len()
            &&& forall|j: int|
                0 <= j < sample.scope_path.len() ==> {
                    &&& (#[trigger] sample.scope_path[j]).0 == attached[i].path@[j].id@
                    &&& sample.scope_path[j].1 == attached[i].path@[j].lineage
                    &&& sample.scope_path[j].2 == attached[i].path@[j].generation
                }
        }),
{
    let actors = scope_actors(attached, Seq::empty(), root);
    assert(actors.contains(actors[k]));
    law_samples_are_attached(attached, root, actors[k]);
}

/// The actors of one scope are sampled in the order in which they are attached.
pub proof fn law_own_actors_keep_their_order(
    attached: Seq<AttachedChild>,
    n: nat,
    path: Seq<(Seq<char>, u64, u64)>,
    owner: u64,
    k: int,
    l: int,
)
    requires
        n <= attached.len(),
        0 <= k < l < own_actors(attached, n, path, owner).len(),
    ensures
        own_actors(attached, n, path, owner)[k] < own_actors(attached, n, path, owner)[l],
    decreases n,
{
    if n > 0 {
        let before = own_actors(attached, (n - 1) as nat, path, owner);
        if l < before.len() {
            law_own_actors_keep_their_order(attached, (n - 1) as nat, path, owner, k, l);
        } else {
            lemma_own_actors(attached, (n - 1) as nat, path, owner);
            assert(before.contains(before[k]));
        }
    }
}

/// Nested scopes are sampled in the order in which they are attached, each with
/// everything below it before the next one begins, and behind the actors of the
/// scope around them.
pub proof fn law_nested_scopes_keep_their_order(
    attached: Seq<AttachedChild>,
    path: Seq<(Seq<char>, u64, u64)>,
    owner: u64,
    i: int,
    j: int,
)
    requires
        0 <= i < j < attached.len(),
        attached[i].place().len() > 0 && attached[i].place().drop_last() == path,
        attached[j].place().len() > 0 && attached[j].place().drop_last() == path,
        attached[i].attachment.owner == owner && attached[j].attachment.owner == owner,
        attached[i].attachment.kind is Subtree && attached[j].attachment.kind is Subtree,
    ensures
        exists|first: Seq<int>, between: Seq<int>, last: Seq<int>|
            scope_actors(attached, path, owner) == #[trigger] spliced(
                own_actors(attached, attached.len(), path, owner),
                first,
                scope_actors(attached, attached[i].place(), attached[i].attachment.kind->actors),
                between,
                scope_actors(attached, attached[j].place(), attached[j].attachment.kind->actors),
                last,
            ),
{
    let own = own_actors(attached, attached.len(), path, owner);
    let below_i = scope_actors(
        attached,
        attached[i].place(),
        attached[i].attachment.kind->actors,
    );
    let below_j = scope_actors(
        attached,
        attached[j].place(),
        attached[j].attachment.kind->actors,
    );
    let first = nested_actors(attached, i as nat, path, owner);
    assert(nested_actors(attached, (i + 1) as nat, path, owner) == first + below_i);
    let between = lemma_nested_prefix(attached, (i + 1) as nat, j as nat, path, owner);
    let until_j = nested_actors(attached, j as nat, path, owner);
    assert(nested_actors(attached, (j + 1) as nat, path, owner) == until_j + below_j);
    let last = lemma_nested_prefix(attached, (j + 1) as nat, attached.len(), path, owner);
    assert(scope_actors(attached, path, owner) =~= spliced(
        own,
        first,
        below_i,
        between,
        below_j,
        last,
    ));
}

/// Six sequences, one behind the other.
pub open spec fn spliced(
    own: Seq<int>,
    first: Seq<int>,
    one: Seq<int>,
    between: Seq<int>,
    other: Seq<int>,
    last: Seq<int>,
) -> Seq<int> {
    own + first + one + between + other + last
}

/// What is sampled of the first nested scopes stays in front of the rest, which is
/// returned.
proof fn lemma_nested_prefix(
    attached: Seq<AttachedChild>,
    n: nat,
    m: nat,
    path: Seq<(Seq<char>, u64, u64)>,
    owner: u64,
) -> (rest: Seq<int>)
    requires
        n <= m <= attached.len(),
    ensures
        nested_actors(attached, m, path, owner) == nested_actors(attached, n, path, owner) + rest,
    decreases m,
{
    if n == m {
        let rest = Seq::<int>::empty();
        assert(nested_actors(attached, n, path, owner) + rest =~= nested_actors(
            attached,
            n,
            path,
            owner,
        ));
        rest
    } else {
        let rest = lemma_nested_prefix(attached, n, (m - 1) as nat, path, owner);
        let child = attached[m - 1];
        let more = match child.attachment.kind {
            RuntimeAttachmentKind::Subtree { actors } => if is_member(child, path, owner) {
                scope_actors(attached, child.place(), actors)
            } else {
                Seq::empty()
            },
            _ => Seq::empty(),
        };
        assert(nested_actors(attached, m, path, owner) =~= nested_actors(attached, n, path, owner)
            + (rest + more));
        rest + more
    }
}

} // verus!
