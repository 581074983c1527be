//! Where the items of the groups stand in their concatenation.

use vstd::prelude::*;

verus! {

/// The number of items in the groups before the group at `i`.
pub open spec fn offset<A>(groups: Seq<Seq<A>>, i: int) -> int
    decreases i,
{
    if i <= 0 {
        0
    } else {
        offset(groups, i - 1) + groups[i - 1].len()
    }
}

/// The offsets of a prefix of the groups are those of the groups.
pub proof fn lemma_offset_of_prefix<A>(groups: Seq<Seq<A>>, n: int, i: int)
    requires
        0 <= i <= n <= groups.len(),
    ensures
        offset(groups.take(n), i) == offset(groups, i),
    decreases i,
{
    if i > 0 {
        lemma_offset_of_prefix(groups, n, i - 1);
    }
}

/// Offsets do not decrease.
pub proof fn lemma_offset_monotone<A>(groups: Seq<Seq<A>>, i: int, k: int)
    requires
        0 <= i <= k,
    ensures
        0 <= offset(groups, i) <= offset(groups, k),
    decreases k,
{
    if i < k {
        lemma_offset_monotone(groups, i, k - 1);
    } else if i > 0 {
        lemma_offset_monotone(groups, i - 1, i - 1);
    }
}

/// The concatenation of the groups is as long as all groups together, and holds the item
/// `j` of the group `i` at the offset of that group plus `j`.
pub proof fn lemma_flatten_layout<A>(groups: Seq<Seq<A>>)
    ensures
        groups.flatten().len() == offset(groups, groups.len() as int),
        forall|i: int|
            0 <= i < groups.len() ==> 0 <= #[trigger] offset(groups, i) && offset(groups, i)
                + groups[i].len() <= groups.flatten().len(),
        forall|i: int, j: int|
            0 <= i < groups.len() && 0 <= j < groups[i].len() ==> groups.flatten()[offset(
                groups,
                i,
            ) + j] == #[trigger] groups[i][j],
    decreases groups.len(),
{
    if groups.len() > 0 {
        let n = groups.len() as int - 1;
        let front = groups.take(n);
        let last = groups[n];
        lemma_flatten_layout(front);
        front.lemma_flatten_push(last);
        assert(front.push(last) =~= groups);
        lemma_offset_of_prefix(groups, n, n);
        assert forall|i: int| 0 <= i < groups.len() implies 0 <= #[trigger] offset(groups, i)
            && offset(groups, i) + groups[i].len() <= groups.flatten().len() by {
            lemma_offset_monotone(groups, i, i + 1);
            lemma_offset_monotone(groups, i + 1, n + 1);
        }
        assert forall|i: int, j: int|
            0 <= i < groups.len() && 0 <= j < groups[i].len() implies groups.flatten()[offset(
            groups,
            i,
        ) + j] == #[trigger] groups[i][j] by {
            lemma_offset_monotone(groups, i, n);
            if i < n {
                lemma_offset_of_prefix(groups, n, i);
                assert(offset(front, i) + front[i].len() <= front.flatten().len());
                assert(front[i][j] == groups[i][j]);
            }
        }
    }
}

} // verus!
