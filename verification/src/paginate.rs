//! The paginator: splits an ordered list of `n` entries into sub-page
//! ranges, driven by a distribution sequence `d` where `d[i]` is the entry
//! count shown on sub-page `i`.  Sub-pages past the end of the distribution
//! show the remainder of the list.

use vstd::prelude::*;
use crate::PageError;

verus! {

/// The sum of the first `p` distribution entries: the index of the first
/// entry of sub-page `p`.
pub open spec fn prefix_sum(d: Seq<usize>, p: int) -> int
    decreases p,
{
    if p <= 0 {
        0
    } else {
        prefix_sum(d, p - 1) + d[p - 1]
    }
}

/// A requested sub-page index is out of range when it is not reachable
/// through the prefix-sum chain: it lies past the remainder sub-page, or
/// the chain leaves no entry for it to show.
pub open spec fn out_of_range(n: int, d: Seq<usize>, p: int) -> bool {
    p > d.len() || prefix_sum(d, p) >= n
}

pub proof fn lemma_prefix_sum_mono(d: Seq<usize>, a: int, b: int)
    requires
        0 <= a <= b,
    ensures
        prefix_sum(d, a) <= prefix_sum(d, b),
    decreases b,
{
    if a < b {
        lemma_prefix_sum_mono(d, a, b - 1);
    }
}

/// One sub-page's result: the half-open entry range `[start, end)` and
/// whether a "continue" affordance follows (more distributed sub-pages
/// remain; the remainder sub-page does not count).
#[derive(Clone, Copy, Debug, PartialEq, Eq, Structural)]
pub struct SubPageRange {
    pub start: usize,
    pub end: usize,
    pub more: bool,
}

/// Resolve sub-page `p` of `n` entries under distribution `d`.
///
/// Sub-page `p < d.len()` takes the `d[p]` consecutive entries after the
/// first `prefix_sum(d, p)`, capped at `n`; sub-page `p == d.len()` shows
/// the remainder.  An index past the remainder sub-page, or one whose
/// range would start at or past `n`, fails with `PaginationOutOfRange`.
pub fn paginate(n: usize, distribution: &Vec<usize>, p: usize) -> (r: Result<
    SubPageRange,
    PageError,
>)
    ensures
        r is Err <==> out_of_range(n as int, distribution@, p as int),
        r matches Err(e) ==> e == PageError::PaginationOutOfRange,
        r matches Ok(pr) ==> {
            &&& pr.start == prefix_sum(distribution@, p as int)
            &&& pr.end == if (p as int) < distribution@.len() {
                if pr.start + distribution@[p as int] <= n {
                    pr.start + distribution@[p as int]
                } else {
                    n as int
                }
            } else {
                n as int
            }
            &&& pr.more == (p + 1 < distribution@.len())
            &&& pr.start < n
            &&& pr.start <= pr.end <= n
        },
{
    if p > distribution.len() {
        return Err(PageError::PaginationOutOfRange);
    }
    let mut start: usize = 0;
    let mut i: usize = 0;
    while i < p
        invariant
            i <= p <= distribution@.len(),
            start == prefix_sum(distribution@, i as int),
            start <= n,
        decreases p - i,
    {
        let di = distribution[i];
        if di > n - start {
            proof {
                lemma_prefix_sum_mono(distribution@, i + 1, p as int);
            }
            return Err(PageError::PaginationOutOfRange);
        }
        start = start + di;
        i = i + 1;
    }
    if start >= n {
        return Err(PageError::PaginationOutOfRange);
    }
    let end: usize = if p < distribution.len() {
        let dp = distribution[p];
        if dp > n - start {
            n
        } else {
            start + dp
        }
    } else {
        n
    };
    let more = p < distribution.len() && p < distribution.len() - 1;
    Ok(SubPageRange { start, end, more })
}


/// The entry range of sub-page `p`: where it ends.
pub open spec fn page_end(n: int, d: Seq<usize>, p: int) -> int {
    if p < d.len() {
        if prefix_sum(d, p) + d[p] <= n {
            prefix_sum(d, p) + d[p]
        } else {
            n
        }
    } else {
        n
    }
}

/// Whether sub-page `p` is reachable and its range holds entry `e`.
pub open spec fn covers(n: int, d: Seq<usize>, p: int, e: int) -> bool {
    &&& 0 <= p <= d.len()
    &&& !out_of_range(n, d, p)
    &&& prefix_sum(d, p) <= e < page_end(n, d, p)
}

proof fn lemma_find_page(n: int, d: Seq<usize>, e: int, p: int)
    requires
        0 <= p <= d.len(),
        prefix_sum(d, p) <= e < n,
    ensures
        exists|q: int| covers(n, d, q, e),
    decreases d.len() - p,
{
    if p == d.len() {
        assert(covers(n, d, p, e));
    } else if e < prefix_sum(d, p) + d[p] {
        assert(covers(n, d, p, e));
    } else {
        assert(prefix_sum(d, p + 1) == prefix_sum(d, p) + d[p]);
        lemma_find_page(n, d, e, p + 1);
    }
}

/// The partition law: when the distribution sums to at most the entry
/// count, every entry index appears in the range of exactly one reachable
/// sub-page -- in original order, with no gaps and no duplicates; the
/// final sub-page absorbs any remainder.
pub proof fn lemma_pagination_partition(n: int, d: Seq<usize>, e: int)
    requires
        prefix_sum(d, d.len() as int) <= n,
        0 <= e < n,
    ensures
        exists|p: int| covers(n, d, p, e),
        forall|p1: int, p2: int| covers(n, d, p1, e) && covers(n, d, p2, e) ==> p1 == p2,
{
    lemma_find_page(n, d, e, 0);
    assert forall|p1: int, p2: int| covers(n, d, p1, e) && covers(n, d, p2, e) implies p1 == p2 by {
        if p1 < p2 {
            assert(prefix_sum(d, p1 + 1) == prefix_sum(d, p1) + d[p1]);
            lemma_prefix_sum_mono(d, p1 + 1, p2);
            assert(page_end(n, d, p1) <= prefix_sum(d, p2));
        } else if p2 < p1 {
            assert(prefix_sum(d, p2 + 1) == prefix_sum(d, p2) + d[p2]);
            lemma_prefix_sum_mono(d, p2 + 1, p1);
            assert(page_end(n, d, p2) <= prefix_sum(d, p1));
        }
    }
}


} // verus!
