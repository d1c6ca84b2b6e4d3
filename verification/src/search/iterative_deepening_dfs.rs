use vstd::prelude::*;

use super::depth_limited_search::depth_limited_search;
use super::depth_limited_search::dls;
use super::prunable::Prunable;
use super::searchable::Searchable;

verus! {

/// The abstract outcome of iterative deepening from a root of model `m`: the
/// outcome of the first depth-limited search that succeeds among the bounds
/// `bound..=max_depth`, tried in increasing order, or nothing when every one
/// of them fails.
pub open spec fn iterative_deepening<T: Prunable>(
    m: T::Model,
    bound: int,
    max_depth: int,
) -> Option<T::Model>
    decreases max_depth - bound + 1,
{
    if bound < 0 || bound > max_depth {
        None
    } else {
        match dls::<T>(m, bound) {
            Some(r) => Some(r),
            None => iterative_deepening::<T>(m, bound + 1, max_depth),
        }
    }
}

/// The smallest bound, at least `bound` and at most `max_depth`, at which the
/// depth-limited search from a root of model `m` succeeds; past `max_depth`
/// when none does.
pub open spec fn first_success_bound<T: Prunable>(m: T::Model, bound: int, max_depth: int) -> int
    decreases max_depth - bound + 1,
{
    if bound < 0 || bound > max_depth {
        bound
    } else if dls::<T>(m, bound) is Some {
        bound
    } else {
        first_success_bound::<T>(m, bound + 1, max_depth)
    }
}

/// Iterative deepening returns the outcome of the smallest bound at which a
/// depth-limited search succeeds at all, so it never returns a result from a
/// deeper bound than that minimal one; and it fails only when every bound up
/// to the last one fails.
pub proof fn lemma_iterative_deepening_minimal<T: Prunable>(
    m: T::Model,
    bound: int,
    max_depth: int,
)
    requires
        0 <= bound,
    ensures
        match iterative_deepening::<T>(m, bound, max_depth) {
            Some(res) => {
                let d = first_success_bound::<T>(m, bound, max_depth);
                &&& bound <= d <= max_depth
                &&& dls::<T>(m, d) == Some(res)
                &&& forall|e: int| bound <= e < d ==> dls::<T>(m, e) is None
            },
            None => forall|e: int| bound <= e <= max_depth ==> dls::<T>(m, e) is None,
        },
    decreases max_depth - bound + 1,
{
    if bound <= max_depth {
        match dls::<T>(m, bound) {
            Some(res) => {},
            None => {
                lemma_iterative_deepening_minimal::<T>(m, bound + 1, max_depth);
                match iterative_deepening::<T>(m, bound + 1, max_depth) {
                    Some(res) => {
                        let d = first_success_bound::<T>(m, bound + 1, max_depth);
                        assert(first_success_bound::<T>(m, bound, max_depth) == d);
                        assert(forall|e: int| bound <= e < d ==> dls::<T>(m, e) is None);
                    },
                    None => {},
                }
            },
        }
    }
}

/// Iterative-deepening depth-first search: runs a depth-limited search with
/// bound 0, 1, … up to `max_depth`, in order, and returns the first success —
/// the abstract `iterative_deepening` outcome of the root's model. Because
/// every bound is exhausted in full before the next one is tried, the result
/// comes from the smallest bound at which the depth-limited search succeeds
/// at all.
pub fn iterative_deepening_dfs<T: Searchable + Prunable>(root: &T, max_depth: usize) -> (r: Option<
    T,
>)
    requires
        root.inv(),
    ensures
        r matches Some(n) ==> n.inv() && Some(n.model()) == iterative_deepening::<T>(
            root.model(),
            0,
            max_depth as int,
        ),
        r is None ==> iterative_deepening::<T>(root.model(), 0, max_depth as int) is None,
{
    let mut depth: usize = 0;
    loop
        invariant
            root.inv(),
            0 <= depth <= max_depth,
            iterative_deepening::<T>(root.model(), 0, max_depth as int) == iterative_deepening::<
                T,
            >(root.model(), depth as int, max_depth as int),
        decreases max_depth - depth,
    {
        let result = depth_limited_search(root, depth);
        if result.is_some() {
            return result;
        }
        if depth == max_depth {
            return None;
        }
        depth += 1;
    }
}

} // verus!
