use vstd::prelude::*;

use super::prunable::Prunable;
use super::searchable::Searchable;

verus! {

/// The abstract outcome of expanding the successor list `cs` from position
/// `i` on, at `depth` of a search bounded by `max_depth`: the first successor
/// that is a goal, or the first result a deeper search below a non-pruned
/// successor finds, whichever comes first in successor order.
pub open spec fn dls_children<T: Prunable>(
    cs: Seq<T::Model>,
    i: int,
    depth: int,
    max_depth: int,
) -> Option<T::Model>
    decreases max_depth - depth, 0int, cs.len() - i,
{
    if i < 0 || i >= cs.len() || depth >= max_depth {
        None
    } else if T::spec_is_goal(cs[i]) {
        Some(cs[i])
    } else if T::spec_to_prune(cs[i], depth, max_depth) {
        dls_children::<T>(cs, i + 1, depth, max_depth)
    } else {
        match dls_internal::<T>(cs[i], depth + 1, max_depth) {
            Some(m) => Some(m),
            None => dls_children::<T>(cs, i + 1, depth, max_depth),
        }
    }
}

/// The abstract outcome of the recursive descent below a non-goal, non-pruned
/// state of model `m` sitting at `depth`: nothing once the bound is reached or
/// the state cannot be expanded, else the outcome of walking its successors.
pub open spec fn dls_internal<T: Prunable>(m: T::Model, depth: int, max_depth: int) -> Option<
    T::Model,
>
    decreases max_depth - depth, 1int, 0int,
{
    if depth >= max_depth {
        None
    } else {
        match T::spec_next(m) {
            None => None,
            Some(cs) => dls_children::<T>(cs, 0, depth, max_depth),
        }
    }
}

/// The abstract outcome of a whole depth-limited search from a root of model
/// `m`: the root itself when it is a goal, nothing when the root is pruned
/// outright, else the outcome of the descent.
pub open spec fn dls<T: Prunable>(m: T::Model, max_depth: int) -> Option<T::Model> {
    if T::spec_is_goal(m) {
        Some(m)
    } else if T::spec_to_prune(m, 0, max_depth) {
        None
    } else {
        dls_internal::<T>(m, 0, max_depth)
    }
}

/// A depth-limited search with bound zero can only ever return the root: on a
/// non-goal root it comes back empty-handed.
pub proof fn lemma_dls_bound_zero<T: Prunable>(m: T::Model)
    ensures
        !T::spec_is_goal(m) ==> dls::<T>(m, 0) is None,
{
}

fn depth_limited_search_internal<T: Searchable + Prunable>(node: &T, depth: usize, max_depth: usize) -> (r:
    Option<T>)
    requires
        node.inv(),
        depth <= max_depth,
    ensures
        r matches Some(n) ==> n.inv() && Some(n.model()) == dls_internal::<T>(
            node.model(),
            depth as int,
            max_depth as int,
        ),
        r is None ==> dls_internal::<T>(node.model(), depth as int, max_depth as int) is None,
    decreases max_depth - depth,
{
    if depth >= max_depth {
        return None;
    }
    match node.next() {
        None => None,
        Some(children) => {
            let ghost cs = T::spec_next(node.model()).unwrap();
            let mut i: usize = 0;
            while i < children.len()
                invariant
                    i <= children@.len(),
                    node.inv(),
                    depth < max_depth,
                    T::spec_next(node.model()) == Some(cs),
                    children@.len() == cs.len(),
                    forall|j: int|
                        0 <= j < children@.len() ==> (#[trigger] children@[j]).inv()
                            && children@[j].model() == cs[j],
                    dls_children::<T>(cs, 0, depth as int, max_depth as int) == dls_children::<T>(
                        cs,
                        i as int,
                        depth as int,
                        max_depth as int,
                    ),
                decreases children@.len() - i,
            {
                let n = &children[i];
                if n.is_goal() {
                    proof {
                        assert(dls_children::<T>(cs, i as int, depth as int, max_depth as int)
                            == Some(cs[i as int]));
                    }
                    return Some(n.duplicate());
                }
                if !n.to_prune(depth, max_depth) {
                    let result = depth_limited_search_internal(n, depth + 1, max_depth);
                    if result.is_some() {
                        return result;
                    }
                }
                i += 1;
            }
            None
        },
    }
}

/// Depth-limited search: explores the tree below `root` depth-first, in
/// successor order, down to at most `max_depth` moves below the root, and
/// returns the first goal state encountered — the abstract `dls` outcome of
/// the root's model. Successors whose pruning test fires are skipped without
/// being expanded; a goal is returned before its own pruning test is ever
/// consulted.
pub fn depth_limited_search<T: Searchable + Prunable>(root: &T, max_depth: usize) -> (r: Option<T>)
    requires
        root.inv(),
    ensures
        r matches Some(n) ==> n.inv() && Some(n.model()) == dls::<T>(
            root.model(),
            max_depth as int,
        ),
        r is None ==> dls::<T>(root.model(), max_depth as int) is None,
{
    if root.is_goal() {
        return Some(root.duplicate());
    }
    if root.to_prune(0, max_depth) {
        return None;
    }
    depth_limited_search_internal(root, 0, max_depth)
}

} // verus!
