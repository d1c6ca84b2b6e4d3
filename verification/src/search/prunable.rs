use vstd::prelude::*;

use super::searchable::Searchable;

verus! {

/// A searchable state with a pruning test: the engine skips, without
/// expanding it, every state whose test fires.
pub trait Prunable: Searchable {
    /// Whether a state of this model, reached at `depth` of a search bounded
    /// by `max_depth`, should not be expanded further.
    spec fn spec_to_prune(m: Self::Model, depth: int, max_depth: int) -> bool;

    /// Whether this state should not be expanded further.
    fn to_prune(&self, depth: usize, max_depth: usize) -> (r: bool)
        requires
            self.inv(),
            depth <= max_depth,
        ensures
            r == Self::spec_to_prune(self.model(), depth as int, max_depth as int),
    ;
}

} // verus!
