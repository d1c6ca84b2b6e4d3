use vstd::prelude::*;

verus! {

/// A state that a depth-first search engine can explore. Every state has a
/// mathematical model, and the goal test and successor production are
/// specified on models, so that the engine's contracts describe the abstract
/// search tree rather than one run of it.
pub trait Searchable: Sized {
    /// The mathematical model of a state.
    type Model;

    /// The model of this state.
    spec fn model(&self) -> Self::Model;

    /// What a well-formed state satisfies.
    spec fn inv(&self) -> bool;

    /// Whether a model is a goal.
    spec fn spec_is_goal(m: Self::Model) -> bool;

    /// The models of the successors of a model, in their fixed order, or
    /// nothing at all when a state of that model cannot be expanded — which is
    /// distinct from an empty list of successors.
    spec fn spec_next(m: Self::Model) -> Option<Seq<Self::Model>>;

    /// Whether this state is a goal.
    fn is_goal(&self) -> (r: bool)
        requires
            self.inv(),
        ensures
            r == Self::spec_is_goal(self.model()),
    ;

    /// The successors of this state, in their fixed order, or `None` when the
    /// state cannot be expanded.
    fn next(&self) -> (r: Option<Vec<Self>>)
        requires
            self.inv(),
        ensures
            r is Some <==> Self::spec_next(self.model()) is Some,
            r matches Some(children) ==> {
                let ms = Self::spec_next(self.model()).unwrap();
                &&& children@.len() == ms.len()
                &&& forall|i: int|
                    0 <= i < children@.len() ==> (#[trigger] children@[i]).inv()
                        && children@[i].model() == ms[i]
            },
    ;

    /// A fresh state with the same model.
    fn duplicate(&self) -> (r: Self)
        requires
            self.inv(),
        ensures
            r.inv(),
            r.model() == self.model(),
    ;
}

} // verus!
