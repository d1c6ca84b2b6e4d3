use vstd::prelude::*;

use super::prunable::Prunable;
use super::searchable::Searchable;

verus! {

broadcast use vstd::std_specs::vec::group_vec_axioms, vstd::seq::group_seq_axioms;

/// The mathematical model of a `Tree`: the same shape with sequences for
/// branches.
pub enum TreeModel<T> {
    Node(Seq<TreeModel<T>>),
    Leaf(T),
}

/// A finite ordered tree whose leaves carry a value: the simplest explorable
/// state, with the leaves as goals. A node with exactly two branches is
/// pruned, so that bounded searches over small hand-built trees exercise
/// every path of the engine.
#[derive(Debug, PartialEq, Eq)]
pub enum Tree<T> {
    Node(Vec<Tree<T>>),
    Leaf(T),
}

/// The model of a tree: each vector of branches becomes the sequence of the
/// models of its entries.
pub open spec fn tree_model<T>(t: Tree<T>) -> TreeModel<T>
    decreases t,
{
    match t {
        Tree::Node(branches) => TreeModel::Node(
            Seq::new(
                branches@.len(),
                |i: int|
                    if 0 <= i < branches@.len() {
                        tree_model(branches@[i])
                    } else {
                        TreeModel::Leaf(vstd::pervasive::arbitrary())
                    },
            ),
        ),
        Tree::Leaf(v) => TreeModel::Leaf(v),
    }
}

/// A fresh tree with the same model.
fn duplicate_tree<T: Copy>(t: &Tree<T>) -> (r: Tree<T>)
    ensures
        tree_model(r) == tree_model(*t),
    decreases *t,
{
    match t {
        Tree::Leaf(v) => Tree::Leaf(*v),
        Tree::Node(branches) => {
            let mut out: Vec<Tree<T>> = Vec::new();
            let mut i: usize = 0;
            while i < branches.len()
                invariant
                    i <= branches@.len(),
                    *t == (Tree::Node(*branches)),
                    out@.len() == i,
                    forall|j: int|
                        0 <= j < i ==> tree_model(#[trigger] out@[j]) == tree_model(branches@[j]),
                decreases branches@.len() - i,
            {
                proof {
                    assert(decreases_to!(*t => (*t)->Node_0));
                    assert((*t)->Node_0 == *branches);
                    assert(decreases_to!(*branches => branches@));
                    assert(decreases_to!(branches@ => branches@[i as int]));
                }
                out.push(duplicate_tree(&branches[i]));
                i += 1;
            }
            let r = Tree::Node(out);
            proof {
                let m = tree_model(*t);
                let rm = tree_model(r);
                assert(m is Node && rm is Node);
                assert(m->Node_0 =~= rm->Node_0);
                assert(rm == m);
            }
            r
        },
    }
}

impl<T: Copy> Searchable for Tree<T> {
    type Model = TreeModel<T>;

    open spec fn model(&self) -> TreeModel<T> {
        tree_model(*self)
    }

    open spec fn inv(&self) -> bool {
        true
    }

    open spec fn spec_is_goal(m: TreeModel<T>) -> bool {
        m is Leaf
    }

    open spec fn spec_next(m: TreeModel<T>) -> Option<Seq<TreeModel<T>>> {
        match m {
            TreeModel::Node(branches) => Some(branches),
            TreeModel::Leaf(_) => None,
        }
    }

    fn is_goal(&self) -> (r: bool) {
        match self {
            Tree::Node(_) => false,
            Tree::Leaf(_) => true,
        }
    }

    fn next(&self) -> (r: Option<Vec<Tree<T>>>) {
        match self {
            Tree::Leaf(_) => None,
            Tree::Node(branches) => {
                let mut out: Vec<Tree<T>> = Vec::new();
                let mut i: usize = 0;
                while i < branches.len()
                    invariant
                        i <= branches@.len(),
                        out@.len() == i,
                        forall|j: int|
                            0 <= j < i ==> tree_model(#[trigger] out@[j]) == tree_model(
                                branches@[j],
                            ),
                    decreases branches@.len() - i,
                {
                    out.push(duplicate_tree(&branches[i]));
                    i += 1;
                }
                Some(out)
            },
        }
    }

    fn duplicate(&self) -> (r: Self) {
        duplicate_tree(self)
    }
}

impl<T: Copy> Prunable for Tree<T> {
    open spec fn spec_to_prune(m: TreeModel<T>, depth: int, max_depth: int) -> bool {
        match m {
            TreeModel::Node(branches) => branches.len() == 2,
            TreeModel::Leaf(_) => false,
        }
    }

    fn to_prune(&self, depth: usize, max_depth: usize) -> (r: bool) {
        match self {
            Tree::Node(branches) => branches.len() == 2,
            Tree::Leaf(_) => false,
        }
    }
}

} // verus!
