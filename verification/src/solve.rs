use vstd::prelude::*;

use crate::algebra::rotation::corner_distance;
use crate::algebra::rotation::edge_distance;
use crate::algebra::rotation::rot_identity;
use crate::algebra::rotation::rot_mul;
use crate::algebra::rotation::Rotation;
use crate::algebra::rotation::RotationModel;
use crate::cube::rot_apply_ops;
use crate::cube::Cube;
use crate::operation::all_operations;
use crate::operation::op_model;
use crate::operation::spec_face;
use crate::operation::spec_operations_off_face;
use crate::operation::Operation;
use crate::search::depth_limited_search::dls;
use crate::search::depth_limited_search::dls_children;
use crate::search::depth_limited_search::dls_internal;
use crate::search::depth_limited_search::lemma_dls_bound_zero;
use crate::search::iterative_deepening_dfs::first_success_bound;
use crate::search::iterative_deepening_dfs::iterative_deepening;
use crate::search::iterative_deepening_dfs::iterative_deepening_dfs;
use crate::search::iterative_deepening_dfs::lemma_iterative_deepening_minimal;
use crate::search::prunable::Prunable;
use crate::search::searchable::Searchable;

verus! {

/// No two consecutive operations of the sequence turn the same face.
pub open spec fn no_consecutive_same_face(ops: Seq<Operation>) -> bool {
    forall|i: int|
        0 <= i && i + 1 < ops.len() ==> spec_face(#[trigger] ops[i]) != spec_face(ops[i + 1])
}

/// The model of a solver node: the cube state it stands for and the
/// operations that led to it from the root of the search.
#[verifier::ext_equal]
pub struct SearchNodeModel {
    pub rot: RotationModel,
    pub path: Seq<Operation>,
}

/// The model of the root node over the cube state `rot`: no move made yet.
pub open spec fn root_model(rot: RotationModel) -> SearchNodeModel {
    SearchNodeModel { rot, path: Seq::empty() }
}

/// The operations the solver tries below a node whose path is `path`: all 18
/// at the root, and after any move all the operations that do not turn the
/// same face again — repeating or undoing a face at once cannot shorten a
/// solution and only inflates the tree.
pub open spec fn allowed_operations(path: Seq<Operation>) -> Seq<Operation> {
    if path.len() == 0 {
        all_operations()
    } else {
        spec_operations_off_face(spec_face(path.last()))
    }
}

/// The models of the successors of a solver node: one per allowed operation,
/// in operation order, each with that operation composed onto the state and
/// appended to the path.
pub open spec fn spec_children(m: SearchNodeModel) -> Seq<SearchNodeModel> {
    Seq::new(
        allowed_operations(m.path).len(),
        |i: int|
            SearchNodeModel {
                rot: rot_mul(m.rot, op_model(allowed_operations(m.path)[i])),
                path: m.path.push(allowed_operations(m.path)[i]),
            },
    )
}

/// A node of the solver's search tree: the cube state it reached and the
/// operations that led there from the root. Nodes are immutable once created;
/// the winning node's path is the solution.
pub struct SearchNode {
    rotation: Rotation,
    path: Vec<Operation>,
}

/// A copy of a recorded move sequence.
fn duplicate_path(path: &Vec<Operation>) -> (r: Vec<Operation>)
    ensures
        r@ == path@,
{
    let r = path.clone();
    proof {
        assert(r@ =~= path@);
    }
    r
}

impl Searchable for SearchNode {
    type Model = SearchNodeModel;

    closed spec fn model(&self) -> SearchNodeModel {
        SearchNodeModel { rot: self.rotation@, path: self.path@ }
    }

    closed spec fn inv(&self) -> bool {
        self.rotation.wf()
    }

    open spec fn spec_is_goal(m: SearchNodeModel) -> bool {
        m.rot == rot_identity()
    }

    open spec fn spec_next(m: SearchNodeModel) -> Option<Seq<SearchNodeModel>> {
        Some(spec_children(m))
    }

    fn is_goal(&self) -> (r: bool) {
        self.rotation.is_identity()
    }

    fn next(&self) -> (r: Option<Vec<SearchNode>>) {
        let ops = if self.path.len() == 0 {
            Operation::all()
        } else {
            let last = self.path[self.path.len() - 1];
            Operation::all_off_face(last.face())
        };
        proof {
            assert(ops@ == allowed_operations(self.path@));
        }
        let mut children: Vec<SearchNode> = Vec::new();
        let mut i: usize = 0;
        while i < ops.len()
            invariant
                i <= ops@.len(),
                self.inv(),
                ops@ == allowed_operations(self.path@),
                children@.len() == i,
                forall|j: int|
                    0 <= j < i ==> (#[trigger] children@[j]).inv() && children@[j].model()
                        == spec_children(self.model())[j],
            decreases ops@.len() - i,
        {
            let op = ops[i];
            let rotation = self.rotation.mul(&op.rotation());
            let mut path = duplicate_path(&self.path);
            path.push(op);
            let child = SearchNode { rotation, path };
            proof {
                assert(child.model() =~= spec_children(self.model())[i as int]);
            }
            children.push(child);
            i += 1;
        }
        Some(children)
    }

    fn duplicate(&self) -> (r: Self) {
        SearchNode { rotation: self.rotation.clone(), path: duplicate_path(&self.path) }
    }
}

impl Prunable for SearchNode {
    open spec fn spec_to_prune(m: SearchNodeModel, depth: int, max_depth: int) -> bool {
        let remaining = max_depth - depth;
        if remaining == 1 {
            edge_distance(m.rot, rot_identity()) > 4 || corner_distance(m.rot, rot_identity()) > 4
        } else if remaining == 2 {
            edge_distance(m.rot, rot_identity()) > 8
        } else if remaining == 3 {
            edge_distance(m.rot, rot_identity()) > 10
        } else {
            false
        }
    }

    fn to_prune(&self, depth: usize, max_depth: usize) -> (r: bool) {
        let remaining = max_depth - depth;
        let solved = Rotation::default();
        if remaining == 1 {
            self.rotation.edge_hamming_distance(&solved) > 4
                || self.rotation.corner_hamming_distance(&solved) > 4
        } else if remaining == 2 {
            self.rotation.edge_hamming_distance(&solved) > 8
        } else if remaining == 3 {
            self.rotation.edge_hamming_distance(&solved) > 10
        } else {
            false
        }
    }
}

/// What every node of the solver's abstract search tree over the root state
/// `rt` satisfies: its state is the one its path reaches from `rt`, and its
/// path never turns one face twice in a row.
pub open spec fn node_ok(rt: RotationModel, m: SearchNodeModel) -> bool {
    &&& m.rot == rot_apply_ops(rt, m.path)
    &&& no_consecutive_same_face(m.path)
}

/// Every operation the solver allows after the moves of `path` avoids the
/// face of the last move.
proof fn lemma_allowed_operations_off_last_face(path: Seq<Operation>)
    requires
        path.len() > 0,
    ensures
        forall|j: int|
            0 <= j < allowed_operations(path).len() ==> spec_face(
                #[trigger] allowed_operations(path)[j],
            ) != spec_face(path.last()),
{
    broadcast use vstd::seq_lib::group_filter_ensures;

}

#[verifier::rlimit(60)]
proof fn lemma_children_ok(rt: RotationModel, m: SearchNodeModel)
    requires
        node_ok(rt, m),
    ensures
        forall|j: int|
            0 <= j < spec_children(m).len() ==> node_ok(rt, #[trigger] spec_children(m)[j])
                && spec_children(m)[j].path.len() == m.path.len() + 1,
{
    let ops = allowed_operations(m.path);
    if m.path.len() > 0 {
        lemma_allowed_operations_off_last_face(m.path);
    }
    assert forall|j: int| 0 <= j < spec_children(m).len() implies node_ok(
        rt,
        #[trigger] spec_children(m)[j],
    ) && spec_children(m)[j].path.len() == m.path.len() + 1 by {
        let op = ops[j];
        let child = spec_children(m)[j];
        assert(child.path.drop_last() =~= m.path);
        assert(rot_apply_ops(rt, child.path) == rot_mul(m.rot, op_model(op)));
        assert(m.path.len() > 0 ==> spec_face(op) != spec_face(m.path.last()));
        assert forall|i: int|
            0 <= i && i + 1 < child.path.len() implies spec_face(#[trigger] child.path[i])
            != spec_face(child.path[i + 1]) by {
            if i + 1 < m.path.len() {
                assert(child.path[i] == m.path[i]);
                assert(child.path[i + 1] == m.path[i + 1]);
            } else {
                assert(child.path[i] == m.path[m.path.len() - 1]);
                assert(child.path[i + 1] == op);
            }
        }
    }
}

proof fn lemma_dls_children_solution(
    rt: RotationModel,
    cs: Seq<SearchNodeModel>,
    i: int,
    depth: int,
    max_depth: int,
)
    requires
        0 <= depth,
        forall|j: int|
            0 <= j < cs.len() ==> node_ok(rt, #[trigger] cs[j]) && cs[j].path.len() == depth + 1,
    ensures
        match dls_children::<SearchNode>(cs, i, depth, max_depth) {
            Some(res) => node_ok(rt, res) && res.rot == rot_identity() && res.path.len()
                <= max_depth,
            None => true,
        },
    decreases max_depth - depth, 0int, cs.len() - i,
{
    if i < 0 || i >= cs.len() || depth >= max_depth {
    } else if <SearchNode as Searchable>::spec_is_goal(cs[i]) {
    } else if <SearchNode as Prunable>::spec_to_prune(cs[i], depth, max_depth) {
        lemma_dls_children_solution(rt, cs, i + 1, depth, max_depth);
    } else {
        lemma_dls_internal_solution(rt, cs[i], depth + 1, max_depth);
        match dls_internal::<SearchNode>(cs[i], depth + 1, max_depth) {
            Some(_) => {},
            None => {
                lemma_dls_children_solution(rt, cs, i + 1, depth, max_depth);
            },
        }
    }
}

proof fn lemma_dls_internal_solution(
    rt: RotationModel,
    m: SearchNodeModel,
    depth: int,
    max_depth: int,
)
    requires
        0 <= depth,
        node_ok(rt, m),
        m.path.len() == depth,
    ensures
        match dls_internal::<SearchNode>(m, depth, max_depth) {
            Some(res) => node_ok(rt, res) && res.rot == rot_identity() && res.path.len()
                <= max_depth,
            None => true,
        },
    decreases max_depth - depth, 1int, 0int,
{
    if depth < max_depth {
        lemma_children_ok(rt, m);
        lemma_dls_children_solution(rt, spec_children(m), 0, depth, max_depth);
    }
}

/// Whatever a depth-limited search of the solver's tree over the root state
/// `rt` returns is a true solution: its path leads from `rt` to the solved
/// state, stays within the bound, and never turns one face twice in a row.
pub proof fn lemma_dls_solution(rt: RotationModel, max_depth: int)
    requires
        0 <= max_depth,
    ensures
        match dls::<SearchNode>(root_model(rt), max_depth) {
            Some(res) => {
                &&& res.rot == rot_identity()
                &&& rot_apply_ops(rt, res.path) == rot_identity()
                &&& no_consecutive_same_face(res.path)
                &&& res.path.len() <= max_depth
            },
            None => true,
        },
{
    let m = root_model(rt);
    assert(node_ok(rt, m));
    if !<SearchNode as Searchable>::spec_is_goal(m) && !<SearchNode as Prunable>::spec_to_prune(
        m,
        0,
        max_depth,
    ) {
        lemma_dls_internal_solution(rt, m, 0, max_depth);
    }
}

/// Finds a sequence of at most `max_depth` operations that returns the cube to
/// the solved state, by iterative-deepening depth-first search, or reports
/// that the search found none within the bound — a normal outcome, not an
/// error. A returned sequence really solves the cube, is never longer than
/// the smallest bound at which the depth-limited search succeeds, and never
/// turns one face twice in a row; on a solved cube it is empty.
pub fn solve(cube: Cube, max_depth: usize) -> (r: Option<Vec<Operation>>)
    requires
        cube.wf(),
    ensures
        r is Some <==> iterative_deepening::<SearchNode>(
            root_model(cube.rotation@),
            0,
            max_depth as int,
        ) is Some,
        r matches Some(ops) ==> ({
            &&& rot_apply_ops(cube.rotation@, ops@) == rot_identity()
            &&& ops@.len() <= max_depth
            &&& no_consecutive_same_face(ops@)
            &&& forall|d: int|
                0 <= d < ops@.len() ==> dls::<SearchNode>(root_model(cube.rotation@), d) is None
        }),
        cube.rotation@ == rot_identity() ==> r is Some,
        r matches Some(ops) ==> (cube.rotation@ == rot_identity() ==> ops@ == Seq::<
            Operation,
        >::empty()),
        (max_depth == 0 && cube.rotation@ != rot_identity()) ==> r is None,
{
    let ghost rt = cube.rotation@;
    let root = SearchNode { rotation: cube.rotation, path: Vec::new() };
    proof {
        assert(root.model() =~= root_model(rt));
    }
    let result = iterative_deepening_dfs(&root, max_depth);
    proof {
        lemma_iterative_deepening_minimal::<SearchNode>(root_model(rt), 0, max_depth as int);
        if rt == rot_identity() {
            assert(dls::<SearchNode>(root_model(rt), 0) == Some(root_model(rt)));
            assert(iterative_deepening::<SearchNode>(root_model(rt), 0, max_depth as int)
                is Some);
        }
    }
    match result {
        None => None,
        Some(goal) => {
            proof {
                let ghost res = goal.model();
                let d = first_success_bound::<SearchNode>(root_model(rt), 0, max_depth as int);
                lemma_dls_solution(rt, d);
                assert(forall|e: int|
                    0 <= e < res.path.len() ==> dls::<SearchNode>(root_model(rt), e) is None);
                if max_depth == 0 && rt != rot_identity() {
                    lemma_dls_bound_zero::<SearchNode>(root_model(rt));
                    assert(false);
                }
                if rt == rot_identity() {
                    assert(res.path =~= Seq::<Operation>::empty());
                }
            }
            Some(goal.path)
        },
    }
}

} // verus!
