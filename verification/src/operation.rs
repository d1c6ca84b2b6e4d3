use vstd::prelude::*;

use crate::algebra::quotient_group_vec::zero_seq;
use crate::algebra::quotient_group_vec::QuotientGroupVec;
use crate::algebra::rotation::rot_identity;
use crate::algebra::rotation::rot_mul;
use crate::algebra::rotation::corner_distance;
use crate::algebra::rotation::diff_count;
use crate::algebra::rotation::edge_distance;
use crate::algebra::rotation::Rotation;
use crate::algebra::rotation::RotationModel;
use crate::algebra::rotation::CORNER_TWISTS;
use crate::algebra::rotation::EDGE_TWISTS;
use crate::algebra::symmetric_group::is_permutation;
use crate::algebra::symmetric_group::SymmetricGroup;

verus! {

/// One of the six faces of the cube.
#[derive(Clone, Copy, PartialEq, Eq, Structural, Debug)]
pub enum Face {
    Right,
    Left,
    Up,
    Down,
    Front,
    Back,
}

/// One of the 18 elementary face turns: a quarter, half or three-quarter
/// clockwise turn of one of the six faces.
#[derive(Clone, Copy, PartialEq, Eq, Structural, Debug)]
pub enum Operation {
    R,
    R2,
    R3,
    L,
    L2,
    L3,
    U,
    U2,
    U3,
    D,
    D2,
    D3,
    F,
    F2,
    F3,
    B,
    B2,
    B3,
}

/// The hand-authored effect of a single quarter turn of each face: where each
/// edge and corner slot's new occupant comes from, and how the pieces on the
/// turned face twist.
///
/// Edge slots: BL, BR, FR, FL, UB, UR, UF, UL, DB, DR, DF, DL.
/// Corner slots: UBR, UFR, UFL, UBL, DBR, DFR, DFL, DBL.
pub open spec fn base_model(f: Face) -> RotationModel {
    match f {
        Face::Right => RotationModel {
            ep: seq![0usize, 5, 9, 3, 4, 2, 6, 7, 8, 1, 10, 11],
            eo: zero_seq(12),
            cp: seq![0usize, 2, 6, 3, 4, 1, 5, 7],
            co: seq![0u8, 1, 2, 0, 0, 2, 1, 0],
        },
        Face::Left => RotationModel {
            ep: seq![11usize, 1, 2, 7, 4, 5, 6, 0, 8, 9, 10, 3],
            eo: zero_seq(12),
            cp: seq![4usize, 1, 2, 0, 7, 5, 6, 3],
            co: seq![2u8, 0, 0, 1, 1, 0, 0, 2],
        },
        Face::Up => RotationModel {
            ep: seq![0usize, 1, 2, 3, 7, 4, 5, 6, 8, 9, 10, 11],
            eo: zero_seq(12),
            cp: seq![3usize, 0, 1, 2, 4, 5, 6, 7],
            co: zero_seq(8),
        },
        Face::Down => RotationModel {
            ep: seq![0usize, 1, 2, 3, 4, 5, 6, 7, 9, 10, 11, 8],
            eo: zero_seq(12),
            cp: seq![0usize, 1, 2, 3, 5, 6, 7, 4],
            co: zero_seq(8),
        },
        Face::Front => RotationModel {
            ep: seq![0usize, 1, 6, 10, 4, 5, 3, 7, 8, 9, 2, 11],
            eo: seq![0u8, 0, 1, 1, 0, 0, 1, 0, 0, 0, 1, 0],
            cp: seq![0usize, 1, 3, 7, 4, 5, 2, 6],
            co: seq![0u8, 0, 1, 2, 0, 0, 2, 1],
        },
        Face::Back => RotationModel {
            ep: seq![4usize, 8, 2, 3, 1, 5, 6, 7, 0, 9, 10, 11],
            eo: seq![1u8, 1, 0, 0, 1, 0, 0, 0, 1, 0, 0, 0],
            cp: seq![1usize, 5, 2, 3, 0, 4, 6, 7],
            co: seq![1u8, 2, 0, 0, 2, 1, 0, 0],
        },
    }
}

/// The face an operation turns.
pub open spec fn spec_face(op: Operation) -> Face {
    match op {
        Operation::R | Operation::R2 | Operation::R3 => Face::Right,
        Operation::L | Operation::L2 | Operation::L3 => Face::Left,
        Operation::U | Operation::U2 | Operation::U3 => Face::Up,
        Operation::D | Operation::D2 | Operation::D3 => Face::Down,
        Operation::F | Operation::F2 | Operation::F3 => Face::Front,
        Operation::B | Operation::B2 | Operation::B3 => Face::Back,
    }
}

/// How many quarter turns an operation performs on its face.
pub open spec fn spec_turns(op: Operation) -> int {
    match op {
        Operation::R | Operation::L | Operation::U | Operation::D | Operation::F
        | Operation::B => 1,
        Operation::R2 | Operation::L2 | Operation::U2 | Operation::D2 | Operation::F2
        | Operation::B2 => 2,
        Operation::R3 | Operation::L3 | Operation::U3 | Operation::D3 | Operation::F3
        | Operation::B3 => 3,
    }
}

/// The state transition an operation performs: its face's quarter turn,
/// composed with itself as many times as the operation turns.
pub open spec fn op_model(op: Operation) -> RotationModel {
    let b = base_model(spec_face(op));
    if spec_turns(op) == 1 {
        b
    } else if spec_turns(op) == 2 {
        rot_mul(b, b)
    } else {
        rot_mul(rot_mul(b, b), b)
    }
}

/// All 18 operations, in their fixed enumeration order.
pub open spec fn all_operations() -> Seq<Operation> {
    seq![
        Operation::R,
        Operation::R2,
        Operation::R3,
        Operation::L,
        Operation::L2,
        Operation::L3,
        Operation::U,
        Operation::U2,
        Operation::U3,
        Operation::D,
        Operation::D2,
        Operation::D3,
        Operation::F,
        Operation::F2,
        Operation::F3,
        Operation::B,
        Operation::B2,
        Operation::B3,
    ]
}

/// The operations that do not turn face `f`, in enumeration order: the
/// candidates the solver considers right after a move on `f`.
pub open spec fn spec_operations_off_face(f: Face) -> Seq<Operation> {
    all_operations().filter(|op: Operation| spec_face(op) != f)
}

/// Every base face generator has order four: composing it with itself four
/// times yields the identity, as a physical quarter turn must.
pub proof fn lemma_base_generator_order_four(f: Face)
    ensures
        rot_mul(rot_mul(rot_mul(base_model(f), base_model(f)), base_model(f)), base_model(f))
            == rot_identity(),
{
    let b = base_model(f);
    match f {
        Face::Right => {
            assert(rot_mul(rot_mul(rot_mul(b, b), b), b) =~= rot_identity());
        },
        Face::Left => {
            assert(rot_mul(rot_mul(rot_mul(b, b), b), b) =~= rot_identity());
        },
        Face::Up => {
            assert(rot_mul(rot_mul(rot_mul(b, b), b), b) =~= rot_identity());
        },
        Face::Down => {
            assert(rot_mul(rot_mul(rot_mul(b, b), b), b) =~= rot_identity());
        },
        Face::Front => {
            assert(rot_mul(rot_mul(rot_mul(b, b), b), b) =~= rot_identity());
        },
        Face::Back => {
            assert(rot_mul(rot_mul(rot_mul(b, b), b), b) =~= rot_identity());
        },
    }
}

/// The derived variants of every face close its four-cycle: the half-turn
/// variant composed with itself yields the identity, and so does the quarter
/// turn composed with the three-quarter variant.
pub proof fn lemma_variants_close_cycle(f: Face)
    ensures
        rot_mul(rot_mul(base_model(f), base_model(f)), rot_mul(base_model(f), base_model(f)))
            == rot_identity(),
        rot_mul(base_model(f), rot_mul(rot_mul(base_model(f), base_model(f)), base_model(f)))
            == rot_identity(),
{
    let b = base_model(f);
    match f {
        Face::Right => {
            assert(rot_mul(rot_mul(b, b), rot_mul(b, b)) =~= rot_identity());
            assert(rot_mul(b, rot_mul(rot_mul(b, b), b)) =~= rot_identity());
        },
        Face::Left => {
            assert(rot_mul(rot_mul(b, b), rot_mul(b, b)) =~= rot_identity());
            assert(rot_mul(b, rot_mul(rot_mul(b, b), b)) =~= rot_identity());
        },
        Face::Up => {
            assert(rot_mul(rot_mul(b, b), rot_mul(b, b)) =~= rot_identity());
            assert(rot_mul(b, rot_mul(rot_mul(b, b), b)) =~= rot_identity());
        },
        Face::Down => {
            assert(rot_mul(rot_mul(b, b), rot_mul(b, b)) =~= rot_identity());
            assert(rot_mul(b, rot_mul(rot_mul(b, b), b)) =~= rot_identity());
        },
        Face::Front => {
            assert(rot_mul(rot_mul(b, b), rot_mul(b, b)) =~= rot_identity());
            assert(rot_mul(b, rot_mul(rot_mul(b, b), b)) =~= rot_identity());
        },
        Face::Back => {
            assert(rot_mul(rot_mul(b, b), rot_mul(b, b)) =~= rot_identity());
            assert(rot_mul(b, rot_mul(rot_mul(b, b), b)) =~= rot_identity());
        },
    }
}

/// A single quarter turn moves or twists exactly four edge pieces and exactly
/// four corner pieces: its distance to the solved state is four on either
/// count.
pub proof fn lemma_quarter_turn_distance(f: Face)
    ensures
        edge_distance(base_model(f), rot_identity()) == 4,
        corner_distance(base_model(f), rot_identity()) == 4,
{
    reveal_with_fuel(diff_count, 13);
    match f {
        Face::Right => {
            assert(edge_distance(base_model(Face::Right), rot_identity()) == 4);
            assert(corner_distance(base_model(Face::Right), rot_identity()) == 4);
        },
        Face::Left => {
            assert(edge_distance(base_model(Face::Left), rot_identity()) == 4);
            assert(corner_distance(base_model(Face::Left), rot_identity()) == 4);
        },
        Face::Up => {
            assert(edge_distance(base_model(Face::Up), rot_identity()) == 4);
            assert(corner_distance(base_model(Face::Up), rot_identity()) == 4);
        },
        Face::Down => {
            assert(edge_distance(base_model(Face::Down), rot_identity()) == 4);
            assert(corner_distance(base_model(Face::Down), rot_identity()) == 4);
        },
        Face::Front => {
            assert(edge_distance(base_model(Face::Front), rot_identity()) == 4);
            assert(corner_distance(base_model(Face::Front), rot_identity()) == 4);
        },
        Face::Back => {
            assert(edge_distance(base_model(Face::Back), rot_identity()) == 4);
            assert(corner_distance(base_model(Face::Back), rot_identity()) == 4);
        },
    }
}

/// Builds a permutation from a mapping known to be valid.
fn perm(values: Vec<usize>) -> (r: SymmetricGroup)
    requires
        is_permutation(values@),
    ensures
        r.wf(),
        r@ == values@,
{
    match SymmetricGroup::try_new(values) {
        Ok(s) => s,
        Err(_) => vstd::pervasive::unreached(),
    }
}

/// Builds an orientation vector from values known to be reduced already.
fn orient(modulus: u8, values: Vec<u8>) -> (r: QuotientGroupVec)
    requires
        modulus > 0,
        forall|i: int| 0 <= i < values@.len() ==> values@[i] < modulus,
    ensures
        r.wf(),
        r.spec_modulus() == modulus,
        r@ == values@,
    {
    let r = QuotientGroupVec::from_raw(modulus, values);
    proof {
        assert forall|i: int| 0 <= i < values@.len() implies ((values@[i] as int) % (
        modulus as int)) as u8 == values@[i] by {
            vstd::arithmetic::div_mod::lemma_small_mod(values@[i] as nat, modulus as nat);
        }
        assert(r@ =~= values@);
    }
    r
}

/// The rotation a single quarter turn of face `f` performs, built from the
/// hand-authored tables.
pub fn base_rotation(f: Face) -> (r: Rotation)
    ensures
        r.wf(),
        r@ == base_model(f),
{
    let r = match f {
        Face::Right => Rotation::new(
            perm(vec![0usize, 5, 9, 3, 4, 2, 6, 7, 8, 1, 10, 11]),
            orient(EDGE_TWISTS, vec![0u8, 0, 0, 0, 0, 0, 0, 0, 0, 0, 0, 0]),
            perm(vec![0usize, 2, 6, 3, 4, 1, 5, 7]),
            orient(CORNER_TWISTS, vec![0u8, 1, 2, 0, 0, 2, 1, 0]),
        ),
        Face::Left => Rotation::new(
            perm(vec![11usize, 1, 2, 7, 4, 5, 6, 0, 8, 9, 10, 3]),
            orient(EDGE_TWISTS, vec![0u8, 0, 0, 0, 0, 0, 0, 0, 0, 0, 0, 0]),
            perm(vec![4usize, 1, 2, 0, 7, 5, 6, 3]),
            orient(CORNER_TWISTS, vec![2u8, 0, 0, 1, 1, 0, 0, 2]),
        ),
        Face::Up => Rotation::new(
            perm(vec![0usize, 1, 2, 3, 7, 4, 5, 6, 8, 9, 10, 11]),
            orient(EDGE_TWISTS, vec![0u8, 0, 0, 0, 0, 0, 0, 0, 0, 0, 0, 0]),
            perm(vec![3usize, 0, 1, 2, 4, 5, 6, 7]),
            orient(CORNER_TWISTS, vec![0u8, 0, 0, 0, 0, 0, 0, 0]),
        ),
        Face::Down => Rotation::new(
            perm(vec![0usize, 1, 2, 3, 4, 5, 6, 7, 9, 10, 11, 8]),
            orient(EDGE_TWISTS, vec![0u8, 0, 0, 0, 0, 0, 0, 0, 0, 0, 0, 0]),
            perm(vec![0usize, 1, 2, 3, 5, 6, 7, 4]),
            orient(CORNER_TWISTS, vec![0u8, 0, 0, 0, 0, 0, 0, 0]),
        ),
        Face::Front => Rotation::new(
            perm(vec![0usize, 1, 6, 10, 4, 5, 3, 7, 8, 9, 2, 11]),
            orient(EDGE_TWISTS, vec![0u8, 0, 1, 1, 0, 0, 1, 0, 0, 0, 1, 0]),
            perm(vec![0usize, 1, 3, 7, 4, 5, 2, 6]),
            orient(CORNER_TWISTS, vec![0u8, 0, 1, 2, 0, 0, 2, 1]),
        ),
        Face::Back => Rotation::new(
            perm(vec![4usize, 8, 2, 3, 1, 5, 6, 7, 0, 9, 10, 11]),
            orient(EDGE_TWISTS, vec![1u8, 1, 0, 0, 1, 0, 0, 0, 1, 0, 0, 0]),
            perm(vec![1usize, 5, 2, 3, 0, 4, 6, 7]),
            orient(CORNER_TWISTS, vec![1u8, 2, 0, 0, 2, 1, 0, 0]),
        ),
    };
    proof {
        assert(r@ =~= base_model(f));
    }
    r
}

impl Operation {
    /// The face this operation turns.
    pub fn face(&self) -> (f: Face)
        ensures
            f == spec_face(*self),
    {
        match self {
            Operation::R | Operation::R2 | Operation::R3 => Face::Right,
            Operation::L | Operation::L2 | Operation::L3 => Face::Left,
            Operation::U | Operation::U2 | Operation::U3 => Face::Up,
            Operation::D | Operation::D2 | Operation::D3 => Face::Down,
            Operation::F | Operation::F2 | Operation::F3 => Face::Front,
            Operation::B | Operation::B2 | Operation::B3 => Face::Back,
        }
    }

    /// How many quarter turns this operation performs.
    pub fn turns(&self) -> (t: u8)
        ensures
            t == spec_turns(*self),
    {
        match self {
            Operation::R | Operation::L | Operation::U | Operation::D | Operation::F
            | Operation::B => 1,
            Operation::R2 | Operation::L2 | Operation::U2 | Operation::D2 | Operation::F2
            | Operation::B2 => 2,
            Operation::R3 | Operation::L3 | Operation::U3 | Operation::D3 | Operation::F3
            | Operation::B3 => 3,
        }
    }

    /// The rotation this operation performs, derived from its face's quarter
    /// turn by repeated composition.
    pub fn rotation(&self) -> (r: Rotation)
        ensures
            r.wf(),
            r@ == op_model(*self),
    {
        let b = base_rotation(self.face());
        let t = self.turns();
        if t == 1 {
            b
        } else if t == 2 {
            b.mul(&b)
        } else {
            let h = b.mul(&b);
            h.mul(&b)
        }
    }

    /// All 18 operations, in enumeration order.
    pub fn all() -> (r: Vec<Operation>)
        ensures
            r@ == all_operations(),
    {
        let r = vec![
            Operation::R,
            Operation::R2,
            Operation::R3,
            Operation::L,
            Operation::L2,
            Operation::L3,
            Operation::U,
            Operation::U2,
            Operation::U3,
            Operation::D,
            Operation::D2,
            Operation::D3,
            Operation::F,
            Operation::F2,
            Operation::F3,
            Operation::B,
            Operation::B2,
            Operation::B3,
        ];
        proof {
            assert(r@ =~= all_operations());
        }
        r
    }

    /// The operations on every face but `f`, in enumeration order.
    pub fn all_off_face(f: Face) -> (r: Vec<Operation>)
        ensures
            r@ == spec_operations_off_face(f),
    {
        let all = Operation::all();
        let mut r: Vec<Operation> = Vec::new();
        let mut i: usize = 0;
        while i < all.len()
            invariant
                i <= all@.len(),
                all@ == all_operations(),
                r@ == all@.take(i as int).filter(|op: Operation| spec_face(op) != f),
            decreases all@.len() - i,
        {
            let op = all[i];
            proof {
                reveal_with_fuel(Seq::filter, 2);
                assert(all@.take(i as int + 1).drop_last() =~= all@.take(i as int));
                assert(all@.take(i as int + 1).last() == op);
            }
            if op.face() != f {
                r.push(op);
            }
            i += 1;
        }
        proof {
            assert(all@.take(all@.len() as int) =~= all@);
        }
        r
    }
}

} // verus!
