use vstd::prelude::*;

use super::quotient_group_vec::zero_seq;
use super::quotient_group_vec::seq_add_mod;
use super::quotient_group_vec::QuotientGroupVec;
use super::symmetric_group::identity_seq;
use super::symmetric_group::is_permutation;
use super::symmetric_group::spec_compose;
use super::symmetric_group::spec_permute;
use super::symmetric_group::SymmetricGroup;

verus! {

/// How many edge slots a cube has.
pub const EDGE_SLOTS: usize = 12;

/// How many corner slots a cube has.
pub const CORNER_SLOTS: usize = 8;

/// How many orientations an edge piece has.
pub const EDGE_TWISTS: u8 = 2;

/// How many orientations a corner piece has.
pub const CORNER_TWISTS: u8 = 3;

/// The mathematical value of a `Rotation`: the two permutations and the two
/// orientation vectors, as plain sequences.
#[verifier::ext_equal]
pub struct RotationModel {
    pub ep: Seq<usize>,
    pub eo: Seq<u8>,
    pub cp: Seq<usize>,
    pub co: Seq<u8>,
}

impl RotationModel {
    /// Well-formed: both mappings are permutations of their slots, and every
    /// orientation value lies below its modulus.
    pub open spec fn wf(&self) -> bool {
        &&& self.ep.len() == EDGE_SLOTS
        &&& is_permutation(self.ep)
        &&& self.eo.len() == EDGE_SLOTS
        &&& (forall|i: int| 0 <= i < self.eo.len() ==> self.eo[i] < EDGE_TWISTS)
        &&& self.cp.len() == CORNER_SLOTS
        &&& is_permutation(self.cp)
        &&& self.co.len() == CORNER_SLOTS
        &&& (forall|i: int| 0 <= i < self.co.len() ==> self.co[i] < CORNER_TWISTS)
    }
}

/// The rotation that leaves every piece in place and unturned: the state of a
/// solved cube.
pub open spec fn rot_identity() -> RotationModel {
    RotationModel {
        ep: identity_seq(EDGE_SLOTS as nat),
        eo: zero_seq(EDGE_SLOTS as nat),
        cp: identity_seq(CORNER_SLOTS as nat),
        co: zero_seq(CORNER_SLOTS as nat),
    }
}

/// The composite of rotation `a` followed by rotation `b`. Each permutation
/// is composed with `a` acting first; each orientation vector of `a` travels
/// with its pieces under `b`'s relabeling before `b`'s own orientation delta
/// is added pointwise.
pub open spec fn rot_mul(a: RotationModel, b: RotationModel) -> RotationModel {
    RotationModel {
        ep: spec_compose(a.ep, b.ep),
        eo: seq_add_mod(spec_permute(b.ep, a.eo), b.eo, EDGE_TWISTS),
        cp: spec_compose(a.cp, b.cp),
        co: seq_add_mod(spec_permute(b.cp, a.co), b.co, CORNER_TWISTS),
    }
}

/// How many of the `n` leading slots differ between the two states, where a
/// slot differs when its permutation target or its orientation does; a slot is
/// counted once even when both differ.
pub open spec fn diff_count(
    ap: Seq<usize>,
    ao: Seq<u8>,
    bp: Seq<usize>,
    bo: Seq<u8>,
    n: int,
) -> nat
    decreases n,
{
    if n <= 0 {
        0
    } else {
        diff_count(ap, ao, bp, bo, n - 1) + if ap[n - 1] != bp[n - 1] || ao[n - 1] != bo[n - 1] {
            1nat
        } else {
            0nat
        }
    }
}

/// The distance of two states restricted to the edge pieces.
pub open spec fn edge_distance(a: RotationModel, b: RotationModel) -> nat {
    diff_count(a.ep, a.eo, b.ep, b.eo, EDGE_SLOTS as int)
}

/// The distance of two states restricted to the corner pieces.
pub open spec fn corner_distance(a: RotationModel, b: RotationModel) -> nat {
    diff_count(a.cp, a.co, b.cp, b.co, CORNER_SLOTS as int)
}

/// Associativity of the orientation half of the composition rule: carrying
/// `a`'s orientations through `b` and then both through `c` twists each piece
/// the same way as carrying `a`'s orientations through `b` and `c` at once.
proof fn lemma_orient_mul_associative(
    ao: Seq<u8>,
    bp: Seq<usize>,
    bo: Seq<u8>,
    cp: Seq<usize>,
    co: Seq<u8>,
    m: u8,
)
    requires
        m > 0,
        ao.len() == bp.len(),
        bp.len() == bo.len(),
        bo.len() == cp.len(),
        cp.len() == co.len(),
        is_permutation(bp),
        is_permutation(cp),
        forall|i: int| 0 <= i < ao.len() ==> ao[i] < m,
        forall|i: int| 0 <= i < co.len() ==> co[i] < m,
    ensures
        seq_add_mod(spec_permute(cp, seq_add_mod(spec_permute(bp, ao), bo, m)), co, m)
            == seq_add_mod(
            spec_permute(spec_compose(bp, cp), ao),
            seq_add_mod(spec_permute(cp, bo), co, m),
            m,
        ),
{
    let left = seq_add_mod(spec_permute(cp, seq_add_mod(spec_permute(bp, ao), bo, m)), co, m);
    let right = seq_add_mod(
        spec_permute(spec_compose(bp, cp), ao),
        seq_add_mod(spec_permute(cp, bo), co, m),
        m,
    );
    assert forall|i: int| 0 <= i < left.len() implies left[i] == right[i] by {
        let x = ao[bp[cp[i] as int] as int] as int;
        let y = bo[cp[i] as int] as int;
        let z = co[i] as int;
        vstd::arithmetic::div_mod::lemma_small_mod(z as nat, m as nat);
        vstd::arithmetic::div_mod::lemma_small_mod(x as nat, m as nat);
        vstd::arithmetic::div_mod::lemma_add_mod_noop(x + y, z, m as int);
        vstd::arithmetic::div_mod::lemma_add_mod_noop(x, y + z, m as int);
        assert(left[i] == (((x + y) % (m as int)) + z) % (m as int));
        assert(right[i] == (x + ((y + z) % (m as int))) % (m as int));
    }
    assert(left =~= right);
}

/// Composition of rotations is associative, though not commutative: a run of
/// moves can be regrouped at will without changing the state it reaches.
pub proof fn lemma_rot_mul_associative(a: RotationModel, b: RotationModel, c: RotationModel)
    requires
        a.wf(),
        b.wf(),
        c.wf(),
    ensures
        rot_mul(rot_mul(a, b), c) == rot_mul(a, rot_mul(b, c)),
{
    crate::algebra::symmetric_group::lemma_compose_associative(a.ep, b.ep, c.ep);
    crate::algebra::symmetric_group::lemma_compose_associative(a.cp, b.cp, c.cp);
    lemma_orient_mul_associative(a.eo, b.ep, b.eo, c.ep, c.eo, EDGE_TWISTS);
    lemma_orient_mul_associative(a.co, b.cp, b.co, c.cp, c.co, CORNER_TWISTS);
    assert(rot_mul(rot_mul(a, b), c) =~= rot_mul(a, rot_mul(b, c)));
}

/// A cube state relative to solved: an edge permutation, per-edge
/// orientations modulo two, a corner permutation and per-corner orientations
/// modulo three. Its view is the `RotationModel` of its four components.
#[derive(PartialEq, Eq, Debug)]
pub struct Rotation {
    edge_perm: SymmetricGroup,
    edge_orient: QuotientGroupVec,
    corner_perm: SymmetricGroup,
    corner_orient: QuotientGroupVec,
}

impl View for Rotation {
    type V = RotationModel;

    closed spec fn view(&self) -> RotationModel {
        RotationModel {
            ep: self.edge_perm@,
            eo: self.edge_orient@,
            cp: self.corner_perm@,
            co: self.corner_orient@,
        }
    }
}

impl Clone for Rotation {
    /// A copy describing the same state.
    fn clone(&self) -> (r: Self)
        ensures
            r@ == self@,
            r.wf() == self.wf(),
    {
        let r = Rotation {
            edge_perm: self.edge_perm.clone(),
            edge_orient: self.edge_orient.clone(),
            corner_perm: self.corner_perm.clone(),
            corner_orient: self.corner_orient.clone(),
        };
        proof {
            assert(r@ =~= self@);
        }
        r
    }
}

impl Default for Rotation {
    /// The identity rotation: the solved state.
    fn default() -> (r: Self)
        ensures
            r.wf(),
            r@ == rot_identity(),
    {
        let r = Rotation {
            edge_perm: SymmetricGroup::identity(EDGE_SLOTS),
            edge_orient: QuotientGroupVec::zeros(EDGE_TWISTS, EDGE_SLOTS),
            corner_perm: SymmetricGroup::identity(CORNER_SLOTS),
            corner_orient: QuotientGroupVec::zeros(CORNER_TWISTS, CORNER_SLOTS),
        };
        proof {
            assert(r.edge_orient@ =~= zero_seq(EDGE_SLOTS as nat));
            assert(r.corner_orient@ =~= zero_seq(CORNER_SLOTS as nat));
            assert(r@ =~= rot_identity());
        }
        r
    }
}

impl Rotation {
    /// Whether the two orientation vectors carry the moduli of edge and
    /// corner twists.
    pub closed spec fn moduli_ok(&self) -> bool {
        &&& self.edge_orient.spec_modulus() == EDGE_TWISTS
        &&& self.corner_orient.spec_modulus() == CORNER_TWISTS
    }

    /// Well-formed: the components describe a real cube state and the
    /// orientation vectors carry the right moduli.
    pub open spec fn wf(&self) -> bool {
        &&& self@.wf()
        &&& self.moduli_ok()
    }

    /// Assembles a rotation from its four components.
    pub fn new(
        edge_perm: SymmetricGroup,
        edge_orient: QuotientGroupVec,
        corner_perm: SymmetricGroup,
        corner_orient: QuotientGroupVec,
    ) -> (r: Self)
        requires
            edge_perm.wf(),
            edge_perm@.len() == EDGE_SLOTS,
            edge_orient.wf(),
            edge_orient@.len() == EDGE_SLOTS,
            edge_orient.spec_modulus() == EDGE_TWISTS,
            corner_perm.wf(),
            corner_perm@.len() == CORNER_SLOTS,
            corner_orient.wf(),
            corner_orient@.len() == CORNER_SLOTS,
            corner_orient.spec_modulus() == CORNER_TWISTS,
        ensures
            r.wf(),
            r@ == (RotationModel {
                ep: edge_perm@,
                eo: edge_orient@,
                cp: corner_perm@,
                co: corner_orient@,
            }),
    {
        Rotation { edge_perm, edge_orient, corner_perm, corner_orient }
    }

    /// The composite state reached by performing `self` first and `rhs`
    /// afterwards.
    pub fn mul(&self, rhs: &Rotation) -> (r: Rotation)
        requires
            self.wf(),
            rhs.wf(),
        ensures
            r.wf(),
            r@ == rot_mul(self@, rhs@),
    {
        let perm_edge_orient = rhs.edge_perm.permute(self.edge_orient.raw());
        let perm_corner_orient = rhs.corner_perm.permute(self.corner_orient.raw());
        let edge_orient = QuotientGroupVec::from_raw(EDGE_TWISTS, perm_edge_orient).add(
            &rhs.edge_orient,
        );
        let corner_orient = QuotientGroupVec::from_raw(CORNER_TWISTS, perm_corner_orient).add(
            &rhs.corner_orient,
        );
        let r = Rotation {
            edge_perm: self.edge_perm.mul(&rhs.edge_perm),
            edge_orient,
            corner_perm: self.corner_perm.mul(&rhs.corner_perm),
            corner_orient,
        };
        proof {
            let peo = spec_permute(rhs@.ep, self@.eo);
            assert forall|i: int| 0 <= i < peo.len() implies ((peo[i] as int) % (
            EDGE_TWISTS as int)) as u8 == peo[i] by {
                vstd::arithmetic::div_mod::lemma_small_mod(peo[i] as nat, EDGE_TWISTS as nat);
            }
            assert(Seq::new(peo.len(), |i: int| ((peo[i] as int) % (EDGE_TWISTS as int)) as u8)
                =~= peo);
            let pco = spec_permute(rhs@.cp, self@.co);
            assert forall|i: int| 0 <= i < pco.len() implies ((pco[i] as int) % (
            CORNER_TWISTS as int)) as u8 == pco[i] by {
                vstd::arithmetic::div_mod::lemma_small_mod(pco[i] as nat, CORNER_TWISTS as nat);
            }
            assert(Seq::new(pco.len(), |i: int| ((pco[i] as int) % (CORNER_TWISTS as int)) as u8)
                =~= pco);
            assert(r@ =~= rot_mul(self@, rhs@));
        }
        r
    }

    /// In-place form of `mul`: performs `rhs` after the moves already
    /// recorded in `self`.
    pub fn mul_assign(&mut self, rhs: &Rotation)
        requires
            old(self).wf(),
            rhs.wf(),
        ensures
            final(self).wf(),
            final(self)@ == rot_mul(old(self)@, rhs@),
    {
        *self = self.mul(rhs);
    }

    /// Whether the state is the solved one: both permutations are the
    /// identity and every orientation is zero.
    pub fn is_identity(&self) -> (r: bool)
        requires
            self.wf(),
        ensures
            r == (self@ == rot_identity()),
    {
        let r = self.edge_perm.is_identity() && self.edge_orient.is_zero()
            && self.corner_perm.is_identity() && self.corner_orient.is_zero();
        proof {
            if r {
                assert(self@ =~= rot_identity());
            }
        }
        r
    }

    /// The number of edge slots at which the two states differ, in permutation
    /// target or orientation; each slot is counted once.
    pub fn edge_hamming_distance(&self, other: &Rotation) -> (r: usize)
        requires
            self.wf(),
            other.wf(),
        ensures
            r == edge_distance(self@, other@),
    {
        let mut count: usize = 0;
        let mut i: usize = 0;
        while i < EDGE_SLOTS
            invariant
                i <= EDGE_SLOTS,
                self.wf(),
                other.wf(),
                count == diff_count(self@.ep, self@.eo, other@.ep, other@.eo, i as int),
                count <= i,
            decreases EDGE_SLOTS - i,
        {
            if self.edge_perm.index(i) != other.edge_perm.index(i) || self.edge_orient.raw()[i]
                != other.edge_orient.raw()[i] {
                count += 1;
            }
            i += 1;
        }
        count
    }

    /// The number of corner slots at which the two states differ, in
    /// permutation target or orientation; each slot is counted once.
    pub fn corner_hamming_distance(&self, other: &Rotation) -> (r: usize)
        requires
            self.wf(),
            other.wf(),
        ensures
            r == corner_distance(self@, other@),
    {
        let mut count: usize = 0;
        let mut i: usize = 0;
        while i < CORNER_SLOTS
            invariant
                i <= CORNER_SLOTS,
                self.wf(),
                other.wf(),
                count == diff_count(self@.cp, self@.co, other@.cp, other@.co, i as int),
                count <= i,
            decreases CORNER_SLOTS - i,
        {
            if self.corner_perm.index(i) != other.corner_perm.index(i) || self.corner_orient.raw()[
                i] != other.corner_orient.raw()[i] {
                count += 1;
            }
            i += 1;
        }
        count
    }
}

} // verus!
