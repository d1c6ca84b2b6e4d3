use vstd::prelude::*;

use crate::algebra::rotation::rot_identity;
use crate::algebra::rotation::rot_mul;
use crate::algebra::rotation::Rotation;
use crate::algebra::rotation::RotationModel;
use crate::operation::all_operations;
use crate::operation::op_model;
use crate::operation::Operation;

verus! {

/// The state reached from `start` by performing the given operations in
/// order.
pub open spec fn rot_apply_ops(start: RotationModel, ops: Seq<Operation>) -> RotationModel
    decreases ops.len(),
{
    if ops.len() == 0 {
        start
    } else {
        rot_mul(rot_apply_ops(start, ops.drop_last()), op_model(ops.last()))
    }
}

/// A Rubik's Cube, represented by the cumulative rotation that its moves so
/// far have applied to the solved cube: edge permutation, edge orientation,
/// corner permutation and corner orientation.
///
/// Faces:
///   +-+
///   |U|
/// +-+-+-+-+
/// |L|F|R|B|
/// +-+-+-+-+
///   |D|
///   +-+
///
/// Edges (0 to 11): BL, BR, FR, FL, UB, UR, UF, UL, DB, DR, DF, DL. The
/// position of the edge pieces is a permutation of their initial positions;
/// each edge also carries an orientation, 0 when it agrees with the piece
/// that originally occupied its slot and 1 when flipped.
///
/// Corners (0 to 7): UBR, UFR, UFL, UBL, DBR, DFR, DFL, DBL. The position of
/// the corner pieces is a permutation of their initial positions; each corner
/// also carries an orientation, the number of clockwise twists (0, 1 or 2,
/// seen from outside the cube) relative to the piece originally there.
#[derive(Debug)]
pub struct Cube {
    pub rotation: Rotation,
}

/// Relies on rand::random_range: the drawn value lies in the given half-open
/// range, which must not be empty.
#[verifier::external_body]
fn random_below(n: usize) -> (r: usize)
    requires
        n > 0,
    ensures
        r < n,
{
    rand::random_range(0..n)
}

impl Clone for Cube {
    /// A copy in the same state.
    fn clone(&self) -> (r: Self)
        ensures
            r.rotation@ == self.rotation@,
            r.wf() == self.wf(),
    {
        Cube { rotation: self.rotation.clone() }
    }
}

impl Cube {
    /// Well-formed: the cumulative rotation is a real cube state.
    pub open spec fn wf(&self) -> bool {
        self.rotation.wf()
    }

    /// A solved cube: no move has been applied yet.
    pub fn new() -> (c: Self)
        ensures
            c.wf(),
            c.rotation@ == rot_identity(),
    {
        Cube { rotation: Rotation::default() }
    }

    /// A cube scrambled by `steps` randomly chosen operations, returned
    /// together with the operations that were applied, in order.
    pub fn random(steps: usize) -> (r: (Cube, Vec<Operation>))
        ensures
            r.0.wf(),
            r.1@.len() == steps,
            r.0.rotation@ == rot_apply_ops(rot_identity(), r.1@),
    {
        let all = Operation::all();
        let mut cube = Cube::new();
        let mut operations: Vec<Operation> = Vec::new();
        let mut i: usize = 0;
        while i < steps
            invariant
                i <= steps,
                all@ == all_operations(),
                cube.wf(),
                operations@.len() == i,
                cube.rotation@ == rot_apply_ops(rot_identity(), operations@),
            decreases steps - i,
        {
            let idx = random_below(all.len());
            let op = all[idx];
            let ghost before = operations@;
            cube.apply_operation(&op);
            operations.push(op);
            proof {
                assert(operations@.drop_last() =~= before);
            }
            i += 1;
        }
        (cube, operations)
    }

    /// Performs one operation on the cube: its rotation is composed onto the
    /// moves made so far.
    pub fn apply_operation(&mut self, operation: &Operation)
        requires
            old(self).wf(),
        ensures
            final(self).wf(),
            final(self).rotation@ == rot_mul(old(self).rotation@, op_model(*operation)),
    {
        let r = operation.rotation();
        self.rotation.mul_assign(&r);
    }

    /// The cube reached from this one by performing one operation; this cube
    /// is left unchanged.
    pub fn operation_applied(&self, operation: &Operation) -> (c: Self)
        requires
            self.wf(),
        ensures
            c.wf(),
            c.rotation@ == rot_mul(self.rotation@, op_model(*operation)),
    {
        Cube { rotation: self.rotation.mul(&operation.rotation()) }
    }
}

} // verus!
