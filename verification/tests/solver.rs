use rubiks_cube::solve;
use rubiks_cube::Cube;
use rubiks_cube::Operation;
use rubiks_cube::PermutationError;
use rubiks_cube::QuotientGroup;
use rubiks_cube::QuotientGroupVec;
use rubiks_cube::Rotation;
use rubiks_cube::SymmetricGroup;

#[test]
fn test_solve_identity_cube() {
    assert_eq!(solve(Cube::new(), 0), Some(vec![]));
    assert_eq!(solve(Cube::new(), 5), Some(vec![]));
}

#[test]
fn test_solve_zero_depth_scrambled() {
    let mut cube = Cube::new();
    cube.apply_operation(&Operation::R);

    assert_eq!(solve(cube, 0), None);
}

#[test]
fn test_solve_single_turn() {
    let mut cube = Cube::new();
    cube.apply_operation(&Operation::U);

    assert_eq!(solve(cube, 3), Some(vec![Operation::U3]));
}

#[test]
fn test_solve_out_of_budget() {
    let mut cube = Cube::new();
    cube.apply_operation(&Operation::R);
    cube.apply_operation(&Operation::U);

    assert_eq!(solve(cube, 1), None);
}

#[test]
fn test_solve_scramble() {
    let scramble = [Operation::R, Operation::B, Operation::R2, Operation::F3];
    let mut cube = Cube::new();
    for op in &scramble {
        cube.apply_operation(op);
    }
    let check = cube.clone();

    let solution = solve(cube, 10).expect("a four-move scramble is solvable within ten moves");

    assert!(solution.len() <= 10);
    for window in solution.windows(2) {
        assert_ne!(window[0].face(), window[1].face());
    }
    let mut replay = check;
    for op in &solution {
        replay.apply_operation(op);
    }
    assert_eq!(replay.rotation, Rotation::default());
}

#[test]
fn test_random_cube_replays() {
    let (cube, operations) = Cube::random(6);

    assert_eq!(operations.len(), 6);
    let mut replay = Cube::new();
    for op in &operations {
        replay.apply_operation(op);
    }
    assert_eq!(replay.rotation, cube.rotation);
}

#[test]
fn test_quarter_turn_distances() {
    let solved = Rotation::default();
    let quarters = [
        Operation::R,
        Operation::L,
        Operation::U,
        Operation::D,
        Operation::F,
        Operation::B,
    ];
    for op in &quarters {
        let rot = op.rotation();
        assert_eq!(rot.edge_hamming_distance(&solved), 4);
        assert_eq!(rot.corner_hamming_distance(&solved), 4);
    }
}

#[test]
fn test_half_turns_close_cycle() {
    let halves = [
        Operation::R2,
        Operation::L2,
        Operation::U2,
        Operation::D2,
        Operation::F2,
        Operation::B2,
    ];
    for op in &halves {
        let rot = op.rotation();
        assert_eq!(rot.mul(&rot), Rotation::default());
    }
}

#[test]
fn test_permutation_composition_associative() {
    let a = SymmetricGroup::try_new(vec![2, 0, 3, 1]).unwrap();
    let b = SymmetricGroup::try_new(vec![1, 3, 0, 2]).unwrap();
    let c = SymmetricGroup::try_new(vec![3, 2, 1, 0]).unwrap();

    assert_eq!(a.mul(&b).mul(&c), a.mul(&b.mul(&c)));
}

#[test]
fn test_permutation_validation_too_large() {
    assert_eq!(
        SymmetricGroup::try_new(vec![0, 1, 5]),
        Err(PermutationError::ValueTooLarge(5))
    );
}

#[test]
fn test_permutation_validation_duplicate() {
    assert_eq!(
        SymmetricGroup::try_new(vec![0, 1, 1]),
        Err(PermutationError::DuplicatedValue(1))
    );
}

#[test]
fn test_quotient_group_reduces_raw_values() {
    assert_eq!(QuotientGroup::equivalence_class(6, 255).value(), 3);
    assert_eq!(QuotientGroup::zero(6), QuotientGroup::equivalence_class(6, 0));
    assert_eq!(QuotientGroup::zero(6).add(QuotientGroup::equivalence_class(6, 4)).value(), 4);
    assert_eq!(
        QuotientGroup::equivalence_class(255, 254).add(QuotientGroup::equivalence_class(255, 253)),
        QuotientGroup::equivalence_class(255, 252)
    );
}

#[test]
fn test_quotient_group_vec_reduces_raw_values() {
    let v = QuotientGroupVec::from_raw(3, vec![3, 4, 5, 6]);

    assert_eq!(v, QuotientGroupVec::from_raw(3, vec![0, 1, 2, 0]));
    assert_eq!(v.index(1).value(), 1);
    assert!(!v.is_zero());
    assert!(QuotientGroupVec::zeros(3, 4).is_zero());
}
