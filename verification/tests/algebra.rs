use rubiks_cube::Operation;
use rubiks_cube::QuotientGroup;
use rubiks_cube::QuotientGroupVec;
use rubiks_cube::Rotation;
use rubiks_cube::SymmetricGroup;

#[test]
fn quotient_group_test_add() {
    let x = QuotientGroup::equivalence_class(6, 3);
    let y = QuotientGroup::equivalence_class(6, 2);

    assert_eq!(x.add(y), QuotientGroup::equivalence_class(6, 5));
}

#[test]
fn test_add_large() {
    let x = QuotientGroup::equivalence_class(6, 4);
    let y = QuotientGroup::equivalence_class(6, 5);

    assert_eq!(x.add(y), QuotientGroup::equivalence_class(6, 3));
}

#[test]
fn quotient_group_test_add_assign() {
    let mut x = QuotientGroup::equivalence_class(6, 3);

    x.add_assign(QuotientGroup::equivalence_class(6, 2));

    assert_eq!(x, QuotientGroup::equivalence_class(6, 5));
}

#[test]
fn quotient_group_vec_test_add() {
    let x = QuotientGroupVec::from_raw(6, vec![3, 4, 5]);
    let y = QuotientGroupVec::from_raw(6, vec![2, 5, 2]);

    assert_eq!(x.add(&y), QuotientGroupVec::from_raw(6, vec![5, 3, 1]));
}

#[test]
fn quotient_group_vec_test_add_assign() {
    let mut x = QuotientGroupVec::from_raw(6, vec![3, 2, 1]);

    x.add_assign(&QuotientGroupVec::from_raw(6, vec![2, 1, 4]));

    assert_eq!(x, QuotientGroupVec::from_raw(6, vec![5, 3, 5]));
}

#[test]
fn test_permute() {
    let s = SymmetricGroup::try_new(vec![2, 0, 3, 1]).unwrap();
    let input = vec!['a', 'b', 'c', 'd'];

    assert_eq!(s.permute(&input), vec!['c', 'a', 'd', 'b']);
}

#[test]
fn test_mul() {
    let s1 = SymmetricGroup::try_new(vec![2, 1, 0]).unwrap();
    let s2 = SymmetricGroup::try_new(vec![1, 2, 0]).unwrap();

    assert_eq!(s2.mul(&s1), SymmetricGroup::try_new(vec![0, 2, 1]).unwrap());
    assert_eq!(s1.mul(&s2), SymmetricGroup::try_new(vec![1, 0, 2]).unwrap());
}

#[test]
fn test_mul_identity() {
    let s = SymmetricGroup::try_new(vec![2, 1, 0]).unwrap();

    assert_eq!(s.mul(&SymmetricGroup::identity(3)), s);
}

#[test]
fn symmetric_group_test_mul_assign() {
    let s1 = SymmetricGroup::try_new(vec![2, 1, 0]).unwrap();
    let mut s2 = SymmetricGroup::try_new(vec![1, 2, 0]).unwrap();

    s2.mul_assign(&s1);

    assert_eq!(s2, SymmetricGroup::try_new(vec![0, 2, 1]).unwrap());
}

#[test]
fn rotation_test_mul_assign() {
    let r = Operation::R.rotation();
    let r1 = r.mul(&r);

    let mut r2 = r.clone();
    r2.mul_assign(&r);

    assert_eq!(r1, r2);
}

#[test]
fn test_r() {
    let mut rot = Rotation::default();
    rot.mul_assign(&Operation::R.rotation());
    rot.mul_assign(&Operation::R.rotation());
    rot.mul_assign(&Operation::R.rotation());
    rot.mul_assign(&Operation::R.rotation());

    assert_eq!(rot, Rotation::default());
}

#[test]
fn test_l() {
    let mut rot = Rotation::default();
    rot.mul_assign(&Operation::L.rotation());
    rot.mul_assign(&Operation::L.rotation());
    rot.mul_assign(&Operation::L.rotation());
    rot.mul_assign(&Operation::L.rotation());

    assert_eq!(rot, Rotation::default());
}

#[test]
fn test_u() {
    let mut rot = Rotation::default();
    rot.mul_assign(&Operation::U.rotation());
    rot.mul_assign(&Operation::U.rotation());
    rot.mul_assign(&Operation::U.rotation());
    rot.mul_assign(&Operation::U.rotation());

    assert_eq!(rot, Rotation::default());
}

#[test]
fn test_d() {
    let mut rot = Rotation::default();
    rot.mul_assign(&Operation::D.rotation());
    rot.mul_assign(&Operation::D.rotation());
    rot.mul_assign(&Operation::D.rotation());
    rot.mul_assign(&Operation::D.rotation());

    assert_eq!(rot, Rotation::default());
}

#[test]
fn test_f() {
    let mut rot = Rotation::default();
    rot.mul_assign(&Operation::F.rotation());
    rot.mul_assign(&Operation::F.rotation());
    rot.mul_assign(&Operation::F.rotation());
    rot.mul_assign(&Operation::F.rotation());

    assert_eq!(rot, Rotation::default());
}

#[test]
fn test_b() {
    let mut rot = Rotation::default();
    rot.mul_assign(&Operation::B.rotation());
    rot.mul_assign(&Operation::B.rotation());
    rot.mul_assign(&Operation::B.rotation());
    rot.mul_assign(&Operation::B.rotation());

    assert_eq!(rot, Rotation::default());
}

#[test]
fn test_r_r3() {
    assert_eq!(Operation::R.rotation().mul(&Operation::R3.rotation()), Rotation::default());
}

#[test]
fn test_l_l3() {
    assert_eq!(Operation::L.rotation().mul(&Operation::L3.rotation()), Rotation::default());
}

#[test]
fn test_u_u3() {
    assert_eq!(Operation::U.rotation().mul(&Operation::U3.rotation()), Rotation::default());
}

#[test]
fn test_d_d3() {
    assert_eq!(Operation::D.rotation().mul(&Operation::D3.rotation()), Rotation::default());
}

#[test]
fn test_f_f3() {
    assert_eq!(Operation::F.rotation().mul(&Operation::F3.rotation()), Rotation::default());
}

#[test]
fn test_b_b3() {
    assert_eq!(Operation::B.rotation().mul(&Operation::B3.rotation()), Rotation::default());
}
