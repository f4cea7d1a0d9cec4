use my_matrix_lib::matrixs::{determinent, Mat};
use my_matrix_lib::scalar::Scalar;
use my_matrix_lib::vectors::{Vec2, Vec3, VecN};

fn bad_add(a: i64, b: i64) -> i64 {
    let sum = VecN::from([a]) + VecN::from([b]);
    *sum.index(0)
}

#[test]
fn test_bad_add() {
    assert_eq!(bad_add(1, 2), 3);
}

#[test]
fn integer_units() {
    assert_eq!(<i64 as Scalar>::zero(), 0);
    assert_eq!(<i64 as Scalar>::one(), 1);
}

#[test]
fn integer_sums_wrap() {
    assert_eq!(Scalar::add(i64::MAX, 1), i64::MIN);
    assert_eq!(Scalar::sub(i64::MIN, 1), i64::MAX);
    assert_eq!(Scalar::mul(i64::MAX, 2), -2);
    assert_eq!(Scalar::neg(5i64), -5);
    assert_eq!(Scalar::neg(i64::MIN), i64::MIN);
    assert_eq!(Scalar::sub(Scalar::add(i64::MAX, 7), 7), i64::MAX);
}

#[test]
fn integer_division_truncates() {
    assert_eq!(Scalar::div(7i64, 2), 3);
    assert_eq!(Scalar::div(-7i64, 2), -3);
    assert_eq!(Scalar::div(7i64, -2), -3);
    assert_eq!(Scalar::div(7i64, 0), 0);
    assert_eq!(Scalar::div(i64::MIN, -1), i64::MIN);
}

#[test]
fn integer_root_rounds_down() {
    assert_eq!(Scalar::sqrt(0i64), 0);
    assert_eq!(Scalar::sqrt(1i64), 1);
    assert_eq!(Scalar::sqrt(45i64), 6);
    assert_eq!(Scalar::sqrt(49i64), 7);
    assert_eq!(Scalar::sqrt(-4i64), 0);
    assert_eq!(Scalar::sqrt(i64::MAX), 3037000499);
}

#[test]
fn integer_equality_is_exact() {
    assert!(Scalar::approx_eq(5i64, 5));
    assert!(!Scalar::approx_eq(5i64, 6));
    assert_ne!(VecN::from([1i64, 2]), VecN::from([1i64, 3]));
}

#[test]
fn integer_vectors() {
    let a = VecN::from([2i64, 3, -5]);
    let b = VecN::from([1i64, 0, 8]);
    assert_eq!(a * b, -38);
    assert_eq!(a.dot(&b), -38);
    assert_eq!(a.cross(&b), VecN::from([24i64, -21, -3]));
    assert_eq!(a + b - b, a);
    assert_eq!(a * 3, VecN::from([6i64, 9, -15]));
    assert_eq!(3 * a, a * 3);
    assert_eq!(a / 2, VecN::from([1i64, 1, -2]));
    assert_eq!(VecN::from([3i64, 4]).length(), 5);
    assert_eq!(VecN::from([3i64, 4]).perp(), VecN::from([4i64, -3]));
    assert_eq!(VecN::from([1i64, 1]).distance(&VecN::from([4i64, 5])), 5);
    assert_eq!(
        VecN::from([2i64, 4, 5]).project(&VecN::from([0i64, 1, 0])),
        VecN::from([0i64, 4, 0])
    );
    assert_eq!(VecN::from([0i64, 10]).normalize(), VecN::from([0i64, 1]));
}

#[test]
fn integer_named_vectors() {
    let a = Vec3::from(2i64, 3, -5);
    let b = Vec3::from(1i64, 0, 8);
    assert_eq!(a.cross(b), Vec3::from(24i64, -21, -3));
    assert_eq!(a.dot(b), -38);
    assert_eq!(2 * a, Vec3::from(4i64, 6, -10));
    assert_eq!(2 * Vec2::from(1i64, 2), Vec2::from(2i64, 4));
    assert_eq!(Vec2::from(3i64, 4).cross(), Vec2::from(4i64, -3));
    let w: VecN<i64, 3> = Vec2::from(3i64, 4).widen();
    assert_eq!(w, VecN::from([3i64, 4, 0]));
}

#[test]
fn integer_matrices() {
    let a: Mat<i64, 2, 3> = [[1i64, 2, 3], [4, 5, 6]].into();
    let b: Mat<i64, 3, 2> = [[7i64, 8], [9, 10], [11, 12]].into();
    let expected: Mat<i64, 2, 2> = [[58i64, 64], [139, 154]].into();
    assert_eq!(a * b, expected);
    assert_eq!(a.transpose().transpose(), a);
    assert_eq!(Mat::<i64, 2, 2>::identity() * a, a);
    assert_eq!(a * Mat::<i64, 3, 3>::identity(), a);
    assert_eq!(a * VecN::from([1i64, 0, -1]), VecN::from([-2i64, -2]));
}

#[test]
fn integer_determinants() {
    let a: Mat<i64, 4, 4> =
        [[2i64, 5, 20, 80], [0, -10, 3, 3], [0, 0, 1, 0], [0, 0, 0, 4]].into();
    assert_eq!(a.det(), -80);
    assert_eq!(a.transpose().det(), -80);
    let b: Mat<i64, 3, 3> = [[1i64, 2, 3], [4, 5, 6], [7, 8, 10]].into();
    assert_eq!(b.det(), -3);
    assert_eq!(determinent(vec![vec![9i64]]), 9);
    assert_eq!(determinent(vec![vec![0i64, 1], vec![1, 0]]), -1);
}
