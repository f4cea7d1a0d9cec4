use float_cmp::ApproxEq;
use my_matrix_lib::matrixs::{determinent, Mat};
use my_matrix_lib::scalar::Scalar;
use my_matrix_lib::vectors::VecN;

/// Single-precision numbers as components: the arithmetic is the machine's,
/// and two numbers count as the same within 0.00001 or four units in the
/// last place.
#[derive(Clone, Copy, Debug, PartialEq)]
struct Real(f32);

impl Scalar for Real {
    fn zero_value() -> Real {
        Real(0.0)
    }

    fn one_value() -> Real {
        Real(1.0)
    }

    fn sum(self, rhs: Real) -> Real {
        Real(self.0 + rhs.0)
    }

    fn difference(self, rhs: Real) -> Real {
        Real(self.0 - rhs.0)
    }

    fn product(self, rhs: Real) -> Real {
        Real(self.0 * rhs.0)
    }

    fn quotient(self, rhs: Real) -> Real {
        Real(self.0 / rhs.0)
    }

    fn negation(self) -> Real {
        Real(-self.0)
    }

    fn square_root(self) -> Real {
        Real(f32::sqrt(self.0))
    }

    fn approx_equal(self, rhs: Real) -> bool {
        self.0.approx_eq(rhs.0, (0.00001, 4))
    }

    fn zero() -> Real {
        Real::zero_value()
    }

    fn one() -> Real {
        Real::one_value()
    }

    fn add(self, rhs: Real) -> Real {
        self.sum(rhs)
    }

    fn sub(self, rhs: Real) -> Real {
        self.difference(rhs)
    }

    fn mul(self, rhs: Real) -> Real {
        self.product(rhs)
    }

    fn div(self, rhs: Real) -> Real {
        self.quotient(rhs)
    }

    fn neg(self) -> Real {
        self.negation()
    }

    fn sqrt(self) -> Real {
        self.square_root()
    }

    fn approx_eq(self, rhs: Real) -> bool {
        self.approx_equal(rhs)
    }
}

fn vec_n<const N: usize>(vals: [f32; N]) -> VecN<Real, N> {
    VecN::from(vals.map(Real))
}

fn mat<const N: usize, const M: usize>(vals: [[f32; M]; N]) -> Mat<Real, N, M> {
    Mat::from(vals.map(|row| row.map(Real)))
}

#[test]
fn new_matrix_is_zero() {
    let z = Mat::<Real, 2, 3>::new();
    assert_eq!(z, mat([[0.0, 0.0, 0.0], [0.0, 0.0, 0.0]]));
    assert_eq!(z.rows(), vec![vec![Real(0.0); 3]; 2]);
}

#[test]
fn identity_has_ones_on_the_diagonal() {
    let i = Mat::<Real, 3, 3>::identity();
    assert_eq!(
        i.rows(),
        vec![
            vec![Real(1.0), Real(0.0), Real(0.0)],
            vec![Real(0.0), Real(1.0), Real(0.0)],
            vec![Real(0.0), Real(0.0), Real(1.0)],
        ]
    );
}

#[test]
fn transpose_swaps_rows_and_columns() {
    let a = mat([[1.0, 2.0, 3.0], [4.0, 5.0, 6.0]]);
    let t = a.transpose();
    assert_eq!(
        t.rows(),
        vec![
            vec![Real(1.0), Real(4.0)],
            vec![Real(2.0), Real(5.0)],
            vec![Real(3.0), Real(6.0)],
        ]
    );
    assert_eq!(t.transpose().rows(), a.rows());
}

#[test]
fn rows_and_elements_are_indexed() {
    let mut a = mat([[1.0, 2.0, 3.0], [4.0, 5.0, 6.0]]);
    assert_eq!(*a.index(1), vec_n([4.0, 5.0, 6.0]));
    assert_eq!(a.index(0).index(2).0, 3.0);
    *a.index_mut(0).index_mut(2) = Real(9.0);
    *a.index_mut(1) = vec_n([7.0, 8.0, 9.0]);
    assert_eq!(a, mat([[1.0, 2.0, 9.0], [7.0, 8.0, 9.0]]));
}

#[test]
fn matrix_is_built_from_rows() {
    let a = Mat::from([vec_n([1.0, 2.0]), vec_n([3.0, 4.0])]);
    assert_eq!(a, mat([[1.0, 2.0], [3.0, 4.0]]));
    let b = Mat::<Real, 2, 3>::from_vecs(&vec![vec![Real(1.0), Real(2.0)]]);
    assert_eq!(b, mat([[1.0, 2.0, 0.0], [0.0, 0.0, 0.0]]));
}

#[test]
fn scaling_is_element_wise() {
    let a = mat([[1.0, -2.0], [3.0, 4.0]]);
    assert_eq!((a * Real(2.0)).rows(), mat([[2.0, -4.0], [6.0, 8.0]]).rows());
    assert_eq!((a / Real(2.0)).rows(), mat([[0.5, -1.0], [1.5, 2.0]]).rows());
    let inf = a / Real(0.0);
    assert_eq!(inf.index(0).index(0).0, f32::INFINITY);
    assert_eq!(inf.index(0).index(1).0, f32::NEG_INFINITY);
}

#[test]
fn product_is_rows_times_columns() {
    let a = mat([[1.0, 2.0, 3.0], [4.0, 5.0, 6.0]]);
    let b = mat([[7.0, 8.0], [9.0, 10.0], [11.0, 12.0]]);
    assert_eq!((a * b).rows(), mat([[58.0, 64.0], [139.0, 154.0]]).rows());
    assert_eq!(
        (b * a).rows(),
        mat([[39.0, 54.0, 69.0], [49.0, 68.0, 87.0], [59.0, 82.0, 105.0]]).rows()
    );
}

#[test]
fn product_with_a_vector_is_rows_times_vector() {
    let a = mat([[1.0, 2.0, 3.0], [4.0, 5.0, 6.0]]);
    let v = vec_n([1.0, 0.0, -1.0]);
    assert_eq!((a * v).components(), vec![Real(-2.0), Real(-2.0)]);
}

#[test]
fn identity_is_neutral_for_the_product() {
    let a = mat([[1.5, 2.0, -3.0], [4.0, 5.25, 6.0]]);
    assert_eq!(Mat::<Real, 2, 2>::identity() * a, a);
    assert_eq!(a * Mat::<Real, 3, 3>::identity(), a);
}

#[test]
fn determinant_of_a_triangular_matrix() {
    let a = mat([
        [2.0, 5.0, 20.0, 80.0],
        [0.0, -10.0, 3.0, 3.0],
        [0.0, 0.0, 1.0, 0.0],
        [0.0, 0.0, 0.0, 4.0],
    ]);
    assert_eq!(a.det().0, -80.0);
    assert_eq!(a.transpose().det().0, -80.0);
}

#[test]
fn determinant_by_cofactors() {
    assert_eq!(mat([[7.5]]).det().0, 7.5);
    assert_eq!(mat([[1.0, 2.0], [3.0, 4.0]]).det().0, -2.0);
    assert_eq!(
        mat([[2.0, 0.0, 1.0], [1.0, 3.0, 2.0], [1.0, 1.0, 1.0]]).det().0,
        0.0
    );
    assert_eq!(
        mat([[1.0, 2.0, 3.0], [4.0, 5.0, 6.0], [7.0, 8.0, 10.0]]).det().0,
        -3.0
    );
    let rows = vec![
        vec![Real(0.0), Real(1.0)],
        vec![Real(1.0), Real(0.0)],
    ];
    assert_eq!(determinent(rows).0, -1.0);
}

#[test]
fn rotation_turns_the_plane() {
    let theta = std::f32::consts::FRAC_PI_2;
    let r = Mat::<Real, 2, 2>::rotation(Real(f32::cos(theta)), Real(f32::sin(theta)));
    assert_eq!(r * vec_n([1.0, 0.0]), vec_n([0.0, 1.0]));
    assert_eq!(r * vec_n([0.0, 1.0]), vec_n([-1.0, 0.0]));
    let q = Mat::<Real, 2, 2>::rotation(Real(0.5), Real(0.25));
    assert_eq!(
        q.rows(),
        vec![vec![Real(0.5), Real(-0.25)], vec![Real(0.25), Real(0.5)]]
    );
}

#[test]
fn matrix_equality_tolerates_drift() {
    let a = mat([[2.0, 4.0], [6.0, 888.0]]);
    assert_eq!(a, mat([[2.0, 4.0], [6.00000002, 888.0]]));
    assert_ne!(a, mat([[2.0, 4.0], [6.0001, 888.0]]));
}
