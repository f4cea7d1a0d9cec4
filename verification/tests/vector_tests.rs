use float_cmp::ApproxEq;
use my_matrix_lib::scalar::Scalar;
use my_matrix_lib::vectors::{Vec2, Vec3, VecN};

/// Single-precision numbers as components: the arithmetic is the machine's,
/// and two numbers count as the same within 0.00001 or four units in the
/// last place.
#[derive(Clone, Copy, Debug, PartialEq)]
struct Real(f32);

impl Scalar for Real {
    fn zero_value() -> Real {
        Real(0.0)
    }

    fn one_value() -> Real {
        Real(1.0)
    }

    fn sum(self, rhs: Real) -> Real {
        Real(self.0 + rhs.0)
    }

    fn difference(self, rhs: Real) -> Real {
        Real(self.0 - rhs.0)
    }

    fn product(self, rhs: Real) -> Real {
        Real(self.0 * rhs.0)
    }

    fn quotient(self, rhs: Real) -> Real {
        Real(self.0 / rhs.0)
    }

    fn negation(self) -> Real {
        Real(-self.0)
    }

    fn square_root(self) -> Real {
        Real(f32::sqrt(self.0))
    }

    fn approx_equal(self, rhs: Real) -> bool {
        self.0.approx_eq(rhs.0, (0.00001, 4))
    }

    fn zero() -> Real {
        Real::zero_value()
    }

    fn one() -> Real {
        Real::one_value()
    }

    fn add(self, rhs: Real) -> Real {
        self.sum(rhs)
    }

    fn sub(self, rhs: Real) -> Real {
        self.difference(rhs)
    }

    fn mul(self, rhs: Real) -> Real {
        self.product(rhs)
    }

    fn div(self, rhs: Real) -> Real {
        self.quotient(rhs)
    }

    fn neg(self) -> Real {
        self.negation()
    }

    fn sqrt(self) -> Real {
        self.square_root()
    }

    fn approx_eq(self, rhs: Real) -> bool {
        self.approx_equal(rhs)
    }
}

fn vec_n<const N: usize>(vals: [f32; N]) -> VecN<Real, N> {
    VecN::from(vals.map(Real))
}

#[test]
fn vector_contains_values() {
    let mut x = vec_n([2.0, 4.0, 5.0, 3.0, 6.0, 0.0, 888.0]);
    assert_eq!(x.index(0).0, 2.0);
    assert_eq!(x.index(1).0, 4.0);
    assert_eq!(x.index(2).0, 5.0);
    assert_eq!(x.index(3).0, 3.0);
    assert_eq!(x.index(4).0, 6.0);
    assert_eq!(x.index(5).0, 0.0);
    assert_eq!(x.index(6).0, 888.0);
    *x.index_mut(4) = Real(444.0);
    assert_eq!(x.index(0).0, 2.0);
    assert_eq!(x.index(1).0, 4.0);
    assert_eq!(x.index(2).0, 5.0);
    assert_eq!(x.index(3).0, 3.0);
    assert_eq!(x.index(4).0, 444.0);
    assert_eq!(x.index(5).0, 0.0);
    assert_eq!(x.index(6).0, 888.0);
}

#[test]
fn vector_project() {
    let x = vec_n([2.0, 4.0, 5.0]);
    let y = vec_n([0.0, 1.0, 0.0]);
    assert_eq!(x.project(&y), vec_n([0.0, 4.0, 0.0]));
    assert_eq!(y.project(&x), vec_n([8.0 / 45.0, 16.0 / 45.0, 4.0 / 9.0]));
    let y = vec_n([0.0, 3904.0, 0.0]);
    assert_eq!(x.project(&y), vec_n([0.0, 4.0, 0.0]));
}

#[test]
fn vector_cross() {
    let x = vec_n([2.0, 3.0]);
    assert_eq!(x.perp(), vec_n([3.0, -2.0]));
    let x = vec_n([2.0, 3.0, -5.0]);
    let y = vec_n([1.0, 0.0, 8.4]);
    assert_eq!(x.cross(&y), vec_n([25.2, -21.8, -3.0]));
}

#[test]
fn vector_length() {
    let x = vec_n([2.0, 4.0, 5.0]);
    let y = vec_n([0.0, 1.0, 0.0]);
    assert_eq!(x.length().0, 6.708203932);
    assert_eq!(y.length().0, 1.0);
}

#[test]
fn vector_normalize() {
    let x = vec_n([2.0, 4.0, 5.0]);
    let y = vec_n([0.0, 1.0, 0.0]);
    let z = vec_n([0.0, 0.2, 0.0]);
    assert_eq!(
        x.normalize(),
        vec_n([0.29814239699997197, 0.5962847939999439, 0.7453559929])
    );
    assert_eq!(y.normalize(), y);
    assert_eq!(z.normalize(), vec_n([0.0, 1.0, 0.0]));
}

#[test]
fn vector_scales() {
    let x = vec_n([2.0, 4.0, 5.0, 3.0, 6.0, 0.0, 888.0]);
    let x = x * Real(4.0);
    assert_eq!(x.index(0).0, 2.0 * 4.0);
    assert_eq!(x.index(1).0, 4.0 * 4.0);
    assert_eq!(x.index(2).0, 5.0 * 4.0);
    assert_eq!(x.index(3).0, 3.0 * 4.0);
    assert_eq!(x.index(4).0, 6.0 * 4.0);
    assert_eq!(x.index(5).0, 0.0 * 4.0);
    assert_eq!(x.index(6).0, 888.0 * 4.0);
    let x = vec_n([2.0, 4.0, 5.0, 3.0, 6.0, 0.0, 888.0]);
    let x = x / Real(4.0);
    assert_eq!(x.index(0).0, 2.0 / 4.0);
    assert_eq!(x.index(1).0, 4.0 / 4.0);
    assert_eq!(x.index(2).0, 5.0 / 4.0);
    assert_eq!(x.index(3).0, 3.0 / 4.0);
    assert_eq!(x.index(4).0, 6.0 / 4.0);
    assert_eq!(x.index(5).0, 0.0 / 4.0);
    assert_eq!(x.index(6).0, 888.0 / 4.0);
}

#[test]
fn vector_eq() {
    let x = vec_n([2.0, 4.0, 5.0, 3.0, 6.0, 0.0, 888.0]);
    let y = vec_n([2.0, 4.0, 5.0, 3.0, 6.00000002, 0.0, 888.0]);
    assert_eq!(x, y);
    let x = vec_n([2.0, 4.0, 5.0, 3.0, 6.0, 0.0, 888.0]);
    let y = vec_n([2.0, 4.0, 5.0, 3.0, 6.00010002, 0.0, 888.0]);
    assert_ne!(x, y);
}

#[test]
fn dot_product() {
    let x = vec_n([2.0, 4.0]);
    let y = vec_n([2.0, 4.0]);
    assert_eq!((x * y).0, 2.0 * 2.0 + 4.0 * 4.0);
    let x = vec_n([3.0, 0.0]);
    let y = vec_n([0.0, 5.0]);
    assert_eq!((x * y).0, 0.0);
    let x = vec_n([3.0, 0.0, 6.0]);
    let y = vec_n([0.5, 5.0, 9.0]);
    assert_eq!((x * y).0, 3.0 * 0.5 + 6.0 * 9.0);
}

#[test]
fn vector_add() {
    let x1 = 4.0;
    let x2 = 9.0;
    let y1 = 6.099;
    let y2 = 2.34;
    let x = vec_n([x1, x2]);
    let y = vec_n([y1, y2]);
    assert_eq!(x + y, vec_n([x1 + y1, x2 + y2]));
    let x1 = 4.3398234;
    let x2 = 9.304034;
    let y1 = -2390.0;
    let y2 = 349.2;
    let x = vec_n([x1, x2]);
    let y = vec_n([y1, y2]);
    assert_eq!(x + y, vec_n([x1 + y1, x2 + y2]));
    let x1 = 0.0;
    let x2 = 0.0;
    let y1 = 0.0;
    let y2 = 0.0;
    let x = vec_n([x1, x2]);
    let y = vec_n([y1, y2]);
    assert_eq!(x + y, vec_n([x1 + y1, x2 + y2]));
    let x1 = 0.0;
    let x2 = 0.0;
    let y1 = 1.0;
    let y2 = 2.34;
    let x = vec_n([x1, x2]);
    let y = vec_n([y1, y2]);
    assert_eq!(x + y, vec_n([x1 + y1, x2 + y2]));
    let x1 = 0.0;
    let x2 = 0.0;
    let x3 = 0.0;
    let y1 = 1.0;
    let y2 = 2.34;
    let y3 = 2.34;
    let x = vec_n([x1, x2, x3]);
    let y = vec_n([y1, y2, y3]);
    assert_eq!(x + y, vec_n([x1 + y1, x2 + y2, x3 + y3]));
    let x1 = 0.0;
    let x2 = 0.0;
    let x3 = 0.0;
    let x4 = 0.0;
    let x5 = 0.0;
    let y1 = 1.0;
    let y2 = 2.34;
    let y3 = 2.34;
    let y4 = 2.34;
    let y5 = 2.34;
    let x = vec_n([x1, x2, x3, x4, x5]);
    let y = vec_n([y1, y2, y3, y4, y5]);
    assert_eq!(
        x + y,
        vec_n([x1 + y1, x2 + y2, x3 + y3, x4 + y4, x5 + y5])
    );
    let x1 = 0.0;
    let x2 = 0.0;
    let y1 = 1.0;
    let y2 = 2.34;
    let x = vec_n([x1, x2]);
    assert_ne!(x, vec_n([x1 + y1, x2 + y2]));
}

#[test]
fn vector_sub() {
    let x1 = 4.0;
    let x2 = 9.0;
    let y1 = 6.099;
    let y2 = 2.34;
    let x = vec_n([x1, x2]);
    let y = vec_n([y1, y2]);
    assert_eq!(x - y, vec_n([x1 - y1, x2 - y2]));
    let x1 = 4.3398234;
    let x2 = 9.304034;
    let y1 = -2390.0;
    let y2 = 349.2;
    let x = vec_n([x1, x2]);
    let y = vec_n([y1, y2]);
    assert_eq!(x - y, vec_n([x1 - y1, x2 - y2]));
    let x1 = 0.0;
    let x2 = 0.0;
    let y1 = 0.0;
    let y2 = 0.0;
    let x = vec_n([x1, x2]);
    let y = vec_n([y1, y2]);
    assert_eq!(x - y, vec_n([x1 - y1, x2 - y2]));
    let x1 = 0.0;
    let x2 = 0.0;
    let y1 = 1.0;
    let y2 = 2.34;
    let x = vec_n([x1, x2]);
    let y = vec_n([y1, y2]);
    assert_eq!(x - y, vec_n([x1 - y1, x2 - y2]));
    let x1 = 0.0;
    let x2 = 0.0;
    let x3 = 0.0;
    let y1 = 1.0;
    let y2 = 2.34;
    let y3 = 2.34;
    let x = vec_n([x1, x2, x3]);
    let y = vec_n([y1, y2, y3]);
    assert_eq!(x - y, vec_n([x1 - y1, x2 - y2, x3 - y3]));
    let x1 = 0.0;
    let x2 = 0.0;
    let x3 = 0.0;
    let x4 = 0.0;
    let x5 = 0.0;
    let y1 = 1.0;
    let y2 = 2.34;
    let y3 = 2.34;
    let y4 = 2.34;
    let y5 = 2.34;
    let x = vec_n([x1, x2, x3, x4, x5]);
    let y = vec_n([y1, y2, y3, y4, y5]);
    assert_eq!(
        x - y,
        vec_n([x1 - y1, x2 - y2, x3 - y3, x4 - y4, x5 - y5])
    );
    let x1 = 0.0;
    let x2 = 0.0;
    let y1 = 1.0;
    let y2 = 2.34;
    let x = vec_n([x1, x2]);
    assert_ne!(x, vec_n([x1 - y1, x2 - y2]));
}

#[test]
fn add_then_sub_gives_back_the_vector() {
    let a = vec_n([1.5, -2.25, 1000.0]);
    let b = vec_n([0.125, 7.0, -3.5]);
    assert_eq!(a + b - b, a);
}

#[test]
fn normalize_is_division_by_length() {
    let a = vec_n([3.0, 4.0]);
    assert_eq!(a.length().0, 5.0);
    let n = a.normalize();
    assert_eq!(n.index(0).0, 3.0 / 5.0);
    assert_eq!(n.index(1).0, 4.0 / 5.0);
    assert_eq!(n, a / a.length());
    let b = vec_n([2.0, 4.0, 5.0, -7.0]);
    assert!(b.normalize().length().approx_eq(Real(1.0)));
}

#[test]
fn normalize_of_zero_vector_is_not_finite() {
    let z = vec_n([0.0, 0.0]);
    let n = z.normalize();
    assert!(n.index(0).0.is_nan());
    assert!(n.index(1).0.is_nan());
}

#[test]
fn project_onto_zero_vector_is_not_finite() {
    let x = vec_n([2.0, 4.0, 5.0]);
    let z = vec_n([0.0, 0.0, 0.0]);
    let p = x.project(&z);
    assert!(p.index(1).0.is_nan());
}

#[test]
fn division_by_zero_scalar_is_not_finite() {
    let x = vec_n([2.0, -4.0]) / Real(0.0);
    assert_eq!(x.index(0).0, f32::INFINITY);
    assert_eq!(x.index(1).0, f32::NEG_INFINITY);
}

#[test]
fn distance_is_length_of_difference() {
    let a = vec_n([1.0, 1.0]);
    let b = vec_n([4.0, 5.0]);
    assert_eq!(a.distance(&b).0, 5.0);
    assert_eq!(b.distance(&a).0, 5.0);
}

#[test]
fn new_vector_is_zero_and_has_its_dimension() {
    let z = VecN::<Real, 4>::new();
    assert_eq!(z.dimension(), 4);
    assert_eq!(z.components(), vec![Real(0.0); 4]);
}

#[test]
fn from_iter_fills_the_rest_with_zeros() {
    let v = VecN::<Real, 4>::from_iter(&[Real(1.0), Real(2.0)]);
    assert_eq!(v.components(), vec![Real(1.0), Real(2.0), Real(0.0), Real(0.0)]);
}

#[test]
fn named_vectors_follow_the_same_formulas() {
    let a = Vec3::from(Real(2.0), Real(3.0), Real(-5.0));
    let b = Vec3::from(Real(1.0), Real(0.0), Real(8.4));
    assert_eq!(a.cross(b), Vec3::from(Real(25.2), Real(-21.8), Real(-3.0)));
    assert_eq!(a.dot(b).0, 2.0 + -5.0 * 8.4);
    let p = Vec3::from(Real(2.0), Real(4.0), Real(5.0)).project(Vec3::from(
        Real(0.0),
        Real(1.0),
        Real(0.0),
    ));
    assert_eq!(p, Vec3::from(Real(0.0), Real(4.0), Real(0.0)));
    let c = Vec2::from(Real(2.0), Real(3.0));
    assert_eq!(c.cross(), Vec2::from(Real(3.0), Real(-2.0)));
    assert_eq!(c.dot(c).0, 13.0);
    assert_eq!(Vec2::from(Real(3.0), Real(4.0)).length().0, 5.0);
    assert_eq!(c + c, c * Real(2.0));
    assert_eq!(c - c, Vec2::new());
    assert_eq!((c / Real(2.0)).x.0, 1.0);
}

#[test]
fn widening_conversions_fill_with_zero() {
    let c = Vec2::from(Real(2.0), Real(3.0));
    let wide: Vec3<Real> = c.into();
    assert_eq!(wide.x.0, 2.0);
    assert_eq!(wide.y.0, 3.0);
    assert_eq!(wide.z.0, 0.0);
    let n: VecN<Real, 4> = c.widen();
    assert_eq!(n.components(), vec![Real(2.0), Real(3.0), Real(0.0), Real(0.0)]);
    let m: VecN<Real, 5> = wide.widen();
    assert_eq!(
        m.components(),
        vec![Real(2.0), Real(3.0), Real(0.0), Real(0.0), Real(0.0)]
    );
    let back: Vec2<Real> = vec_n([7.0, 8.0]).into();
    assert_eq!(back.x.0, 7.0);
    assert_eq!(back.y.0, 8.0);
    let back3: Vec3<Real> = vec_n([7.0, 8.0, 9.0]).into();
    assert_eq!(back3.z.0, 9.0);
    let from_array: Vec3<Real> = [Real(1.0), Real(2.0), Real(3.0)].into();
    assert_eq!(from_array.y.0, 2.0);
}

#[test]
fn named_vectors_are_indexed_by_place() {
    let mut c = Vec2::from(Real(2.0), Real(3.0));
    assert_eq!(c.index(0).0, 2.0);
    assert_eq!(c.index(1).0, 3.0);
    *c.index_mut(0) = Real(9.0);
    assert_eq!(c.x.0, 9.0);
    assert_eq!(c.y.0, 3.0);
    let mut d = Vec3::from(Real(2.0), Real(3.0), Real(4.0));
    assert_eq!(d.index(2).0, 4.0);
    *d.index_mut(2) = Real(5.0);
    *d.index_mut(1) = Real(6.0);
    assert_eq!(d.x.0, 2.0);
    assert_eq!(d.y.0, 6.0);
    assert_eq!(d.z.0, 5.0);
}

#[test]
fn named_vector_equality_tolerates_drift() {
    let a = Vec3::from(Real(2.0), Real(6.0), Real(888.0));
    assert_eq!(a, Vec3::from(Real(2.0), Real(6.00000002), Real(888.0)));
    assert_ne!(a, Vec3::from(Real(2.0), Real(6.0001), Real(888.0)));
    let b = Vec2::from(Real(2.0), Real(6.0));
    assert_eq!(b, Vec2::from(Real(2.0), Real(6.00000002)));
    assert_ne!(b, Vec2::from(Real(2.0001), Real(6.0)));
}
