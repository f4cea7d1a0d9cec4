//! The number type that vectors and matrices are built over.
use vstd::prelude::*;

verus! {

/// A number that can be a component of a vector or a matrix.
///
/// Every operation comes in two forms: the value it denotes, which the
/// contracts of the vector and matrix operations are written in, and the
/// executable operation, which returns exactly that value. An implementation
/// therefore promises that each operation is a function of its operands and
/// that it never fails: dividing by zero or taking the root of a negative
/// number must still return some value of the type.
pub trait Scalar: Copy {
    /// The additive unit.
    spec fn zero_value() -> Self;

    /// The multiplicative unit.
    spec fn one_value() -> Self;

    /// `self + rhs`.
    spec fn sum(self, rhs: Self) -> Self;

    /// `self - rhs`.
    spec fn difference(self, rhs: Self) -> Self;

    /// `self * rhs`.
    spec fn product(self, rhs: Self) -> Self;

    /// `self / rhs`.
    spec fn quotient(self, rhs: Self) -> Self;

    /// `-self`.
    spec fn negation(self) -> Self;

    /// The square root of `self`.
    spec fn square_root(self) -> Self;

    /// Whether `self` and `rhs` count as the same number.
    spec fn approx_equal(self, rhs: Self) -> bool;

    fn zero() -> (r: Self)
        ensures
            r == Self::zero_value(),
    ;

    fn one() -> (r: Self)
        ensures
            r == Self::one_value(),
    ;

    fn add(self, rhs: Self) -> (r: Self)
        ensures
            r == self.sum(rhs),
    ;

    fn sub(self, rhs: Self) -> (r: Self)
        ensures
            r == self.difference(rhs),
    ;

    fn mul(self, rhs: Self) -> (r: Self)
        ensures
            r == self.product(rhs),
    ;

    fn div(self, rhs: Self) -> (r: Self)
        ensures
            r == self.quotient(rhs),
    ;

    fn neg(self) -> (r: Self)
        ensures
            r == self.negation(),
    ;

    fn sqrt(self) -> (r: Self)
        ensures
            r == self.square_root(),
    ;

    fn approx_eq(self, rhs: Self) -> (r: bool)
        ensures
            r == self.approx_equal(rhs),
    ;
}

/// Whether zero and one act on `x` as units: adding zero or multiplying by
/// one, on either side, gives `x`, and multiplying by zero gives zero.
pub open spec fn respects_units<T: Scalar>(x: T) -> bool {
    &&& T::zero_value().sum(x) == x
    &&& x.sum(T::zero_value()) == x
    &&& T::one_value().product(x) == x
    &&& x.product(T::one_value()) == x
    &&& T::zero_value().product(x) == T::zero_value()
    &&& x.product(T::zero_value()) == T::zero_value()
}

/// Zero and one act as units on every number of the type: zero is neutral
/// for addition, one is neutral for multiplication, and a product with zero
/// is zero.
pub open spec fn has_units<T: Scalar>() -> bool {
    &&& forall|x: T| #[trigger] T::zero_value().sum(x) == x
    &&& forall|x: T| #[trigger] x.sum(T::zero_value()) == x
    &&& forall|x: T| #[trigger] T::one_value().product(x) == x
    &&& forall|x: T| #[trigger] x.product(T::one_value()) == x
    &&& forall|x: T| #[trigger] T::zero_value().product(x) == T::zero_value()
    &&& forall|x: T| #[trigger] x.product(T::zero_value()) == T::zero_value()
}

/// Subtraction undoes addition exactly.
pub open spec fn subtraction_cancels<T: Scalar>() -> bool {
    forall|x: T, y: T| #[trigger] x.sum(y).difference(y) == x
}

/// Every number counts as the same number as itself.
pub open spec fn approx_equal_is_reflexive<T: Scalar>() -> bool {
    forall|x: T| #[trigger] x.approx_equal(x)
}

/// Whether `r` is the square root of `x` rounded down.
pub open spec fn is_integer_root(x: int, r: int) -> bool {
    0 <= r && r * r <= x < (r + 1) * (r + 1)
}

/// The largest integer whose square does not exceed `x`, for `x >= 0`.
pub open spec fn integer_root(x: int) -> int {
    choose|r: int| is_integer_root(x, r)
}

/// Two's-complement integers: sums, differences and products wrap around,
/// division truncates toward zero, the root is rounded down, and two numbers
/// count as the same only when they are equal. Division by zero and the root
/// of a negative number give zero; the least integer divided by minus one,
/// the one quotient that does not fit, gives the least integer.
impl Scalar for i64 {
    open spec fn zero_value() -> i64 {
        0
    }

    open spec fn one_value() -> i64 {
        1
    }

    open spec fn sum(self, rhs: i64) -> i64 {
        self.wrapping_add(rhs)
    }

    open spec fn difference(self, rhs: i64) -> i64 {
        self.wrapping_sub(rhs)
    }

    open spec fn product(self, rhs: i64) -> i64 {
        self.wrapping_mul(rhs)
    }

    open spec fn quotient(self, rhs: i64) -> i64 {
        match self.checked_div(rhs) {
            Some(q) => q,
            None => if rhs == 0 { 0 } else { self },
        }
    }

    open spec fn negation(self) -> i64 {
        0i64.wrapping_sub(self)
    }

    open spec fn square_root(self) -> i64 {
        if self < 0 {
            0
        } else {
            integer_root(self as int) as i64
        }
    }

    open spec fn approx_equal(self, rhs: i64) -> bool {
        self == rhs
    }

    fn zero() -> (r: i64) {
        0
    }

    fn one() -> (r: i64) {
        1
    }

    fn add(self, rhs: i64) -> (r: i64) {
        self.wrapping_add(rhs)
    }

    fn sub(self, rhs: i64) -> (r: i64) {
        self.wrapping_sub(rhs)
    }

    fn mul(self, rhs: i64) -> (r: i64) {
        self.wrapping_mul(rhs)
    }

    fn div(self, rhs: i64) -> (r: i64) {
        match self.checked_div(rhs) {
            Some(q) => q,
            None => if rhs == 0 { 0 } else { self },
        }
    }

    fn neg(self) -> (r: i64) {
        0i64.wrapping_sub(self)
    }

    fn sqrt(self) -> (r: i64) {
        if self < 0 {
            return 0;
        }
        let mut lo: i64 = 0;
        let mut hi: i64 = 3037000500;
        while hi - lo > 1
            invariant
                0 <= lo < hi <= 3037000500,
                lo * lo <= self < hi * hi,
            decreases hi - lo,
        {
            let mid: i64 = lo + (hi - lo) / 2;
            assert(mid * mid <= 3037000499 * 3037000499) by (nonlinear_arith)
                requires
                    0 <= mid <= 3037000499,
            ;
            if mid * mid <= self {
                lo = mid;
            } else {
                hi = mid;
            }
        }
        proof {
            lemma_integer_root_is(self as int, lo as int);
        }
        lo
    }

    fn approx_eq(self, rhs: i64) -> (r: bool) {
        self == rhs
    }
}

/// At most one integer is the rounded-down root of `x`, and `integer_root`
/// picks it.
pub proof fn lemma_integer_root_is(x: int, r: int)
    requires
        is_integer_root(x, r),
    ensures
        integer_root(x) == r,
{
    let s = integer_root(x);
    assert(s == r) by (nonlinear_arith)
        requires
            0 <= r,
            0 <= s,
            r * r <= x < (r + 1) * (r + 1),
            s * s <= x < (s + 1) * (s + 1),
    ;
}

/// The integers obey the unit laws.
pub proof fn lemma_i64_has_units()
    ensures
        has_units::<i64>(),
{
    assert forall|x: i64| #[trigger] 1i64.product(x) == x by {
        assert((1 * x) % 0x1_0000_0000_0000_0000 == if x < 0 {
            x + 0x1_0000_0000_0000_0000
        } else {
            x as int
        }) by (nonlinear_arith)
            requires
                -0x8000_0000_0000_0000 <= x < 0x8000_0000_0000_0000,
        ;
    }
    assert forall|x: i64| #[trigger] x.product(1i64) == x by {
        assert((x * 1) % 0x1_0000_0000_0000_0000 == if x < 0 {
            x + 0x1_0000_0000_0000_0000
        } else {
            x as int
        }) by (nonlinear_arith)
            requires
                -0x8000_0000_0000_0000 <= x < 0x8000_0000_0000_0000,
        ;
    }
    assert forall|x: i64| #[trigger] 0i64.product(x) == 0i64 by {
        assert(0 * x == 0) by (nonlinear_arith);
    }
    assert forall|x: i64| #[trigger] x.product(0i64) == 0i64 by {
        assert(x * 0 == 0) by (nonlinear_arith);
    }
}

/// On the integers subtraction undoes addition, also where the sum wraps.
pub proof fn lemma_i64_subtraction_cancels()
    ensures
        subtraction_cancels::<i64>(),
{
}

/// An integer equals itself.
pub proof fn lemma_i64_approx_equal_is_reflexive()
    ensures
        approx_equal_is_reflexive::<i64>(),
{
}

} // verus!
