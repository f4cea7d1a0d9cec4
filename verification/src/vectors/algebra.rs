//! What the vector operations compute, stated on sequences of components.
use crate::scalar::Scalar;
use vstd::prelude::*;

verus! {

/// The sequence of `n` zeros.
pub open spec fn zeros<T: Scalar>(n: nat) -> Seq<T> {
    Seq::new(n, |i: int| T::zero_value())
}

/// `items` followed by as many zeros as it takes to reach length `n`.
pub open spec fn zero_extended<T: Scalar>(items: Seq<T>, n: nat) -> Seq<T> {
    Seq::new(n, |i: int| if i < items.len() { items[i] } else { T::zero_value() })
}

/// Component-wise sum.
pub open spec fn seq_sum<T: Scalar>(a: Seq<T>, b: Seq<T>) -> Seq<T> {
    Seq::new(a.len(), |i: int| a[i].sum(b[i]))
}

/// Component-wise difference.
pub open spec fn seq_difference<T: Scalar>(a: Seq<T>, b: Seq<T>) -> Seq<T> {
    Seq::new(a.len(), |i: int| a[i].difference(b[i]))
}

/// Every component multiplied by `k`, the component on the left.
pub open spec fn seq_scaled<T: Scalar>(a: Seq<T>, k: T) -> Seq<T> {
    Seq::new(a.len(), |i: int| a[i].product(k))
}

/// Every component divided by `k`.
pub open spec fn seq_divided<T: Scalar>(a: Seq<T>, k: T) -> Seq<T> {
    Seq::new(a.len(), |i: int| a[i].quotient(k))
}

/// The sum of the first `n` pairwise products, accumulated from zero in
/// index order.
pub open spec fn dot_prefix<T: Scalar>(a: Seq<T>, b: Seq<T>, n: nat) -> T
    decreases n,
{
    if n == 0 {
        T::zero_value()
    } else {
        dot_prefix(a, b, (n - 1) as nat).sum(a[n - 1].product(b[n - 1]))
    }
}

/// The dot product: the sum of all pairwise products.
pub open spec fn dot_product<T: Scalar>(a: Seq<T>, b: Seq<T>) -> T {
    dot_prefix(a, b, a.len())
}

/// The Euclidean length: the root of a vector's dot product with itself.
pub open spec fn norm<T: Scalar>(a: Seq<T>) -> T {
    dot_product(a, a).square_root()
}

/// A vector divided by its own length.
pub open spec fn normalized<T: Scalar>(a: Seq<T>) -> Seq<T> {
    seq_divided(a, norm(a))
}

/// The orthogonal projection of `a` onto the direction of `onto`:
/// `onto` scaled by `(a . onto) / (onto . onto)`.
pub open spec fn projection<T: Scalar>(a: Seq<T>, onto: Seq<T>) -> Seq<T> {
    seq_scaled(onto, dot_product(a, onto).quotient(dot_product(onto, onto)))
}

/// The length of the vector that leads from `a` to `b`.
pub open spec fn distance_between<T: Scalar>(a: Seq<T>, b: Seq<T>) -> T {
    norm(seq_difference(b, a))
}

/// The two-component vector `(y, -x)`: `a` turned by a quarter.
pub open spec fn perpendicular<T: Scalar>(a: Seq<T>) -> Seq<T> {
    seq![a[1], a[0].negation()]
}

/// The right-handed cross product of two three-component vectors.
pub open spec fn cross_product<T: Scalar>(a: Seq<T>, b: Seq<T>) -> Seq<T> {
    seq![
        a[1].product(b[2]).difference(a[2].product(b[1])),
        a[2].product(b[0]).difference(a[0].product(b[2])),
        a[0].product(b[1]).difference(a[1].product(b[0])),
    ]
}

/// Whether two sequences have the same length and every pair of components
/// counts as the same number.
pub open spec fn seq_approx_equal<T: Scalar>(a: Seq<T>, b: Seq<T>) -> bool {
    &&& a.len() == b.len()
    &&& forall|i: int| 0 <= i < a.len() ==> (#[trigger] a[i]).approx_equal(b[i])
}

} // verus!
