//! What the matrix operations compute, stated on sequences of rows.
use crate::scalar::{respects_units, Scalar};
use crate::vectors::algebra::{
    dot_product, seq_approx_equal, seq_divided, seq_scaled, zero_extended, zeros,
};
use vstd::prelude::*;

verus! {

/// Whether `a` has `rows` rows of `cols` components each.
pub open spec fn is_matrix<T>(a: Seq<Seq<T>>, rows: nat, cols: nat) -> bool {
    &&& a.len() == rows
    &&& forall|i: int| 0 <= i < rows ==> (#[trigger] a[i]).len() == cols
}

/// The rows of nested vectors, each as its components.
pub open spec fn grid<T>(rows: Seq<Vec<T>>) -> Seq<Seq<T>> {
    Seq::new(rows.len(), |i: int| rows[i]@)
}

/// The matrix of zeros.
pub open spec fn zero_matrix<T: Scalar>(rows: nat, cols: nat) -> Seq<Seq<T>> {
    Seq::new(rows, |i: int| zeros::<T>(cols))
}

/// The matrix of the given size that holds `a` in its upper left corner and
/// is zero elsewhere.
pub open spec fn zero_extended_matrix<T: Scalar>(a: Seq<Seq<T>>, rows: nat, cols: nat) -> Seq<
    Seq<T>,
> {
    Seq::new(
        rows,
        |i: int| if i < a.len() { zero_extended(a[i], cols) } else { zeros::<T>(cols) },
    )
}

/// The square matrix with one on the diagonal and zero elsewhere.
pub open spec fn identity_matrix<T: Scalar>(n: nat) -> Seq<Seq<T>> {
    Seq::new(
        n,
        |i: int| Seq::new(n, |j: int| if i == j { T::one_value() } else { T::zero_value() }),
    )
}

/// Column `j` of `a`, from the top.
pub open spec fn column<T>(a: Seq<Seq<T>>, j: int) -> Seq<T> {
    Seq::new(a.len(), |i: int| a[i][j])
}

/// The matrix whose rows are the `cols` columns of `a`.
pub open spec fn transposed<T>(a: Seq<Seq<T>>, cols: nat) -> Seq<Seq<T>> {
    Seq::new(cols, |j: int| column(a, j))
}

/// Every element multiplied by `k`, the element on the left.
pub open spec fn matrix_scaled<T: Scalar>(a: Seq<Seq<T>>, k: T) -> Seq<Seq<T>> {
    Seq::new(a.len(), |i: int| seq_scaled(a[i], k))
}

/// Every element divided by `k`.
pub open spec fn matrix_divided<T: Scalar>(a: Seq<Seq<T>>, k: T) -> Seq<Seq<T>> {
    Seq::new(a.len(), |i: int| seq_divided(a[i], k))
}

/// The matrix product: the element in row `i` and column `j` is the dot
/// product of row `i` of `a` with column `j` of `b`, which has `cols` columns.
pub open spec fn matrix_product<T: Scalar>(a: Seq<Seq<T>>, b: Seq<Seq<T>>, cols: nat) -> Seq<
    Seq<T>,
> {
    Seq::new(a.len(), |i: int| Seq::new(cols, |j: int| dot_product(a[i], column(b, j))))
}

/// The product of a matrix and a vector: component `i` is the dot product
/// of row `i` with the vector.
pub open spec fn matrix_vector_product<T: Scalar>(a: Seq<Seq<T>>, v: Seq<T>) -> Seq<T> {
    Seq::new(a.len(), |i: int| dot_product(a[i], v))
}

/// Whether two matrices have the same number of rows and every pair of rows
/// is approximately equal.
pub open spec fn matrix_approx_equal<T: Scalar>(a: Seq<Seq<T>>, b: Seq<Seq<T>>) -> bool {
    &&& a.len() == b.len()
    &&& forall|i: int| 0 <= i < a.len() ==> seq_approx_equal(#[trigger] a[i], b[i])
}

/// The minor of `a` for its first row and column `col`: `a` without them.
pub open spec fn minor<T>(a: Seq<Seq<T>>, col: int) -> Seq<Seq<T>> {
    Seq::new((a.len() - 1) as nat, |i: int| a[i + 1].remove(col))
}

/// The sign of the cofactor of the first row's element in column `col`:
/// one where `col` is even, minus one where it is odd.
pub open spec fn cofactor_sign<T: Scalar>(col: int) -> T {
    if col % 2 == 0 {
        T::one_value()
    } else {
        T::one_value().negation()
    }
}

/// The determinant of a square matrix, by cofactor expansion along the first
/// row. The determinant of a matrix of one element is that element.
pub open spec fn determinant<T: Scalar>(a: Seq<Seq<T>>) -> T
    decreases a.len(), 1nat, 0nat,
{
    if a.len() <= 1 {
        a[0][0]
    } else {
        cofactor_sum(a, a.len())
    }
}

/// The term of the expansion for column `col`: sign, times the first row's
/// element, times the determinant of the minor.
pub open spec fn cofactor_term<T: Scalar>(a: Seq<Seq<T>>, col: int) -> T
    decreases a.len(), 0nat, 0nat,
{
    if a.len() >= 2 {
        cofactor_sign::<T>(col).product(a[0][col]).product(determinant(minor(a, col)))
    } else {
        T::zero_value()
    }
}

/// The terms for the first `n` columns, accumulated from zero in column
/// order.
pub open spec fn cofactor_sum<T: Scalar>(a: Seq<Seq<T>>, n: nat) -> T
    decreases a.len(), 0nat, n + 1,
{
    if n == 0 {
        T::zero_value()
    } else {
        cofactor_sum(a, (n - 1) as nat).sum(cofactor_term(a, n - 1))
    }
}

/// Whether zero and one act as units on zero and on every element of `a`.
pub open spec fn elements_respect_units<T: Scalar>(a: Seq<Seq<T>>) -> bool {
    &&& respects_units(T::zero_value())
    &&& forall|i: int, j: int|
        0 <= i < a.len() && 0 <= j < a[i].len() ==> respects_units(#[trigger] a[i][j])
}

/// Whether every element below the diagonal is zero.
pub open spec fn is_upper_triangular<T: Scalar>(a: Seq<Seq<T>>) -> bool {
    forall|i: int, j: int| 0 <= j < i < a.len() ==> #[trigger] a[i][j] == T::zero_value()
}

/// Whether every element above the diagonal is zero.
pub open spec fn is_lower_triangular<T: Scalar>(a: Seq<Seq<T>>) -> bool {
    forall|i: int, j: int| 0 <= i < j < a.len() ==> #[trigger] a[i][j] == T::zero_value()
}

/// The product of the diagonal elements from place `k` to the last,
/// multiplied together from the last one up.
pub open spec fn diagonal_product_from<T: Scalar>(a: Seq<Seq<T>>, k: nat) -> T
    decreases a.len() - k,
{
    if k + 1 >= a.len() {
        a[k as int][k as int]
    } else {
        a[k as int][k as int].product(diagonal_product_from(a, k + 1))
    }
}

/// The product of the diagonal of a square matrix.
pub open spec fn diagonal_product<T: Scalar>(a: Seq<Seq<T>>) -> T {
    diagonal_product_from(a, 0)
}

} // verus!
