//! Laws that the matrix operations obey together.
use crate::matrixs::algebra::{
    cofactor_sign, cofactor_sum, cofactor_term, column, determinant, diagonal_product,
    diagonal_product_from, elements_respect_units, identity_matrix, is_lower_triangular,
    is_matrix, is_upper_triangular, matrix_product, minor, transposed,
};
use crate::matrixs::mat::{lemma_matrix_exists, lemma_matrix_of, Mat};
use crate::scalar::{has_units, respects_units, Scalar};
use crate::vectors::algebra::{dot_prefix, dot_product};
use vstd::prelude::*;
use vstd::std_specs::ops::MulSpec;

verus! {

/// Transposing twice gives back the rows started from.
pub proof fn lemma_transposed_twice<T>(a: Seq<Seq<T>>, rows: nat, cols: nat)
    requires
        is_matrix(a, rows, cols),
    ensures
        transposed(transposed(a, cols), rows) == a,
{
    assert(transposed(transposed(a, cols), rows) =~~= a);
}

/// The transpose of the transpose of a matrix is the matrix itself.
pub proof fn lemma_transpose_is_involutive<T: Scalar, const N: usize, const M: usize>(
    a: Mat<T, N, M>,
)
    ensures
        a.transposed_value().transposed_value() == a,
{
    let t = transposed(a@, M as nat);
    lemma_matrix_exists::<T, M, N>(t);
    lemma_transposed_twice(a@, N as nat, M as nat);
    lemma_matrix_of(a);
}

/// Row `i` of the identity matrix picks the component `c[i]` out of a dot
/// product: the sum is zero before it reaches place `i` and `c[i]` from
/// there on.
proof fn lemma_dot_with_unit_row<T: Scalar>(size: nat, i: int, c: Seq<T>, n: nat)
    requires
        respects_units(T::zero_value()),
        forall|k: int| 0 <= k < size ==> respects_units(#[trigger] c[k]),
        0 <= i < size,
        n <= size,
    ensures
        dot_prefix(identity_matrix::<T>(size)[i], c, n) == if n > i {
            c[i]
        } else {
            T::zero_value()
        },
    decreases n,
{
    if n > 0 {
        lemma_dot_with_unit_row(size, i, c, (n - 1) as nat);
    }
}

/// The same with the unit vector on the right, as a column of the identity
/// matrix.
proof fn lemma_dot_with_unit_column<T: Scalar>(size: nat, j: int, r: Seq<T>, n: nat)
    requires
        respects_units(T::zero_value()),
        forall|k: int| 0 <= k < size ==> respects_units(#[trigger] r[k]),
        0 <= j < size,
        n <= size,
    ensures
        dot_prefix(r, column(identity_matrix::<T>(size), j), n) == if n > j {
            r[j]
        } else {
            T::zero_value()
        },
    decreases n,
{
    if n > 0 {
        lemma_dot_with_unit_column(size, j, r, (n - 1) as nat);
    }
}

/// The identity matrix times `a` is `a`, where zero and one act as units on
/// the elements of `a`.
pub proof fn lemma_identity_times<T: Scalar>(a: Seq<Seq<T>>, rows: nat, cols: nat)
    requires
        is_matrix(a, rows, cols),
        elements_respect_units(a),
    ensures
        matrix_product(identity_matrix::<T>(rows), a, cols) == a,
{
    let p = matrix_product(identity_matrix::<T>(rows), a, cols);
    assert forall|i: int, j: int| 0 <= i < rows && 0 <= j < cols implies #[trigger] p[i][j]
        == a[i][j] by {
        let c = column(a, j);
        assert forall|k: int| 0 <= k < rows implies respects_units(#[trigger] c[k]) by {
            assert(respects_units(a[k][j]));
        }
        lemma_dot_with_unit_row(rows, i, c, rows);
    }
    assert(p =~~= a);
}

/// `a` times the identity matrix is `a`, where zero and one act as units on
/// the elements of `a`.
pub proof fn lemma_times_identity<T: Scalar>(a: Seq<Seq<T>>, rows: nat, cols: nat)
    requires
        is_matrix(a, rows, cols),
        elements_respect_units(a),
    ensures
        matrix_product(a, identity_matrix::<T>(cols), cols) == a,
{
    let p = matrix_product(a, identity_matrix::<T>(cols), cols);
    assert forall|i: int, j: int| 0 <= i < rows && 0 <= j < cols implies #[trigger] p[i][j]
        == a[i][j] by {
        assert(forall|k: int| 0 <= k < cols ==> respects_units(#[trigger] a[i][k]));
        lemma_dot_with_unit_column(cols, j, a[i], cols);
    }
    assert(p =~~= a);
}

/// `identity * a == a` and `a * identity == a` for every matrix `a` on
/// whose elements zero and one act as units, the identity of the size that
/// fits on each side.
pub proof fn lemma_identity_is_neutral<T: Scalar, const N: usize, const M: usize>(
    a: Mat<T, N, M>,
)
    requires
        elements_respect_units(a@),
    ensures
        Mat::<T, N, N>::identity_value().mul_spec(a) == a,
        a.mul_spec(Mat::<T, M, M>::identity_value()) == a,
{
    lemma_matrix_exists::<T, N, N>(identity_matrix::<T>(N as nat));
    lemma_matrix_exists::<T, M, M>(identity_matrix::<T>(M as nat));
    lemma_identity_times(a@, N as nat, M as nat);
    lemma_times_identity(a@, N as nat, M as nat);
    lemma_matrix_of(a);
}

/// Where zero and one are units of the scalars, they act as units on the
/// elements of every matrix.
pub proof fn lemma_units_are_respected<T: Scalar>(a: Seq<Seq<T>>)
    requires
        has_units::<T>(),
    ensures
        elements_respect_units(a),
{
}

/// The minor of a square matrix is square, one smaller, and holds the
/// elements below the first row that are not in the column left out.
pub proof fn lemma_minor_elements<T>(a: Seq<Seq<T>>, n: nat, col: int)
    requires
        is_matrix(a, n, n),
        n >= 2,
        0 <= col < n,
    ensures
        is_matrix(minor(a, col), (n - 1) as nat, (n - 1) as nat),
        forall|i: int, j: int|
            0 <= i < n - 1 && 0 <= j < n - 1 ==> #[trigger] minor(a, col)[i][j] == a[i + 1][if j
                < col {
                j
            } else {
                j + 1
            }],
{
}

/// An expansion whose terms are all zero adds up to zero.
proof fn lemma_cofactor_sum_of_zeros<T: Scalar>(a: Seq<Seq<T>>, k: nat)
    requires
        has_units::<T>(),
        forall|z: int| 0 <= z < k ==> cofactor_term(a, z) == T::zero_value(),
    ensures
        cofactor_sum(a, k) == T::zero_value(),
    decreases k,
{
    if k > 0 {
        lemma_cofactor_sum_of_zeros(a, (k - 1) as nat);
        assert(cofactor_sum(a, k) == cofactor_sum(a, (k - 1) as nat).sum(cofactor_term(a, k - 1)));
    }
}

/// An expansion whose terms after the first are all zero adds up to the
/// first term.
proof fn lemma_cofactor_sum_of_first<T: Scalar>(a: Seq<Seq<T>>, k: nat)
    requires
        has_units::<T>(),
        k >= 1,
        forall|z: int| 1 <= z < k ==> cofactor_term(a, z) == T::zero_value(),
    ensures
        cofactor_sum(a, k) == cofactor_term(a, 0),
    decreases k,
{
    if k > 1 {
        lemma_cofactor_sum_of_first(a, (k - 1) as nat);
        assert(cofactor_term(a, k - 1) == T::zero_value());
    } else {
        assert(cofactor_sum(a, 0) == T::zero_value());
    }
}

/// A square matrix whose first column is zero has the determinant zero,
/// where zero and one are units of the scalars.
pub proof fn lemma_zero_column_determinant<T: Scalar>(a: Seq<Seq<T>>, n: nat)
    requires
        has_units::<T>(),
        n >= 1,
        is_matrix(a, n, n),
        forall|i: int| 0 <= i < n ==> (#[trigger] a[i])[0] == T::zero_value(),
    ensures
        determinant(a) == T::zero_value(),
    decreases n,
{
    if n >= 2 {
        assert forall|z: int| 0 <= z < n implies cofactor_term(a, z) == T::zero_value() by {
            if z != 0 {
                lemma_minor_elements(a, n, z);
                lemma_zero_column_determinant(minor(a, z), (n - 1) as nat);
            }
        }
        lemma_cofactor_sum_of_zeros(a, n);
    }
}

/// The diagonal of the minor for the first row and column is the diagonal
/// of the matrix after its first element.
proof fn lemma_diagonal_of_minor<T: Scalar>(a: Seq<Seq<T>>, n: nat, k: nat)
    requires
        is_matrix(a, n, n),
        n >= 2,
        k < n - 1,
    ensures
        diagonal_product_from(minor(a, 0), k) == diagonal_product_from(a, k + 1),
    decreases n - k,
{
    lemma_minor_elements(a, n, 0);
    if k + 1 < n - 1 {
        lemma_diagonal_of_minor(a, n, k + 1);
    }
}

/// The determinant of a matrix that is zero below its diagonal is the
/// product of the diagonal, where zero and one are units of the scalars.
pub proof fn lemma_upper_triangular_determinant<T: Scalar>(a: Seq<Seq<T>>, n: nat)
    requires
        has_units::<T>(),
        n >= 1,
        is_matrix(a, n, n),
        is_upper_triangular(a),
    ensures
        determinant(a) == diagonal_product(a),
    decreases n,
{
    if n >= 2 {
        let first = minor(a, 0);
        lemma_minor_elements(a, n, 0);
        lemma_upper_triangular_determinant(first, (n - 1) as nat);
        lemma_diagonal_of_minor(a, n, 0);
        assert forall|z: int| 1 <= z < n implies cofactor_term(a, z) == T::zero_value() by {
            lemma_minor_elements(a, n, z);
            lemma_zero_column_determinant(minor(a, z), (n - 1) as nat);
        }
        lemma_cofactor_sum_of_first(a, n);
    }
}

/// The determinant of a matrix that is zero above its diagonal is the
/// product of the diagonal, where zero and one are units of the scalars.
pub proof fn lemma_lower_triangular_determinant<T: Scalar>(a: Seq<Seq<T>>, n: nat)
    requires
        has_units::<T>(),
        n >= 1,
        is_matrix(a, n, n),
        is_lower_triangular(a),
    ensures
        determinant(a) == diagonal_product(a),
    decreases n,
{
    if n >= 2 {
        let first = minor(a, 0);
        lemma_minor_elements(a, n, 0);
        lemma_lower_triangular_determinant(first, (n - 1) as nat);
        lemma_diagonal_of_minor(a, n, 0);
        assert forall|z: int| 1 <= z < n implies cofactor_term(a, z) == T::zero_value() by {
            assert(a[0][z] == T::zero_value());
        }
        lemma_cofactor_sum_of_first(a, n);
    }
}

/// The determinant of a triangular matrix is the product of its diagonal,
/// where zero and one are units of the scalars.
pub proof fn lemma_triangular_determinant<T: Scalar, const N: usize>(a: Mat<T, N, N>)
    requires
        has_units::<T>(),
        N >= 1,
        is_upper_triangular(a@) || is_lower_triangular(a@),
    ensures
        determinant(a@) == diagonal_product(a@),
{
    if is_upper_triangular(a@) {
        lemma_upper_triangular_determinant(a@, N as nat);
    } else {
        lemma_lower_triangular_determinant(a@, N as nat);
    }
}

} // verus!
