//! The matrix of `N` rows and `M` columns.
use crate::matrixs::algebra::{
    column, determinant, grid, identity_matrix, is_matrix, matrix_approx_equal, matrix_divided,
    matrix_product, matrix_scaled, matrix_vector_product, transposed, zero_extended_matrix,
    zero_matrix,
};
use crate::matrixs::determinant::determinent;
use crate::scalar::Scalar;
use crate::vectors::algebra::{dot_product, seq_approx_equal, zero_extended, zeros};
use crate::vectors::vecn::{
    array_upto, lemma_array_upto, lemma_vector_exists, lemma_vector_of, vector_of, VecN,
};
use vstd::prelude::*;

verus! {

/// A matrix of `N` rows, each a vector of `M` components.
#[derive(Debug)]
pub struct Mat<T, const N: usize, const M: usize> {
    pub vals: [VecN<T, M>; N],
}

impl<T, const N: usize, const M: usize> View for Mat<T, N, M> {
    type V = Seq<Seq<T>>;

    /// The rows from the top, each as its components.
    open spec fn view(&self) -> Seq<Seq<T>> {
        Seq::new(N as nat, |i: int| self.vals@[i]@)
    }
}

impl<T: Copy, const N: usize, const M: usize> Clone for Mat<T, N, M> {
    fn clone(&self) -> (r: Self)
        ensures
            r == *self,
    {
        *self
    }
}

impl<T: Copy, const N: usize, const M: usize> Copy for Mat<T, N, M> {

}

/// The matrix whose rows are those of `a`, which has `N` rows of length `M`.
pub open spec fn matrix_of<T, const N: usize, const M: usize>(a: Seq<Seq<T>>) -> Mat<T, N, M> {
    choose|m: Mat<T, N, M>| m@ == a
}

/// Every sequence of `N` rows of length `M` is the rows of a matrix.
pub proof fn lemma_matrix_exists<T: Copy, const N: usize, const M: usize>(a: Seq<Seq<T>>)
    requires
        is_matrix(a, N as nat, M as nat),
    ensures
        matrix_of::<T, N, M>(a)@ == a,
{
    let rows = Seq::new(N as nat, |i: int| vector_of::<T, M>(a[i]));
    lemma_array_upto::<VecN<T, M>, N>(rows, N as nat);
    let m = Mat { vals: array_upto::<VecN<T, M>, N>(rows, N as nat) };
    assert forall|i: int| 0 <= i < N implies #[trigger] m@[i] == a[i] by {
        lemma_vector_exists::<T, M>(a[i]);
        assert(m.vals@[i] == rows[i]);
    }
    assert(m@ =~= a);
}

/// A matrix is determined by its elements.
pub proof fn lemma_matrix_of<T, const N: usize, const M: usize>(m: Mat<T, N, M>)
    ensures
        matrix_of::<T, N, M>(m@) == m,
{
    let w = matrix_of::<T, N, M>(m@);
    assert forall|i: int| 0 <= i < N implies w.vals@[i] == m.vals@[i] by {
        assert(w@[i] == m@[i]);
        assert(w.vals@[i].vals =~= m.vals@[i].vals);
    }
    assert(w.vals =~= m.vals);
}

impl<T: Scalar, const N: usize, const M: usize> Mat<T, N, M> {
    /// The matrix whose rows are the columns of this one.
    pub open spec fn transposed_value(self) -> Mat<T, M, N> {
        matrix_of(transposed(self@, M as nat))
    }

    /// The matrix of zeros.
    pub fn new() -> (r: Mat<T, N, M>)
        ensures
            r@ == zero_matrix::<T>(N as nat, M as nat),
    {
        Mat { vals: [VecN::<T, M>::new(); N] }
    }

    /// The matrix whose rows are the columns of this one.
    pub fn transpose(&self) -> (r: Mat<T, M, N>)
        ensures
            r@ == transposed(self@, M as nat),
            r == self.transposed_value(),
    {
        let mut rows = [VecN::<T, N>::new(); M];
        let mut j: usize = 0;
        while j < M
            invariant
                j <= M,
                forall|jj: int| 0 <= jj < j ==> (#[trigger] rows@[jj])@ == column(self@, jj),
            decreases M - j,
        {
            let mut col = [T::zero(); N];
            let mut i: usize = 0;
            while i < N
                invariant
                    i <= N,
                    j < M,
                    forall|ii: int| 0 <= ii < i ==> col@[ii] == self@[ii][j as int],
                decreases N - i,
            {
                col[i] = self.vals[i].vals[j];
                i += 1;
            }
            rows[j] = VecN { vals: col };
            j += 1;
        }
        let r = Mat { vals: rows };
        proof {
            lemma_matrix_of(r);
        }
        r
    }

    /// Row `index`.
    pub fn index(&self, index: usize) -> (r: &VecN<T, M>)
        requires
            index < N,
        ensures
            r@ == self@[index as int],
    {
        &self.vals[index]
    }

    /// The place of row `index`: what is assigned to it or through it becomes
    /// that row, and the others stay.
    pub fn index_mut(&mut self, index: usize) -> (r: &mut VecN<T, M>)
        requires
            index < N,
        ensures
            r@ == old(self)@[index as int],
            final(self)@ == old(self)@.update(index as int, final(r)@),
    {
        &mut self.vals[index]
    }

    /// The rows from the top, each as its components in index order.
    pub fn rows(&self) -> (r: Vec<Vec<T>>)
        ensures
            grid(r@) == self@,
    {
        let mut r: Vec<Vec<T>> = Vec::with_capacity(N);
        let mut i: usize = 0;
        while i < N
            invariant
                i <= N,
                r@.len() == i,
                forall|k: int| 0 <= k < i ==> (#[trigger] r@[k])@ == self@[k],
            decreases N - i,
        {
            r.push(self.vals[i].components());
            i += 1;
        }
        r
    }

    /// The matrix that holds `vals` in its upper left corner and is zero
    /// elsewhere.
    pub fn from_vecs(vals: &Vec<Vec<T>>) -> (r: Mat<T, N, M>)
        requires
            vals@.len() <= N,
            forall|i: int| 0 <= i < vals@.len() ==> (#[trigger] vals@[i])@.len() <= M,
        ensures
            r@ == zero_extended_matrix(grid(vals@), N as nat, M as nat),
    {
        let mut mat = Mat::<T, N, M>::new();
        assert forall|k: int| 0 <= k < N implies (#[trigger] mat.vals@[k])@ == zeros::<T>(
            M as nat,
        ) by {
            assert(mat@[k] == mat.vals@[k]@);
        }
        let mut i: usize = 0;
        while i < vals.len()
            invariant
                i <= vals@.len() <= N,
                forall|k: int| 0 <= k < vals@.len() ==> (#[trigger] vals@[k])@.len() <= M,
                forall|k: int|
                    0 <= k < i ==> (#[trigger] mat.vals@[k])@ == zero_extended(
                        vals@[k]@,
                        M as nat,
                    ),
                forall|k: int| i <= k < N ==> (#[trigger] mat.vals@[k])@ == zeros::<T>(M as nat),
            decreases vals@.len() - i,
        {
            mat.vals[i] = VecN::<T, M>::from_iter(vals[i].as_slice());
            i += 1;
        }
        mat
    }
}

impl<T: Scalar, const N: usize> Mat<T, N, N> {
    /// The identity matrix: one on the diagonal, zero elsewhere.
    pub open spec fn identity_value() -> Mat<T, N, N> {
        matrix_of(identity_matrix::<T>(N as nat))
    }

    /// The identity matrix: one on the diagonal, zero elsewhere.
    pub fn identity() -> (r: Mat<T, N, N>)
        ensures
            r@ == identity_matrix::<T>(N as nat),
            r == Self::identity_value(),
    {
        let mut rows = [VecN::<T, N>::new(); N];
        let mut i: usize = 0;
        while i < N
            invariant
                i <= N,
                forall|k: int|
                    0 <= k < i ==> (#[trigger] rows@[k])@ == identity_matrix::<T>(N as nat)[k],
            decreases N - i,
        {
            let mut row = [T::zero(); N];
            row[i] = T::one();
            rows[i] = VecN { vals: row };
            i += 1;
        }
        let r = Mat { vals: rows };
        proof {
            lemma_matrix_of(r);
        }
        r
    }

    /// The determinant.
    pub fn det(&self) -> (r: T)
        requires
            N >= 1,
        ensures
            r == determinant(self@),
    {
        let rows = self.rows();
        determinent(rows)
    }
}

impl<T: Scalar> Mat<T, 2, 2> {
    /// The matrix that turns the plane by the angle whose cosine and sine
    /// are given: `[[cos, -sin], [sin, cos]]`.
    pub fn rotation(cos: T, sin: T) -> (r: Mat<T, 2, 2>)
        ensures
            r@ == seq![seq![cos, sin.negation()], seq![sin, cos]],
    {
        Mat { vals: [VecN { vals: [cos, sin.neg()] }, VecN { vals: [sin, cos] }] }
    }
}

impl<T: Scalar, const N: usize, const M: usize> From<[[T; M]; N]> for Mat<T, N, M> {
    /// The matrix with the given rows.
    fn from(vals: [[T; M]; N]) -> (r: Mat<T, N, M>)
        ensures
            r@ == Seq::new(N as nat, |i: int| vals@[i]@),
    {
        let mut rows = [VecN::<T, M>::new(); N];
        let mut i: usize = 0;
        while i < N
            invariant
                i <= N,
                forall|k: int| 0 <= k < i ==> (#[trigger] rows@[k])@ == vals@[k]@,
            decreases N - i,
        {
            rows[i] = VecN { vals: vals[i] };
            i += 1;
        }
        let r = Mat { vals: rows };
        assert(r@ =~= Seq::new(N as nat, |i: int| vals@[i]@));
        proof {
            lemma_matrix_of(r);
        }
        r
    }
}

impl<T: Scalar, const N: usize, const M: usize> vstd::std_specs::convert::FromSpecImpl<[[T; M]; N]> for Mat<T, N, M> {
    open spec fn obeys_from_spec() -> bool {
        true
    }

    open spec fn from_spec(vals: [[T; M]; N]) -> Mat<T, N, M> {
        matrix_of(Seq::new(N as nat, |i: int| vals@[i]@))
    }
}

impl<T: Scalar, const N: usize, const M: usize> From<[VecN<T, M>; N]> for Mat<T, N, M> {
    /// The matrix with the given rows.
    fn from(vals: [VecN<T, M>; N]) -> (r: Mat<T, N, M>) {
        Mat { vals }
    }
}

impl<T: Scalar, const N: usize, const M: usize> vstd::std_specs::convert::FromSpecImpl<[VecN<T, M>; N]> for Mat<T, N, M> {
    open spec fn obeys_from_spec() -> bool {
        true
    }

    open spec fn from_spec(vals: [VecN<T, M>; N]) -> Mat<T, N, M> {
        Mat { vals }
    }
}

impl<T: Scalar, const N: usize, const M: usize> core::ops::Mul<T> for Mat<T, N, M> {
    type Output = Mat<T, N, M>;

    /// Every element multiplied by `scalar`.
    fn mul(self, scalar: T) -> (r: Mat<T, N, M>)
        ensures
            r@ == matrix_scaled(self@, scalar),
    {
        let mut rows = self.vals;
        let mut i: usize = 0;
        while i < N
            invariant
                i <= N,
                forall|k: int| 0 <= k < i ==> (#[trigger] rows@[k])@ == matrix_scaled(self@, scalar)[k],
                forall|k: int| i <= k < N ==> rows@[k] == self.vals@[k],
            decreases N - i,
        {
            rows[i] = self.vals[i] * scalar;
            i += 1;
        }
        let r = Mat { vals: rows };
        assert(r@ =~= matrix_scaled(self@, scalar));
        proof {
            lemma_matrix_of(r);
        }
        r
    }
}

impl<T: Scalar, const N: usize, const M: usize> vstd::std_specs::ops::MulSpecImpl<T> for Mat<T, N, M> {
    open spec fn obeys_mul_spec() -> bool {
        true
    }

    open spec fn mul_req(self, scalar: T) -> bool {
        true
    }

    open spec fn mul_spec(self, scalar: T) -> Mat<T, N, M> {
        matrix_of(matrix_scaled(self@, scalar))
    }
}

impl<T: Scalar, const N: usize, const M: usize> core::ops::Div<T> for Mat<T, N, M> {
    type Output = Mat<T, N, M>;

    /// Every element divided by `scalar`.
    fn div(self, scalar: T) -> (r: Mat<T, N, M>)
        ensures
            r@ == matrix_divided(self@, scalar),
    {
        let mut rows = self.vals;
        let mut i: usize = 0;
        while i < N
            invariant
                i <= N,
                forall|k: int|
                    0 <= k < i ==> (#[trigger] rows@[k])@ == matrix_divided(self@, scalar)[k],
                forall|k: int| i <= k < N ==> rows@[k] == self.vals@[k],
            decreases N - i,
        {
            rows[i] = self.vals[i] / scalar;
            i += 1;
        }
        let r = Mat { vals: rows };
        assert(r@ =~= matrix_divided(self@, scalar));
        proof {
            lemma_matrix_of(r);
        }
        r
    }
}

impl<T: Scalar, const N: usize, const M: usize> vstd::std_specs::ops::DivSpecImpl<T> for Mat<T, N, M> {
    open spec fn obeys_div_spec() -> bool {
        true
    }

    open spec fn div_req(self, scalar: T) -> bool {
        true
    }

    open spec fn div_spec(self, scalar: T) -> Mat<T, N, M> {
        matrix_of(matrix_divided(self@, scalar))
    }
}

impl<T: Scalar, const N: usize, const M: usize, const Z: usize> core::ops::Mul<Mat<T, M, Z>> for Mat<T, N, M> {
    type Output = Mat<T, N, Z>;

    /// The matrix product: each element is the dot product of a row of this
    /// matrix with a column of `other`.
    fn mul(self, other: Mat<T, M, Z>) -> (r: Mat<T, N, Z>)
        ensures
            r@ == matrix_product(self@, other@, Z as nat),
    {
        let mut rows = [VecN::<T, Z>::new(); N];
        let other_t = other.transpose();
        let mut i: usize = 0;
        while i < N
            invariant
                i <= N,
                other_t@ == transposed(other@, Z as nat),
                forall|k: int|
                    0 <= k < i ==> (#[trigger] rows@[k])@ == matrix_product(
                        self@,
                        other@,
                        Z as nat,
                    )[k],
            decreases N - i,
        {
            let mut row = [T::zero(); Z];
            let mut j: usize = 0;
            while j < Z
                invariant
                    j <= Z,
                    i < N,
                    other_t@ == transposed(other@, Z as nat),
                    forall|c: int|
                        0 <= c < j ==> row@[c] == dot_product(self@[i as int], column(other@, c)),
                decreases Z - j,
            {
                row[j] = self.vals[i] * other_t.vals[j];
                assert(other_t@[j as int] == column(other@, j as int));
                j += 1;
            }
            rows[i] = VecN { vals: row };
            i += 1;
        }
        let r = Mat { vals: rows };
        assert(r@ =~= matrix_product(self@, other@, Z as nat));
        proof {
            lemma_matrix_of(r);
        }
        r
    }
}

impl<T: Scalar, const N: usize, const M: usize, const Z: usize> vstd::std_specs::ops::MulSpecImpl<Mat<T, M, Z>> for Mat<T, N, M> {
    open spec fn obeys_mul_spec() -> bool {
        true
    }

    open spec fn mul_req(self, other: Mat<T, M, Z>) -> bool {
        true
    }

    open spec fn mul_spec(self, other: Mat<T, M, Z>) -> Mat<T, N, Z> {
        matrix_of(matrix_product(self@, other@, Z as nat))
    }
}

impl<T: Scalar, const N: usize, const M: usize> core::ops::Mul<VecN<T, M>> for Mat<T, N, M> {
    type Output = VecN<T, N>;

    /// The product with a vector: each component is the dot product of a
    /// row with `other`.
    fn mul(self, other: VecN<T, M>) -> (r: VecN<T, N>)
        ensures
            r@ == matrix_vector_product(self@, other@),
    {
        let mut answer = [T::zero(); N];
        let mut i: usize = 0;
        while i < N
            invariant
                i <= N,
                forall|k: int| 0 <= k < i ==> answer@[k] == dot_product(self@[k], other@),
            decreases N - i,
        {
            answer[i] = self.vals[i] * other;
            i += 1;
        }
        let r = VecN { vals: answer };
        assert(r@ =~= matrix_vector_product(self@, other@));
        proof {
            lemma_vector_of(r);
        }
        r
    }
}

impl<T: Scalar, const N: usize, const M: usize> vstd::std_specs::ops::MulSpecImpl<VecN<T, M>> for Mat<T, N, M> {
    open spec fn obeys_mul_spec() -> bool {
        true
    }

    open spec fn mul_req(self, other: VecN<T, M>) -> bool {
        true
    }

    open spec fn mul_spec(self, other: VecN<T, M>) -> VecN<T, N> {
        vector_of(matrix_vector_product(self@, other@))
    }
}

impl<T: Scalar, const N: usize, const M: usize> PartialEq for Mat<T, N, M> {
    /// Whether every row is approximately equal to its counterpart in
    /// `other`.
    fn eq(&self, other: &Mat<T, N, M>) -> (r: bool) {
        let mut i: usize = 0;
        while i < N
            invariant
                i <= N,
                forall|k: int| 0 <= k < i ==> seq_approx_equal(#[trigger] self@[k], other@[k]),
            decreases N - i,
        {
            if !(self.vals[i] == other.vals[i]) {
                assert(!seq_approx_equal(self@[i as int], other@[i as int]));
                return false;
            }
            i += 1;
        }
        true
    }
}

impl<T: Scalar, const N: usize, const M: usize> vstd::std_specs::cmp::PartialEqSpecImpl for Mat<T, N, M> {
    open spec fn obeys_eq_spec() -> bool {
        true
    }

    open spec fn eq_spec(&self, other: &Mat<T, N, M>) -> bool {
        matrix_approx_equal(self@, other@)
    }
}

} // verus!
