//! The determinant by cofactor expansion along the first row.
use crate::matrixs::algebra::{
    cofactor_sign, cofactor_sum, cofactor_term, determinant, grid, is_matrix, minor,
};
use crate::scalar::Scalar;
use vstd::prelude::*;

verus! {

/// `row` without the component at `col`.
fn without<T: Scalar>(row: &Vec<T>, col: usize) -> (r: Vec<T>)
    requires
        col < row@.len(),
    ensures
        r@ == row@.remove(col as int),
{
    let n = row.len();
    let mut r: Vec<T> = Vec::new();
    let mut k: usize = 0;
    while k < col
        invariant
            k <= col < n == row@.len(),
            r@ == row@.take(k as int),
        decreases col - k,
    {
        r.push(row[k]);
        k += 1;
    }
    k = col + 1;
    while k < n
        invariant
            col < k <= n == row@.len(),
            r@ == row@.take(k as int).remove(col as int),
        decreases n - k,
    {
        r.push(row[k]);
        k += 1;
    }
    r
}

/// The minor of a square matrix for its first row and column `col`.
fn minor_of<T: Scalar>(vals: &Vec<Vec<T>>, col: usize) -> (r: Vec<Vec<T>>)
    requires
        is_matrix(grid(vals@), vals@.len(), vals@.len()),
        col < vals@.len(),
    ensures
        grid(r@) == minor(grid(vals@), col as int),
{
    let mut r: Vec<Vec<T>> = Vec::new();
    let mut j: usize = 1;
    while j < vals.len()
        invariant
            1 <= j <= vals@.len(),
            col < vals@.len(),
            is_matrix(grid(vals@), vals@.len(), vals@.len()),
            r@.len() == j - 1,
            forall|k: int| 0 <= k < j - 1 ==> (#[trigger] r@[k])@ == vals@[k + 1]@.remove(col as int),
        decreases vals@.len() - j,
    {
        assert(grid(vals@)[j as int].len() == vals@.len());
        r.push(without(&vals[j], col));
        j += 1;
    }
    r
}

/// The determinant of a square matrix given as its rows, by cofactor
/// expansion along the first row: each element of that row, times the sign
/// of its column, times the determinant of its minor, added up from zero in
/// column order. A matrix of one element has that element as determinant.
pub fn determinent<T: Scalar>(vals: Vec<Vec<T>>) -> (r: T)
    requires
        vals@.len() >= 1,
        is_matrix(grid(vals@), vals@.len(), vals@.len()),
    ensures
        r == determinant(grid(vals@)),
    decreases vals@.len(),
{
    let n = vals.len();
    assert(grid(vals@)[0].len() == n);
    if n == 1 {
        return vals[0][0];
    }
    let mut answer = T::zero();
    let mut i: usize = 0;
    while i < n
        invariant
            i <= n == vals@.len(),
            n >= 2,
            is_matrix(grid(vals@), vals@.len(), vals@.len()),
            answer == cofactor_sum(grid(vals@), i as nat),
        decreases n - i,
    {
        assert(grid(vals@)[0].len() == n);
        let top_val = vals[0][i];
        let new_det = minor_of(&vals, i);
        let sign = if i % 2 == 0 {
            T::one()
        } else {
            T::one().neg()
        };
        assert(is_matrix(grid(new_det@), new_det@.len(), new_det@.len()));
        let minor_det = determinent(new_det);
        proof {
            let g = grid(vals@);
            assert(cofactor_sum(g, (i + 1) as nat) == cofactor_sum(g, i as nat).sum(
                cofactor_term(g, i as int),
            ));
        }
        answer = answer.add(sign.mul(top_val).mul(minor_det));
        i += 1;
    }
    answer
}

} // verus!
