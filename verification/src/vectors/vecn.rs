//! The vector of `N` components.
use crate::scalar::Scalar;
use crate::vectors::algebra::{
    cross_product, distance_between, dot_prefix, dot_product, norm, normalized, perpendicular,
    projection, seq_approx_equal, seq_difference, seq_divided, seq_scaled, seq_sum, zero_extended,
    zeros,
};
use vstd::prelude::*;
use vstd::std_specs::ops::DivSpec;

verus! {

/// A vector of `N` components, indexed from zero.
#[derive(Debug)]
pub struct VecN<T, const N: usize> {
    pub vals: [T; N],
}

impl<T, const N: usize> View for VecN<T, N> {
    type V = Seq<T>;

    open spec fn view(&self) -> Seq<T> {
        self.vals@
    }
}

impl<T: Copy, const N: usize> Clone for VecN<T, N> {
    fn clone(&self) -> (r: Self)
        ensures
            r == *self,
    {
        *self
    }
}

impl<T: Copy, const N: usize> Copy for VecN<T, N> {

}

/// The vector whose components are those of `s`, a sequence of length `N`.
pub open spec fn vector_of<T, const N: usize>(s: Seq<T>) -> VecN<T, N> {
    choose|v: VecN<T, N>| v@ == s
}

/// An array that agrees with `s` on its first `k` places.
pub open spec fn array_upto<T: Copy, const N: usize>(s: Seq<T>, k: nat) -> [T; N]
    decreases k,
{
    if k == 0 {
        vstd::array::spec_array_fill_for_copy_type::<T, N>(arbitrary())
    } else {
        vstd::array::spec_array_update(array_upto::<T, N>(s, (k - 1) as nat), k - 1, s[k - 1])
    }
}

/// `array_upto` holds what it is said to hold.
pub proof fn lemma_array_upto<T: Copy, const N: usize>(s: Seq<T>, k: nat)
    requires
        k <= N,
    ensures
        forall|j: int| 0 <= j < k ==> array_upto::<T, N>(s, k)@[j] == s[j],
    decreases k,
{
    if k > 0 {
        lemma_array_upto::<T, N>(s, (k - 1) as nat);
    }
}

/// Every sequence of length `N` is the components of a vector.
pub proof fn lemma_vector_exists<T: Copy, const N: usize>(s: Seq<T>)
    requires
        s.len() == N,
    ensures
        vector_of::<T, N>(s)@ == s,
{
    lemma_array_upto::<T, N>(s, N as nat);
    let v = VecN { vals: array_upto::<T, N>(s, N as nat) };
    assert(v@ =~= s);
}

/// A vector is determined by its components.
pub proof fn lemma_vector_of<T, const N: usize>(v: VecN<T, N>)
    ensures
        vector_of::<T, N>(v@) == v,
{
    let w = vector_of::<T, N>(v@);
    assert(w.vals =~= v.vals);
}

impl<T: Scalar, const N: usize> VecN<T, N> {
    /// The zero vector.
    pub fn new() -> (r: Self)
        ensures
            r@ == zeros::<T>(N as nat),
    {
        VecN { vals: [T::zero(); N] }
    }

    /// The number of components.
    pub fn dimension(&self) -> (r: usize)
        ensures
            r == N,
    {
        N
    }

    /// The component at `index`.
    pub fn index(&self, index: usize) -> (r: &T)
        requires
            index < N,
        ensures
            *r == self@[index as int],
    {
        &self.vals[index]
    }

    /// The place of the component at `index`: what is assigned through it
    /// becomes that component, and the others stay.
    pub fn index_mut(&mut self, index: usize) -> (r: &mut T)
        requires
            index < N,
        ensures
            *r == old(self)@[index as int],
            final(self)@ == old(self)@.update(index as int, *final(r)),
    {
        &mut self.vals[index]
    }

    /// The components in index order.
    pub fn components(&self) -> (r: Vec<T>)
        ensures
            r@ == self@,
    {
        let mut r: Vec<T> = Vec::with_capacity(N);
        let mut i: usize = 0;
        while i < N
            invariant
                i <= N,
                r@ == self@.take(i as int),
            decreases N - i,
        {
            r.push(self.vals[i]);
            i += 1;
        }
        r
    }

    /// The vector that starts with `items` and is zero from there on.
    pub fn from_iter(items: &[T]) -> (r: Self)
        requires
            items@.len() <= N,
        ensures
            r@ == zero_extended(items@, N as nat),
    {
        let mut vals = [T::zero(); N];
        let mut i: usize = 0;
        while i < items.len()
            invariant
                i <= items@.len() <= N,
                forall|j: int| 0 <= j < i ==> vals@[j] == items@[j],
                forall|j: int| i <= j < N ==> vals@[j] == T::zero_value(),
            decreases items@.len() - i,
        {
            vals[i] = items[i];
            i += 1;
        }
        VecN { vals }
    }

    /// The dot product with `other`.
    pub fn dot(&self, other: &VecN<T, N>) -> (r: T)
        ensures
            r == dot_product(self@, other@),
    {
        let mut answer = T::zero();
        let mut i: usize = 0;
        while i < N
            invariant
                i <= N,
                answer == dot_prefix(self@, other@, i as nat),
            decreases N - i,
        {
            answer = answer.add(self.vals[i].mul(other.vals[i]));
            i += 1;
        }
        answer
    }

    /// The Euclidean length.
    pub fn length(&self) -> (r: T)
        ensures
            r == norm(self@),
    {
        self.dot(self).sqrt()
    }

    /// This vector divided by its length. The zero vector is divided by a
    /// zero length like any other: the scalar type says what that gives.
    pub fn normalize(&self) -> (r: VecN<T, N>)
        ensures
            r@ == normalized(self@),
            r == self.div_spec(norm(self@)),
    {
        *self / self.length()
    }

    /// The projection of this vector onto the direction of `other`. A zero
    /// `other` makes the scale a division by zero: the scalar type says what
    /// that gives.
    pub fn project(&self, other: &VecN<T, N>) -> (r: VecN<T, N>)
        ensures
            r@ == projection(self@, other@),
    {
        *other * self.dot(other).div(other.dot(other))
    }

    /// The distance from this vector to `other`.
    pub fn distance(&self, other: &VecN<T, N>) -> (r: T)
        ensures
            r == distance_between(self@, other@),
    {
        (*other - *self).length()
    }
}

impl<T: Scalar> VecN<T, 2> {
    /// The vector `(y, -x)`, at a right angle to this one. The plane has no
    /// cross product: this is not one.
    pub fn perp(&self) -> (r: VecN<T, 2>)
        ensures
            r@ == perpendicular(self@),
    {
        VecN { vals: [self.vals[1], self.vals[0].neg()] }
    }
}

impl<T: Scalar> VecN<T, 3> {
    /// The right-handed cross product with `other`.
    pub fn cross(&self, other: &VecN<T, 3>) -> (r: VecN<T, 3>)
        ensures
            r@ == cross_product(self@, other@),
    {
        let a = &self.vals;
        let b = &other.vals;
        VecN {
            vals: [
                a[1].mul(b[2]).sub(a[2].mul(b[1])),
                a[2].mul(b[0]).sub(a[0].mul(b[2])),
                a[0].mul(b[1]).sub(a[1].mul(b[0])),
            ],
        }
    }
}

impl<T: Scalar, const N: usize> From<[T; N]> for VecN<T, N> {
    /// The vector with the given components.
    fn from(vals: [T; N]) -> (r: VecN<T, N>) {
        VecN { vals }
    }
}

impl<T: Scalar, const N: usize> vstd::std_specs::convert::FromSpecImpl<[T; N]> for VecN<T, N> {
    open spec fn obeys_from_spec() -> bool {
        true
    }

    open spec fn from_spec(vals: [T; N]) -> VecN<T, N> {
        VecN { vals }
    }
}

impl<T: Scalar, const N: usize> core::ops::Add for VecN<T, N> {
    type Output = VecN<T, N>;

    /// The component-wise sum.
    fn add(self, rhs: VecN<T, N>) -> (r: VecN<T, N>)
        ensures
            r@ == seq_sum(self@, rhs@),
    {
        let mut answer = [T::zero(); N];
        let mut i: usize = 0;
        while i < N
            invariant
                i <= N,
                forall|j: int| 0 <= j < i ==> answer@[j] == self@[j].sum(rhs@[j]),
            decreases N - i,
        {
            answer[i] = self.vals[i].add(rhs.vals[i]);
            i += 1;
        }
        let r = VecN { vals: answer };
        assert(r@ =~= seq_sum(self@, rhs@));
        proof {
            lemma_vector_of(r);
        }
        r
    }
}

impl<T: Scalar, const N: usize> vstd::std_specs::ops::AddSpecImpl for VecN<T, N> {
    open spec fn obeys_add_spec() -> bool {
        true
    }

    open spec fn add_req(self, rhs: VecN<T, N>) -> bool {
        true
    }

    open spec fn add_spec(self, rhs: VecN<T, N>) -> VecN<T, N> {
        vector_of(seq_sum(self@, rhs@))
    }
}

impl<T: Scalar, const N: usize> core::ops::Sub for VecN<T, N> {
    type Output = VecN<T, N>;

    /// The component-wise difference.
    fn sub(self, rhs: VecN<T, N>) -> (r: VecN<T, N>)
        ensures
            r@ == seq_difference(self@, rhs@),
    {
        let mut answer = [T::zero(); N];
        let mut i: usize = 0;
        while i < N
            invariant
                i <= N,
                forall|j: int| 0 <= j < i ==> answer@[j] == self@[j].difference(rhs@[j]),
            decreases N - i,
        {
            answer[i] = self.vals[i].sub(rhs.vals[i]);
            i += 1;
        }
        let r = VecN { vals: answer };
        assert(r@ =~= seq_difference(self@, rhs@));
        proof {
            lemma_vector_of(r);
        }
        r
    }
}

impl<T: Scalar, const N: usize> vstd::std_specs::ops::SubSpecImpl for VecN<T, N> {
    open spec fn obeys_sub_spec() -> bool {
        true
    }

    open spec fn sub_req(self, rhs: VecN<T, N>) -> bool {
        true
    }

    open spec fn sub_spec(self, rhs: VecN<T, N>) -> VecN<T, N> {
        vector_of(seq_difference(self@, rhs@))
    }
}

impl<T: Scalar, const N: usize> core::ops::Mul<T> for VecN<T, N> {
    type Output = VecN<T, N>;

    /// Every component multiplied by `scalar`.
    fn mul(self, scalar: T) -> (r: VecN<T, N>)
        ensures
            r@ == seq_scaled(self@, scalar),
    {
        let mut answer = [T::zero(); N];
        let mut i: usize = 0;
        while i < N
            invariant
                i <= N,
                forall|j: int| 0 <= j < i ==> answer@[j] == self@[j].product(scalar),
            decreases N - i,
        {
            answer[i] = self.vals[i].mul(scalar);
            i += 1;
        }
        let r = VecN { vals: answer };
        assert(r@ =~= seq_scaled(self@, scalar));
        proof {
            lemma_vector_of(r);
        }
        r
    }
}

impl<T: Scalar, const N: usize> vstd::std_specs::ops::MulSpecImpl<T> for VecN<T, N> {
    open spec fn obeys_mul_spec() -> bool {
        true
    }

    open spec fn mul_req(self, scalar: T) -> bool {
        true
    }

    open spec fn mul_spec(self, scalar: T) -> VecN<T, N> {
        vector_of(seq_scaled(self@, scalar))
    }
}

impl<T: Scalar, const N: usize> core::ops::Mul<VecN<T, N>> for VecN<T, N> {
    type Output = T;

    /// The dot product.
    fn mul(self, rhs: VecN<T, N>) -> (r: T) {
        self.dot(&rhs)
    }
}

impl<T: Scalar, const N: usize> vstd::std_specs::ops::MulSpecImpl<VecN<T, N>> for VecN<T, N> {
    open spec fn obeys_mul_spec() -> bool {
        true
    }

    open spec fn mul_req(self, rhs: VecN<T, N>) -> bool {
        true
    }

    open spec fn mul_spec(self, rhs: VecN<T, N>) -> T {
        dot_product(self@, rhs@)
    }
}

impl<T: Scalar, const N: usize> core::ops::Div<T> for VecN<T, N> {
    type Output = VecN<T, N>;

    /// Every component divided by `scalar`.
    fn div(self, scalar: T) -> (r: VecN<T, N>)
        ensures
            r@ == seq_divided(self@, scalar),
    {
        let mut answer = [T::zero(); N];
        let mut i: usize = 0;
        while i < N
            invariant
                i <= N,
                forall|j: int| 0 <= j < i ==> answer@[j] == self@[j].quotient(scalar),
            decreases N - i,
        {
            answer[i] = self.vals[i].div(scalar);
            i += 1;
        }
        let r = VecN { vals: answer };
        assert(r@ =~= seq_divided(self@, scalar));
        proof {
            lemma_vector_of(r);
        }
        r
    }
}

impl<T: Scalar, const N: usize> vstd::std_specs::ops::DivSpecImpl<T> for VecN<T, N> {
    open spec fn obeys_div_spec() -> bool {
        true
    }

    open spec fn div_req(self, scalar: T) -> bool {
        true
    }

    open spec fn div_spec(self, scalar: T) -> VecN<T, N> {
        vector_of(seq_divided(self@, scalar))
    }
}

impl<T: Scalar, const N: usize> PartialEq for VecN<T, N> {
    /// Whether every component counts as the same number as its counterpart
    /// in `other`.
    fn eq(&self, other: &VecN<T, N>) -> (r: bool) {
        let mut i: usize = 0;
        while i < N
            invariant
                i <= N,
                forall|j: int| 0 <= j < i ==> (#[trigger] self@[j]).approx_equal(other@[j]),
            decreases N - i,
        {
            if !self.vals[i].approx_eq(other.vals[i]) {
                return false;
            }
            i += 1;
        }
        true
    }
}

impl<T: Scalar, const N: usize> vstd::std_specs::cmp::PartialEqSpecImpl for VecN<T, N> {
    open spec fn obeys_eq_spec() -> bool {
        true
    }

    open spec fn eq_spec(&self, other: &VecN<T, N>) -> bool {
        seq_approx_equal(self@, other@)
    }
}

} // verus!
