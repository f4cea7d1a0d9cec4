//! Integer vectors scaled with the scalar written on the left.
use crate::vectors::algebra::seq_scaled;
use crate::vectors::vec2::Vec2;
use crate::vectors::vec3::Vec3;
use crate::vectors::vecn::{vector_of, VecN};
use vstd::prelude::*;

verus! {

impl<const N: usize> core::ops::Mul<VecN<i64, N>> for i64 {
    type Output = VecN<i64, N>;

    /// `self * vector` is `vector * self`.
    fn mul(self, vector: VecN<i64, N>) -> (r: VecN<i64, N>)
        ensures
            r@ == seq_scaled(vector@, self),
    {
        vector * self
    }
}

impl<const N: usize> vstd::std_specs::ops::MulSpecImpl<VecN<i64, N>> for i64 {
    open spec fn obeys_mul_spec() -> bool {
        true
    }

    open spec fn mul_req(self, vector: VecN<i64, N>) -> bool {
        true
    }

    open spec fn mul_spec(self, vector: VecN<i64, N>) -> VecN<i64, N> {
        vector_of(seq_scaled(vector@, self))
    }
}

impl core::ops::Mul<Vec2<i64>> for i64 {
    type Output = Vec2<i64>;

    /// `self * vector` is `vector * self`.
    fn mul(self, vector: Vec2<i64>) -> (r: Vec2<i64>) {
        vector * self
    }
}

impl vstd::std_specs::ops::MulSpecImpl<Vec2<i64>> for i64 {
    open spec fn obeys_mul_spec() -> bool {
        true
    }

    open spec fn mul_req(self, vector: Vec2<i64>) -> bool {
        true
    }

    open spec fn mul_spec(self, vector: Vec2<i64>) -> Vec2<i64> {
        vector.scaled(self)
    }
}

impl core::ops::Mul<Vec3<i64>> for i64 {
    type Output = Vec3<i64>;

    /// `self * vector` is `vector * self`.
    fn mul(self, vector: Vec3<i64>) -> (r: Vec3<i64>) {
        vector * self
    }
}

impl vstd::std_specs::ops::MulSpecImpl<Vec3<i64>> for i64 {
    open spec fn obeys_mul_spec() -> bool {
        true
    }

    open spec fn mul_req(self, vector: Vec3<i64>) -> bool {
        true
    }

    open spec fn mul_spec(self, vector: Vec3<i64>) -> Vec3<i64> {
        vector.scaled(self)
    }
}

} // verus!
