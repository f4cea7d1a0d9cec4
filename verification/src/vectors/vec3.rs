//! The vector of three components, `x`, `y` and `z`.
use crate::scalar::Scalar;
use crate::vectors::algebra::zero_extended;
use crate::vectors::vec2::Vec2;
use crate::vectors::vecn::VecN;
use vstd::prelude::*;

verus! {

/// A vector in space.
#[derive(Debug)]
pub struct Vec3<T> {
    pub x: T,
    pub y: T,
    pub z: T,
}

impl<T: Copy> Clone for Vec3<T> {
    fn clone(&self) -> (r: Self)
        ensures
            r == *self,
    {
        *self
    }
}

impl<T: Copy> Copy for Vec3<T> {

}

impl<T> View for Vec3<T> {
    type V = Seq<T>;

    /// The components in index order: `x`, `y`, then `z`.
    open spec fn view(&self) -> Seq<T> {
        seq![self.x, self.y, self.z]
    }
}

impl<T: Scalar> Vec3<T> {
    /// `x * x' + y * y' + z * z'`, added from the left.
    pub open spec fn dot_value(self, other: Vec3<T>) -> T {
        self.x.product(other.x).sum(self.y.product(other.y)).sum(self.z.product(other.z))
    }

    /// The root of the vector's dot product with itself.
    pub open spec fn length_value(self) -> T {
        self.dot_value(self).square_root()
    }

    /// All components multiplied by `scalar`, the component on the left.
    pub open spec fn scaled(self, scalar: T) -> Vec3<T> {
        Vec3 {
            x: self.x.product(scalar),
            y: self.y.product(scalar),
            z: self.z.product(scalar),
        }
    }

    /// The right-handed cross product.
    pub open spec fn cross_value(self, other: Vec3<T>) -> Vec3<T> {
        Vec3 {
            x: self.y.product(other.z).difference(self.z.product(other.y)),
            y: self.z.product(other.x).difference(self.x.product(other.z)),
            z: self.x.product(other.y).difference(self.y.product(other.x)),
        }
    }

    /// Whether all three pairs of components count as the same number.
    pub open spec fn approx_equal(self, other: Vec3<T>) -> bool {
        &&& self.x.approx_equal(other.x)
        &&& self.y.approx_equal(other.y)
        &&& self.z.approx_equal(other.z)
    }

    /// The zero vector.
    pub fn new() -> (r: Vec3<T>)
        ensures
            r.x == T::zero_value(),
            r.y == T::zero_value(),
            r.z == T::zero_value(),
    {
        Vec3 { x: T::zero(), y: T::zero(), z: T::zero() }
    }

    /// The vector `(x, y, z)`.
    pub fn from(x: T, y: T, z: T) -> (r: Vec3<T>)
        ensures
            r.x == x,
            r.y == y,
            r.z == z,
    {
        Vec3 { x, y, z }
    }

    /// The dot product with `other`.
    pub fn dot(self, other: Vec3<T>) -> (r: T)
        ensures
            r == self.dot_value(other),
    {
        self.x.mul(other.x).add(self.y.mul(other.y)).add(self.z.mul(other.z))
    }

    /// The projection of this vector onto the direction of `other`:
    /// `other` scaled by `(self . other) / (other . other)`.
    pub fn project(self, other: Vec3<T>) -> (r: Vec3<T>)
        ensures
            r == other.scaled(self.dot_value(other).quotient(other.dot_value(other))),
    {
        other * self.dot(other).div(other.dot(other))
    }

    /// The Euclidean length.
    pub fn length(self) -> (r: T)
        ensures
            r == self.length_value(),
    {
        self.dot(self).sqrt()
    }

    /// The right-handed cross product with `other`.
    pub fn cross(self, other: Vec3<T>) -> (r: Vec3<T>)
        ensures
            r == self.cross_value(other),
    {
        Vec3 {
            x: self.y.mul(other.z).sub(self.z.mul(other.y)),
            y: self.z.mul(other.x).sub(self.x.mul(other.z)),
            z: self.x.mul(other.y).sub(self.y.mul(other.x)),
        }
    }

    /// The component at `index`: `x` at 0, `y` at 1, `z` at 2.
    pub fn index(&self, index: usize) -> (r: &T)
        requires
            index < 3,
        ensures
            *r == self@[index as int],
    {
        if index == 0 {
            &self.x
        } else if index == 1 {
            &self.y
        } else if index == 2 {
            &self.z
        } else {
            vstd::pervasive::unreached()
        }
    }

    /// The place of the component at `index`: what is assigned through it
    /// becomes that component, and the others stay.
    pub fn index_mut(&mut self, index: usize) -> (r: &mut T)
        requires
            index < 3,
        ensures
            *r == old(self)@[index as int],
            final(self)@ == old(self)@.update(index as int, *final(r)),
    {
        if index == 0 {
            &mut self.x
        } else if index == 1 {
            &mut self.y
        } else if index == 2 {
            &mut self.z
        } else {
            vstd::pervasive::unreached()
        }
    }

    /// The vector of `N >= 3` components that starts with `x`, `y` and `z`
    /// and is zero from there on.
    pub fn widen<const N: usize>(self) -> (r: VecN<T, N>)
        requires
            N >= 3,
        ensures
            r@ == zero_extended(self@, N as nat),
    {
        let mut vals = [T::zero(); N];
        vals[0] = self.x;
        vals[1] = self.y;
        vals[2] = self.z;
        VecN { vals }
    }
}

impl<T: Scalar> From<Vec2<T>> for Vec3<T> {
    /// The same `x` and `y`, with `z` zero.
    fn from(v2: Vec2<T>) -> (r: Vec3<T>) {
        Vec3 { x: v2.x, y: v2.y, z: T::zero() }
    }
}

impl<T: Scalar> vstd::std_specs::convert::FromSpecImpl<Vec2<T>> for Vec3<T> {
    open spec fn obeys_from_spec() -> bool {
        true
    }

    open spec fn from_spec(v2: Vec2<T>) -> Vec3<T> {
        Vec3 { x: v2.x, y: v2.y, z: T::zero_value() }
    }
}

impl<T: Scalar> From<[T; 3]> for Vec3<T> {
    /// The vector with the given components.
    fn from(vals: [T; 3]) -> (r: Vec3<T>) {
        Vec3 { x: vals[0], y: vals[1], z: vals[2] }
    }
}

impl<T: Scalar> vstd::std_specs::convert::FromSpecImpl<[T; 3]> for Vec3<T> {
    open spec fn obeys_from_spec() -> bool {
        true
    }

    open spec fn from_spec(vals: [T; 3]) -> Vec3<T> {
        Vec3 { x: vals[0], y: vals[1], z: vals[2] }
    }
}

impl<T: Scalar> From<VecN<T, 3>> for Vec3<T> {
    /// The vector with the same three components.
    fn from(v: VecN<T, 3>) -> (r: Vec3<T>) {
        Vec3 { x: v.vals[0], y: v.vals[1], z: v.vals[2] }
    }
}

impl<T: Scalar> vstd::std_specs::convert::FromSpecImpl<VecN<T, 3>> for Vec3<T> {
    open spec fn obeys_from_spec() -> bool {
        true
    }

    open spec fn from_spec(v: VecN<T, 3>) -> Vec3<T> {
        Vec3 { x: v@[0], y: v@[1], z: v@[2] }
    }
}

impl<T: Scalar> core::ops::Add for Vec3<T> {
    type Output = Vec3<T>;

    /// The component-wise sum.
    fn add(self, other: Vec3<T>) -> (r: Vec3<T>) {
        Vec3 { x: self.x.add(other.x), y: self.y.add(other.y), z: self.z.add(other.z) }
    }
}

impl<T: Scalar> vstd::std_specs::ops::AddSpecImpl for Vec3<T> {
    open spec fn obeys_add_spec() -> bool {
        true
    }

    open spec fn add_req(self, other: Vec3<T>) -> bool {
        true
    }

    open spec fn add_spec(self, other: Vec3<T>) -> Vec3<T> {
        Vec3 { x: self.x.sum(other.x), y: self.y.sum(other.y), z: self.z.sum(other.z) }
    }
}

impl<T: Scalar> core::ops::Sub for Vec3<T> {
    type Output = Vec3<T>;

    /// The component-wise difference.
    fn sub(self, other: Vec3<T>) -> (r: Vec3<T>) {
        Vec3 { x: self.x.sub(other.x), y: self.y.sub(other.y), z: self.z.sub(other.z) }
    }
}

impl<T: Scalar> vstd::std_specs::ops::SubSpecImpl for Vec3<T> {
    open spec fn obeys_sub_spec() -> bool {
        true
    }

    open spec fn sub_req(self, other: Vec3<T>) -> bool {
        true
    }

    open spec fn sub_spec(self, other: Vec3<T>) -> Vec3<T> {
        Vec3 {
            x: self.x.difference(other.x),
            y: self.y.difference(other.y),
            z: self.z.difference(other.z),
        }
    }
}

impl<T: Scalar> core::ops::Mul<T> for Vec3<T> {
    type Output = Vec3<T>;

    /// All components multiplied by `scalar`.
    fn mul(self, scalar: T) -> (r: Vec3<T>) {
        Vec3 { x: self.x.mul(scalar), y: self.y.mul(scalar), z: self.z.mul(scalar) }
    }
}

impl<T: Scalar> vstd::std_specs::ops::MulSpecImpl<T> for Vec3<T> {
    open spec fn obeys_mul_spec() -> bool {
        true
    }

    open spec fn mul_req(self, scalar: T) -> bool {
        true
    }

    open spec fn mul_spec(self, scalar: T) -> Vec3<T> {
        self.scaled(scalar)
    }
}

impl<T: Scalar> core::ops::Div<T> for Vec3<T> {
    type Output = Vec3<T>;

    /// All components divided by `scalar`.
    fn div(self, scalar: T) -> (r: Vec3<T>) {
        Vec3 { x: self.x.div(scalar), y: self.y.div(scalar), z: self.z.div(scalar) }
    }
}

impl<T: Scalar> vstd::std_specs::ops::DivSpecImpl<T> for Vec3<T> {
    open spec fn obeys_div_spec() -> bool {
        true
    }

    open spec fn div_req(self, scalar: T) -> bool {
        true
    }

    open spec fn div_spec(self, scalar: T) -> Vec3<T> {
        Vec3 {
            x: self.x.quotient(scalar),
            y: self.y.quotient(scalar),
            z: self.z.quotient(scalar),
        }
    }
}

impl<T: Scalar> PartialEq for Vec3<T> {
    /// Whether all three pairs of components count as the same number.
    fn eq(&self, other: &Vec3<T>) -> (r: bool) {
        self.x.approx_eq(other.x) && self.y.approx_eq(other.y) && self.z.approx_eq(other.z)
    }
}

impl<T: Scalar> vstd::std_specs::cmp::PartialEqSpecImpl for Vec3<T> {
    open spec fn obeys_eq_spec() -> bool {
        true
    }

    open spec fn eq_spec(&self, other: &Vec3<T>) -> bool {
        self.approx_equal(*other)
    }
}

} // verus!
