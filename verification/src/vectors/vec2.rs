//! The vector of two components, `x` and `y`.
use crate::scalar::Scalar;
use crate::vectors::algebra::zero_extended;
use crate::vectors::vecn::VecN;
use vstd::prelude::*;

verus! {

/// A vector in the plane.
#[derive(Debug)]
pub struct Vec2<T> {
    pub x: T,
    pub y: T,
}

impl<T: Copy> Clone for Vec2<T> {
    fn clone(&self) -> (r: Self)
        ensures
            r == *self,
    {
        *self
    }
}

impl<T: Copy> Copy for Vec2<T> {

}

impl<T> View for Vec2<T> {
    type V = Seq<T>;

    /// The components in index order: `x`, then `y`.
    open spec fn view(&self) -> Seq<T> {
        seq![self.x, self.y]
    }
}

impl<T: Scalar> Vec2<T> {
    /// `x * x' + y * y'`.
    pub open spec fn dot_value(self, other: Vec2<T>) -> T {
        self.x.product(other.x).sum(self.y.product(other.y))
    }

    /// The root of the vector's dot product with itself.
    pub open spec fn length_value(self) -> T {
        self.dot_value(self).square_root()
    }

    /// Both components multiplied by `scalar`, the component on the left.
    pub open spec fn scaled(self, scalar: T) -> Vec2<T> {
        Vec2 { x: self.x.product(scalar), y: self.y.product(scalar) }
    }

    /// Whether both pairs of components count as the same number.
    pub open spec fn approx_equal(self, other: Vec2<T>) -> bool {
        self.x.approx_equal(other.x) && self.y.approx_equal(other.y)
    }

    /// The zero vector.
    pub fn new() -> (r: Vec2<T>)
        ensures
            r.x == T::zero_value(),
            r.y == T::zero_value(),
    {
        Vec2::from(T::zero(), T::zero())
    }

    /// The vector `(x, y)`.
    pub fn from(x: T, y: T) -> (r: Vec2<T>)
        ensures
            r.x == x,
            r.y == y,
    {
        Vec2 { x, y }
    }

    /// The dot product with `other`.
    pub fn dot(self, other: Vec2<T>) -> (r: T)
        ensures
            r == self.dot_value(other),
    {
        self.x.mul(other.x).add(self.y.mul(other.y))
    }

    /// The projection of this vector onto the direction of `other`:
    /// `other` scaled by `(self . other) / (other . other)`.
    pub fn project(self, other: Vec2<T>) -> (r: Vec2<T>)
        ensures
            r == other.scaled(self.dot_value(other).quotient(other.dot_value(other))),
    {
        other * self.dot(other).div(other.dot(other))
    }

    /// The Euclidean length.
    pub fn length(self) -> (r: T)
        ensures
            r == self.length_value(),
    {
        self.dot(self).sqrt()
    }

    /// The vector `(y, -x)`, at a right angle to this one. The plane has no
    /// cross product, and this is not one: it is the vector turned by a
    /// quarter.
    pub fn cross(self) -> (r: Vec2<T>)
        ensures
            r.x == self.y,
            r.y == self.x.negation(),
    {
        Vec2 { x: self.y, y: self.x.neg() }
    }

    /// The component at `index`: `x` at 0, `y` at 1.
    pub fn index(&self, index: usize) -> (r: &T)
        requires
            index < 2,
        ensures
            *r == self@[index as int],
    {
        if index == 0 {
            &self.x
        } else if index == 1 {
            &self.y
        } else {
            vstd::pervasive::unreached()
        }
    }

    /// The place of the component at `index`: what is assigned through it
    /// becomes that component, and the other stays.
    pub fn index_mut(&mut self, index: usize) -> (r: &mut T)
        requires
            index < 2,
        ensures
            *r == old(self)@[index as int],
            final(self)@ == old(self)@.update(index as int, *final(r)),
    {
        if index == 0 {
            &mut self.x
        } else if index == 1 {
            &mut self.y
        } else {
            vstd::pervasive::unreached()
        }
    }

    /// The vector of `N >= 2` components that starts with `x` and `y` and is
    /// zero from there on.
    pub fn widen<const N: usize>(self) -> (r: VecN<T, N>)
        requires
            N >= 2,
        ensures
            r@ == zero_extended(self@, N as nat),
    {
        let mut vals = [T::zero(); N];
        vals[0] = self.x;
        vals[1] = self.y;
        VecN { vals }
    }
}

impl<T: Scalar> From<[T; 2]> for Vec2<T> {
    /// The vector with the given components.
    fn from(vals: [T; 2]) -> (r: Vec2<T>) {
        Vec2 { x: vals[0], y: vals[1] }
    }
}

impl<T: Scalar> vstd::std_specs::convert::FromSpecImpl<[T; 2]> for Vec2<T> {
    open spec fn obeys_from_spec() -> bool {
        true
    }

    open spec fn from_spec(vals: [T; 2]) -> Vec2<T> {
        Vec2 { x: vals[0], y: vals[1] }
    }
}

impl<T: Scalar> From<VecN<T, 2>> for Vec2<T> {
    /// The vector with the same two components.
    fn from(v: VecN<T, 2>) -> (r: Vec2<T>) {
        Vec2 { x: v.vals[0], y: v.vals[1] }
    }
}

impl<T: Scalar> vstd::std_specs::convert::FromSpecImpl<VecN<T, 2>> for Vec2<T> {
    open spec fn obeys_from_spec() -> bool {
        true
    }

    open spec fn from_spec(v: VecN<T, 2>) -> Vec2<T> {
        Vec2 { x: v@[0], y: v@[1] }
    }
}

impl<T: Scalar> core::ops::Add for Vec2<T> {
    type Output = Vec2<T>;

    /// The component-wise sum.
    fn add(self, other: Vec2<T>) -> (r: Vec2<T>) {
        Vec2 { x: self.x.add(other.x), y: self.y.add(other.y) }
    }
}

impl<T: Scalar> vstd::std_specs::ops::AddSpecImpl for Vec2<T> {
    open spec fn obeys_add_spec() -> bool {
        true
    }

    open spec fn add_req(self, other: Vec2<T>) -> bool {
        true
    }

    open spec fn add_spec(self, other: Vec2<T>) -> Vec2<T> {
        Vec2 { x: self.x.sum(other.x), y: self.y.sum(other.y) }
    }
}

impl<T: Scalar> core::ops::Sub for Vec2<T> {
    type Output = Vec2<T>;

    /// The component-wise difference.
    fn sub(self, other: Vec2<T>) -> (r: Vec2<T>) {
        Vec2 { x: self.x.sub(other.x), y: self.y.sub(other.y) }
    }
}

impl<T: Scalar> vstd::std_specs::ops::SubSpecImpl for Vec2<T> {
    open spec fn obeys_sub_spec() -> bool {
        true
    }

    open spec fn sub_req(self, other: Vec2<T>) -> bool {
        true
    }

    open spec fn sub_spec(self, other: Vec2<T>) -> Vec2<T> {
        Vec2 { x: self.x.difference(other.x), y: self.y.difference(other.y) }
    }
}

impl<T: Scalar> core::ops::Mul<T> for Vec2<T> {
    type Output = Vec2<T>;

    /// Both components multiplied by `scalar`.
    fn mul(self, scalar: T) -> (r: Vec2<T>) {
        Vec2 { x: self.x.mul(scalar), y: self.y.mul(scalar) }
    }
}

impl<T: Scalar> vstd::std_specs::ops::MulSpecImpl<T> for Vec2<T> {
    open spec fn obeys_mul_spec() -> bool {
        true
    }

    open spec fn mul_req(self, scalar: T) -> bool {
        true
    }

    open spec fn mul_spec(self, scalar: T) -> Vec2<T> {
        self.scaled(scalar)
    }
}

impl<T: Scalar> core::ops::Div<T> for Vec2<T> {
    type Output = Vec2<T>;

    /// Both components divided by `scalar`.
    fn div(self, scalar: T) -> (r: Vec2<T>) {
        Vec2 { x: self.x.div(scalar), y: self.y.div(scalar) }
    }
}

impl<T: Scalar> vstd::std_specs::ops::DivSpecImpl<T> for Vec2<T> {
    open spec fn obeys_div_spec() -> bool {
        true
    }

    open spec fn div_req(self, scalar: T) -> bool {
        true
    }

    open spec fn div_spec(self, scalar: T) -> Vec2<T> {
        Vec2 { x: self.x.quotient(scalar), y: self.y.quotient(scalar) }
    }
}

impl<T: Scalar> PartialEq for Vec2<T> {
    /// Whether both pairs of components count as the same number.
    fn eq(&self, other: &Vec2<T>) -> (r: bool) {
        self.x.approx_eq(other.x) && self.y.approx_eq(other.y)
    }
}

impl<T: Scalar> vstd::std_specs::cmp::PartialEqSpecImpl for Vec2<T> {
    open spec fn obeys_eq_spec() -> bool {
        true
    }

    open spec fn eq_spec(&self, other: &Vec2<T>) -> bool {
        self.approx_equal(*other)
    }
}

} // verus!
