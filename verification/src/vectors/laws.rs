//! Laws that the vector operations obey together.
use crate::scalar::{approx_equal_is_reflexive, has_units, subtraction_cancels, Scalar};
use crate::vectors::algebra::{dot_prefix, dot_product, seq_difference, seq_sum};
use crate::vectors::vec2::Vec2;
use crate::vectors::vec3::Vec3;
use crate::vectors::vecn::{lemma_vector_exists, lemma_vector_of, VecN};
use vstd::prelude::*;
use vstd::std_specs::cmp::PartialEqSpec;
use vstd::std_specs::ops::{AddSpec, SubSpec};

verus! {

/// Adding `b` component by component and then subtracting it again gives
/// back `a`, where subtraction undoes addition on the scalars.
pub proof fn lemma_seq_add_then_sub<T: Scalar>(a: Seq<T>, b: Seq<T>)
    requires
        subtraction_cancels::<T>(),
    ensures
        seq_difference(seq_sum(a, b), b) == a,
{
}

/// `a + b - b` is `a`, where subtraction undoes addition on the scalars.
pub proof fn lemma_add_then_sub<T: Scalar, const N: usize>(a: VecN<T, N>, b: VecN<T, N>)
    requires
        subtraction_cancels::<T>(),
    ensures
        a.add_spec(b).sub_spec(b) == a,
{
    lemma_vector_exists::<T, N>(seq_sum(a@, b@));
    lemma_seq_add_then_sub(a@, b@);
    lemma_vector_of(a);
}

/// `a + b - b` compares equal to `a`, where subtraction undoes addition on
/// the scalars and every scalar counts as the same number as itself.
pub proof fn lemma_add_then_sub_compares_equal<T: Scalar, const N: usize>(
    a: VecN<T, N>,
    b: VecN<T, N>,
)
    requires
        subtraction_cancels::<T>(),
        approx_equal_is_reflexive::<T>(),
    ensures
        a.add_spec(b).sub_spec(b).eq_spec(&a),
{
    lemma_add_then_sub(a, b);
}

/// Where zero is neutral for addition, the dot product of two-component
/// vectors with named fields is that of the same components in a `VecN`.
pub proof fn lemma_vec2_dot_agrees<T: Scalar>(a: Vec2<T>, b: Vec2<T>)
    requires
        has_units::<T>(),
    ensures
        a.dot_value(b) == dot_product(a@, b@),
{
    reveal_with_fuel(dot_prefix, 3);
}

/// Where zero is neutral for addition, the dot product of three-component
/// vectors with named fields is that of the same components in a `VecN`.
pub proof fn lemma_vec3_dot_agrees<T: Scalar>(a: Vec3<T>, b: Vec3<T>)
    requires
        has_units::<T>(),
    ensures
        a.dot_value(b) == dot_product(a@, b@),
{
    reveal_with_fuel(dot_prefix, 4);
}

} // verus!
