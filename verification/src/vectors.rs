//! Vectors of a fixed dimension: the general `VecN` and the two- and
//! three-component forms with named fields.
pub mod algebra;
pub mod integer;
pub mod laws;
pub mod vec2;
pub mod vec3;
pub mod vecn;

pub use vec2::Vec2;
pub use vec3::Vec3;
pub use vecn::VecN;
