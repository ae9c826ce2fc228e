//! A three-component vector value type with exact construction contracts and
//! integer dot and cross products whose algebraic laws are proved.

pub mod vec3;

pub use vec3::{ConversionError, Vec3};
