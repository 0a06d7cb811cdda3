//! Conversion of a primitive integer to any other primitive integer type,
//! with the rules of the cast operator `as`.
pub mod as_prim;
mod cast_facts;
pub mod laws;
pub mod model;

pub use as_prim::{AsPrim, CastFrom, CastTo};
