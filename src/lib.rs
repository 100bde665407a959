//! Code generation for conversions between native structs and their C-ABI
//! counterparts.
//!
//! A struct declaration is described by the plain values of [`model`]. The
//! [`classify`] module decides, from a field's declared type and markers, how
//! the field is converted; [`render`] writes the two conversion impls as Rust
//! source text; [`laws`] states what the written conversions mean and proves
//! that they round-trip.
pub mod model;
pub mod text;
pub mod syntax;
pub mod classify;
pub mod render;
pub mod laws;
