//! The translation core of a binding generator for a C-style object library.
//!
//! Given resolved descriptors of functions, parameters and generic bounds, the
//! crate computes the text fragments that a generated wrapper needs: the trait
//! bound a type parameter declares, the form under which a generic value is
//! named at the call site, and the expression that turns a Rust value into
//! what the native call expects. Every function here is pure; its contract
//! gives the exact text as a sequence of characters.

pub mod analysis;
pub mod chunk;
pub mod codegen;
pub mod env;
pub mod library;
pub mod text;
