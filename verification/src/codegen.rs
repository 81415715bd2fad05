//! The text of the generated code.

pub mod bound;
pub mod translate_to_glib;
