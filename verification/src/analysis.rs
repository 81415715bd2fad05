//! What the analysis hands to code generation.

pub mod bounds;
pub mod function_parameters;
pub mod functions;
pub mod ref_mode;
pub mod type_kind;
