//! Pieces of generated code, as data.

pub mod parameter_ffi_call_in;
