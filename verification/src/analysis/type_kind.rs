//! The classification of a type, by the way its values cross the boundary.

use vstd::prelude::*;

verus! {

/// How values of a type are converted, as far as the type library can tell.
#[derive(Clone, Copy, Debug, PartialEq, Eq, Structural)]
pub enum TypeKind {
    /// A scalar with a native counterpart.
    Simple,
    /// An enumeration.
    Enumeration,
    /// A value handed over as a pointer.
    Pointer,
    /// An instance of a class.
    Object,
    /// An instance of anything that implements an interface.
    Interface,
    /// No classification is known for the type.
    Unknown,
}

} // verus!
