//! Generic bounds of a wrapper function.

use vstd::prelude::*;

verus! {

/// The capability that a type parameter is bound by. A lifetime, where one is
/// present, is named by a single character, written without its quote.
#[derive(Clone, Copy, Debug, PartialEq, Eq, Structural)]
pub enum BoundType {
    /// The type itself, with no capability around it.
    NoWrapper,
    /// Any subtype of the type: `IsA<Type>`.
    IsA(Option<char>),
    /// Anything that converts to a reference to the type: `AsRef<Type>`.
    /// A well-formed bound of this kind has no lifetime.
    AsRef(Option<char>),
    /// Anything that can be handed over as a raw pointer, mutable if the flag
    /// is set. A well-formed bound of this kind has a lifetime.
    ToGlibPtr(bool, Option<char>),
}

/// One generic type parameter of a function.
#[derive(Debug, PartialEq, Eq)]
pub struct Bound {
    /// The single letter that names the type parameter.
    pub alias: char,
    pub bound_type: BoundType,
    /// The name of the type that the capability is about.
    pub type_str: String,
}

/// The mathematical content of a [`Bound`].
pub ghost struct BoundView {
    pub alias: char,
    pub bound_type: BoundType,
    pub type_str: Seq<char>,
}

impl View for Bound {
    type V = BoundView;

    open spec fn view(&self) -> BoundView {
        BoundView { alias: self.alias, bound_type: self.bound_type, type_str: self.type_str@ }
    }
}

impl Clone for Bound {
    fn clone(&self) -> (r: Self)
        ensures
            r@ == self@,
    {
        Bound { alias: self.alias, bound_type: self.bound_type, type_str: self.type_str.clone() }
    }
}

/// Why a bound has no trait bound to declare. Each of these marks a defect in
/// what produced the bound; no text is generated from such a bound.
#[derive(Clone, Copy, Debug, PartialEq, Eq, Structural)]
pub enum BoundError {
    /// The call is asynchronous and the bound names a lifetime.
    AsyncWithLifetime,
    /// A bound on `AsRef` names a lifetime.
    AsRefWithLifetime,
    /// A bound on `ToGlibPtr` names no lifetime.
    MissingLifetime,
}

} // verus!
