//! How a value is passed at the call site.

use vstd::prelude::*;

verus! {

/// The way a parameter is passed to the wrapper.
#[derive(Clone, Copy, Debug, PartialEq, Eq, Structural)]
pub enum RefMode {
    /// By value, with no reference at all.
    ByValue,
    /// By shared reference.
    ByRef,
    /// By mutable reference.
    ByRefMut,
    /// By shared reference, although the native side declares the pointer mutable.
    ByRefImmut,
    /// By shared reference, although the native side declares the pointer
    /// constant in a way the conversion does not produce.
    ByRefConst,
    /// By value, for a type that is only formally a reference.
    ByRefFake,
}

impl RefMode {
    /// What stands in front of a type or a value passed in this mode:
    /// nothing, `&` or `&mut`.
    pub open spec fn prefix(self) -> Seq<char> {
        match self {
            RefMode::ByValue | RefMode::ByRefFake => Seq::empty(),
            RefMode::ByRef | RefMode::ByRefImmut | RefMode::ByRefConst => "&"@,
            RefMode::ByRefMut => "&mut"@,
        }
    }

    /// The reference prefix of this mode, as it is written in a Rust type.
    pub fn for_rust_type(self) -> (s: &'static str)
        ensures
            s@ == self.prefix(),
    {
        proof {
            reveal_strlit("");
        }
        match self {
            RefMode::ByValue | RefMode::ByRefFake => "",
            RefMode::ByRef | RefMode::ByRefImmut | RefMode::ByRefConst => "&",
            RefMode::ByRefMut => "&mut",
        }
    }
}

} // verus!
