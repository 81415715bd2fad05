//! Parameters as the analysis resolved them, and the conversions chosen for
//! them.

use crate::analysis::ref_mode::RefMode;
use crate::library::{Nullable, ParameterDirection, Transfer, TypeId};
use vstd::prelude::*;

verus! {

/// A parameter of the native function, with what the analysis found out
/// about it.
#[derive(Debug, PartialEq, Eq)]
pub struct CParameter {
    pub name: String,
    pub typ: TypeId,
    /// The type as the native declaration spells it.
    pub c_type: String,
    pub instance_parameter: bool,
    pub direction: ParameterDirection,
    pub nullable: Nullable,
    pub transfer: Transfer,
    pub caller_allocates: bool,
    pub is_error: bool,
    pub ref_mode: RefMode,
    pub is_into: bool,
    /// Text to put behind the name before the value is converted.
    pub to_glib_extra: String,
}

/// The mathematical content of a [`CParameter`].
pub ghost struct CParameterView {
    pub name: Seq<char>,
    pub typ: TypeId,
    pub c_type: Seq<char>,
    pub instance_parameter: bool,
    pub direction: ParameterDirection,
    pub nullable: Nullable,
    pub transfer: Transfer,
    pub caller_allocates: bool,
    pub is_error: bool,
    pub ref_mode: RefMode,
    pub is_into: bool,
    pub to_glib_extra: Seq<char>,
}

impl View for CParameter {
    type V = CParameterView;

    open spec fn view(&self) -> CParameterView {
        CParameterView {
            name: self.name@,
            typ: self.typ,
            c_type: self.c_type@,
            instance_parameter: self.instance_parameter,
            direction: self.direction,
            nullable: self.nullable,
            transfer: self.transfer,
            caller_allocates: self.caller_allocates,
            is_error: self.is_error,
            ref_mode: self.ref_mode,
            is_into: self.is_into,
            to_glib_extra: self.to_glib_extra@,
        }
    }
}

/// The conversion chosen for one parameter or return value.
///
/// The kinds up to `IntoRaw` turn a Rust value into what the native call
/// takes. `Into` and `Length` are steps that the analysis resolves before any
/// text is produced; they have no such expression.
#[derive(Debug, PartialEq, Eq)]
pub enum TransformationType {
    /// The value is passed as it is.
    ToGlibDirect { name: String },
    /// A scalar, converted to its native counterpart.
    ToGlibScalar { name: String, nullable: Nullable },
    /// A value handed over as a pointer.
    ToGlibPointer {
        name: String,
        instance_parameter: bool,
        transfer: Transfer,
        ref_mode: RefMode,
        /// Text to put behind the name before the value is converted.
        to_glib_extra: String,
        /// A cast to put behind the converted value.
        pointer_cast: String,
        /// The pointer type to convert to, where it has to be spelled out;
        /// empty otherwise.
        explicit_target_type: String,
    },
    /// A value whose stash was made earlier; the pointer is taken from it.
    ToGlibStash { name: String },
    /// A value that would have to be borrowed; no conversion exists for it.
    ToGlibBorrow,
    /// A value for which the analysis found no conversion.
    ToGlibUnknown { name: String },
    /// The value is wrapped in `Some`.
    ToSome(String),
    /// A boxed value whose allocation is given to the native side.
    IntoRaw(String),
    /// The value is first converted with `into`.
    Into { name: String, with_stash: bool },
    /// The length of an array parameter, computed from the array.
    Length { array_name: String, array_length_name: String, array_length_type: String },
}

/// The mathematical content of a [`TransformationType`].
pub ghost enum TransformationView {
    ToGlibDirect { name: Seq<char> },
    ToGlibScalar { name: Seq<char>, nullable: Nullable },
    ToGlibPointer {
        name: Seq<char>,
        instance_parameter: bool,
        transfer: Transfer,
        ref_mode: RefMode,
        to_glib_extra: Seq<char>,
        pointer_cast: Seq<char>,
        explicit_target_type: Seq<char>,
    },
    ToGlibStash { name: Seq<char> },
    ToGlibBorrow,
    ToGlibUnknown { name: Seq<char> },
    ToSome(Seq<char>),
    IntoRaw(Seq<char>),
    Into { name: Seq<char>, with_stash: bool },
    Length { array_name: Seq<char>, array_length_name: Seq<char>, array_length_type: Seq<char> },
}

impl View for TransformationType {
    type V = TransformationView;

    open spec fn view(&self) -> TransformationView {
        match *self {
            TransformationType::ToGlibDirect { name } => TransformationView::ToGlibDirect {
                name: name@,
            },
            TransformationType::ToGlibScalar { name, nullable } => TransformationView::ToGlibScalar {
                name: name@,
                nullable,
            },
            TransformationType::ToGlibPointer {
                name,
                instance_parameter,
                transfer,
                ref_mode,
                to_glib_extra,
                pointer_cast,
                explicit_target_type,
            } => TransformationView::ToGlibPointer {
                name: name@,
                instance_parameter,
                transfer,
                ref_mode,
                to_glib_extra: to_glib_extra@,
                pointer_cast: pointer_cast@,
                explicit_target_type: explicit_target_type@,
            },
            TransformationType::ToGlibStash { name } => TransformationView::ToGlibStash {
                name: name@,
            },
            TransformationType::ToGlibBorrow => TransformationView::ToGlibBorrow,
            TransformationType::ToGlibUnknown { name } => TransformationView::ToGlibUnknown {
                name: name@,
            },
            TransformationType::ToSome(name) => TransformationView::ToSome(name@),
            TransformationType::IntoRaw(name) => TransformationView::IntoRaw(name@),
            TransformationType::Into { name, with_stash } => TransformationView::Into {
                name: name@,
                with_stash,
            },
            TransformationType::Length {
                array_name,
                array_length_name,
                array_length_type,
            } => TransformationView::Length {
                array_name: array_name@,
                array_length_name: array_length_name@,
                array_length_type: array_length_type@,
            },
        }
    }
}

impl TransformationView {
    /// Whether the kind turns a Rust value into what the native call takes.
    pub open spec fn is_to_glib(self) -> bool {
        !(self is Into || self is Length)
    }
}

impl TransformationType {
    /// Whether the kind turns a Rust value into what the native call takes.
    pub fn is_to_glib(&self) -> (b: bool)
        ensures
            b == self@.is_to_glib(),
    {
        match self {
            TransformationType::Into { .. } | TransformationType::Length { .. } => false,
            _ => true,
        }
    }
}

} // verus!
