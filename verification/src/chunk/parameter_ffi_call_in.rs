//! A parameter as it stands in the call of the native function.

use crate::analysis::function_parameters::{CParameter, CParameterView};
use crate::analysis::ref_mode::RefMode;
use crate::library::{Nullable, ParameterDirection, Transfer, TypeId};
use vstd::prelude::*;

verus! {

/// What the call of the native function needs to know of one parameter.
#[derive(Debug, PartialEq, Eq)]
pub struct Parameter {
    pub name: String,
    pub typ: TypeId,
    /// Whether this is the receiver, which generated code names `self`.
    pub instance_parameter: bool,
    pub direction: ParameterDirection,
    pub transfer: Transfer,
    pub nullable: Nullable,
    pub ref_mode: RefMode,
    /// Text to put behind the name before the value is converted.
    pub to_glib_extra: String,
    /// Whether the value is first converted with `into`.
    pub is_into: bool,
}

/// The mathematical content of a [`Parameter`].
pub ghost struct ParameterView {
    pub name: Seq<char>,
    pub typ: TypeId,
    pub instance_parameter: bool,
    pub direction: ParameterDirection,
    pub transfer: Transfer,
    pub nullable: Nullable,
    pub ref_mode: RefMode,
    pub to_glib_extra: Seq<char>,
    pub is_into: bool,
}

impl View for Parameter {
    type V = ParameterView;

    open spec fn view(&self) -> ParameterView {
        ParameterView {
            name: self.name@,
            typ: self.typ,
            instance_parameter: self.instance_parameter,
            direction: self.direction,
            transfer: self.transfer,
            nullable: self.nullable,
            ref_mode: self.ref_mode,
            to_glib_extra: self.to_glib_extra@,
            is_into: self.is_into,
        }
    }
}

impl ParameterView {
    /// The part of an analysed parameter that the call needs.
    pub open spec fn of(orig: CParameterView) -> ParameterView {
        ParameterView {
            name: orig.name,
            typ: orig.typ,
            instance_parameter: orig.instance_parameter,
            direction: orig.direction,
            transfer: orig.transfer,
            nullable: orig.nullable,
            ref_mode: orig.ref_mode,
            to_glib_extra: orig.to_glib_extra,
            is_into: orig.is_into,
        }
    }
}

impl Clone for Parameter {
    fn clone(&self) -> (r: Self)
        ensures
            r@ == self@,
    {
        Parameter {
            name: self.name.clone(),
            typ: self.typ,
            instance_parameter: self.instance_parameter,
            direction: self.direction,
            transfer: self.transfer,
            nullable: self.nullable,
            ref_mode: self.ref_mode,
            to_glib_extra: self.to_glib_extra.clone(),
            is_into: self.is_into,
        }
    }
}

impl Parameter {
    /// Takes from an analysed parameter what the call needs.
    pub fn new(orig: &CParameter) -> (r: Parameter)
        ensures
            r@ == ParameterView::of(orig@),
    {
        Parameter {
            name: orig.name.clone(),
            typ: orig.typ,
            instance_parameter: orig.instance_parameter,
            direction: orig.direction,
            transfer: orig.transfer,
            nullable: orig.nullable,
            ref_mode: orig.ref_mode,
            to_glib_extra: orig.to_glib_extra.clone(),
            is_into: orig.is_into,
        }
    }
}

} // verus!
