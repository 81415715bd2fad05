//! Resolved records of the type library: what the analysis reads of a
//! function, of a parameter and of a type.

use crate::analysis::type_kind::TypeKind;
use vstd::prelude::*;

verus! {

/// Who owns a value once it has crossed the boundary.
#[derive(Clone, Copy, Debug, PartialEq, Eq, Structural)]
pub enum Transfer {
    /// Nothing changes hands: the value is lent and the caller keeps it.
    Nothing,
    /// Only the container changes hands, not its elements.
    Container,
    /// The value moves to the callee.
    Full,
}

/// The way a parameter carries data.
#[derive(Clone, Copy, Debug, PartialEq, Eq, Structural)]
pub enum ParameterDirection {
    Unspecified,
    In,
    Out,
    InOut,
    Return,
}

/// What sort of callable a function record describes.
#[derive(Clone, Copy, Debug, PartialEq, Eq, Structural)]
pub enum FunctionKind {
    Constructor,
    Function,
    Method,
    Global,
}

/// Whether a value may be absent.
#[derive(Clone, Copy, Debug, PartialEq, Eq, Structural)]
pub struct Nullable(pub bool);

/// The place of a type in a [`Library`].
#[derive(Clone, Copy, Debug, PartialEq, Eq, Structural)]
pub struct TypeId {
    pub id: u32,
}

/// A parameter or a return value of a native function.
#[derive(Debug, PartialEq, Eq)]
pub struct Parameter {
    pub name: String,
    pub typ: TypeId,
    pub instance_parameter: bool,
    pub direction: ParameterDirection,
    pub transfer: Transfer,
    pub nullable: Nullable,
}

/// The mathematical content of a [`Parameter`].
pub ghost struct ParameterView {
    pub name: Seq<char>,
    pub typ: TypeId,
    pub instance_parameter: bool,
    pub direction: ParameterDirection,
    pub transfer: Transfer,
    pub nullable: Nullable,
}

impl View for Parameter {
    type V = ParameterView;

    open spec fn view(&self) -> ParameterView {
        ParameterView {
            name: self.name@,
            typ: self.typ,
            instance_parameter: self.instance_parameter,
            direction: self.direction,
            transfer: self.transfer,
            nullable: self.nullable,
        }
    }
}

impl Clone for Parameter {
    fn clone(&self) -> (r: Self)
        ensures
            r@ == self@,
    {
        Parameter {
            name: self.name.clone(),
            typ: self.typ,
            instance_parameter: self.instance_parameter,
            direction: self.direction,
            transfer: self.transfer,
            nullable: self.nullable,
        }
    }
}

/// A native function.
#[derive(Debug, PartialEq, Eq)]
pub struct Function {
    pub name: String,
    /// The symbol under which the native library exports the function.
    pub c_identifier: String,
    pub kind: FunctionKind,
    pub parameters: Vec<Parameter>,
    pub ret: Parameter,
}

/// The mathematical content of a [`Function`].
pub ghost struct FunctionView {
    pub name: Seq<char>,
    pub c_identifier: Seq<char>,
    pub kind: FunctionKind,
    pub parameters: Seq<ParameterView>,
    pub ret: ParameterView,
}

impl View for Function {
    type V = FunctionView;

    open spec fn view(&self) -> FunctionView {
        FunctionView {
            name: self.name@,
            c_identifier: self.c_identifier@,
            kind: self.kind,
            parameters: self.parameters@.map_values(|p: Parameter| p@),
            ret: self.ret@,
        }
    }
}

/// A class, with the functions declared on it in the order of declaration.
#[derive(Debug, PartialEq, Eq)]
pub struct Class {
    pub name: String,
    pub functions: Vec<Function>,
}

/// The mathematical content of a [`Class`].
pub ghost struct ClassView {
    pub name: Seq<char>,
    pub functions: Seq<FunctionView>,
}

impl View for Class {
    type V = ClassView;

    open spec fn view(&self) -> ClassView {
        ClassView { name: self.name@, functions: self.functions@.map_values(|f: Function| f@) }
    }
}

/// What the library knows of one type.
#[derive(Debug, PartialEq, Eq)]
pub struct Type {
    /// The name of the type in generated code.
    pub name: String,
    pub kind: TypeKind,
}

/// The mathematical content of a [`Type`].
pub ghost struct TypeView {
    pub name: Seq<char>,
    pub kind: TypeKind,
}

impl View for Type {
    type V = TypeView;

    open spec fn view(&self) -> TypeView {
        TypeView { name: self.name@, kind: self.kind }
    }
}

impl Type {
    /// The name of the type in generated code.
    pub fn to_rust_type(&self) -> (s: String)
        ensures
            s@ == self@.name,
    {
        self.name.clone()
    }

    /// The classification of the type.
    pub fn to_type_kind(&self) -> (k: TypeKind)
        ensures
            k == self@.kind,
    {
        self.kind
    }
}

/// The resolved types, each at the place that its [`TypeId`] names.
#[derive(Debug, PartialEq, Eq)]
pub struct Library {
    pub types: Vec<Type>,
}

/// The mathematical content of a [`Library`].
pub ghost struct LibraryView {
    pub types: Seq<TypeView>,
}

impl View for Library {
    type V = LibraryView;

    open spec fn view(&self) -> LibraryView {
        LibraryView { types: self.types@.map_values(|t: Type| t@) }
    }
}

impl LibraryView {
    /// Whether the library holds a type at `tid`.
    pub open spec fn has_type(self, tid: TypeId) -> bool {
        tid.id < self.types.len()
    }

    /// The type at `tid`.
    pub open spec fn type_(self, tid: TypeId) -> TypeView
        recommends
            self.has_type(tid),
    {
        self.types[tid.id as int]
    }

    /// Whether the library holds the type of the class and the return type
    /// of each of its functions.
    pub open spec fn resolves(self, class: ClassView, class_tid: TypeId) -> bool {
        &&& self.has_type(class_tid)
        &&& forall|i: int|
            0 <= i < class.functions.len() ==> self.has_type(
                (#[trigger] class.functions[i]).ret.typ,
            )
    }
}

impl Library {
    /// Whether the library holds a type at `tid`.
    pub fn contains(&self, tid: TypeId) -> (b: bool)
        ensures
            b == self@.has_type(tid),
    {
        (tid.id as usize) < self.types.len()
    }

    /// The type at `tid`.
    pub fn type_(&self, tid: TypeId) -> (t: &Type)
        requires
            self@.has_type(tid),
        ensures
            t@ == self@.type_(tid),
    {
        &self.types[tid.id as usize]
    }

    /// Whether the library holds the type of the class and the return type
    /// of each of its functions.
    pub fn resolves(&self, class: &Class, class_tid: TypeId) -> (b: bool)
        ensures
            b == self@.resolves(class@, class_tid),
    {
        if !self.contains(class_tid) {
            return false;
        }
        let mut i: usize = 0;
        while i < class.functions.len()
            invariant
                i <= class.functions.len(),
                self@.has_type(class_tid),
                forall|j: int|
                    0 <= j < i ==> self@.has_type((#[trigger] class@.functions[j]).ret.typ),
            decreases class.functions.len() - i,
        {
            if !self.contains(class.functions[i].ret.typ) {
                assert(class@.functions[i as int] == class.functions[i as int]@);
                return false;
            }
            i += 1;
        }
        true
    }
}

} // verus!
