//! What code generation needs to know of each function of a class.

use crate::analysis::type_kind::TypeKind;
use crate::env::{Env, EnvView};
use crate::library::{Class, Function, FunctionKind, FunctionView, Parameter, ParameterView, TypeId};
use vstd::prelude::*;

verus! {

/// What is known of one function after analysis.
#[derive(Debug, PartialEq, Eq)]
pub struct Info {
    pub name: String,
    /// The symbol under which the native library exports the function.
    pub glib_name: String,
    pub kind: FunctionKind,
    /// Whether the return type has no known classification. The body of such
    /// a function is generated as a comment, for a person to complete.
    pub comented: bool,
    /// The name, in generated code, of the class that the function belongs to.
    pub class_name: String,
    pub ret: Parameter,
}

/// The mathematical content of an [`Info`].
pub ghost struct InfoView {
    pub name: Seq<char>,
    pub glib_name: Seq<char>,
    pub kind: FunctionKind,
    pub comented: bool,
    pub class_name: Seq<char>,
    pub ret: ParameterView,
}

impl View for Info {
    type V = InfoView;

    open spec fn view(&self) -> InfoView {
        InfoView {
            name: self.name@,
            glib_name: self.glib_name@,
            kind: self.kind,
            comented: self.comented,
            class_name: self.class_name@,
            ret: self.ret@,
        }
    }
}

/// What analysis finds of the function `func` of the class at `class_tid`:
/// its names, kind and return value as declared, the name of the class, and
/// the mark on a return type without a known classification.
pub open spec fn function_info(env: EnvView, func: FunctionView, class_tid: TypeId) -> InfoView
    recommends
        env.library.has_type(class_tid),
        env.library.has_type(func.ret.typ),
{
    InfoView {
        name: func.name,
        glib_name: func.c_identifier,
        kind: func.kind,
        comented: env.library.type_(func.ret.typ).kind == TypeKind::Unknown,
        class_name: env.library.type_(class_tid).name,
        ret: func.ret,
    }
}

/// Analyses the functions declared on the class `type_`, whose type is at
/// `class_tid`: one [`Info`] for each, in the order of declaration.
///
/// A function whose return type has no known classification is kept and
/// marked, not left out.
pub fn analyze(env: &Env, type_: &Class, class_tid: TypeId) -> (funcs: Vec<Info>)
    requires
        env@.library.resolves(type_@, class_tid),
    ensures
        funcs@.len() == type_@.functions.len(),
        forall|i: int|
            0 <= i < funcs@.len() ==> (#[trigger] funcs@[i])@ == function_info(
                env@,
                type_@.functions[i],
                class_tid,
            ),
{
    let mut funcs: Vec<Info> = Vec::new();
    let mut i: usize = 0;
    while i < type_.functions.len()
        invariant
            i <= type_.functions.len(),
            env@.library.resolves(type_@, class_tid),
            funcs@.len() == i,
            forall|j: int|
                0 <= j < i ==> (#[trigger] funcs@[j])@ == function_info(
                    env@,
                    type_@.functions[j],
                    class_tid,
                ),
        decreases type_.functions.len() - i,
    {
        let func = &type_.functions[i];
        assert(type_@.functions[i as int] == func@);
        let info = analyze_function(env, func, class_tid);
        funcs.push(info);
        i += 1;
    }
    funcs
}

/// Analyses one function of the class at `class_tid`.
pub fn analyze_function(env: &Env, type_: &Function, class_tid: TypeId) -> (info: Info)
    requires
        env@.library.has_type(class_tid),
        env@.library.has_type(type_@.ret.typ),
    ensures
        info@ == function_info(env@, type_@, class_tid),
{
    let klass = env.library.type_(class_tid);
    let type_ret = env.library.type_(type_.ret.typ);
    let commented = match type_ret.to_type_kind() {
        TypeKind::Unknown => true,
        _ => false,
    };
    Info {
        name: type_.name.clone(),
        glib_name: type_.c_identifier.clone(),
        kind: type_.kind,
        comented: commented,
        class_name: klass.to_rust_type(),
        ret: type_.ret.clone(),
    }
}

} // verus!
