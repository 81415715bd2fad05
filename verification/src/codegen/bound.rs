//! The text that a generic bound contributes to a wrapper's signature.

use crate::analysis::bounds::{Bound, BoundError, BoundType, BoundView};
use crate::analysis::ref_mode::RefMode;
use crate::library::Nullable;
use vstd::pervasive::unreached;
use vstd::prelude::*;
use vstd::string::*;

verus! {

/// What follows a capability in a trait bound: for an asynchronous call the
/// requirement that the value can be copied and outlives everything, else the
/// declared lifetime, if there is one.
pub open spec fn scope_suffix(is_async: bool, lifetime: Option<char>) -> Seq<char> {
    if is_async {
        " + Clone + 'static"@
    } else {
        match lifetime {
            Some(l) => " + '"@.push(l),
            None => Seq::empty(),
        }
    }
}

/// The lifetime written behind a reference prefix: none where there is no
/// prefix, `'static` for an asynchronous call, else the declared lifetime
/// after a space.
pub open spec fn lifetime_post(prefix: Seq<char>, lifetime: char, is_async: bool) -> Seq<char> {
    if prefix.len() == 0 {
        Seq::empty()
    } else if is_async {
        "'static"@
    } else {
        " '"@.push(lifetime)
    }
}

impl BoundView {
    /// The name under which code refers to the type parameter: its alias.
    pub open spec fn reference(self) -> char {
        self.alias
    }

    /// The form under which a value of the type parameter is named in a call,
    /// for a value passed in mode `ref_mode` that may be absent if `nullable`
    /// says so.
    pub open spec fn full_reference(
        self,
        ref_mode: RefMode,
        nullable: Nullable,
        is_async: bool,
    ) -> Seq<char> {
        let prefix = ref_mode.prefix();
        match self.bound_type {
            BoundType::IsA(_) => if nullable.0 {
                "Option<"@ + prefix.push(self.alias) + ">"@
            } else {
                prefix.push(self.alias)
            },
            BoundType::ToGlibPtr(_, Some(lifetime)) => prefix + lifetime_post(
                prefix,
                lifetime,
                is_async,
            ) + " "@.push(self.alias),
            BoundType::NoWrapper | BoundType::ToGlibPtr(_, None) | BoundType::AsRef(_) => seq![
                self.alias,
            ],
        }
    }

    /// The defect, if any, that keeps this bound from having a trait bound.
    pub open spec fn violation(self, is_async: bool) -> Option<BoundError> {
        match self.bound_type {
            BoundType::NoWrapper => None,
            BoundType::IsA(lifetime) => if is_async && lifetime is Some {
                Some(BoundError::AsyncWithLifetime)
            } else {
                None
            },
            BoundType::AsRef(lifetime) => if lifetime is Some {
                Some(BoundError::AsRefWithLifetime)
            } else {
                None
            },
            BoundType::ToGlibPtr(_, lifetime) => if lifetime is None {
                Some(BoundError::MissingLifetime)
            } else if is_async {
                Some(BoundError::AsyncWithLifetime)
            } else {
                None
            },
        }
    }

    /// The trait bound of a bound that has no defect.
    pub open spec fn trait_bound_text(self, is_async: bool) -> Seq<char>
        recommends
            self.violation(is_async) is None,
    {
        match self.bound_type {
            BoundType::NoWrapper => self.type_str,
            BoundType::IsA(lifetime) => "IsA<"@ + self.type_str + ">"@ + scope_suffix(
                is_async,
                lifetime,
            ),
            BoundType::AsRef(_) => "AsRef<"@ + self.type_str + ">"@,
            BoundType::ToGlibPtr(mutable, lifetime) => "ToGlibPtr<'"@.push(lifetime.unwrap()) + ", *"@
                + (if mutable {
                "mut"@
            } else {
                "const"@
            }) + " libc::c_char> + ?Sized"@ + scope_suffix(is_async, lifetime),
        }
    }

    /// The definition of the type parameter of a bound that has no defect:
    /// the alias, a colon and the trait bound.
    pub open spec fn definition_text(self, is_async: bool) -> Seq<char>
        recommends
            self.violation(is_async) is None,
    {
        seq![self.alias] + ": "@ + self.trait_bound_text(is_async)
    }
}

/// The text of [`scope_suffix`].
fn scope_suffix_string(is_async: bool, lifetime: Option<char>) -> (s: String)
    ensures
        s@ == scope_suffix(is_async, lifetime),
{
    if is_async {
        String::from_str(" + Clone + 'static")
    } else {
        match lifetime {
            Some(l) => {
                let mut s = String::from_str(" + '");
                s.push(l);
                s
            },
            None => String::new(),
        }
    }
}

impl Bound {
    /// The name under which code refers to the type parameter.
    pub fn type_parameter_reference(&self) -> (c: char)
        ensures
            c == self@.reference(),
    {
        self.alias
    }

    /// The form under which a value of the type parameter is named in a call:
    /// for a subtype bound the alias behind the reference prefix, inside
    /// `Option<..>` if the value may be absent; for a raw-pointer bound with a
    /// lifetime the prefix, the lifetime and the alias; else the alias alone.
    pub fn full_type_parameter_reference(
        &self,
        ref_mode: RefMode,
        nullable: Nullable,
        is_async: bool,
    ) -> (s: String)
        ensures
            s@ == self@.full_reference(ref_mode, nullable, is_async),
    {
        let t = self.type_parameter_reference();
        let ref_str = ref_mode.for_rust_type();
        match self.bound_type {
            BoundType::IsA(_) => {
                if nullable.0 {
                    let mut s = String::from_str("Option<");
                    let mut inner = String::from_str(ref_str);
                    inner.push(t);
                    s.append(inner.as_str());
                    s.append(">");
                    s
                } else {
                    let mut s = String::from_str(ref_str);
                    s.push(t);
                    s
                }
            },
            BoundType::ToGlibPtr(_, Some(lifetime)) => {
                let mut s = String::from_str(ref_str);
                if ref_str.is_empty() {
                } else if is_async {
                    s.append("'static");
                } else {
                    let mut post = String::from_str(" '");
                    post.push(lifetime);
                    s.append(post.as_str());
                }
                let mut last = String::from_str(" ");
                last.push(t);
                s.append(last.as_str());
                s
            },
            BoundType::NoWrapper | BoundType::ToGlibPtr(_, _) | BoundType::AsRef(_) => {
                let mut s = String::new();
                s.push(t);
                s
            },
        }
    }

    /// The defect, if any, that keeps this bound from having a trait bound
    /// in a call that is asynchronous or not. A bound with a defect marks an
    /// error in what produced it; no text is generated for the function it
    /// belongs to.
    pub fn violation(&self, is_async: bool) -> (v: Option<BoundError>)
        ensures
            v == self@.violation(is_async),
    {
        match self.bound_type {
            BoundType::NoWrapper => None,
            BoundType::IsA(lifetime) => if is_async && lifetime.is_some() {
                Some(BoundError::AsyncWithLifetime)
            } else {
                None
            },
            BoundType::AsRef(Some(_)) => Some(BoundError::AsRefWithLifetime),
            BoundType::AsRef(None) => None,
            BoundType::ToGlibPtr(_, None) => Some(BoundError::MissingLifetime),
            BoundType::ToGlibPtr(_, Some(_)) => if is_async {
                Some(BoundError::AsyncWithLifetime)
            } else {
                None
            },
        }
    }

    /// The definition of the type parameter, such as `T: IsA<Foo>`.
    pub fn type_parameter_definition(&self, is_async: bool) -> (s: String)
        requires
            self@.violation(is_async) is None,
        ensures
            s@ == self@.definition_text(is_async),
    {
        let bound = self.trait_bound(is_async);
        let mut s = String::new();
        s.push(self.alias);
        s.append(": ");
        s.append(bound.as_str());
        s
    }

    /// The trait bound of the type parameter, such as `IsA<Foo> + 'a`.
    ///
    /// Only a bound without a defect has one; [`Bound::violation`] tells.
    pub fn trait_bound(&self, is_async: bool) -> (s: String)
        requires
            self@.violation(is_async) is None,
        ensures
            s@ == self@.trait_bound_text(is_async),
    {
        match self.bound_type {
            BoundType::NoWrapper => self.type_str.clone(),
            BoundType::IsA(lifetime) => {
                let mut s = String::from_str("IsA<");
                s.append(self.type_str.as_str());
                s.append(">");
                let suffix = scope_suffix_string(is_async, lifetime);
                s.append(suffix.as_str());
                s
            },
            BoundType::AsRef(None) => {
                let mut s = String::from_str("AsRef<");
                s.append(self.type_str.as_str());
                s.append(">");
                s
            },
            BoundType::ToGlibPtr(mutable, Some(lifetime)) => {
                let modif = if mutable {
                    "mut"
                } else {
                    "const"
                };
                let mut s = String::from_str("ToGlibPtr<'");
                s.push(lifetime);
                s.append(", *");
                s.append(modif);
                s.append(" libc::c_char> + ?Sized");
                let suffix = scope_suffix_string(is_async, Some(lifetime));
                s.append(suffix.as_str());
                s
            },
            BoundType::AsRef(Some(_)) | BoundType::ToGlibPtr(_, None) => unreached(),
        }
    }
}

/// Whether `text` is some text inside `Option<..>`.
pub open spec fn is_optional(text: Seq<char>) -> bool {
    exists|inner: Seq<char>| text == "Option<"@ + inner + ">"@
}

/// For a subtype bound, the reference is the alias behind the reference
/// prefix of the mode, which is empty, `&` or `&mut`, and it stands inside
/// `Option<..>` exactly when the value may be absent.
pub proof fn lemma_subtype_reference(
    bound: BoundView,
    ref_mode: RefMode,
    nullable: Nullable,
    is_async: bool,
)
    requires
        bound.bound_type is IsA,
    ensures
        ref_mode.prefix() == match ref_mode {
            RefMode::ByValue | RefMode::ByRefFake => Seq::<char>::empty(),
            RefMode::ByRef | RefMode::ByRefImmut | RefMode::ByRefConst => seq!['&'],
            RefMode::ByRefMut => seq!['&', 'm', 'u', 't'],
        },
        nullable.0 ==> bound.full_reference(ref_mode, nullable, is_async) == "Option<"@
            + ref_mode.prefix().push(bound.alias) + ">"@,
        !nullable.0 ==> bound.full_reference(ref_mode, nullable, is_async)
            == ref_mode.prefix().push(bound.alias),
        is_optional(bound.full_reference(ref_mode, nullable, is_async)) <==> nullable.0,
{
    reveal_strlit("&");
    reveal_strlit("&mut");
    reveal_strlit("Option<");
    reveal_strlit(">");
    let text = bound.full_reference(ref_mode, nullable, is_async);
    let plain = ref_mode.prefix().push(bound.alias);
    assert(ref_mode.prefix() =~= match ref_mode {
        RefMode::ByValue | RefMode::ByRefFake => Seq::<char>::empty(),
        RefMode::ByRef | RefMode::ByRefImmut | RefMode::ByRefConst => seq!['&'],
        RefMode::ByRefMut => seq!['&', 'm', 'u', 't'],
    });
    if nullable.0 {
        assert(text == "Option<"@ + plain + ">"@);
    } else {
        assert(text.len() <= 5);
        assert forall|inner: Seq<char>| text != #[trigger] ("Option<"@ + inner + ">"@) by {
            assert(("Option<"@ + inner + ">"@).len() >= 8);
        }
    }
}

/// Asking twice for the reference gives the same text: whatever two calls
/// on bounds of the same content and with the same arguments return, the
/// results are equal, character by character.
pub proof fn lemma_full_type_parameter_reference_repeatable(
    a: Bound,
    b: Bound,
    ref_mode: RefMode,
    nullable: Nullable,
    is_async: bool,
    first: String,
    second: String,
)
    requires
        a@ == b@,
        call_ensures(
            Bound::full_type_parameter_reference,
            (&a, ref_mode, nullable, is_async),
            first,
        ),
        call_ensures(
            Bound::full_type_parameter_reference,
            (&b, ref_mode, nullable, is_async),
            second,
        ),
    ensures
        first@ == second@,
{
}

/// Asking twice for the trait bound gives the same text: whatever two calls
/// on bounds of the same content, without a defect, and with the same
/// argument return, the results are equal, character by character.
pub proof fn lemma_trait_bound_repeatable(
    a: Bound,
    b: Bound,
    is_async: bool,
    first: String,
    second: String,
)
    requires
        a@ == b@,
        a@.violation(is_async) is None,
        call_ensures(Bound::trait_bound, (&a, is_async), first),
        call_ensures(Bound::trait_bound, (&b, is_async), second),
    ensures
        first@ == second@,
{
}

/// Asking twice for the definition gives the same text: whatever two calls
/// on bounds of the same content, without a defect, and with the same
/// argument return, the results are equal, character by character.
pub proof fn lemma_type_parameter_definition_repeatable(
    a: Bound,
    b: Bound,
    is_async: bool,
    first: String,
    second: String,
)
    requires
        a@ == b@,
        a@.violation(is_async) is None,
        call_ensures(Bound::type_parameter_definition, (&a, is_async), first),
        call_ensures(Bound::type_parameter_definition, (&b, is_async), second),
    ensures
        first@ == second@,
{
}

/// Which bounds have no trait bound, whatever their alias and type name: one
/// on `AsRef` that names a lifetime, one on `ToGlibPtr` that names none, and,
/// in an asynchronous call, one on `IsA` or `ToGlibPtr` that names a
/// lifetime. None of them meets what [`Bound::trait_bound`] and
/// [`Bound::type_parameter_definition`] require.
pub proof fn lemma_defective_bounds(bound: BoundView, is_async: bool)
    ensures
        (bound.bound_type matches BoundType::AsRef(Some(_))) ==> bound.violation(is_async) == Some(
            BoundError::AsRefWithLifetime,
        ),
        (bound.bound_type matches BoundType::ToGlibPtr(_, None)) ==> bound.violation(is_async)
            == Some(BoundError::MissingLifetime),
        is_async && (bound.bound_type matches BoundType::ToGlibPtr(_, Some(_)))
            ==> bound.violation(is_async) == Some(BoundError::AsyncWithLifetime),
        is_async && (bound.bound_type matches BoundType::IsA(Some(_))) ==> bound.violation(
            is_async,
        ) == Some(BoundError::AsyncWithLifetime),
        bound.violation(is_async) is None <==> match bound.bound_type {
            BoundType::NoWrapper => true,
            BoundType::IsA(lifetime) => !(is_async && lifetime is Some),
            BoundType::AsRef(lifetime) => lifetime is None,
            BoundType::ToGlibPtr(_, lifetime) => lifetime is Some && !is_async,
        },
{
}

} // verus!
