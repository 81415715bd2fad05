//! The expression that turns a Rust value into what the native call takes.

use crate::analysis::function_parameters::{TransformationType, TransformationView};
use crate::analysis::ref_mode::RefMode;
use crate::library::Transfer;
use vstd::pervasive::unreached;
use vstd::prelude::*;
use vstd::string::*;

verus! {

/// Values that know the expression which hands them to the native side.
pub trait TranslateToGlib {
    /// Whether the value has such an expression.
    spec fn translatable(&self) -> bool;

    /// The expression of a value that has one.
    spec fn glib_translation(&self) -> Seq<char>
        recommends
            self.translatable(),
    ;

    /// Computes [`Self::glib_translation`] as text.
    fn translate_to_glib(&self) -> (s: String)
        requires
            self.translatable(),
        ensures
            s@ == self.glib_translation(),
    ;
}

/// What is written in front of and behind a value that is handed over as a
/// pointer.
///
/// A lent value is converted according to the way it is passed; for a shared
/// reference the target type is spelled out where one is given. A value that
/// changes hands is converted in the same way however it is passed.
///
/// A well-formed analysis lends no value by value, nor one that is a
/// reference in form alone. Both have their row all the same: the first is
/// converted like a mutable reference, the second is left as it is.
pub open spec fn pointer_affixes(
    transfer: Transfer,
    ref_mode: RefMode,
    explicit_target_type: Seq<char>,
) -> (Seq<char>, Seq<char>) {
    match transfer {
        Transfer::Nothing => match ref_mode {
            RefMode::ByValue => (Seq::empty(), ".to_glib_none_mut().0"@),
            RefMode::ByRef => if explicit_target_type.len() == 0 {
                (Seq::empty(), ".to_glib_none().0"@)
            } else {
                ("ToGlibPtr::<"@ + explicit_target_type + ">::to_glib_none("@, ").0"@)
            },
            RefMode::ByRefMut => (Seq::empty(), ".to_glib_none_mut().0"@),
            RefMode::ByRefImmut => ("mut_override("@, ".to_glib_none().0)"@),
            RefMode::ByRefConst => ("const_override("@, ".to_glib_none().0)"@),
            RefMode::ByRefFake => (Seq::empty(), Seq::empty()),
        },
        Transfer::Full => (Seq::empty(), ".to_glib_full()"@),
        Transfer::Container => (Seq::empty(), ".to_glib_container().0"@),
    }
}

impl TransformationView {
    /// The expression of a conversion that turns a Rust value into what the
    /// native call takes.
    ///
    /// A pointer is written by its name, or `self` for the receiver, then
    /// the extra text, between the two texts of [`pointer_affixes`]; the cast
    /// comes last.
    pub open spec fn expression(self) -> Seq<char>
        recommends
            self.is_to_glib(),
    {
        match self {
            TransformationView::ToGlibDirect { name } => name,
            TransformationView::ToGlibScalar { name, nullable } => name + (if nullable.0 {
                ".into()"@
            } else {
                Seq::empty()
            }) + ".to_glib()"@,
            TransformationView::ToGlibPointer {
                name,
                instance_parameter,
                transfer,
                ref_mode,
                to_glib_extra,
                pointer_cast,
                explicit_target_type,
            } => {
                let (left, right) = pointer_affixes(transfer, ref_mode, explicit_target_type);
                left + (if instance_parameter {
                    "self"@
                } else {
                    name
                }) + to_glib_extra + right + pointer_cast
            },
            TransformationView::ToGlibStash { name } => name + ".0"@,
            TransformationView::ToGlibBorrow => "/*Not applicable conversion Borrow*/"@,
            TransformationView::ToGlibUnknown { name } => "/*Unknown conversion*/"@ + name,
            TransformationView::ToSome(name) => "Some("@ + name + ")"@,
            TransformationView::IntoRaw(name) => "Box::into_raw("@ + name + ") as *mut _"@,
            TransformationView::Into { .. } | TransformationView::Length { .. } => arbitrary(),
        }
    }
}

impl TranslateToGlib for TransformationType {
    open spec fn translatable(&self) -> bool {
        self@.is_to_glib()
    }

    open spec fn glib_translation(&self) -> Seq<char> {
        self@.expression()
    }

    fn translate_to_glib(&self) -> (s: String) {
        match self {
            TransformationType::ToGlibDirect { name } => name.clone(),
            TransformationType::ToGlibScalar { name, nullable } => {
                let mut s = name.clone();
                if nullable.0 {
                    s.append(".into()");
                }
                s.append(".to_glib()");
                s
            },
            TransformationType::ToGlibPointer {
                name,
                instance_parameter,
                transfer,
                ref_mode,
                to_glib_extra,
                pointer_cast,
                explicit_target_type,
            } => {
                let (left, right) = to_glib_xxx(*transfer, *ref_mode, explicit_target_type.as_str());
                let mut s = left;
                if *instance_parameter {
                    s.append("self");
                } else {
                    s.append(name.as_str());
                }
                s.append(to_glib_extra.as_str());
                s.append(right);
                s.append(pointer_cast.as_str());
                s
            },
            TransformationType::ToGlibStash { name } => {
                let mut s = name.clone();
                s.append(".0");
                s
            },
            TransformationType::ToGlibBorrow => String::from_str(
                "/*Not applicable conversion Borrow*/",
            ),
            TransformationType::ToGlibUnknown { name } => {
                let mut s = String::from_str("/*Unknown conversion*/");
                s.append(name.as_str());
                s
            },
            TransformationType::ToSome(name) => {
                let mut s = String::from_str("Some(");
                s.append(name.as_str());
                s.append(")");
                s
            },
            TransformationType::IntoRaw(name) => {
                let mut s = String::from_str("Box::into_raw(");
                s.append(name.as_str());
                s.append(") as *mut _");
                s
            },
            TransformationType::Into { .. } | TransformationType::Length { .. } => unreached(),
        }
    }
}

/// Computes [`pointer_affixes`] as text.
pub fn to_glib_xxx(transfer: Transfer, ref_mode: RefMode, explicit_target_type: &str) -> (r: (
    String,
    &'static str,
))
    ensures
        (r.0@, r.1@) == pointer_affixes(transfer, ref_mode, explicit_target_type@),
{
    proof {
        reveal_strlit("");
    }
    match transfer {
        Transfer::Nothing => match ref_mode {
            RefMode::ByValue => (String::new(), ".to_glib_none_mut().0"),
            RefMode::ByRef => if explicit_target_type.is_empty() {
                (String::new(), ".to_glib_none().0")
            } else {
                let mut left = String::from_str("ToGlibPtr::<");
                left.append(explicit_target_type);
                left.append(">::to_glib_none(");
                (left, ").0")
            },
            RefMode::ByRefMut => (String::new(), ".to_glib_none_mut().0"),
            RefMode::ByRefImmut => (String::from_str("mut_override("), ".to_glib_none().0)"),
            RefMode::ByRefConst => (String::from_str("const_override("), ".to_glib_none().0)"),
            RefMode::ByRefFake => (String::new(), ""),
        },
        Transfer::Full => (String::new(), ".to_glib_full()"),
        Transfer::Container => (String::new(), ".to_glib_container().0"),
    }
}

/// Whether the table of [`pointer_affixes`] treats two combinations alike: a
/// value that changes hands is converted in one way however it is passed, and
/// a lent value is converted in the same way when passed by value as when
/// passed by mutable reference.
pub open spec fn same_pointer_conversion(
    transfer: Transfer,
    ref_mode: RefMode,
    other_transfer: Transfer,
    other_ref_mode: RefMode,
) -> bool {
    transfer == other_transfer && match transfer {
        Transfer::Nothing => ref_mode == other_ref_mode || ((ref_mode is ByValue
            || ref_mode is ByRefMut) && (other_ref_mode is ByValue || other_ref_mode is ByRefMut)),
        Transfer::Full | Transfer::Container => true,
    }
}

/// Every combination of transfer and reference mode has its text in front
/// and behind, and the two are empty for one combination only: a lent value
/// that is a reference in form alone. For all others the text behind is not
/// empty.
pub proof fn lemma_pointer_affixes_nonempty(
    transfer: Transfer,
    ref_mode: RefMode,
    explicit_target_type: Seq<char>,
)
    ensures
        pointer_affixes(transfer, ref_mode, explicit_target_type).1.len() == 0 <==> transfer
            is Nothing && ref_mode is ByRefFake,
        transfer is Nothing && ref_mode is ByRefFake ==> pointer_affixes(
            transfer,
            ref_mode,
            explicit_target_type,
        ).0.len() == 0,
{
    lemma_affix_lengths();
}

/// Two combinations of transfer and reference mode have the same text in
/// front and behind, for one target type, exactly when the table treats them
/// alike.
pub proof fn lemma_pointer_affixes_distinct(
    transfer: Transfer,
    ref_mode: RefMode,
    other_transfer: Transfer,
    other_ref_mode: RefMode,
    explicit_target_type: Seq<char>,
)
    ensures
        pointer_affixes(transfer, ref_mode, explicit_target_type) == pointer_affixes(
            other_transfer,
            other_ref_mode,
            explicit_target_type,
        ) <==> same_pointer_conversion(transfer, ref_mode, other_transfer, other_ref_mode),
{
    lemma_affix_lengths();
}

/// The lengths of the texts in the table of [`pointer_affixes`].
proof fn lemma_affix_lengths()
    ensures
        ".to_glib_none_mut().0"@.len() == 21,
        ".to_glib_none().0"@.len() == 17,
        ").0"@.len() == 3,
        ".to_glib_none().0)"@.len() == 18,
        ".to_glib_full()"@.len() == 15,
        ".to_glib_container().0"@.len() == 22,
        "mut_override("@.len() == 13,
        "const_override("@.len() == 15,
{
    reveal_strlit(".to_glib_none_mut().0");
    reveal_strlit(".to_glib_none().0");
    reveal_strlit(").0");
    reveal_strlit(".to_glib_none().0)");
    reveal_strlit(".to_glib_full()");
    reveal_strlit(".to_glib_container().0");
    reveal_strlit("mut_override(");
    reveal_strlit("const_override(");
}

/// Translating twice gives the same text: whatever two calls on conversions
/// of the same content, of a kind that has an expression, return, the
/// results are equal, character by character.
pub proof fn lemma_translate_to_glib_repeatable(
    a: TransformationType,
    b: TransformationType,
    first: String,
    second: String,
)
    requires
        a@ == b@,
        a@.is_to_glib(),
        call_ensures(TransformationType::translate_to_glib, (&a,), first),
        call_ensures(TransformationType::translate_to_glib, (&b,), second),
    ensures
        first@ == second@,
{
}

/// The kinds that have an expression are the eight that turn a Rust value
/// into what the native call takes. Any other kind has to be resolved before
/// text is produced, and does not meet what translation requires.
pub proof fn lemma_translatable_kinds(kind: TransformationType)
    ensures
        kind.translatable() <==> (kind is ToGlibDirect || kind is ToGlibScalar
            || kind is ToGlibPointer || kind is ToGlibStash || kind is ToGlibBorrow
            || kind is ToGlibUnknown || kind is ToSome || kind is IntoRaw),
        kind is Into || kind is Length ==> !kind.translatable(),
{
}

} // verus!
