use gir::analysis::function_parameters::TransformationType;
use gir::analysis::ref_mode::RefMode;
use gir::codegen::translate_to_glib::{to_glib_xxx, TranslateToGlib};
use gir::library::{Nullable, Transfer};

const ALL_MODES: [RefMode; 6] = [
    RefMode::ByValue,
    RefMode::ByRef,
    RefMode::ByRefMut,
    RefMode::ByRefImmut,
    RefMode::ByRefConst,
    RefMode::ByRefFake,
];

const ALL_TRANSFERS: [Transfer; 3] = [Transfer::Nothing, Transfer::Container, Transfer::Full];

fn pointer(
    name: &str,
    instance_parameter: bool,
    transfer: Transfer,
    ref_mode: RefMode,
    to_glib_extra: &str,
    pointer_cast: &str,
    explicit_target_type: &str,
) -> TransformationType {
    TransformationType::ToGlibPointer {
        name: name.to_string(),
        instance_parameter,
        transfer,
        ref_mode,
        to_glib_extra: to_glib_extra.to_string(),
        pointer_cast: pointer_cast.to_string(),
        explicit_target_type: explicit_target_type.to_string(),
    }
}

fn affixes(transfer: Transfer, ref_mode: RefMode, target: &str) -> (String, String) {
    let (left, right) = to_glib_xxx(transfer, ref_mode, target);
    (left, right.to_string())
}

#[test]
fn direct_is_the_name_unchanged() {
    let t = TransformationType::ToGlibDirect { name: "count".to_string() };
    assert_eq!(t.translate_to_glib(), "count");
}

#[test]
fn scalar_uses_the_scalar_accessor() {
    let t = TransformationType::ToGlibScalar { name: "x".to_string(), nullable: Nullable(false) };
    assert_eq!(t.translate_to_glib(), "x.to_glib()");
}

#[test]
fn nullable_scalar_is_adapted_before_the_accessor() {
    let t = TransformationType::ToGlibScalar { name: "x".to_string(), nullable: Nullable(true) };
    assert_eq!(t.translate_to_glib(), "x.into().to_glib()");
}

#[test]
fn stash_takes_the_pointer_out() {
    let t = TransformationType::ToGlibStash { name: "value".to_string() };
    assert_eq!(t.translate_to_glib(), "value.0");
}

#[test]
fn borrow_gives_a_comment_and_no_failure() {
    assert_eq!(
        TransformationType::ToGlibBorrow.translate_to_glib(),
        "/*Not applicable conversion Borrow*/"
    );
}

#[test]
fn unknown_gives_a_marker_before_the_name() {
    let t = TransformationType::ToGlibUnknown { name: "data".to_string() };
    assert_eq!(t.translate_to_glib(), "/*Unknown conversion*/data");
}

#[test]
fn to_some_wraps_the_name() {
    let t = TransformationType::ToSome("widget".to_string());
    assert_eq!(t.translate_to_glib(), "Some(widget)");
}

#[test]
fn into_raw_leaks_the_box() {
    let t = TransformationType::IntoRaw("callback".to_string());
    assert_eq!(t.translate_to_glib(), "Box::into_raw(callback) as *mut _");
}

#[test]
fn unresolved_kinds_have_no_expression() {
    for with_stash in [false, true] {
        let into = TransformationType::Into { name: "x".to_string(), with_stash };
        assert!(!into.is_to_glib());
    }
    let length = TransformationType::Length {
        array_name: "items".to_string(),
        array_length_name: "n_items".to_string(),
        array_length_type: "u32".to_string(),
    };
    assert!(!length.is_to_glib());
}

#[test]
fn is_to_glib_holds_of_every_kind_with_an_expression() {
    let kinds = [
        TransformationType::ToGlibDirect { name: "a".to_string() },
        TransformationType::ToGlibScalar { name: "a".to_string(), nullable: Nullable(true) },
        pointer("a", false, Transfer::Nothing, RefMode::ByRef, "", "", ""),
        TransformationType::ToGlibStash { name: "a".to_string() },
        TransformationType::ToGlibBorrow,
        TransformationType::ToGlibUnknown { name: "a".to_string() },
        TransformationType::ToSome("a".to_string()),
        TransformationType::IntoRaw("a".to_string()),
    ];
    for kind in &kinds {
        assert!(kind.is_to_glib());
        assert!(!kind.translate_to_glib().is_empty());
    }
}

#[test]
fn pointer_lent_by_reference() {
    let t = pointer("val", false, Transfer::Nothing, RefMode::ByRef, "", "", "");
    assert_eq!(t.translate_to_glib(), "val.to_glib_none().0");
    assert_eq!(
        affixes(Transfer::Nothing, RefMode::ByRef, ""),
        (String::new(), ".to_glib_none().0".to_string())
    );
}

#[test]
fn pointer_given_away_as_receiver() {
    let t = pointer("widget", true, Transfer::Full, RefMode::ByRefMut, "", "", "");
    assert_eq!(t.translate_to_glib(), "self.to_glib_full()");
}

#[test]
fn pointer_receiver_keeps_extra_text() {
    let t = pointer("widget", true, Transfer::Nothing, RefMode::ByRef, ".as_ref()", " as *mut _", "");
    assert_eq!(t.translate_to_glib(), "self.as_ref().to_glib_none().0 as *mut _");
}

#[test]
fn pointer_receiver_differs_from_named_value_in_the_name_alone() {
    for transfer in ALL_TRANSFERS {
        for mode in ALL_MODES {
            let named = pointer("self", false, transfer, mode, ".0", " as *mut _", "*mut u8");
            let receiver = pointer("widget", true, transfer, mode, ".0", " as *mut _", "*mut u8");
            assert_eq!(named.translate_to_glib(), receiver.translate_to_glib());
        }
    }
}

#[test]
fn pointer_puts_extra_behind_name_and_cast_last() {
    let t = pointer("val", false, Transfer::Nothing, RefMode::ByRef, ".as_ref()", " as *mut _", "");
    assert_eq!(t.translate_to_glib(), "val.as_ref().to_glib_none().0 as *mut _");
}

#[test]
fn pointer_with_explicit_target_type() {
    let t = pointer("val", false, Transfer::Nothing, RefMode::ByRef, "", "", "*mut *mut c_char");
    assert_eq!(
        t.translate_to_glib(),
        "ToGlibPtr::<*mut *mut c_char>::to_glib_none(val).0"
    );
}

#[test]
fn pointer_with_overrides() {
    let immut = pointer("val", false, Transfer::Nothing, RefMode::ByRefImmut, "", "", "");
    assert_eq!(immut.translate_to_glib(), "mut_override(val.to_glib_none().0)");
    let konst = pointer("val", false, Transfer::Nothing, RefMode::ByRefConst, "", "", "");
    assert_eq!(konst.translate_to_glib(), "const_override(val.to_glib_none().0)");
}

#[test]
fn pointer_table_for_lent_values() {
    let none = Transfer::Nothing;
    assert_eq!(
        affixes(none, RefMode::ByValue, ""),
        (String::new(), ".to_glib_none_mut().0".to_string())
    );
    assert_eq!(
        affixes(none, RefMode::ByRef, ""),
        (String::new(), ".to_glib_none().0".to_string())
    );
    assert_eq!(
        affixes(none, RefMode::ByRef, "*const u8"),
        ("ToGlibPtr::<*const u8>::to_glib_none(".to_string(), ").0".to_string())
    );
    assert_eq!(
        affixes(none, RefMode::ByRefMut, ""),
        (String::new(), ".to_glib_none_mut().0".to_string())
    );
    assert_eq!(
        affixes(none, RefMode::ByRefImmut, ""),
        ("mut_override(".to_string(), ".to_glib_none().0)".to_string())
    );
    assert_eq!(
        affixes(none, RefMode::ByRefConst, ""),
        ("const_override(".to_string(), ".to_glib_none().0)".to_string())
    );
    assert_eq!(affixes(none, RefMode::ByRefFake, ""), (String::new(), String::new()));
}

#[test]
fn pointer_table_ignores_target_type_but_for_shared_reference() {
    for mode in ALL_MODES {
        for transfer in ALL_TRANSFERS {
            if transfer == Transfer::Nothing && mode == RefMode::ByRef {
                continue;
            }
            assert_eq!(affixes(transfer, mode, "*mut u8"), affixes(transfer, mode, ""));
        }
    }
}

#[test]
fn pointer_table_for_values_that_change_hands() {
    for mode in ALL_MODES {
        for target in ["", "*mut u8"] {
            assert_eq!(
                affixes(Transfer::Full, mode, target),
                (String::new(), ".to_glib_full()".to_string())
            );
            assert_eq!(
                affixes(Transfer::Container, mode, target),
                (String::new(), ".to_glib_container().0".to_string())
            );
        }
    }
}

#[test]
fn pointer_table_is_empty_for_one_combination_only() {
    for transfer in ALL_TRANSFERS {
        for mode in ALL_MODES {
            for target in ["", "*mut u8"] {
                let (left, right) = affixes(transfer, mode, target);
                let fake = transfer == Transfer::Nothing && mode == RefMode::ByRefFake;
                assert_eq!(right.is_empty(), fake);
                if fake {
                    assert!(left.is_empty());
                }
            }
        }
    }
}

fn alike(t1: Transfer, m1: RefMode, t2: Transfer, m2: RefMode) -> bool {
    let mutable = |m: RefMode| m == RefMode::ByValue || m == RefMode::ByRefMut;
    t1 == t2 && (t1 != Transfer::Nothing || m1 == m2 || (mutable(m1) && mutable(m2)))
}

#[test]
fn pointer_table_tells_combinations_apart() {
    for target in ["", "*mut u8"] {
        for t1 in ALL_TRANSFERS {
            for m1 in ALL_MODES {
                for t2 in ALL_TRANSFERS {
                    for m2 in ALL_MODES {
                        let same = affixes(t1, m1, target) == affixes(t2, m2, target);
                        assert_eq!(same, alike(t1, m1, t2, m2));
                    }
                }
            }
        }
    }
}

#[test]
fn pointer_expression_is_built_around_the_table() {
    for transfer in ALL_TRANSFERS {
        for mode in ALL_MODES {
            for target in ["", "*mut u8"] {
                let (left, right) = affixes(transfer, mode, target);
                let named = pointer("val", false, transfer, mode, ".x", " as T", target);
                assert_eq!(
                    named.translate_to_glib(),
                    format!("{}val.x{} as T", left, right)
                );
                let receiver = pointer("val", true, transfer, mode, ".x", " as T", target);
                assert_eq!(
                    receiver.translate_to_glib(),
                    format!("{}self.x{} as T", left, right)
                );
            }
        }
    }
}

#[test]
fn translation_is_the_same_when_asked_again() {
    let kinds = [
        TransformationType::ToGlibDirect { name: "a".to_string() },
        TransformationType::ToGlibScalar { name: "a".to_string(), nullable: Nullable(true) },
        pointer("a", false, Transfer::Nothing, RefMode::ByRef, ".b", " as C", "D"),
        TransformationType::ToGlibStash { name: "a".to_string() },
        TransformationType::ToGlibBorrow,
        TransformationType::ToGlibUnknown { name: "a".to_string() },
        TransformationType::ToSome("a".to_string()),
        TransformationType::IntoRaw("a".to_string()),
    ];
    for kind in &kinds {
        assert!(kind.is_to_glib());
        let first = kind.translate_to_glib();
        let second = kind.translate_to_glib();
        assert_eq!(first, second);
    }
}
