use stabilized_intrinsics::matcher::{
    examine, stabilized_message, CallExpression, CallTarget, Diagnostic, Span, NAMESPACE, SEVERITY,
};
use stabilized_intrinsics::table::STABILIZED_INTRINSIC_NAMES;

fn call_to(segments: &[&str], lo: u32, hi: u32) -> CallExpression {
    CallExpression {
        span: Span { lo, hi },
        callee: Some(CallTarget { segments: segments.iter().map(|s| s.to_string()).collect() }),
    }
}

fn unresolved_call(lo: u32, hi: u32) -> CallExpression {
    CallExpression { span: Span { lo, hi }, callee: None }
}

#[test]
fn atomic_load_is_reported() {
    let report = examine(&call_to(&["intrinsics", "atomic_load"], 10, 42)).unwrap();
    assert_eq!(report.message, "`atomic_load` is stabilized as `load` on std::sync::atomic types");
    assert_eq!(report.span, Span { lo: 10, hi: 42 });
}

#[test]
fn size_of_is_reported() {
    let report = examine(&call_to(&["intrinsics", "size_of"], 0, 7)).unwrap();
    assert_eq!(report.message, "`size_of` is stabilized as `std::mem::size_of`");
}

#[test]
fn unlisted_intrinsic_is_silent() {
    assert_eq!(examine(&call_to(&["intrinsics", "frobnicate"], 0, 1)), None);
}

#[test]
fn unresolved_callee_is_silent() {
    assert_eq!(examine(&unresolved_call(5, 25)), None);
    assert_eq!(examine(&unresolved_call(0, 0)), None);
}

#[test]
fn two_call_sites_give_two_diagnostics() {
    let first = examine(&call_to(&["intrinsics", "transmute"], 100, 130)).unwrap();
    let second = examine(&call_to(&["intrinsics", "transmute"], 200, 230)).unwrap();
    assert_eq!(first.message, "`transmute` is stabilized as `std::mem::transmute`");
    assert_eq!(first.message, second.message);
    assert_ne!(first.span, second.span);
    assert_eq!(first.span, Span { lo: 100, hi: 130 });
    assert_eq!(second.span, Span { lo: 200, hi: 230 });
}

#[test]
fn every_listed_intrinsic_is_reported_with_its_guidance() {
    for (name, guidance) in STABILIZED_INTRINSIC_NAMES {
        let report = examine(&call_to(&["intrinsics", name], 1, 2)).unwrap();
        assert_eq!(report.message, format!("`{}` is stabilized as {}", name, guidance));
        assert!(report.message.contains(name));
        assert!(report.message.ends_with(guidance));
        assert_eq!(report.span, Span { lo: 1, hi: 2 });
    }
}

#[test]
fn wrong_namespace_is_silent() {
    for (name, _) in STABILIZED_INTRINSIC_NAMES {
        assert_eq!(examine(&call_to(&["not_intrinsics", name], 1, 2)), None);
    }
    assert_eq!(examine(&call_to(&["mem", "size_of"], 1, 2)), None);
    assert_eq!(examine(&call_to(&["Intrinsics", "size_of"], 1, 2)), None);
    assert_eq!(examine(&call_to(&["intrinsic", "size_of"], 1, 2)), None);
    assert_eq!(examine(&call_to(&["", "size_of"], 1, 2)), None);
}

#[test]
fn other_arity_is_silent() {
    assert_eq!(examine(&call_to(&[], 1, 2)), None);
    assert_eq!(examine(&call_to(&["size_of"], 1, 2)), None);
    assert_eq!(examine(&call_to(&["intrinsics"], 1, 2)), None);
    assert_eq!(examine(&call_to(&["core", "intrinsics", "size_of"], 1, 2)), None);
    assert_eq!(examine(&call_to(&["intrinsics", "size_of", "size_of"], 1, 2)), None);
    assert_eq!(examine(&call_to(&["intrinsics", "intrinsics", "size_of"], 1, 2)), None);
}

#[test]
fn segments_are_not_swapped() {
    assert_eq!(examine(&call_to(&["size_of", "intrinsics"], 1, 2)), None);
    assert_eq!(examine(&call_to(&["intrinsics", "intrinsics"], 1, 2)), None);
}

#[test]
fn examining_twice_gives_the_same_diagnostic() {
    let call = call_to(&["intrinsics", "rotate_left"], 7, 19);
    let first = examine(&call);
    let second = examine(&call);
    assert_eq!(first, second);
    let first = first.unwrap();
    let second = second.unwrap();
    assert_eq!(first.message, second.message);
    assert_eq!(first.span, second.span);

    let silent = call_to(&["intrinsics", "frobnicate"], 7, 19);
    assert_eq!(examine(&silent), None);
    assert_eq!(examine(&silent), None);
}

#[test]
fn diagnostic_is_the_whole_record() {
    assert_eq!(
        examine(&call_to(&["intrinsics", "volatile_load"], 3, 4)),
        Some(Diagnostic {
            span: Span { lo: 3, hi: 4 },
            severity: "style",
            message: String::from("`volatile_load` is stabilized as `std::ptr::read_volatile`"),
        })
    );
}

#[test]
fn every_diagnostic_is_a_style_finding() {
    assert_eq!(SEVERITY, "style");
    for (name, _) in STABILIZED_INTRINSIC_NAMES {
        assert_eq!(examine(&call_to(&["intrinsics", name], 1, 2)).unwrap().severity, "style");
    }
}

#[test]
fn namespace_is_intrinsics() {
    assert_eq!(NAMESPACE, "intrinsics");
}

#[test]
fn misspelled_key_is_matched_as_written() {
    let report = examine(&call_to(&["intrinsics", "add_with_oveflow"], 1, 2)).unwrap();
    assert_eq!(
        report.message,
        "`add_with_oveflow` is stabilized as `overflowing_add` on integer types"
    );
    assert_eq!(examine(&call_to(&["intrinsics", "add_with_overflow"], 1, 2)), None);
}

#[test]
fn message_puts_name_and_guidance_into_the_template() {
    assert_eq!(
        stabilized_message("atomic_xchg", "`swap` on std::sync::atomic::AtomicBool"),
        "`atomic_xchg` is stabilized as `swap` on std::sync::atomic::AtomicBool"
    );
    assert_eq!(stabilized_message("", ""), "`` is stabilized as ");
    assert_eq!(stabilized_message("a", "b"), "`a` is stabilized as b");
}

#[test]
fn message_keeps_the_guidance_verbatim() {
    assert_eq!(stabilized_message("x", "`{}` \\ \"q\" %s"), "`x` is stabilized as `{}` \\ \"q\" %s");
}

#[test]
fn span_is_handed_on_unchanged() {
    let report = examine(&call_to(&["intrinsics", "size_of"], u32::MAX, 0)).unwrap();
    assert_eq!(report.span, Span { lo: u32::MAX, hi: 0 });
}
