//! The pass condition: trimming and substring containment.

use autograder::evaluate::evaluate;
use autograder::text::{contains_str, trim_str};

#[test]
fn trims_surrounding_whitespace() {
    assert_eq!(trim_str("  Result: 8\n"), "Result: 8");
    assert_eq!(trim_str("\t\r\n x \t\r\n"), "x");
    assert_eq!(trim_str("nothing-to-trim"), "nothing-to-trim");
    assert_eq!(trim_str(""), "");
    assert_eq!(trim_str(" \t\n "), "");
}

#[test]
fn trims_unicode_whitespace() {
    // No-break space and ideographic space count as whitespace, as str::trim has it.
    assert_eq!(trim_str("\u{00A0}42\u{00A0}"), "42");
    assert_eq!(trim_str("\u{3000}ok\u{2009}"), "ok");
    assert_eq!("\u{00A0}42\u{00A0}".trim(), trim_str("\u{00A0}42\u{00A0}"));
}

#[test]
fn trim_keeps_inner_whitespace() {
    assert_eq!(trim_str("  a b  c  "), "a b  c");
}

#[test]
fn containment_is_substring_not_equality() {
    assert!(contains_str("Result: 8", "8"));
    assert!(contains_str("8", "8"));
    assert!(!contains_str("Result: 18 is wrong", "81"));
    assert!(!contains_str("7", "8"));
    // Longer needle than haystack never matches.
    assert!(!contains_str("8", "88"));
    // The empty needle is contained in anything, the known looseness.
    assert!(contains_str("anything", ""));
    assert!(contains_str("", ""));
}

#[test]
fn evaluate_trims_both_sides_then_contains() {
    assert!(evaluate("Result: 8\n", "8"));
    assert!(evaluate("  8  ", "\n8\t"));
    // Extra diagnostic text around the answer still passes.
    assert!(evaluate("debug: starting\nResult: 8\ndone", "Result: 8"));
    // A correct program with the wrong answer fails.
    assert!(!evaluate("Result: 7\n", "Result: 8"));
    // Empty expected output passes against anything, even empty output.
    assert!(evaluate("", ""));
    assert!(evaluate("noise", ""));
    // Empty actual output fails against a non-empty expectation.
    assert!(!evaluate("", "42"));
    // Whitespace-only expected output is trimmed to nothing and passes.
    assert!(evaluate("whatever", "  \n "));
}

#[test]
fn evaluate_matches_std_trim_and_contains() {
    let pairs = [
        ("Result: 8\n", "8"),
        ("  a b  ", "a b"),
        ("x", "y"),
        ("", "42"),
        ("\u{00A0}odd\u{00A0}", "odd"),
        ("multi\nline\nout", "line"),
    ];
    for (actual, expected) in pairs {
        assert_eq!(
            evaluate(actual, expected),
            actual.trim().contains(expected.trim()),
            "diverged on {:?} / {:?}",
            actual,
            expected
        );
    }
}
