//! Tests of the line classifier and the byte-level text primitives.

use qchi_lint::classify::{classify_status, CheckStatus};
use qchi_lint::text::{contains_bytes, contains_word, find_first, split_lines, trim};

#[test]
fn units_pass_line_classifies_pass() {
    let line = b"Units check: PASS, verified via dimensional analysis";
    assert_eq!(classify_status(line), CheckStatus::Pass);
}

#[test]
fn units_failed_line_classifies_fail() {
    let line = "Units check: FAILED — mismatch in exponents".as_bytes();
    assert_eq!(classify_status(line), CheckStatus::Fail);
}

#[test]
fn units_todo_line_classifies_deferred() {
    let line = b"Units check: TODO";
    assert_eq!(classify_status(line), CheckStatus::Deferred);
}

#[test]
fn template_row_classifies_unknown() {
    let line = b"Result: PASS | FAIL | DEFERRED";
    assert_eq!(classify_status(line), CheckStatus::Unknown);
}

#[test]
fn classification_is_case_insensitive() {
    assert_eq!(classify_status(b"units: pass"), CheckStatus::Pass);
    assert_eq!(classify_status(b"units: Pass"), CheckStatus::Pass);
    assert_eq!(classify_status(b"units: InVaLiD"), CheckStatus::Fail);
}

#[test]
fn pass_inside_other_word_does_not_count() {
    assert_eq!(classify_status(b"compass heading towards north"), CheckStatus::Unknown);
    assert_eq!(classify_status(b"bypassed entirely"), CheckStatus::Unknown);
}

#[test]
fn not_run_phrase_classifies_deferred() {
    assert_eq!(classify_status(b"Consistency: not run"), CheckStatus::Deferred);
    assert_eq!(classify_status(b"Limits: n/a"), CheckStatus::Deferred);
}

#[test]
fn fail_dominates_without_pass_and_pass_resolves_otherwise() {
    assert_eq!(classify_status(b"found an error in step 3"), CheckStatus::Fail);
    assert_eq!(classify_status(b"deferred to next round"), CheckStatus::Deferred);
    // An explicit pass keyword lifts the fail and defer gates.
    assert_eq!(classify_status(b"one error was noted, still PASS"), CheckStatus::Pass);
    assert_eq!(classify_status(b"was deferred once, now PASS"), CheckStatus::Pass);
}

#[test]
fn no_keyword_at_all_is_unknown() {
    assert_eq!(classify_status(b"see appendix for details"), CheckStatus::Unknown);
    assert_eq!(classify_status(b""), CheckStatus::Unknown);
}

#[test]
fn contains_word_respects_boundaries() {
    assert!(contains_word(b"a pass b", b"pass"));
    assert!(contains_word(b"PASS.", b"PASS"));
    assert!(contains_word(b"pass", b"pass"));
    assert!(!contains_word(b"compass", b"pass"));
    assert!(!contains_word(b"passing", b"pass"));
}

#[test]
fn find_first_returns_first_occurrence() {
    assert_eq!(find_first(b"abcabc", b"ca"), Some(2));
    assert_eq!(find_first(b"abcabc", b"abc"), Some(0));
    assert_eq!(find_first(b"abcabc", b"zz"), None);
    assert_eq!(find_first(b"abc", b""), Some(0));
}

#[test]
fn contains_bytes_is_substring_search() {
    assert!(contains_bytes(b"hello world", b"lo wo"));
    assert!(!contains_bytes(b"hello world", b"lowo"));
}

#[test]
fn split_lines_matches_line_conventions() {
    let lines = split_lines(b"a\r\nb\nc");
    assert_eq!(lines, vec![b"a".to_vec(), b"b".to_vec(), b"c".to_vec()]);
    let lines = split_lines(b"a\n");
    assert_eq!(lines, vec![b"a".to_vec()]);
    let lines = split_lines(b"");
    assert!(lines.is_empty());
    let lines = split_lines(b"\n");
    assert_eq!(lines, vec![b"".to_vec()]);
}

#[test]
fn trim_removes_surrounding_whitespace() {
    assert_eq!(trim(b"  x y\t\n"), b"x y".to_vec());
    assert_eq!(trim(b" \t\r\n "), Vec::<u8>::new());
    assert_eq!(trim(b"abc"), b"abc".to_vec());
}
