//! Tests of section extraction, named-check scanning and whole-report
//! validation.

use qchi_lint::report::{
    extract_section, lint_four_horsemen, lint_report, lint_symbolic_verification, CheckName,
    ReportError,
};
use qchi_lint::scan::{lint_named_check, CheckError};

fn units_keywords() -> Vec<Vec<u8>> {
    vec![b"unit".to_vec(), b"units".to_vec(), b"dimensional".to_vec()]
}

fn valid_report() -> String {
    let mut doc = String::new();
    doc.push_str("# A worked problem\n\n");
    doc.push_str("## Problem framing\nA mass on a spring.\n\n");
    doc.push_str("## Assumptions and regime\nSmall oscillations. INFERRED_ASSUMPTION\n\n");
    doc.push_str("## Governing equations\nNewton's second law.\n\n");
    doc.push_str("## Derivation\nSolve the linear equation.\n\n");
    doc.push_str("## Validation checks\n");
    doc.push_str("- Units check: PASS via dimensional analysis\n");
    doc.push_str("- Limiting case k to 0: PASS\n");
    doc.push_str("- Asymptotic behavior: PASS\n");
    doc.push_str("- Consistency cross-check: PASS\n");
    doc.push_str("- Symbolic verification: PASS, see the log below\n\n");
    doc.push_str("## Final result\nx(t) = A cos(w t)\n\n");
    doc.push_str("## Interpretation and confidence\nHigh.\n\n");
    doc.push_str("## Claim provenance\nREPRODUCED_FROM_SOURCE\n\n");
    doc.push_str("## References\nSymbolic log:\n```\nsympy.simplify(expr)\n```\n");
    doc
}

#[test]
fn extract_section_returns_trimmed_body() {
    let text = b"intro\n## One\nbody line\nmore\n## Two\nrest";
    let body = extract_section(text, b"## One").unwrap();
    assert_eq!(body, b"body line\nmore".to_vec());
}

#[test]
fn extract_section_runs_to_end_without_sibling() {
    let text = b"## Only\n  content  ";
    let body = extract_section(text, b"## Only").unwrap();
    assert_eq!(body, b"content".to_vec());
}

#[test]
fn extract_section_missing_or_empty_is_none() {
    assert!(extract_section(b"no headings here", b"## One").is_none());
    assert!(extract_section(b"## One\n   \n## Two\nx", b"## One").is_none());
}

#[test]
fn named_check_pass_short_circuits() {
    let section = b"- Units check: unclear\n- Units check: PASS\n- Units check: FAILED";
    assert!(lint_named_check(section, &units_keywords()).is_ok());
}

#[test]
fn named_check_fail_reports_offending_line() {
    let section = b"- Units check: FAILED badly\n- Units check: PASS";
    match lint_named_check(section, &units_keywords()) {
        Err(CheckError::ReportedFailed(line)) => {
            assert_eq!(line, b"- Units check: FAILED badly".to_vec());
        },
        other => panic!("expected a reported failure, got {:?}", other),
    }
}

#[test]
fn named_check_deferred_reports_offending_line() {
    let section = b"- Units check: TODO";
    match lint_named_check(section, &units_keywords()) {
        Err(CheckError::ReportedDeferred(line)) => {
            assert_eq!(line, b"- Units check: TODO".to_vec());
        },
        other => panic!("expected a deferral, got {:?}", other),
    }
}

#[test]
fn named_check_distinguishes_missing_from_unknown() {
    // A units-matching line with no explicit status, and no other
    // units-matching line: present but without a PASS.
    let with_unknown = b"- Units check: see appendix\n- Consistency: PASS";
    match lint_named_check(with_unknown, &units_keywords()) {
        Err(CheckError::NoExplicitPass) => {},
        other => panic!("expected a missing PASS status, got {:?}", other),
    }
    // No units-matching line at all: the check is missing entirely.
    let without = b"- Consistency: PASS";
    match lint_named_check(without, &units_keywords()) {
        Err(CheckError::Missing) => {},
        other => panic!("expected a missing check, got {:?}", other),
    }
}

#[test]
fn four_horsemen_pass_on_full_section() {
    let section = b"- Units check: PASS\n- Limiting case: PASS\n- Asymptotic behavior: PASS\n- Consistency cross-check: PASS";
    assert!(lint_four_horsemen(section).is_ok());
}

#[test]
fn four_horsemen_name_first_failing_check() {
    let section = b"- Units check: PASS\n- Limiting case: PASS\n- Consistency cross-check: PASS";
    match lint_four_horsemen(section) {
        Err(ReportError::Check(CheckName::Asymptotics, CheckError::Missing)) => {},
        other => panic!("expected the asymptotics check to be missing, got {:?}", other),
    }
}

#[test]
fn valid_report_passes() {
    let doc = valid_report();
    assert!(lint_report(doc.as_bytes()).is_ok());
}

#[test]
fn missing_headings_are_all_named() {
    let doc = valid_report()
        .replace("## Governing equations", "## Equations")
        .replace("## References", "## Sources");
    match lint_report(doc.as_bytes()) {
        Err(ReportError::MissingSections(missing)) => {
            assert_eq!(
                missing,
                vec![b"## Governing equations".to_vec(), b"## References".to_vec()]
            );
        },
        other => panic!("expected missing sections, got {:?}", other),
    }
}

#[test]
fn missing_provenance_has_its_own_reason() {
    let doc = valid_report()
        .replace("INFERRED_ASSUMPTION", "assumed")
        .replace("REPRODUCED_FROM_SOURCE", "from the source");
    match lint_report(doc.as_bytes()) {
        Err(ReportError::MissingProvenance) => {},
        other => panic!("expected missing provenance, got {:?}", other),
    }
}

#[test]
fn empty_validation_section_is_missing() {
    let checks = "## Validation checks\n- Units check: PASS via dimensional analysis\n- Limiting case k to 0: PASS\n- Asymptotic behavior: PASS\n- Consistency cross-check: PASS\n- Symbolic verification: PASS, see the log below\n";
    let doc = valid_report().replace(checks, "## Validation checks\n");
    match lint_report(doc.as_bytes()) {
        Err(ReportError::MissingValidationSection) => {},
        other => panic!("expected a missing validation section, got {:?}", other),
    }
}

#[test]
fn symbolic_verification_needs_scan_tool_and_log() {
    let doc = valid_report();
    let section = extract_section(doc.as_bytes(), b"## Validation checks").unwrap();
    assert!(lint_symbolic_verification(doc.as_bytes(), &section).is_ok());

    // Without a passing symbolic line the named check fails.
    let no_line = valid_report().replace(
        "- Symbolic verification: PASS, see the log below\n",
        "",
    );
    match lint_report(no_line.as_bytes()) {
        Err(ReportError::Check(CheckName::SymbolicVerification, CheckError::Missing)) => {},
        other => panic!("expected the symbolic check to be missing, got {:?}", other),
    }

    // Without a tool mention the tool marker is missing.
    let no_tool = valid_report().replace("sympy.simplify(expr)", "simplify(expr)");
    match lint_report(no_tool.as_bytes()) {
        Err(ReportError::MissingToolMarker) => {},
        other => panic!("expected a missing tool marker, got {:?}", other),
    }

    // Without the fenced block the log evidence is missing.
    let no_fence = valid_report().replace("```\nsympy.simplify(expr)\n```", "sympy was used");
    match lint_report(no_fence.as_bytes()) {
        Err(ReportError::MissingLogEvidence) => {},
        other => panic!("expected missing log evidence, got {:?}", other),
    }
}

#[test]
fn validation_is_repeatable() {
    let doc = valid_report();
    let first = lint_report(doc.as_bytes());
    let second = lint_report(doc.as_bytes());
    assert!(first.is_ok() && second.is_ok());

    let bad = valid_report().replace("INFERRED_ASSUMPTION", "x").replace(
        "REPRODUCED_FROM_SOURCE",
        "y",
    );
    let first = lint_report(bad.as_bytes());
    let second = lint_report(bad.as_bytes());
    assert!(matches!(first, Err(ReportError::MissingProvenance)));
    assert!(matches!(second, Err(ReportError::MissingProvenance)));
}
