//! Laws of the validators, stated and proved over the specification
//! functions that the executable functions' contracts use.

use vstd::prelude::*;
use vstd::seq_lib::*;
use vstd::string::StringSliceAdditionalSpecFns;

use crate::classify::classify_spec;
use crate::classify::CheckStatus;
use crate::report::{
    extract_section_spec, first_failing_horseman, has_code_fence, has_log_marker,
    has_provenance_tag, has_tool_marker, missing_headings, reflects_report, report_verdict,
    required_headings, scan_check, symbolic_verdict, CheckName, ReportError, ReportVerdict,
};
use crate::scan::{line_matches, reflects_scan, scan_spec, CheckError, ScanVerdict};
use crate::text::contains_seq;

verus! {

/// A document that lacks a required heading is rejected for missing
/// sections, and the rejection names that heading — every absent heading
/// is listed, not only the first.
pub proof fn lemma_missing_heading_reported(text: Seq<u8>, h: Seq<u8>)
    requires
        required_headings().contains(h),
        !contains_seq(text, h),
    ensures
        report_verdict(text) matches ReportVerdict::MissingSections(hs) && hs.contains(h),
{
    let rh = required_headings();
    let pred = |s: Seq<u8>| !contains_seq(text, s);
    let i = choose|i: int| 0 <= i < rh.len() && rh[i] == h;
    rh.lemma_filter_contains(pred, i);
    assert(missing_headings(text).contains(h));
    assert(missing_headings(text).len() > 0);
}

/// Every heading that a missing-sections rejection lists is indeed absent
/// from the document.
pub proof fn lemma_reported_headings_are_absent(text: Seq<u8>, k: int)
    requires
        0 <= k < missing_headings(text).len(),
    ensures
        !contains_seq(text, missing_headings(text)[k]),
{
    let pred = |s: Seq<u8>| !contains_seq(text, s);
    required_headings().filter_lemma(pred);
}

/// A document with every required heading but no provenance tag is
/// rejected with the provenance-specific reason.
pub proof fn lemma_no_provenance_rejected(text: Seq<u8>)
    requires
        missing_headings(text).len() == 0,
        !has_provenance_tag(text),
    ensures
        report_verdict(text) == ReportVerdict::MissingProvenance,
{
}

/// A scan over lines none of which mentions the check reports the check
/// as missing entirely.
pub proof fn lemma_scan_no_match(ls: Seq<Seq<u8>>, kws: Seq<Seq<u8>>)
    requires
        forall|j: int| 0 <= j < ls.len() ==> !line_matches(#[trigger] ls[j], kws),
    ensures
        scan_spec(ls, kws) == ScanVerdict::NoMatch,
    decreases ls.len(),
{
    if ls.len() > 0 {
        let rest = ls.drop_first();
        assert forall|j: int| 0 <= j < rest.len() implies !line_matches(
            #[trigger] rest[j],
            kws,
        ) by {
            assert(rest[j] == ls[j + 1]);
        }
        lemma_scan_no_match(rest, kws);
    }
}

/// A scan that sees at least one matching line, every matching line
/// classifying as Unknown, reports the check as present but without an
/// explicit passing status — distinct from a missing check.
pub proof fn lemma_scan_unknown_only(ls: Seq<Seq<u8>>, kws: Seq<Seq<u8>>)
    requires
        exists|j: int| 0 <= j < ls.len() && line_matches(#[trigger] ls[j], kws),
        forall|j: int|
            0 <= j < ls.len() && line_matches(#[trigger] ls[j], kws) ==> classify_spec(ls[j])
                == CheckStatus::Unknown,
    ensures
        scan_spec(ls, kws) == ScanVerdict::UnknownOnly,
    decreases ls.len(),
{
    let rest = ls.drop_first();
    assert(forall|j: int| 0 <= j < rest.len() ==> #[trigger] rest[j] == ls[j + 1]);
    if line_matches(ls[0], kws) {
        assert(classify_spec(ls[0]) == CheckStatus::Unknown);
        if exists|j: int| 0 <= j < rest.len() && line_matches(#[trigger] rest[j], kws) {
            lemma_scan_unknown_only(rest, kws);
        } else {
            assert(forall|j: int| 0 <= j < rest.len() ==> !line_matches(#[trigger] rest[j], kws));
            lemma_scan_no_match(rest, kws);
        }
    } else {
        let j0 = choose|j: int| 0 <= j < ls.len() && line_matches(#[trigger] ls[j], kws);
        assert(j0 != 0);
        assert(rest[j0 - 1] == ls[j0]);
        lemma_scan_unknown_only(rest, kws);
    }
}

/// The two rejections of a check without a definitive line are distinct:
/// matching lines that all classify Unknown yield the missing-PASS-status
/// error, while no matching line at all yields the missing-check error.
pub proof fn lemma_unknown_distinct_from_missing(
    r1: Result<(), CheckError>,
    r2: Result<(), CheckError>,
)
    requires
        reflects_scan(r1, ScanVerdict::UnknownOnly),
        reflects_scan(r2, ScanVerdict::NoMatch),
    ensures
        r1 == Err::<(), CheckError>(CheckError::NoExplicitPass),
        r2 == Err::<(), CheckError>(CheckError::Missing),
        r1 != r2,
{
}

/// The symbolic-verification stages accept exactly when the named scan
/// passes, a tool marker is present, and the fenced log evidence is
/// present: removing any one of the three turns acceptance into
/// rejection.
pub proof fn lemma_symbolic_acceptance(text: Seq<u8>, section: Seq<u8>)
    ensures
        symbolic_verdict(text, section) == ReportVerdict::Accepted <==> scan_check(
            section,
            CheckName::SymbolicVerification,
        ) == ScanVerdict::Passed && has_tool_marker(text) && (has_code_fence(text)
            && has_log_marker(text)),
{
}

/// A report is accepted if and only if no required heading is absent, a
/// provenance tag is present, the validation section is non-empty, the
/// four evidentiary checks pass, and the symbolic-verification stages
/// pass.
pub proof fn lemma_report_acceptance(text: Seq<u8>)
    ensures
        report_verdict(text) == ReportVerdict::Accepted <==> missing_headings(text).len() == 0
            && has_provenance_tag(text) && match extract_section_spec(
            text,
            "## Validation checks".spec_bytes(),
        ) {
            None => false,
            Some(section) => first_failing_horseman(section) is None && symbolic_verdict(
                text,
                section,
            ) == ReportVerdict::Accepted,
        },
{
}

/// Two check errors that carry the same information: the same variant,
/// quoting the same line.
pub open spec fn check_errors_alike(e1: CheckError, e2: CheckError) -> bool {
    match (e1, e2) {
        (CheckError::Missing, CheckError::Missing) => true,
        (CheckError::NoExplicitPass, CheckError::NoExplicitPass) => true,
        (CheckError::ReportedFailed(a), CheckError::ReportedFailed(b)) => a@ == b@,
        (CheckError::ReportedDeferred(a), CheckError::ReportedDeferred(b)) => a@ == b@,
        _ => false,
    }
}

/// Two report results that carry the same information: both successes,
/// or rejections of the same kind naming the same headings, check and
/// lines.
pub open spec fn report_results_alike(
    r1: Result<(), ReportError>,
    r2: Result<(), ReportError>,
) -> bool {
    match (r1, r2) {
        (Ok(()), Ok(())) => true,
        (Err(e1), Err(e2)) => match (e1, e2) {
            (ReportError::MissingSections(a), ReportError::MissingSections(b)) => a.deep_view()
                == b.deep_view(),
            (ReportError::MissingProvenance, ReportError::MissingProvenance) => true,
            (
                ReportError::MissingValidationSection,
                ReportError::MissingValidationSection,
            ) => true,
            (ReportError::Check(n1, c1), ReportError::Check(n2, c2)) => n1 == n2
                && check_errors_alike(c1, c2),
            (ReportError::MissingToolMarker, ReportError::MissingToolMarker) => true,
            (ReportError::MissingLogEvidence, ReportError::MissingLogEvidence) => true,
            _ => false,
        },
        _ => false,
    }
}

/// Validation is a pure function of the document: two results that both
/// answer for the same document's verdict agree — both accept, or both
/// reject for the same reason with the same details.
pub proof fn lemma_report_deterministic(
    text: Seq<u8>,
    r1: Result<(), ReportError>,
    r2: Result<(), ReportError>,
)
    requires
        reflects_report(r1, report_verdict(text)),
        reflects_report(r2, report_verdict(text)),
    ensures
        report_results_alike(r1, r2),
{
    match report_verdict(text) {
        ReportVerdict::Accepted => {},
        ReportVerdict::MissingSections(_) => {},
        ReportVerdict::MissingProvenance => {},
        ReportVerdict::MissingValidationSection => {},
        ReportVerdict::CheckFailed(_, sv) => {
            match sv {
                ScanVerdict::Passed => {},
                ScanVerdict::Failed(_) => {},
                ScanVerdict::Deferred(_) => {},
                ScanVerdict::UnknownOnly => {},
                ScanVerdict::NoMatch => {},
            }
        },
        ReportVerdict::MissingToolMarker => {},
        ReportVerdict::MissingLogEvidence => {},
    }
}

} // verus!
