//! Report validation: a sequential gate over one markdown document.
//!
//! The stages, each a hard stop on first failure: required section
//! headings (this stage alone aggregates every missing heading), a
//! provenance tag, a non-empty validation section, four named checks
//! inside it, a symbolic-verification check, a tool marker, and fenced
//! log evidence.

use vstd::prelude::*;
use vstd::seq_lib::*;
use vstd::slice::{slice_subrange, slice_to_vec};
use vstd::string::StringSliceAdditionalSpecFns;

use crate::scan::{
    lint_named_check, reflects_scan, scan_spec, CheckError, ScanVerdict,
};
use crate::text::{
    bytes_of, contains_bytes, contains_seq, find_first, find_spec, lemma_find_from_some,
    lines_spec, lower, to_lower, trim, trim_spec,
};

verus! {

/// The five named checks a validation section must report on.
#[derive(Clone, Copy, Debug, PartialEq, Eq, Structural)]
pub enum CheckName {
    Units,
    Limits,
    Asymptotics,
    Consistency,
    SymbolicVerification,
}

/// Why a report was rejected.
#[derive(Debug)]
pub enum ReportError {
    /// Required section headings absent from the document: every one of
    /// them, not only the first.
    MissingSections(Vec<Vec<u8>>),
    /// No provenance tag anywhere in the document.
    MissingProvenance,
    /// The validation-checks section is absent or empty after trimming.
    MissingValidationSection,
    /// A named check did not reach a passing verdict.
    Check(CheckName, CheckError),
    /// No symbolic-computation tool is mentioned.
    MissingToolMarker,
    /// No fenced code block together with a log marker.
    MissingLogEvidence,
}

/// The abstract outcome of validating a report.
pub enum ReportVerdict {
    Accepted,
    MissingSections(Seq<Seq<u8>>),
    MissingProvenance,
    MissingValidationSection,
    CheckFailed(CheckName, ScanVerdict),
    MissingToolMarker,
    MissingLogEvidence,
}

/// The nine section headings every report must contain.
pub open spec fn required_headings() -> Seq<Seq<u8>> {
    seq![
        "## Problem framing".spec_bytes(),
        "## Assumptions and regime".spec_bytes(),
        "## Governing equations".spec_bytes(),
        "## Derivation".spec_bytes(),
        "## Validation checks".spec_bytes(),
        "## Final result".spec_bytes(),
        "## Interpretation and confidence".spec_bytes(),
        "## Claim provenance".spec_bytes(),
        "## References".spec_bytes(),
    ]
}

/// The required headings that do not occur in `text`, in their
/// canonical order.
pub open spec fn missing_headings(text: Seq<u8>) -> Seq<Seq<u8>> {
    required_headings().filter(|h: Seq<u8>| !contains_seq(text, h))
}

/// One of the three provenance tag literals occurs in `text`.
pub open spec fn has_provenance_tag(text: Seq<u8>) -> bool {
    contains_seq(text, "REPRODUCED_FROM_SOURCE".spec_bytes()) || contains_seq(
        text,
        "INFERRED_ASSUMPTION".spec_bytes(),
    ) || contains_seq(text, "NEW_EXTENSION".spec_bytes())
}

/// The body of the section under `heading`: from just after the first
/// occurrence of `heading` up to the next sibling top-level heading (a
/// line feed followed by `## `) or the end of text, trimmed. A missing
/// heading and an empty-after-trim body are both "missing".
pub open spec fn extract_section_spec(text: Seq<u8>, heading: Seq<u8>) -> Option<Seq<u8>> {
    match find_spec(text, heading) {
        None => None,
        Some(i) => {
            let after = text.subrange(i + heading.len(), text.len() as int);
            let end = match find_spec(after, "\n## ".spec_bytes()) {
                Some(j) => j,
                None => after.len() as int,
            };
            let body = trim_spec(after.subrange(0, end));
            if body.len() == 0 {
                None
            } else {
                Some(body)
            }
        },
    }
}

/// The trigger keywords of each named check.
pub open spec fn check_keywords(name: CheckName) -> Seq<Seq<u8>> {
    match name {
        CheckName::Units => seq![
            "unit".spec_bytes(),
            "units".spec_bytes(),
            "dimensional".spec_bytes(),
        ],
        CheckName::Limits => seq![
            "limit".spec_bytes(),
            "limiting-case".spec_bytes(),
            "limiting case".spec_bytes(),
        ],
        CheckName::Asymptotics => seq!["asymptotic".spec_bytes(), "asymptotics".spec_bytes()],
        CheckName::Consistency => seq![
            "consistency".spec_bytes(),
            "cross-check".spec_bytes(),
            "cross check".spec_bytes(),
        ],
        CheckName::SymbolicVerification => seq![
            "symbolic verification".spec_bytes(),
            "symbolic check".spec_bytes(),
            "symbolic verifier".spec_bytes(),
        ],
    }
}

/// The scan verdict of one named check over a section body.
pub open spec fn scan_check(section: Seq<u8>, name: CheckName) -> ScanVerdict {
    scan_spec(lines_spec(section), check_keywords(name))
}

/// The first of the four evidentiary checks, in their fixed order, whose
/// scan does not pass.
pub open spec fn first_failing_horseman(section: Seq<u8>) -> Option<CheckName> {
    if scan_check(section, CheckName::Units) != ScanVerdict::Passed {
        Some(CheckName::Units)
    } else if scan_check(section, CheckName::Limits) != ScanVerdict::Passed {
        Some(CheckName::Limits)
    } else if scan_check(section, CheckName::Asymptotics) != ScanVerdict::Passed {
        Some(CheckName::Asymptotics)
    } else if scan_check(section, CheckName::Consistency) != ScanVerdict::Passed {
        Some(CheckName::Consistency)
    } else {
        None
    }
}

/// The lowercased document mentions a symbolic-computation tool.
pub open spec fn has_tool_marker(text: Seq<u8>) -> bool {
    contains_seq(lower(text), "mathematica".spec_bytes()) || contains_seq(
        lower(text),
        "sympy".spec_bytes(),
    )
}

/// The document contains a fenced code block marker.
pub open spec fn has_code_fence(text: Seq<u8>) -> bool {
    contains_seq(text, "```".spec_bytes())
}

/// The document contains one of the designated log markers; all but the
/// literal `In[` are sought in the lowercased text.
pub open spec fn has_log_marker(text: Seq<u8>) -> bool {
    ||| contains_seq(lower(text), "symbolic log".spec_bytes())
    ||| contains_seq(lower(text), "verification log".spec_bytes())
    ||| contains_seq(lower(text), "sympy.".spec_bytes())
    ||| contains_seq(lower(text), "sp.".spec_bytes())
    ||| contains_seq(lower(text), "simplify(".spec_bytes())
    ||| contains_seq(lower(text), "fullsimplify".spec_bytes())
    ||| contains_seq(text, "In[".spec_bytes())
}

/// The outcome of the symbolic-verification stages: the named scan must
/// pass, then the tool marker must be present, then the fenced log
/// evidence.
pub open spec fn symbolic_verdict(text: Seq<u8>, section: Seq<u8>) -> ReportVerdict {
    if scan_check(section, CheckName::SymbolicVerification) != ScanVerdict::Passed {
        ReportVerdict::CheckFailed(
            CheckName::SymbolicVerification,
            scan_check(section, CheckName::SymbolicVerification),
        )
    } else if !has_tool_marker(text) {
        ReportVerdict::MissingToolMarker
    } else if !(has_code_fence(text) && has_log_marker(text)) {
        ReportVerdict::MissingLogEvidence
    } else {
        ReportVerdict::Accepted
    }
}

/// The outcome of validating a whole report: the sequential gate of
/// heading presence, provenance, section extraction, the four named
/// checks, and the symbolic-verification stages.
pub open spec fn report_verdict(text: Seq<u8>) -> ReportVerdict {
    if missing_headings(text).len() > 0 {
        ReportVerdict::MissingSections(missing_headings(text))
    } else if !has_provenance_tag(text) {
        ReportVerdict::MissingProvenance
    } else {
        match extract_section_spec(text, "## Validation checks".spec_bytes()) {
            None => ReportVerdict::MissingValidationSection,
            Some(section) => match first_failing_horseman(section) {
                Some(name) => ReportVerdict::CheckFailed(name, scan_check(section, name)),
                None => symbolic_verdict(text, section),
            },
        }
    }
}

/// How a check error answers for a scan verdict.
pub open spec fn reflects_check_error(e: CheckError, v: ScanVerdict) -> bool {
    reflects_scan(Err::<(), CheckError>(e), v)
}

/// The validation result that a report verdict prescribes: success for
/// Accepted, an error of the matching kind otherwise, naming the same
/// headings, check and lines.
pub open spec fn reflects_report(r: Result<(), ReportError>, v: ReportVerdict) -> bool {
    match v {
        ReportVerdict::Accepted => r == Ok::<(), ReportError>(()),
        ReportVerdict::MissingSections(hs) => r matches Err(ReportError::MissingSections(list))
            && list.deep_view() == hs,
        ReportVerdict::MissingProvenance => r == Err::<(), ReportError>(
            ReportError::MissingProvenance,
        ),
        ReportVerdict::MissingValidationSection => r == Err::<(), ReportError>(
            ReportError::MissingValidationSection,
        ),
        ReportVerdict::CheckFailed(name, sv) => r matches Err(ReportError::Check(n, e)) && n
            == name && reflects_check_error(e, sv),
        ReportVerdict::MissingToolMarker => r == Err::<(), ReportError>(
            ReportError::MissingToolMarker,
        ),
        ReportVerdict::MissingLogEvidence => r == Err::<(), ReportError>(
            ReportError::MissingLogEvidence,
        ),
    }
}

fn required_heading_table() -> (r: Vec<Vec<u8>>)
    ensures
        r.deep_view() == required_headings(),
{
    let mut r: Vec<Vec<u8>> = Vec::new();
    r.push(bytes_of("## Problem framing"));
    r.push(bytes_of("## Assumptions and regime"));
    r.push(bytes_of("## Governing equations"));
    r.push(bytes_of("## Derivation"));
    r.push(bytes_of("## Validation checks"));
    r.push(bytes_of("## Final result"));
    r.push(bytes_of("## Interpretation and confidence"));
    r.push(bytes_of("## Claim provenance"));
    r.push(bytes_of("## References"));
    proof {
        assert(r.deep_view() =~~= required_headings());
    }
    r
}

fn check_keyword_table(name: CheckName) -> (r: Vec<Vec<u8>>)
    ensures
        r.deep_view() == check_keywords(name),
{
    let mut r: Vec<Vec<u8>> = Vec::new();
    match name {
        CheckName::Units => {
            r.push(bytes_of("unit"));
            r.push(bytes_of("units"));
            r.push(bytes_of("dimensional"));
        },
        CheckName::Limits => {
            r.push(bytes_of("limit"));
            r.push(bytes_of("limiting-case"));
            r.push(bytes_of("limiting case"));
        },
        CheckName::Asymptotics => {
            r.push(bytes_of("asymptotic"));
            r.push(bytes_of("asymptotics"));
        },
        CheckName::Consistency => {
            r.push(bytes_of("consistency"));
            r.push(bytes_of("cross-check"));
            r.push(bytes_of("cross check"));
        },
        CheckName::SymbolicVerification => {
            r.push(bytes_of("symbolic verification"));
            r.push(bytes_of("symbolic check"));
            r.push(bytes_of("symbolic verifier"));
        },
    }
    proof {
        assert(r.deep_view() =~~= check_keywords(name));
    }
    r
}

/// Extract the body of the section under `section_heading` from `text`,
/// as `extract_section_spec` describes.
pub fn extract_section(text: &[u8], section_heading: &[u8]) -> (r: Option<Vec<u8>>)
    ensures
        match r {
            Some(body) => extract_section_spec(text@, section_heading@) == Some(body@),
            None => extract_section_spec(text@, section_heading@) is None,
        },
{
    let tlen: usize = text.len();
    let hlen: usize = section_heading.len();
    match find_first(text, section_heading) {
        None => None,
        Some(i) => {
            proof {
                lemma_find_from_some(text@, section_heading@, 0, i as int);
            }
            let after = slice_subrange(text, i + hlen, tlen);
            let pat = bytes_of("\n## ");
            let end: usize = match find_first(after, pat.as_slice()) {
                Some(j) => {
                    proof {
                        lemma_find_from_some(after@, pat@, 0, j as int);
                    }
                    j
                },
                None => after.len(),
            };
            let body = trim(slice_subrange(after, 0, end));
            if body.len() == 0 {
                None
            } else {
                Some(body)
            }
        },
    }
}

/// Run one named check over a section body and wrap its error under the
/// check's name.
fn run_named_check(validation_section: &[u8], name: CheckName) -> (r: Result<(), ReportError>)
    ensures
        r is Ok <==> scan_check(validation_section@, name) == ScanVerdict::Passed,
        r matches Err(re) ==> re matches ReportError::Check(n, e) && n == name
            && reflects_check_error(e, scan_check(validation_section@, name)),
{
    let keywords = check_keyword_table(name);
    match lint_named_check(validation_section, &keywords) {
        Ok(()) => Ok(()),
        Err(e) => Err(ReportError::Check(name, e)),
    }
}

/// Scan the validation section for the four evidentiary checks, in order:
/// units, limits, asymptotics, consistency. Each must reach a passing
/// verdict; the first that does not decides the error.
pub fn lint_four_horsemen(validation_section: &[u8]) -> (r: Result<(), ReportError>)
    ensures
        match first_failing_horseman(validation_section@) {
            None => r == Ok::<(), ReportError>(()),
            Some(name) => r matches Err(ReportError::Check(n, e)) && n == name
                && reflects_check_error(e, scan_check(validation_section@, name)),
        },
{
    let r = run_named_check(validation_section, CheckName::Units);
    if r.is_err() {
        return r;
    }
    let r = run_named_check(validation_section, CheckName::Limits);
    if r.is_err() {
        return r;
    }
    let r = run_named_check(validation_section, CheckName::Asymptotics);
    if r.is_err() {
        return r;
    }
    let r = run_named_check(validation_section, CheckName::Consistency);
    if r.is_err() {
        return r;
    }
    Ok(())
}

/// Check the symbolic-verification stages: the named scan inside the
/// validation section, then the tool marker and the fenced log evidence
/// over the whole document.
pub fn lint_symbolic_verification(text: &[u8], validation_section: &[u8]) -> (r: Result<
    (),
    ReportError,
>)
    ensures
        reflects_report(r, symbolic_verdict(text@, validation_section@)),
{
    let r = run_named_check(validation_section, CheckName::SymbolicVerification);
    if r.is_err() {
        return r;
    }
    let low_vec = to_lower(text);
    let low = low_vec.as_slice();
    let has_tool = contains_bytes(low, bytes_of("mathematica").as_slice()) || contains_bytes(
        low,
        bytes_of("sympy").as_slice(),
    );
    if !has_tool {
        return Err(ReportError::MissingToolMarker);
    }
    let has_fence = contains_bytes(text, bytes_of("```").as_slice());
    let has_log = contains_bytes(low, bytes_of("symbolic log").as_slice()) || contains_bytes(
        low,
        bytes_of("verification log").as_slice(),
    ) || contains_bytes(low, bytes_of("sympy.").as_slice()) || contains_bytes(
        low,
        bytes_of("sp.").as_slice(),
    ) || contains_bytes(low, bytes_of("simplify(").as_slice()) || contains_bytes(
        low,
        bytes_of("fullsimplify").as_slice(),
    ) || contains_bytes(text, bytes_of("In[").as_slice());
    if !(has_fence && has_log) {
        return Err(ReportError::MissingLogEvidence);
    }
    Ok(())
}

/// Validate a whole report document, as `report_verdict` describes.
pub fn lint_report(text: &[u8]) -> (r: Result<(), ReportError>)
    ensures
        reflects_report(r, report_verdict(text@)),
{
    let headings = required_heading_table();
    let mut missing: Vec<Vec<u8>> = Vec::new();
    let ghost pred = |h: Seq<u8>| !contains_seq(text@, h);
    let mut i: usize = 0;
    proof {
        reveal(Seq::filter);
        assert(required_headings().subrange(0, 0) =~~= Seq::<Seq<u8>>::empty());
        assert(missing.deep_view() =~~= required_headings().subrange(0, 0).filter(pred));
    }
    while i < headings.len()
        invariant
            headings.deep_view() == required_headings(),
            headings@.len() == required_headings().len(),
            pred == (|h: Seq<u8>| !contains_seq(text@, h)),
            0 <= i <= headings@.len(),
            missing.deep_view() == required_headings().subrange(0, i as int).filter(pred),
        decreases headings@.len() - i,
    {
        let ghost prefix = required_headings().subrange(0, i as int);
        let ghost next = required_headings().subrange(0, i + 1);
        proof {
            assert(headings@[i as int]@ == required_headings()[i as int]);
            assert(next.drop_last() =~~= prefix);
            assert(next.last() == required_headings()[i as int]);
            reveal(Seq::filter);
        }
        if !contains_bytes(text, headings[i].as_slice()) {
            missing.push(slice_to_vec(headings[i].as_slice()));
            proof {
                assert(missing.deep_view() =~~= next.filter(pred));
            }
        } else {
            proof {
                assert(missing.deep_view() =~~= next.filter(pred));
            }
        }
        i = i + 1;
    }
    proof {
        assert(required_headings().subrange(0, required_headings().len() as int) =~~= required_headings());
        assert(missing.deep_view() =~~= missing_headings(text@));
    }
    if missing.len() > 0 {
        return Err(ReportError::MissingSections(missing));
    }
    let has_provenance = contains_bytes(text, bytes_of("REPRODUCED_FROM_SOURCE").as_slice())
        || contains_bytes(text, bytes_of("INFERRED_ASSUMPTION").as_slice()) || contains_bytes(
        text,
        bytes_of("NEW_EXTENSION").as_slice(),
    );
    if !has_provenance {
        return Err(ReportError::MissingProvenance);
    }
    let heading = bytes_of("## Validation checks");
    let section = match extract_section(text, heading.as_slice()) {
        None => {
            return Err(ReportError::MissingValidationSection);
        },
        Some(body) => body,
    };
    let r = lint_four_horsemen(section.as_slice());
    if r.is_err() {
        return r;
    }
    lint_symbolic_verification(text, section.as_slice())
}

} // verus!
