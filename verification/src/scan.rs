//! Named-check scanning: find the lines of a section that speak of a given
//! check (by keyword) and reduce their statuses to one verdict per check.
//!
//! The reduction short-circuits: the first matching line that classifies as
//! Pass succeeds; the first that classifies as Fail or Deferred fails with
//! that line; a scan that sees only Unknown matches is distinguished from
//! one that sees no matching line at all.

use vstd::prelude::*;

use crate::classify::{classify_spec, classify_status, CheckStatus};
use crate::text::{contains_bytes, contains_seq, lines_spec, lower, split_lines, to_lower};

verus! {

/// The outcome of scanning a section for one named check.
pub enum ScanVerdict {
    /// A matching line reported Pass before any Fail or Deferred.
    Passed,
    /// The first definitive matching line reported Fail; the line is kept.
    Failed(Seq<u8>),
    /// The first definitive matching line reported Deferred; the line is kept.
    Deferred(Seq<u8>),
    /// Matching lines were seen, but none reported a definitive status.
    UnknownOnly,
    /// No line matched the check's keywords.
    NoMatch,
}

/// The error a named-check scan reports.
#[derive(Debug)]
pub enum CheckError {
    /// The check is present but a matching line reported it failed.
    ReportedFailed(Vec<u8>),
    /// The check is present but a matching line deferred it.
    ReportedDeferred(Vec<u8>),
    /// No line of the section mentions the check.
    Missing,
    /// The check is mentioned, but no matching line gives an explicit
    /// PASS status.
    NoExplicitPass,
}

/// A line matches a check when its lowercased text contains one of the
/// check's keywords as a substring.
pub open spec fn line_matches(line: Seq<u8>, keywords: Seq<Seq<u8>>) -> bool {
    exists|i: int| 0 <= i < keywords.len() && contains_seq(lower(line), keywords[i])
}

/// A scan that found nothing definitive yet saw a matching line: a final
/// NoMatch becomes UnknownOnly.
pub open spec fn after_unknown_match(v: ScanVerdict) -> ScanVerdict {
    match v {
        ScanVerdict::NoMatch => ScanVerdict::UnknownOnly,
        _ => v,
    }
}

/// The verdict of scanning `ls` in order for a check with `keywords`:
/// the first matching line with a definitive status decides; matching
/// Unknown lines are remembered; non-matching lines are skipped.
pub open spec fn scan_spec(ls: Seq<Seq<u8>>, keywords: Seq<Seq<u8>>) -> ScanVerdict
    decreases ls.len(),
{
    if ls.len() == 0 {
        ScanVerdict::NoMatch
    } else if !line_matches(ls[0], keywords) {
        scan_spec(ls.drop_first(), keywords)
    } else {
        match classify_spec(ls[0]) {
            CheckStatus::Pass => ScanVerdict::Passed,
            CheckStatus::Fail => ScanVerdict::Failed(ls[0]),
            CheckStatus::Deferred => ScanVerdict::Deferred(ls[0]),
            CheckStatus::Unknown => after_unknown_match(scan_spec(ls.drop_first(), keywords)),
        }
    }
}

/// The scan result that a scan verdict prescribes: success for Passed,
/// an error of the matching kind otherwise, quoting the same line.
pub open spec fn reflects_scan(r: Result<(), CheckError>, v: ScanVerdict) -> bool {
    match v {
        ScanVerdict::Passed => r == Ok::<(), CheckError>(()),
        ScanVerdict::Failed(l) => r matches Err(CheckError::ReportedFailed(line)) && line@ == l,
        ScanVerdict::Deferred(l) => r matches Err(CheckError::ReportedDeferred(line)) && line@
            == l,
        ScanVerdict::UnknownOnly => r == Err::<(), CheckError>(CheckError::NoExplicitPass),
        ScanVerdict::NoMatch => r == Err::<(), CheckError>(CheckError::Missing),
    }
}

/// Whether `line`'s lowercased text contains one of `keywords`.
fn matches_keywords(line: &[u8], keywords: &Vec<Vec<u8>>) -> (r: bool)
    ensures
        r == line_matches(line@, keywords.deep_view()),
{
    let low_vec = to_lower(line);
    let low = low_vec.as_slice();
    let mut i: usize = 0;
    while i < keywords.len()
        invariant
            low_vec@ == lower(line@),
            low_vec@ == low@,
            0 <= i <= keywords@.len(),
            forall|k: int| 0 <= k < i ==> !contains_seq(lower(line@), keywords.deep_view()[k]),
        decreases keywords@.len() - i,
    {
        proof {
            assert(keywords.deep_view()[i as int] == keywords@[i as int]@);
        }
        if contains_bytes(low, keywords[i].as_slice()) {
            return true;
        }
        i = i + 1;
    }
    false
}

/// Scan a section for one named check and reduce the matching lines to a
/// single verdict, as `scan_spec` describes.
pub fn lint_named_check(validation_section: &[u8], keywords: &Vec<Vec<u8>>) -> (r: Result<
    (),
    CheckError,
>)
    ensures
        reflects_scan(r, scan_spec(lines_spec(validation_section@), keywords.deep_view())),
{
    let lines = split_lines(validation_section);
    let ghost all = lines.deep_view();
    let ghost kws = keywords.deep_view();
    let mut idx: usize = 0;
    let mut matched = false;
    proof {
        assert(all.skip(0) =~~= all);
    }
    while idx < lines.len()
        invariant
            all == lines.deep_view(),
            all == lines_spec(validation_section@),
            kws == keywords.deep_view(),
            0 <= idx <= all.len(),
            lines@.len() == all.len(),
            !matched ==> scan_spec(all, kws) == scan_spec(all.skip(idx as int), kws),
            matched ==> scan_spec(all, kws) == after_unknown_match(
                scan_spec(all.skip(idx as int), kws),
            ),
        decreases all.len() - idx,
    {
        let ghost suffix = all.skip(idx as int);
        proof {
            assert(suffix[0] == all[idx as int]);
            assert(all[idx as int] == lines@[idx as int]@);
            assert(suffix.drop_first() =~~= all.skip(idx + 1));
        }
        let line = &lines[idx];
        proof {
            assert(line@ == suffix[0]);
            assert(suffix.len() > 0);
        }
        if matches_keywords(line.as_slice(), keywords) {
            match classify_status(line.as_slice()) {
                CheckStatus::Pass => {
                    proof {
                        assert(scan_spec(suffix, kws) == ScanVerdict::Passed);
                    }
                    return Ok(());
                },
                CheckStatus::Fail => {
                    proof {
                        assert(scan_spec(suffix, kws) == ScanVerdict::Failed(suffix[0]));
                    }
                    return Err(CheckError::ReportedFailed(line.clone()));
                },
                CheckStatus::Deferred => {
                    proof {
                        assert(scan_spec(suffix, kws) == ScanVerdict::Deferred(suffix[0]));
                    }
                    return Err(CheckError::ReportedDeferred(line.clone()));
                },
                CheckStatus::Unknown => {
                    proof {
                        assert(scan_spec(suffix, kws) == after_unknown_match(
                            scan_spec(suffix.drop_first(), kws),
                        ));
                    }
                    matched = true;
                },
            }
        }
        idx = idx + 1;
    }
    proof {
        assert(all.skip(all.len() as int) =~~= Seq::<Seq<u8>>::empty());
    }
    if matched {
        Err(CheckError::NoExplicitPass)
    } else {
        Err(CheckError::Missing)
    }
}

} // verus!
