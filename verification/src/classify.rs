//! Line classification: decides whether a line of a validation section
//! reports a passing, failing, deferred or unknown check status.
//!
//! The decision is a closed keyword policy, not semantic understanding:
//! fixed word sets for each status, a narrow template-placeholder rejection
//! rule, and a fixed resolution order in which failure and deferral keywords
//! dominate unless an explicit pass keyword is also present.

use vstd::prelude::*;
use vstd::string::StringSliceAdditionalSpecFns;

use crate::text::{bytes_of, contains_bytes, contains_seq, contains_word, has_word, lower, to_lower};

verus! {

/// The status a single line reports for a check.
#[derive(Clone, Copy, Debug, PartialEq, Eq, Structural)]
pub enum CheckStatus {
    Pass,
    Fail,
    Deferred,
    Unknown,
}

/// Words that signal a passing status.
pub open spec fn pass_words() -> Seq<Seq<u8>> {
    seq![
        "pass".spec_bytes(),
        "passed".spec_bytes(),
        "ok".spec_bytes(),
        "verified".spec_bytes(),
        "valid".spec_bytes(),
        "holds".spec_bytes(),
        "satisfied".spec_bytes(),
    ]
}

/// Words that signal a failing status.
pub open spec fn fail_words() -> Seq<Seq<u8>> {
    seq![
        "fail".spec_bytes(),
        "failed".spec_bytes(),
        "error".spec_bytes(),
        "contradiction".spec_bytes(),
        "mismatch".spec_bytes(),
        "invalid".spec_bytes(),
        "violation".spec_bytes(),
        "violates".spec_bytes(),
    ]
}

/// Words that signal a deferred status.
pub open spec fn defer_words() -> Seq<Seq<u8>> {
    seq![
        "defer".spec_bytes(),
        "deferred".spec_bytes(),
        "pending".spec_bytes(),
        "todo".spec_bytes(),
        "tbd".spec_bytes(),
        "unknown".spec_bytes(),
    ]
}

/// Some word of `words` occurs in `text` as a whole word.
pub open spec fn has_any_word(text: Seq<u8>, words: Seq<Seq<u8>>) -> bool {
    exists|i: int| 0 <= i < words.len() && has_word(text, words[i])
}

/// The narrow template-placeholder rule: a lowercased line holding both
/// "pass" and "fail" as substrings together with a pipe character is a
/// table-template row, never a real verdict.
pub open spec fn is_placeholder_row(low: Seq<u8>) -> bool {
    contains_seq(low, "pass".spec_bytes()) && contains_seq(low, "fail".spec_bytes())
        && contains_seq(low, "|".spec_bytes())
}

/// A lowercased line carries a pass keyword.
pub open spec fn line_has_pass(low: Seq<u8>) -> bool {
    has_any_word(low, pass_words())
}

/// A lowercased line carries a fail keyword.
pub open spec fn line_has_fail(low: Seq<u8>) -> bool {
    has_any_word(low, fail_words())
}

/// A lowercased line carries a deferral keyword, the phrase "not run",
/// or "n/a".
pub open spec fn line_has_defer(low: Seq<u8>) -> bool {
    has_any_word(low, defer_words()) || contains_seq(low, "not run".spec_bytes()) || contains_seq(
        low,
        "n/a".spec_bytes(),
    )
}

/// The status a line reports, on its ASCII-lowercased bytes: placeholder
/// rows are Unknown; fail keywords dominate, then deferral keywords, unless
/// a pass keyword is also present; a pass keyword with no negative signal
/// is Pass; anything else is Unknown.
pub open spec fn classify_spec(line: Seq<u8>) -> CheckStatus {
    let low = lower(line);
    if is_placeholder_row(low) {
        CheckStatus::Unknown
    } else if line_has_fail(low) && !line_has_pass(low) {
        CheckStatus::Fail
    } else if line_has_defer(low) && !line_has_pass(low) {
        CheckStatus::Deferred
    } else if line_has_pass(low) {
        CheckStatus::Pass
    } else {
        CheckStatus::Unknown
    }
}

/// Whether some word of `words` occurs in `text` as a whole word.
fn any_word_of(text: &[u8], words: &Vec<Vec<u8>>) -> (r: bool)
    ensures
        r == has_any_word(text@, words.deep_view()),
{
    let mut i: usize = 0;
    while i < words.len()
        invariant
            0 <= i <= words@.len(),
            forall|k: int| 0 <= k < i ==> !has_word(text@, words.deep_view()[k]),
        decreases words@.len() - i,
    {
        proof {
            assert(words.deep_view()[i as int] == words@[i as int]@);
        }
        if contains_word(text, words[i].as_slice()) {
            return true;
        }
        i = i + 1;
    }
    false
}

fn pass_word_table() -> (r: Vec<Vec<u8>>)
    ensures
        r.deep_view() == pass_words(),
{
    let mut r: Vec<Vec<u8>> = Vec::new();
    r.push(bytes_of("pass"));
    r.push(bytes_of("passed"));
    r.push(bytes_of("ok"));
    r.push(bytes_of("verified"));
    r.push(bytes_of("valid"));
    r.push(bytes_of("holds"));
    r.push(bytes_of("satisfied"));
    proof {
        assert(r.deep_view() =~~= pass_words());
    }
    r
}

fn fail_word_table() -> (r: Vec<Vec<u8>>)
    ensures
        r.deep_view() == fail_words(),
{
    let mut r: Vec<Vec<u8>> = Vec::new();
    r.push(bytes_of("fail"));
    r.push(bytes_of("failed"));
    r.push(bytes_of("error"));
    r.push(bytes_of("contradiction"));
    r.push(bytes_of("mismatch"));
    r.push(bytes_of("invalid"));
    r.push(bytes_of("violation"));
    r.push(bytes_of("violates"));
    proof {
        assert(r.deep_view() =~~= fail_words());
    }
    r
}

fn defer_word_table() -> (r: Vec<Vec<u8>>)
    ensures
        r.deep_view() == defer_words(),
{
    let mut r: Vec<Vec<u8>> = Vec::new();
    r.push(bytes_of("defer"));
    r.push(bytes_of("deferred"));
    r.push(bytes_of("pending"));
    r.push(bytes_of("todo"));
    r.push(bytes_of("tbd"));
    r.push(bytes_of("unknown"));
    proof {
        assert(r.deep_view() =~~= defer_words());
    }
    r
}

/// Classify one line of text, case-insensitively.
pub fn classify_status(line: &[u8]) -> (r: CheckStatus)
    ensures
        r == classify_spec(line@),
{
    let low_vec = to_lower(line);
    let low = low_vec.as_slice();
    if contains_bytes(low, bytes_of("pass").as_slice()) && contains_bytes(
        low,
        bytes_of("fail").as_slice(),
    ) && contains_bytes(low, bytes_of("|").as_slice()) {
        return CheckStatus::Unknown;
    }
    let has_pass = any_word_of(low, &pass_word_table());
    let has_fail = any_word_of(low, &fail_word_table());
    let has_defer = any_word_of(low, &defer_word_table()) || contains_bytes(
        low,
        bytes_of("not run").as_slice(),
    ) || contains_bytes(low, bytes_of("n/a").as_slice());
    if has_fail && !has_pass {
        CheckStatus::Fail
    } else if has_defer && !has_pass {
        CheckStatus::Deferred
    } else if has_pass {
        CheckStatus::Pass
    } else {
        CheckStatus::Unknown
    }
}

} // verus!
