//! JSONL record validation: required non-empty fields and the evaluation
//! score range, on records already decoded from single lines.
//!
//! Decoding itself is the caller's business; these validators state, for
//! every record value, exactly when it is accepted. Line selection is also
//! here: non-blank lines are kept with their 1-indexed raw positions, so
//! blank lines are skipped without disturbing the numbering.

use vstd::prelude::*;

use crate::text::{is_blank, is_blank_line, lines_spec, split_lines};

verus! {

/// One line of a run log.
pub struct RunRecord {
    pub run_id: String,
    pub ts: String,
    pub mode: String,
    pub task_id: String,
    pub quality_gate_pass: bool,
    pub status: String,
}

/// One line of an evaluation log. The score itself is a decoded number;
/// only whether it lies in the unit interval matters here, and that
/// judgement is taken as a field.
pub struct EvalRecord {
    pub eval_id: String,
    pub ts: String,
    pub run_id: String,
    pub suite: String,
    pub case_id: String,
    pub score_in_range: bool,
    pub pass: bool,
}

/// One line of a regression log.
pub struct RegressionRecord {
    pub regression_id: String,
    pub ts: String,
    pub suite: String,
    pub before_commit: String,
    pub after_commit: String,
    pub pass: bool,
    pub decision: String,
}

/// Why a record was rejected.
#[derive(Clone, Copy, Debug, PartialEq, Eq, Structural)]
pub enum RecordError {
    /// A required text field is empty.
    EmptyField,
    /// The evaluation score lies outside the unit interval.
    ScoreOutOfRange,
}

/// Every required text field of a run record is non-empty. The quality
/// gate boolean is decoded but not constrained.
pub open spec fn run_fields_ok(r: RunRecord) -> bool {
    r.run_id@.len() > 0 && r.ts@.len() > 0 && r.mode@.len() > 0 && r.task_id@.len() > 0
        && r.status@.len() > 0
}

/// Every required text field of an eval record is non-empty.
pub open spec fn eval_fields_ok(r: EvalRecord) -> bool {
    r.eval_id@.len() > 0 && r.ts@.len() > 0 && r.run_id@.len() > 0 && r.suite@.len() > 0
        && r.case_id@.len() > 0
}

/// Every required text field of a regression record is non-empty.
pub open spec fn regression_fields_ok(r: RegressionRecord) -> bool {
    r.regression_id@.len() > 0 && r.ts@.len() > 0 && r.suite@.len() > 0 && r.before_commit@.len()
        > 0 && r.after_commit@.len() > 0 && r.decision@.len() > 0
}

/// Accept a run record exactly when all its required text fields are
/// non-empty.
pub fn validate_run(r: &RunRecord) -> (res: Result<(), RecordError>)
    ensures
        res is Ok <==> run_fields_ok(*r),
        res is Err ==> res == Err::<(), RecordError>(RecordError::EmptyField),
{
    if r.run_id.as_str().is_empty() || r.ts.as_str().is_empty() || r.mode.as_str().is_empty()
        || r.task_id.as_str().is_empty() || r.status.as_str().is_empty() {
        Err(RecordError::EmptyField)
    } else {
        Ok(())
    }
}

/// Accept an eval record exactly when all its required text fields are
/// non-empty and the score lies in the unit interval; an empty field is
/// reported before an out-of-range score.
pub fn validate_eval(r: &EvalRecord) -> (res: Result<(), RecordError>)
    ensures
        res is Ok <==> eval_fields_ok(*r) && r.score_in_range,
        !eval_fields_ok(*r) ==> res == Err::<(), RecordError>(RecordError::EmptyField),
        eval_fields_ok(*r) && !r.score_in_range ==> res == Err::<(), RecordError>(
            RecordError::ScoreOutOfRange,
        ),
{
    if r.eval_id.as_str().is_empty() || r.ts.as_str().is_empty() || r.run_id.as_str().is_empty()
        || r.suite.as_str().is_empty() || r.case_id.as_str().is_empty() {
        Err(RecordError::EmptyField)
    } else if !r.score_in_range {
        Err(RecordError::ScoreOutOfRange)
    } else {
        Ok(())
    }
}

/// Accept a regression record exactly when all its required text fields
/// are non-empty. The pass boolean is decoded but not constrained.
pub fn validate_regression(r: &RegressionRecord) -> (res: Result<(), RecordError>)
    ensures
        res is Ok <==> regression_fields_ok(*r),
        res is Err ==> res == Err::<(), RecordError>(RecordError::EmptyField),
{
    if r.regression_id.as_str().is_empty() || r.ts.as_str().is_empty()
        || r.suite.as_str().is_empty() || r.before_commit.as_str().is_empty()
        || r.after_commit.as_str().is_empty() || r.decision.as_str().is_empty() {
        Err(RecordError::EmptyField)
    } else {
        Ok(())
    }
}

/// The non-blank lines of `ls`, each paired with its 1-indexed position
/// counted over all lines, blank ones included; `start` is the position
/// of `ls`'s first line.
pub open spec fn numbered_nonblank(ls: Seq<Seq<u8>>, start: int) -> Seq<(int, Seq<u8>)>
    decreases ls.len(),
{
    if ls.len() == 0 {
        Seq::empty()
    } else if is_blank(ls[0]) {
        numbered_nonblank(ls.drop_first(), start + 1)
    } else {
        seq![(start, ls[0])] + numbered_nonblank(ls.drop_first(), start + 1)
    }
}

/// Entry `k` of `r` carries the line number and the bytes that entry `k`
/// of the abstract selection `m` prescribes.
pub open spec fn entry_matches(r: Seq<(usize, Vec<u8>)>, m: Seq<(int, Seq<u8>)>, k: int) -> bool {
    r[k].0 as int == m[k].0 && r[k].1@ == m[k].1
}

/// Split a JSONL document into its non-blank lines, each with its
/// 1-indexed raw line number: blank lines are skipped but still counted.
pub fn jsonl_lines(content: &[u8]) -> (r: Vec<(usize, Vec<u8>)>)
    ensures
        r@.len() == numbered_nonblank(lines_spec(content@), 1).len(),
        forall|k: int|
            0 <= k < r@.len() ==> #[trigger] entry_matches(
                r@,
                numbered_nonblank(lines_spec(content@), 1),
                k,
            ),
{
    let lines = split_lines(content);
    let ghost all = lines.deep_view();
    let ghost m = numbered_nonblank(all, 1);
    let mut r: Vec<(usize, Vec<u8>)> = Vec::new();
    let mut i: usize = 0;
    proof {
        assert(all.skip(0) =~~= all);
        assert(m.skip(0) =~~= m);
    }
    while i < lines.len()
        invariant
            all == lines.deep_view(),
            all == lines_spec(content@),
            m == numbered_nonblank(all, 1),
            lines@.len() == all.len(),
            0 <= i <= all.len(),
            r@.len() <= m.len(),
            forall|k: int| 0 <= k < r@.len() ==> #[trigger] entry_matches(r@, m, k),
            m.skip(r@.len() as int) == numbered_nonblank(all.skip(i as int), i + 1),
        decreases all.len() - i,
    {
        let ghost suffix = all.skip(i as int);
        let ghost rest = numbered_nonblank(suffix, i + 1);
        proof {
            assert(suffix[0] == all[i as int]);
            assert(all[i as int] == lines@[i as int]@);
            assert(suffix.drop_first() =~~= all.skip(i + 1));
        }
        let line = &lines[i];
        if !is_blank_line(line.as_slice()) {
            proof {
                assert(rest == seq![((i + 1) as int, suffix[0])] + numbered_nonblank(
                    all.skip(i + 1),
                    i + 2,
                ));
                assert(rest.len() > 0);
                assert(m.len() - r@.len() == rest.len());
                assert(m[r@.len() as int] == m.skip(r@.len() as int)[0]);
                assert(m[r@.len() as int] == (((i + 1) as int, suffix[0])));
                assert(m.skip(r@.len() as int).drop_first() =~~= m.skip(r@.len() as int + 1));
                assert(m.skip(r@.len() as int + 1) =~~= numbered_nonblank(all.skip(i + 1), i + 2));
            }
            let number: usize = i + 1;
            let ghost prev = r@;
            r.push((number, line.clone()));
            proof {
                assert(r@[prev.len() as int].1@ == suffix[0]);
                assert forall|k: int| 0 <= k < r@.len() implies #[trigger] entry_matches(
                    r@,
                    m,
                    k,
                ) by {
                    if k < prev.len() {
                        assert(entry_matches(prev, m, k));
                        assert(r@[k] == prev[k]);
                    } else {
                        assert(k == prev.len());
                        assert(r@[k].0 == number);
                        assert(r@[k].1@ == suffix[0]);
                        assert(m[k] == (((i + 1) as int, suffix[0])));
                    }
                }
            }
        } else {
            proof {
                assert(rest =~~= numbered_nonblank(all.skip(i + 1), i + 2));
            }
        }
        i = i + 1;
    }
    proof {
        assert(all.skip(all.len() as int) =~~= Seq::<Seq<u8>>::empty());
        assert(numbered_nonblank(all.skip(all.len() as int), all.len() as int + 1) =~~= Seq::<
            (int, Seq<u8>),
        >::empty());
        assert(m.skip(r@.len() as int).len() == 0);
        assert(r@.len() == m.len());
    }
    r
}

} // verus!
