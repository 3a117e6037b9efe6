//! Tests of JSONL line selection and record validation.

use qchi_lint::records::{
    jsonl_lines, validate_eval, validate_regression, validate_run, EvalRecord, RecordError,
    RegressionRecord, RunRecord,
};

fn run_record(quality_gate_pass: bool) -> RunRecord {
    RunRecord {
        run_id: "r-1".to_string(),
        ts: "2024-01-01T00:00:00Z".to_string(),
        mode: "solve".to_string(),
        task_id: "t-9".to_string(),
        quality_gate_pass,
        status: "done".to_string(),
    }
}

fn eval_record(score: f64) -> EvalRecord {
    EvalRecord {
        eval_id: "e-1".to_string(),
        ts: "2024-01-01T00:00:00Z".to_string(),
        run_id: "r-1".to_string(),
        suite: "core".to_string(),
        case_id: "c-3".to_string(),
        score_in_range: (0.0..=1.0).contains(&score),
        pass: true,
    }
}

#[test]
fn run_with_failed_quality_gate_still_passes() {
    assert!(validate_run(&run_record(false)).is_ok());
    assert!(validate_run(&run_record(true)).is_ok());
}

#[test]
fn run_with_empty_field_fails() {
    let mut rec = run_record(true);
    rec.mode = String::new();
    assert_eq!(validate_run(&rec), Err(RecordError::EmptyField));
}

#[test]
fn eval_score_out_of_range_fails() {
    assert_eq!(validate_eval(&eval_record(1.5)), Err(RecordError::ScoreOutOfRange));
    assert_eq!(validate_eval(&eval_record(-0.1)), Err(RecordError::ScoreOutOfRange));
    assert!(validate_eval(&eval_record(0.0)).is_ok());
    assert!(validate_eval(&eval_record(1.0)).is_ok());
    assert!(validate_eval(&eval_record(0.5)).is_ok());
}

#[test]
fn eval_empty_field_reported_before_score() {
    let mut rec = eval_record(1.5);
    rec.suite = String::new();
    assert_eq!(validate_eval(&rec), Err(RecordError::EmptyField));
}

#[test]
fn regression_requires_all_text_fields() {
    let rec = RegressionRecord {
        regression_id: "g-1".to_string(),
        ts: "2024-01-01T00:00:00Z".to_string(),
        suite: "core".to_string(),
        before_commit: "abc".to_string(),
        after_commit: "def".to_string(),
        pass: false,
        decision: "keep".to_string(),
    };
    assert!(validate_regression(&rec).is_ok());
    let mut bad = rec;
    bad.after_commit = String::new();
    assert_eq!(validate_regression(&bad), Err(RecordError::EmptyField));
}

#[test]
fn blank_lines_are_skipped_but_counted() {
    let content = b"{\"a\":1}\n\n  \n{\"b\":2}\n";
    let entries = jsonl_lines(content);
    assert_eq!(entries.len(), 2);
    assert_eq!(entries[0], (1, b"{\"a\":1}".to_vec()));
    assert_eq!(entries[1], (4, b"{\"b\":2}".to_vec()));
}

#[test]
fn jsonl_lines_of_empty_content_is_empty() {
    assert!(jsonl_lines(b"").is_empty());
    assert!(jsonl_lines(b"\n\n").is_empty());
}

#[test]
fn jsonl_selection_is_repeatable() {
    let content = b"{\"a\":1}\n\n{\"b\":2}";
    assert_eq!(jsonl_lines(content), jsonl_lines(content));
}
