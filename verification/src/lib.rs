//! A policy linter for research-workflow artifacts.
//!
//! Two validators share one text-classification core:
//! - a markdown report validator, which checks required section headings,
//!   provenance tags, and a set of named validation checks whose pass/fail
//!   status is read off heuristically from the lines of a dedicated section;
//! - a JSONL record validator, which checks required non-empty fields and
//!   the evaluation score range on decoded records.
//!
//! All analysis is performed on raw bytes by substring search and line
//! scanning; no structural markdown parsing takes place.

pub mod classify;
pub mod laws;
pub mod records;
pub mod report;
pub mod scan;
pub mod text;
