//! A grading engine for student-submitted C programs.
//!
//! The engine turns a submission (source text plus a question identifier)
//! into a deterministic per-test-case verdict report.  Compilation, sandboxed
//! execution and file handling are performed by the host around the engine;
//! the engine itself decides, step by step, what has to happen next and what
//! every observed outcome means for the final report.

pub mod compile;
pub mod evaluate;
pub mod harness;
pub mod report;
pub mod store;
pub mod text;
pub mod workspace;
