//! A commit-message suggestion pipeline.
//!
//! Given a filesystem path, the pipeline decides whether the path is under
//! version control, gathers the diff of every changed file into one aggregate
//! text, wraps that text in a fixed instruction prompt, and interprets the
//! output of an external inference process as the suggestion.
//!
//! The pipeline itself performs no input or output. It is a state machine:
//! each step names the external command to run next, and the driver hands the
//! command's outcome back to the machine. Every decision the machine takes is
//! specified by a functional model and verified against it.

pub mod aggregate;
pub mod laws;
pub mod pipeline;
pub mod prompt;
pub mod text;
