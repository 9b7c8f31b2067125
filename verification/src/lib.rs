//! Decides whether two pieces of generated Rust source are the same code.
//!
//! Each fragment is normalised by piping it through `rustfmt`; the two
//! normalised texts are then compared for exact equality.  This crate holds
//! the decisions of that procedure and proves them: which command is to be
//! run and on what input, how the outcome of a run becomes a normalised text
//! or an error, and how two such results become a verdict.  Running the
//! child process is left to the caller, who reports back what happened.
//!
//! A caller begins with [`Comparison::new`], runs each command that
//! [`Comparison::invocation`] asks for, hands its outcome to
//! [`Comparison::advance`], and at the end reads the [`Verdict`].

pub mod compare;
pub mod decode;
pub mod error;
pub mod laws;
pub mod normalize;

pub use compare::{compare_tokenstreams, failure_message, Comparison, Side, Verdict};
pub use error::RustfmtError;
pub use normalize::{apply_rustfmt, rustfmt_invocation, ChildOutcome, Invocation};
