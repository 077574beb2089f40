//! Verified core of a binding to the SCIP constraint-integer-programming engine.
//!
//! The engine itself is reached through foreign calls, which cannot be made
//! from verified code. This crate therefore holds everything the binding
//! decides: which engine call to issue next, how an engine answer changes the
//! session, which handles are valid and which may still be released. The
//! caller performs each [`call::EngineCall`] and hands the engine's answer
//! back as a [`call::Reply`].

pub mod reals;
pub mod seqs;
pub mod retcode;
pub mod status;
pub mod variable;
pub mod constraint;
pub mod solution;
pub mod error;
pub mod setting;
pub mod call;
pub mod machine;
pub mod model;
pub mod laws;
