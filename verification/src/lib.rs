//! Conformance harness for a raw outbound socket API.
//!
//! The crate holds the decisions of the harness: which connection each probe
//! asks for, how the result of each socket operation moves a probe's script
//! forward, how a late write is judged under the two half-open policies, how
//! a probe's race against its deadline becomes an outcome, and how the
//! outcomes fold into the final report. Performing the socket operations,
//! waiting and logging are left to the caller.
pub mod harness;
pub mod outcome;
pub mod probe;
pub mod report;
pub mod script;
