//! Branch synchronisation planning and execution.
//!
//! The library decides which repository operations bring the current branch
//! up to date with the main branch (fetch, fast-forward, rebase, push), lays
//! them out as an ordered plan, renders that plan as text, and drives its
//! execution one operation at a time. Talking to the repository itself is
//! left to the caller, which performs each requested query or operation and
//! hands the outcome back.
pub mod builder;
pub mod config;
pub mod error;
pub mod executor;
pub mod plan;
pub mod plan_laws;
pub mod present;
pub mod sync;
