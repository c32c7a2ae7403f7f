//! Tracks which versions of a set of named projects are known locally and
//! reconciles that record against a package-metadata source.
//!
//! The crate holds the decisions: the version store and its reconciliation,
//! the policy filter over repository names, and the shaping of results for
//! display. Reading the durable file, querying the metadata source and
//! printing are left to the caller, which hands plain values in and performs
//! the actions it is handed back.

pub mod text;
pub mod config;
pub mod types;
pub mod db;
pub mod update;
pub mod laws;
pub mod backend;
pub mod cli;
pub mod frontend;
pub mod filter;
