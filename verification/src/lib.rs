//! Extraction and materialization of conformance test cases embedded in a
//! specification document.
//!
//! The library parses a document for structured blocks describing tests and
//! shared resource files, checks them against a strict configuration schema,
//! plans a collision-free on-disk layout for them, and prepares the per-test
//! execution steps.  All filesystem and process work is left to the caller;
//! this crate computes and verifies the decisions.

pub mod conformance;
pub mod error;
pub mod execution;
pub mod json;
pub mod repository;
pub mod shell;
pub mod text;
