//! Fingerprint detection for processes observed inside containers.
//!
//! A detector looks at the snapshot of one process and decides whether the
//! process belongs to its runtime family and, if so, which helper program
//! should be run to extract more. The decision is a pure function of the
//! snapshot and the configuration; it is stated as a mathematical function
//! and every executable detector is proved to compute it.

pub mod config;
pub mod fingerprint;
pub mod process;
pub mod text;
pub mod tokens;
