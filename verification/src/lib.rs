//! Processor architecture layer of a bare-metal kernel.
//!
//! The crate builds the x86_64 control structures (global descriptor table,
//! task state segment, interrupt descriptor table) as plain values with
//! byte-exact encodings, and describes the privileged instruction sequences
//! that install them. Every encoding and every sequence carries a contract
//! that the verifier checks.

pub mod x86_64;
