//! A minimal, strictly sequential TCP connect-scanner library.
//!
//! The crate holds the verified core of the scanner: the configuration and
//! its validation, the error taxonomy, the textual labels for open ports,
//! and the scan engine, a step-by-step state machine that decides which
//! action (filesystem preparation, target resolution, port probe, line
//! output, pacing delay) comes next and what each outcome means. The
//! blocking I/O itself — TCP connects, file writes, sleeping — is performed
//! by an unverified driver that follows the engine's instructions.

pub mod label;
pub mod scanner;
pub mod engine;
