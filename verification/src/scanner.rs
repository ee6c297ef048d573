//! Scanner configuration and the error taxonomy.
//!
//! A `Scanner` is built once with `new` and the fluent `set_*` methods,
//! then consumed by `start` (in `engine`), which validates it and hands
//! back the scan engine. The configuration is modelled by `ConfigView`.

use vstd::prelude::*;
use vstd::string::StringExecFns;
use crate::label::{label_chars, port_label};

verus! {

/// The mathematical model of a scanner configuration.
pub ghost struct ConfigView {
    pub target: Seq<char>,
    pub output_file: Seq<char>,
    pub start_port: u16,
    pub max_port: u16,
    pub quiet: bool,
    pub display_socket: bool,
    pub timeout_secs: u64,
    pub delay_secs: u64,
}

/// A fatal scan failure. Per-port connection failures are not errors:
/// they are the ordinary "closed port" signal and never appear here.
#[derive(Debug)]
pub enum ScannerError {
    InvalidPortRange,
    InvalidTarget,
    WriteFileFailed { error: String },
    OpenFileFailed { error: String },
    RemoveFileFailed { error: String },
    CreateDirectoryFailed { error: String },
}

impl ScannerError {
    /// The human-readable message for this error.
    pub open spec fn spec_message(self) -> Seq<char> {
        match self {
            ScannerError::InvalidPortRange => "The given port range is invalid."@,
            ScannerError::InvalidTarget => "The given target is invalid."@,
            ScannerError::WriteFileFailed { error } => "Couldn't write to file: "@ + error@,
            ScannerError::OpenFileFailed { error } => "Couldn't open file: "@ + error@,
            ScannerError::RemoveFileFailed { error } => "Couldn't remove file: "@ + error@,
            ScannerError::CreateDirectoryFailed { error } => "Couldn't create directory: "@
                + error@,
        }
    }

    /// Render the human-readable message.
    pub fn message(&self) -> (m: String)
        ensures
            m@ == self.spec_message(),
    {
        match self {
            ScannerError::InvalidPortRange => String::from_str(
                "The given port range is invalid.",
            ),
            ScannerError::InvalidTarget => String::from_str("The given target is invalid."),
            ScannerError::WriteFileFailed { error } => String::from_str(
                "Couldn't write to file: ",
            ).concat(error.as_str()),
            ScannerError::OpenFileFailed { error } => String::from_str(
                "Couldn't open file: ",
            ).concat(error.as_str()),
            ScannerError::RemoveFileFailed { error } => String::from_str(
                "Couldn't remove file: ",
            ).concat(error.as_str()),
            ScannerError::CreateDirectoryFailed { error } => String::from_str(
                "Couldn't create directory: ",
            ).concat(error.as_str()),
        }
    }
}

/// Scanner configuration: target, port bounds, pacing, and output routing.
pub struct Scanner {
    pub target: String,
    pub output_file: String,
    pub start_port: u16,
    pub max_port: u16,
    pub quiet: bool,
    pub display_socket: bool,
    pub timeout_secs: u64,
    pub delay_secs: u64,
}

impl View for Scanner {
    type V = ConfigView;

    open spec fn view(&self) -> ConfigView {
        ConfigView {
            target: self.target@,
            output_file: self.output_file@,
            start_port: self.start_port,
            max_port: self.max_port,
            quiet: self.quiet,
            display_socket: self.display_socket,
            timeout_secs: self.timeout_secs,
            delay_secs: self.delay_secs,
        }
    }
}

/// Whether the configuration asks for a file sink at all.
pub open spec fn has_output_file(c: ConfigView) -> bool {
    c.output_file.len() > 0
}

/// Whether the port bounds form a valid (non-empty) range.
pub open spec fn valid_range(c: ConfigView) -> bool {
    c.start_port <= c.max_port
}

/// What an open port reports: one line of text, and where it goes.
pub struct PortReport {
    /// The label: the bare decimal port, or `target:port`.
    pub line: String,
    /// Print the line to standard output.
    pub console: bool,
    /// Append the line to the output file.
    pub file: bool,
}

impl Scanner {
    /// Build a new scanner with the default configuration: the full port
    /// range, console-only output (no output file), a 10 s connection
    /// timeout and a 1 s delay between probes.
    pub fn new() -> (r: Scanner)
        ensures
            r@.target == Seq::<char>::empty(),
            r@.output_file == Seq::<char>::empty(),
            r@.start_port == 0,
            r@.max_port == 65535,
            r@.quiet == false,
            r@.display_socket == false,
            r@.timeout_secs == 10,
            r@.delay_secs == 1,
    {
        Scanner {
            target: String::new(),
            output_file: String::new(),
            start_port: 0,
            max_port: 65535,
            quiet: false,
            display_socket: false,
            timeout_secs: 10,
            delay_secs: 1,
        }
    }

    /// Check that the configured port bounds form a valid range.
    pub fn validate(&self) -> (r: Result<&Scanner, ScannerError>)
        ensures
            r is Ok <==> valid_range(self@),
            (r matches Ok(c) ==> c@ == self@),
            (r matches Err(e) ==> e is InvalidPortRange),
    {
        if self.start_port > self.max_port {
            return Err(ScannerError::InvalidPortRange);
        }
        Ok(self)
    }

    /// Compute the report for a port found open: its label and routing.
    pub fn handle_result(&self, p: u16) -> (r: PortReport)
        ensures
            r.line@ == label_chars(self@.target, self@.display_socket, p),
            r.console == !self@.quiet,
            r.file == has_output_file(self@),
    {
        let line = port_label(self.target.as_str(), self.display_socket, p);
        let file = !self.output_file.as_str().is_empty();
        PortReport { line, console: !self.quiet, file }
    }

    /// Set the scanner output file; the empty string means console only.
    pub fn set_output_file(self, of: String) -> (r: Scanner)
        ensures
            r@ == (ConfigView { output_file: of@, ..self@ }),
    {
        Scanner { output_file: of, ..self }
    }

    /// Set the scanner target.
    pub fn set_target(self, t: String) -> (r: Scanner)
        ensures
            r@ == (ConfigView { target: t@, ..self@ }),
    {
        Scanner { target: t, ..self }
    }

    /// Set the quiet flag.
    pub fn set_quiet(self, q: bool) -> (r: Scanner)
        ensures
            r@ == (ConfigView { quiet: q, ..self@ }),
    {
        Scanner { quiet: q, ..self }
    }

    /// Set the display socket flag.
    pub fn set_display_socket(self, ds: bool) -> (r: Scanner)
        ensures
            r@ == (ConfigView { display_socket: ds, ..self@ }),
    {
        Scanner { display_socket: ds, ..self }
    }

    /// Set the lowest port to be checked.
    pub fn set_start_port(self, sp: u16) -> (r: Scanner)
        ensures
            r@ == (ConfigView { start_port: sp, ..self@ }),
    {
        Scanner { start_port: sp, ..self }
    }

    /// Set the highest port to be checked.
    pub fn set_max_port(self, mp: u16) -> (r: Scanner)
        ensures
            r@ == (ConfigView { max_port: mp, ..self@ }),
    {
        Scanner { max_port: mp, ..self }
    }

    /// Set the timeout, in seconds, for each connection attempt.
    pub fn set_timeout(self, t: u64) -> (r: Scanner)
        ensures
            r@ == (ConfigView { timeout_secs: t, ..self@ }),
    {
        Scanner { timeout_secs: t, ..self }
    }

    /// Set the delay, in seconds, between two consecutive probes.
    pub fn set_delay(self, d: u64) -> (r: Scanner)
        ensures
            r@ == (ConfigView { delay_secs: d, ..self@ }),
    {
        Scanner { delay_secs: d, ..self }
    }
}

} // verus!
