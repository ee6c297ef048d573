//! The scan engine: a step-by-step state machine over the configuration.
//!
//! `Scanner::start` validates the configuration and returns a `ScanEngine`.
//! The engine never performs I/O itself: `next_action` says what the driver
//! must do next (check, remove or prepare the output file, resolve the
//! target, probe a port, append a line, sleep), and the driver reports each
//! outcome back through the matching method, which decides what follows.
//! Fatal outcomes (a failed removal, an unresolvable target, a failed
//! write) come back to the driver as a `ScannerError` and stop the engine;
//! a failed connection attempt is the ordinary "closed port" outcome and
//! merely moves the scan along.

use vstd::prelude::*;
use crate::scanner::{Scanner, ScannerError, PortReport, has_output_file, valid_range};
use crate::label::label_chars;

verus! {

/// What the driver must do next.
#[derive(Clone, Copy, PartialEq, Eq, Structural, Debug)]
pub enum ScanAction {
    /// Report whether the output file currently exists.
    CheckOutputFile,
    /// Remove the existing output file and report the result.
    RemoveOutputFile,
    /// Report whether the output file's parent directory exists.
    CheckParentDir,
    /// Create the output file's parent directory and report the result.
    CreateParentDir,
    /// Resolve the target to an address and report whether that succeeded.
    ResolveTarget,
    /// Attempt a TCP connection to the given port and report the outcome.
    ProbePort(u16),
    /// Append the pending report line to the output file and report the result.
    AppendLine,
    /// Sleep for the configured delay, then report back.
    Sleep,
    /// The scan is complete; nothing is left to do.
    Finished,
    /// The scan was aborted by a fatal error already returned to the driver.
    Stopped,
}

/// How appending a line to the output file failed.
pub enum WriteFailure {
    /// The file could not be opened.
    OpenFailed { error: String },
    /// The file was opened but the line could not be written.
    WriteFailed { error: String },
}

/// Where the engine stands in the scan.
#[derive(Clone, Copy)]
enum Phase {
    CheckFile,
    RemoveFile,
    CheckParent,
    CreateDir,
    Resolve,
    Probe(u16),
    Emit(u16),
    Pause(u16),
    Done,
    Stopped,
}

/// The engine's mutable state, replaced wholesale on every transition.
#[derive(Clone, Copy)]
struct EngineState {
    phase: Phase,
    /// One entry per probed port, in probe order: `true` means open.
    outcomes: Ghost<Seq<bool>>,
    /// The ports reported open so far, in report order.
    reported: Ghost<Seq<int>>,
    /// How many pacing sleeps have completed.
    sleeps: Ghost<int>,
    /// Whether the output sink is fresh: the configured output file did not
    /// exist when probing began — it never existed, or the driver removed it.
    fresh: Ghost<bool>,
}

/// The ports reported open, given the start of the range and the probe
/// outcomes so far: the ascending listing of every port whose probe
/// succeeded.
pub open spec fn open_ports(start: int, outcomes: Seq<bool>) -> Seq<int>
    decreases outcomes.len(),
{
    if outcomes.len() == 0 {
        Seq::empty()
    } else {
        open_ports(start, outcomes.drop_last()) + (if outcomes.last() {
            seq![start + outcomes.len() - 1]
        } else {
            Seq::<int>::empty()
        })
    }
}

/// Appending one probe outcome appends the port exactly when it was open.
pub proof fn lemma_open_ports_push(start: int, s: Seq<bool>, b: bool)
    ensures
        b ==> open_ports(start, s.push(b)) == open_ports(start, s).push(start + s.len()),
        !b ==> open_ports(start, s.push(b)) == open_ports(start, s),
    decreases s.len(),
{
    assert(s.push(b).drop_last() =~= s);
    assert(s.push(b).last() == b);
    if b {
        assert(open_ports(start, s.push(b)) =~= open_ports(start, s).push(start + s.len()));
    } else {
        assert(open_ports(start, s.push(b)) =~= open_ports(start, s));
    }
}

/// The shape of the reported listing: every entry lies in the probed
/// prefix of the range and was probed open; entries strictly ascend; and
/// every port probed open appears.
pub proof fn lemma_open_ports_properties(start: int, s: Seq<bool>)
    ensures
        forall|i: int|
            0 <= i < open_ports(start, s).len() ==> start <= #[trigger] open_ports(start, s)[i]
                < start + s.len(),
        forall|i: int|
            0 <= i < open_ports(start, s).len() ==> s[#[trigger] open_ports(start, s)[i] - start],
        forall|i: int, j: int|
            0 <= i < j < open_ports(start, s).len() ==> #[trigger] open_ports(start, s)[i]
                < #[trigger] open_ports(start, s)[j],
        forall|p: int|
            start <= p < start + s.len() && s[p - start] ==> open_ports(start, s).contains(p),
    decreases s.len(),
{
    if s.len() == 0 {
    } else {
        let pre = s.drop_last();
        lemma_open_ports_properties(start, pre);
        assert(forall|k: int| 0 <= k < pre.len() ==> pre[k] == s[k]);
        let o = open_ports(start, s);
        let op = open_ports(start, pre);
        assert(forall|i: int| 0 <= i < op.len() ==> o[i] == op[i]);
        if s.last() {
            assert(o =~= op.push(start + s.len() - 1));
        } else {
            assert(o =~= op);
        }
        assert forall|p: int| start <= p < start + s.len() && s[p - start] implies o.contains(
            p,
        ) by {
            if p < start + s.len() - 1 {
                assert(pre[p - start]);
                assert(op.contains(p));
                let i = choose|i: int| 0 <= i < op.len() && op[i] == p;
                assert(o[i] == p);
            } else {
                assert(s.last());
                assert(o[o.len() - 1] == p);
            }
        }
    }
}

/// The scan engine. Obtained from `Scanner::start`; driven by reporting
/// the outcome of each instruction that `next_action` gives.
pub struct ScanEngine {
    cfg: Scanner,
    st: EngineState,
}

impl ScanEngine {
    /// The configuration the scan runs under.
    pub closed spec fn cfg(self) -> crate::scanner::ConfigView {
        self.cfg@
    }

    /// The probe outcomes recorded so far, one per probed port in order.
    pub closed spec fn outcomes(self) -> Seq<bool> {
        self.st.outcomes@
    }

    /// The ports reported open so far, in report order.
    pub closed spec fn reported(self) -> Seq<int> {
        self.st.reported@
    }

    /// How many pacing sleeps have completed.
    pub closed spec fn sleep_count(self) -> int {
        self.st.sleeps@
    }

    /// Whether the output sink is fresh: the configured output file did not
    /// exist when probing began — it never existed, or the driver removed it
    /// on the engine's instruction.
    pub closed spec fn sink_fresh(self) -> bool {
        self.st.fresh@
    }

    /// What the driver must do next.
    pub closed spec fn action(self) -> ScanAction {
        match self.st.phase {
            Phase::CheckFile => ScanAction::CheckOutputFile,
            Phase::RemoveFile => ScanAction::RemoveOutputFile,
            Phase::CheckParent => ScanAction::CheckParentDir,
            Phase::CreateDir => ScanAction::CreateParentDir,
            Phase::Resolve => ScanAction::ResolveTarget,
            Phase::Probe(p) => ScanAction::ProbePort(p),
            Phase::Emit(_) => ScanAction::AppendLine,
            Phase::Pause(_) => ScanAction::Sleep,
            Phase::Done => ScanAction::Finished,
            Phase::Stopped => ScanAction::Stopped,
        }
    }

    /// The port the engine currently works on: the one being probed, the
    /// one whose line is being appended, or the one just probed while the
    /// pacing sleep runs.
    pub closed spec fn port_cursor(self) -> u16 {
        match self.st.phase {
            Phase::Probe(p) => p,
            Phase::Emit(p) => p,
            Phase::Pause(p) => p,
            _ => 0,
        }
    }

    spec fn at_start(self) -> bool {
        self.st.outcomes@.len() == 0 && self.st.sleeps@ == 0
    }

    /// The engine's well-formedness: the recorded history always matches
    /// the phase, and the reported ports are always exactly the open ones.
    #[verifier::type_invariant]
    pub closed spec fn inv(self) -> bool {
        let c = self.cfg@;
        let start = c.start_port as int;
        &&& valid_range(c)
        &&& self.st.reported@ == open_ports(start, self.st.outcomes@)
        &&& self.st.outcomes@.len() <= c.max_port - c.start_port + 1
        &&& match self.st.phase {
            Phase::CheckFile => has_output_file(c) && self.at_start(),
            Phase::RemoveFile => has_output_file(c) && self.at_start(),
            Phase::CheckParent => has_output_file(c) && self.at_start() && self.st.fresh@,
            Phase::CreateDir => has_output_file(c) && self.at_start() && self.st.fresh@,
            Phase::Resolve => self.at_start() && self.st.fresh@,
            Phase::Probe(p) => {
                &&& c.start_port <= p <= c.max_port
                &&& self.st.outcomes@.len() == p - c.start_port
                &&& self.st.sleeps@ == p - c.start_port
                &&& self.st.fresh@
            },
            Phase::Emit(p) => {
                &&& has_output_file(c)
                &&& c.start_port <= p <= c.max_port
                &&& self.st.outcomes@.len() == p - c.start_port + 1
                &&& self.st.outcomes@.last() == true
                &&& self.st.sleeps@ == p - c.start_port
                &&& self.st.fresh@
            },
            Phase::Pause(p) => {
                &&& c.start_port <= p < c.max_port
                &&& self.st.outcomes@.len() == p - c.start_port + 1
                &&& self.st.sleeps@ == p - c.start_port
                &&& self.st.fresh@
            },
            Phase::Done => {
                &&& self.st.outcomes@.len() == c.max_port - c.start_port + 1
                &&& self.st.sleeps@ == c.max_port - c.start_port
                &&& self.st.fresh@
            },
            Phase::Stopped => true,
        }
    }

    /// What the driver must do next.
    pub fn next_action(&self) -> (a: ScanAction)
        ensures
            a == self.action(),
    {
        match self.st.phase {
            Phase::CheckFile => ScanAction::CheckOutputFile,
            Phase::RemoveFile => ScanAction::RemoveOutputFile,
            Phase::CheckParent => ScanAction::CheckParentDir,
            Phase::CreateDir => ScanAction::CreateParentDir,
            Phase::Resolve => ScanAction::ResolveTarget,
            Phase::Probe(p) => ScanAction::ProbePort(p),
            Phase::Emit(_) => ScanAction::AppendLine,
            Phase::Pause(_) => ScanAction::Sleep,
            Phase::Done => ScanAction::Finished,
            Phase::Stopped => ScanAction::Stopped,
        }
    }

    /// Report whether the output file currently exists. If it does, it must
    /// be removed; if not, the sink is already fresh and the parent
    /// directory is looked at next.
    pub fn output_file_checked(&mut self, exists: bool)
        requires
            old(self).action() == ScanAction::CheckOutputFile,
        ensures
            final(self).cfg() == old(self).cfg(),
            final(self).outcomes() == old(self).outcomes(),
            final(self).reported() == old(self).reported(),
            final(self).sleep_count() == old(self).sleep_count(),
            final(self).action() == (if exists {
                ScanAction::RemoveOutputFile
            } else {
                ScanAction::CheckParentDir
            }),
            !exists ==> final(self).sink_fresh(),
    {
        proof {
            use_type_invariant(&*self);
        }
        let phase = if exists {
            Phase::RemoveFile
        } else {
            Phase::CheckParent
        };
        self.st = EngineState { phase, fresh: Ghost(!exists), ..self.st };
    }

    /// Report the outcome of removing the old output file. Success makes
    /// the sink fresh and moves on to target resolution; failure stops the
    /// scan with `RemoveFileFailed`.
    pub fn removal_done(&mut self, r: Result<(), String>) -> (res: Result<(), ScannerError>)
        requires
            old(self).action() == ScanAction::RemoveOutputFile,
        ensures
            final(self).cfg() == old(self).cfg(),
            final(self).outcomes() == old(self).outcomes(),
            final(self).reported() == old(self).reported(),
            final(self).sleep_count() == old(self).sleep_count(),
            res is Ok <==> r is Ok,
            r is Ok ==> final(self).action() == ScanAction::ResolveTarget
                && final(self).sink_fresh(),
            (r matches Err(m) ==> (res matches Err(ScannerError::RemoveFileFailed { error })
                && error@ == m@)),
            r is Err ==> final(self).action() == ScanAction::Stopped,
    {
        proof {
            use_type_invariant(&*self);
        }
        match r {
            Ok(()) => {
                self.st = EngineState { phase: Phase::Resolve, fresh: Ghost(true), ..self.st };
                Ok(())
            },
            Err(m) => {
                self.st = EngineState { phase: Phase::Stopped, ..self.st };
                Err(ScannerError::RemoveFileFailed { error: m })
            },
        }
    }

    /// Report whether the output file's parent directory exists. If it
    /// does, nothing is to be prepared; if not, it must be created.
    pub fn parent_checked(&mut self, exists: bool)
        requires
            old(self).action() == ScanAction::CheckParentDir,
        ensures
            final(self).cfg() == old(self).cfg(),
            final(self).outcomes() == old(self).outcomes(),
            final(self).reported() == old(self).reported(),
            final(self).sleep_count() == old(self).sleep_count(),
            final(self).sink_fresh(),
            final(self).action() == (if exists {
                ScanAction::ResolveTarget
            } else {
                ScanAction::CreateParentDir
            }),
    {
        proof {
            use_type_invariant(&*self);
        }
        let phase = if exists {
            Phase::Resolve
        } else {
            Phase::CreateDir
        };
        self.st = EngineState { phase, ..self.st };
    }

    /// Report the outcome of creating the output file's parent directory.
    /// Failure stops the scan with `CreateDirectoryFailed`.
    pub fn dir_created(&mut self, r: Result<(), String>) -> (res: Result<(), ScannerError>)
        requires
            old(self).action() == ScanAction::CreateParentDir,
        ensures
            final(self).cfg() == old(self).cfg(),
            final(self).outcomes() == old(self).outcomes(),
            final(self).reported() == old(self).reported(),
            final(self).sleep_count() == old(self).sleep_count(),
            final(self).sink_fresh(),
            res is Ok <==> r is Ok,
            r is Ok ==> final(self).action() == ScanAction::ResolveTarget,
            (r matches Err(m) ==> (res matches Err(ScannerError::CreateDirectoryFailed { error })
                && error@ == m@)),
            r is Err ==> final(self).action() == ScanAction::Stopped,
    {
        proof {
            use_type_invariant(&*self);
        }
        match r {
            Ok(()) => {
                self.st = EngineState { phase: Phase::Resolve, ..self.st };
                Ok(())
            },
            Err(m) => {
                self.st = EngineState { phase: Phase::Stopped, ..self.st };
                Err(ScannerError::CreateDirectoryFailed { error: m })
            },
        }
    }

    /// Report whether the target resolved to an address. Success starts the
    /// probe loop at the first port of the range; failure stops the scan
    /// with `InvalidTarget`.
    pub fn resolution_done(&mut self, ok: bool) -> (res: Result<(), ScannerError>)
        requires
            old(self).action() == ScanAction::ResolveTarget,
        ensures
            final(self).cfg() == old(self).cfg(),
            final(self).outcomes() == old(self).outcomes(),
            final(self).reported() == old(self).reported(),
            final(self).sleep_count() == old(self).sleep_count(),
            final(self).sink_fresh() == old(self).sink_fresh(),
            res is Ok <==> ok,
            ok ==> final(self).action() == ScanAction::ProbePort(old(self).cfg().start_port),
            (!ok ==> (res matches Err(e) && e is InvalidTarget)),
            !ok ==> final(self).action() == ScanAction::Stopped,
    {
        proof {
            use_type_invariant(&*self);
        }
        if ok {
            let p: u16 = self.cfg.start_port;
            self.st = EngineState { phase: Phase::Probe(p), ..self.st };
            Ok(())
        } else {
            self.st = EngineState { phase: Phase::Stopped, ..self.st };
            Err(ScannerError::InvalidTarget)
        }
    }

    /// Report the outcome of probing the current port. An open port yields
    /// its report — the line to print unless quiet, and to append when an
    /// output file is configured; a closed port yields nothing. Either way
    /// the scan moves on: to the pending append, to the pacing sleep, or,
    /// after the last port, to the end.
    pub fn probe_done(&mut self, open: bool) -> (r: Option<PortReport>)
        requires
            old(self).action() is ProbePort,
        ensures
            old(self).action() == ScanAction::ProbePort(old(self).port_cursor()),
            final(self).action() == ScanAction::AppendLine ==> final(self).port_cursor() == old(
                self,
            ).port_cursor(),
            final(self).action() == ScanAction::Sleep ==> final(self).port_cursor() == old(
                self,
            ).port_cursor(),
            final(self).cfg() == old(self).cfg(),
            final(self).sleep_count() == old(self).sleep_count(),
            final(self).sink_fresh() == old(self).sink_fresh(),
            final(self).outcomes() == old(self).outcomes().push(open),
            open ==> final(self).reported() == old(self).reported().push(
                old(self).port_cursor() as int,
            ),
            !open ==> final(self).reported() == old(self).reported(),
            r is Some <==> open,
            (r matches Some(rep) ==> {
                let c = old(self).cfg();
                &&& rep.line@ == label_chars(c.target, c.display_socket, old(self).port_cursor())
                &&& rep.console == !c.quiet
                &&& rep.file == has_output_file(c)
            }),
            ({
                let p = old(self).port_cursor();
                let c = old(self).cfg();
                &&& (open && has_output_file(c) ==> final(self).action() == ScanAction::AppendLine)
                &&& (!(open && has_output_file(c)) && p < c.max_port ==> final(self).action()
                    == ScanAction::Sleep)
                &&& (!(open && has_output_file(c)) && p == c.max_port ==> final(self).action()
                    == ScanAction::Finished)
            }),
    {
        proof {
            use_type_invariant(&*self);
        }
        let p: u16 = match self.st.phase {
            Phase::Probe(q) => q,
            _ => {
                assert(false);
                0
            },
        };
        proof {
            lemma_open_ports_push(self.cfg@.start_port as int, self.st.outcomes@, open);
        }
        if open {
            let rep = self.cfg.handle_result(p);
            let phase = if rep.file {
                Phase::Emit(p)
            } else if p < self.cfg.max_port {
                Phase::Pause(p)
            } else {
                Phase::Done
            };
            self.st = EngineState {
                phase,
                outcomes: Ghost(self.st.outcomes@.push(true)),
                reported: Ghost(self.st.reported@.push(p as int)),
                ..self.st
            };
            Some(rep)
        } else {
            let phase = if p < self.cfg.max_port {
                Phase::Pause(p)
            } else {
                Phase::Done
            };
            self.st = EngineState {
                phase,
                outcomes: Ghost(self.st.outcomes@.push(false)),
                ..self.st
            };
            None
        }
    }

    /// Report the outcome of appending the pending line to the output
    /// file. Success moves on to the pacing sleep or, after the last port,
    /// to the end; failure stops the scan with `OpenFileFailed` or
    /// `WriteFileFailed`.
    pub fn write_done(&mut self, r: Result<(), WriteFailure>) -> (res: Result<(), ScannerError>)
        requires
            old(self).action() == ScanAction::AppendLine,
        ensures
            final(self).action() == ScanAction::Sleep ==> final(self).port_cursor() == old(
                self,
            ).port_cursor(),
            final(self).cfg() == old(self).cfg(),
            final(self).outcomes() == old(self).outcomes(),
            final(self).reported() == old(self).reported(),
            final(self).sleep_count() == old(self).sleep_count(),
            final(self).sink_fresh() == old(self).sink_fresh(),
            res is Ok <==> r is Ok,
            r is Ok && old(self).port_cursor() < old(self).cfg().max_port ==> final(self).action()
                == ScanAction::Sleep,
            r is Ok && old(self).port_cursor() == old(self).cfg().max_port ==> final(self).action()
                == ScanAction::Finished,
            (r matches Err(WriteFailure::OpenFailed { error }) ==> (res matches Err(
                ScannerError::OpenFileFailed { error: msg },
            ) && msg@ == error@)),
            (r matches Err(WriteFailure::WriteFailed { error }) ==> (res matches Err(
                ScannerError::WriteFileFailed { error: msg },
            ) && msg@ == error@)),
            r is Err ==> final(self).action() == ScanAction::Stopped,
    {
        proof {
            use_type_invariant(&*self);
        }
        let p: u16 = match self.st.phase {
            Phase::Emit(q) => q,
            _ => {
                assert(false);
                0
            },
        };
        match r {
            Ok(()) => {
                let phase = if p < self.cfg.max_port {
                    Phase::Pause(p)
                } else {
                    Phase::Done
                };
                self.st = EngineState { phase, ..self.st };
                Ok(())
            },
            Err(WriteFailure::OpenFailed { error }) => {
                self.st = EngineState { phase: Phase::Stopped, ..self.st };
                Err(ScannerError::OpenFileFailed { error })
            },
            Err(WriteFailure::WriteFailed { error }) => {
                self.st = EngineState { phase: Phase::Stopped, ..self.st };
                Err(ScannerError::WriteFileFailed { error })
            },
        }
    }

    /// Report that the pacing sleep completed; probing moves to the next
    /// port.
    pub fn slept(&mut self)
        requires
            old(self).action() == ScanAction::Sleep,
        ensures
            final(self).cfg() == old(self).cfg(),
            final(self).outcomes() == old(self).outcomes(),
            final(self).reported() == old(self).reported(),
            final(self).sink_fresh() == old(self).sink_fresh(),
            final(self).sleep_count() == old(self).sleep_count() + 1,
            final(self).action() == ScanAction::ProbePort((old(self).port_cursor() + 1) as u16),
    {
        proof {
            use_type_invariant(&*self);
        }
        let p: u16 = match self.st.phase {
            Phase::Pause(q) => q,
            _ => {
                assert(false);
                0
            },
        };
        self.st = EngineState {
            phase: Phase::Probe(p + 1),
            sleeps: Ghost(self.st.sleeps@ + 1),
            ..self.st
        };
    }
}

/// Law: an inverted port range fails fast, before any network or file
/// activity. Only a `ScanEngine` can instruct an action; every engine's
/// configuration has a valid range, and `Scanner::start` hands an engine
/// back exactly when the range is valid — on an inverted range it returns
/// `InvalidPortRange` and no probe, file operation, sleep or output is
/// ever instructed.
pub proof fn lemma_engine_needs_valid_range(e: &ScanEngine)
    requires
        e.inv(),
    ensures
        valid_range(e.cfg()),
{
}

/// Law: a probe instruction never names a port outside the configured
/// closed range.
pub proof fn lemma_probe_within_range(e: &ScanEngine)
    requires
        e.inv(),
        e.action() is ProbePort,
    ensures
        e.action() == ScanAction::ProbePort(e.port_cursor()),
        e.cfg().start_port <= e.port_cursor() <= e.cfg().max_port,
{
}

/// Law: at every point of the scan the reported ports appear in strictly
/// ascending numeric order, matching probe order, and each lies in the
/// probed prefix of the range and was probed open.
pub proof fn lemma_reported_ascending(e: &ScanEngine)
    requires
        e.inv(),
    ensures
        forall|i: int, j: int|
            0 <= i < j < e.reported().len() ==> #[trigger] e.reported()[i] < #[trigger] e.reported()[j],
        forall|i: int|
            0 <= i < e.reported().len() ==> e.cfg().start_port <= #[trigger] e.reported()[i]
                <= e.cfg().max_port,
{
    let start = e.cfg().start_port as int;
    lemma_open_ports_properties(start, e.outcomes());
}

/// Law: when the scan has finished, every port of the closed range was
/// probed, and the set of reported ports is exactly the set of ports in
/// the range whose probe found them open.
pub proof fn lemma_reported_exactly_open(e: &ScanEngine)
    requires
        e.inv(),
        e.action() == ScanAction::Finished,
    ensures
        e.outcomes().len() == e.cfg().max_port - e.cfg().start_port + 1,
        forall|p: int|
            e.reported().contains(p) <==> (e.cfg().start_port <= p <= e.cfg().max_port
                && e.outcomes()[p - e.cfg().start_port]),
{
    let start = e.cfg().start_port as int;
    let s = e.outcomes();
    lemma_open_ports_properties(start, s);
    assert forall|p: int| e.reported().contains(p) implies (start <= p <= e.cfg().max_port
        && s[p - start]) by {
        let i = choose|i: int| 0 <= i < e.reported().len() && e.reported()[i] == p;
        assert(s[e.reported()[i] - start]);
    }
}

/// Law: a finished scan of `N` ports slept exactly `N - 1` times, however
/// many of the ports were open. A single-port scan never sleeps.
pub proof fn lemma_sleep_count(e: &ScanEngine)
    requires
        e.inv(),
        e.action() == ScanAction::Finished,
    ensures
        e.sleep_count() == (e.cfg().max_port - e.cfg().start_port + 1) - 1,
{
}

/// Law: a line is appended only once the sink is fresh — an output file
/// left behind by an earlier run is removed before probing begins, so
/// after two runs into the same path the file holds only the later run's
/// lines, never a concatenation of both. Preparing the sink (checking,
/// removing, creating) happens strictly before the first probe.
pub proof fn lemma_append_only_after_fresh(e: &ScanEngine)
    requires
        e.inv(),
    ensures
        e.action() == ScanAction::AppendLine ==> e.sink_fresh(),
        e.action() is ProbePort ==> e.sink_fresh(),
        e.outcomes().len() > 0 ==> e.action() != ScanAction::CheckOutputFile
            && e.action() != ScanAction::RemoveOutputFile && e.action()
            != ScanAction::CheckParentDir && e.action() != ScanAction::CreateParentDir,
{
}

/// Law: when no output file is configured, the engine never instructs a
/// filesystem action — nothing is checked, removed, created or appended,
/// so a scan without a file sink cannot create or modify any file. With a
/// file sink this cannot hold in general: the documented order prepares
/// the sink before the target resolves, so a file left by an earlier run
/// is removed even when resolution afterwards fails.
pub proof fn lemma_no_file_actions_without_sink(e: &ScanEngine)
    requires
        e.inv(),
        !has_output_file(e.cfg()),
    ensures
        e.action() != ScanAction::CheckOutputFile,
        e.action() != ScanAction::RemoveOutputFile,
        e.action() != ScanAction::CheckParentDir,
        e.action() != ScanAction::CreateParentDir,
        e.action() != ScanAction::AppendLine,
{
}

/// Law: the display-socket flag changes only the textual label, never
/// which ports are detected. The reported ports are a function of the
/// start of the range and the probe outcomes alone — two configurations
/// that differ at most in `display_socket` report the same ports — and
/// with the flag off the label does not depend on the target either.
pub proof fn lemma_display_socket_labels_only(
    c1: crate::scanner::ConfigView,
    c2: crate::scanner::ConfigView,
    outcomes: Seq<bool>,
    port: u16,
)
    requires
        c2 == (crate::scanner::ConfigView { display_socket: c2.display_socket, ..c1 }),
    ensures
        open_ports(c1.start_port as int, outcomes) == open_ports(c2.start_port as int, outcomes),
        !c1.display_socket ==> label_chars(c1.target, c1.display_socket, port)
            == crate::label::decimal_chars(port as int),
{
}

impl Scanner {
    /// Start the scanner: validate the port range and hand back the engine
    /// that directs the scan. An invalid range fails with
    /// `InvalidPortRange` before any file or network activity: no engine
    /// exists, so no action is ever instructed.
    pub fn start(self) -> (r: Result<ScanEngine, ScannerError>)
        ensures
            r is Ok <==> valid_range(self@),
            (r matches Err(e) ==> e is InvalidPortRange),
            (r matches Ok(en) ==> {
                &&& en.cfg() == self@
                &&& en.outcomes() == Seq::<bool>::empty()
                &&& en.reported() == Seq::<int>::empty()
                &&& en.sleep_count() == 0
                &&& en.action() == (if has_output_file(self@) {
                    ScanAction::CheckOutputFile
                } else {
                    ScanAction::ResolveTarget
                })
            }),
    {
        match self.validate() {
            Err(e) => Err(e),
            Ok(_) => {
                let has = !self.output_file.as_str().is_empty();
                let phase = if has {
                    Phase::CheckFile
                } else {
                    Phase::Resolve
                };
                proof {
                    assert(open_ports(self@.start_port as int, Seq::<bool>::empty())
                        =~= Seq::<int>::empty());
                }
                Ok(
                    ScanEngine {
                        cfg: self,
                        st: EngineState {
                            phase,
                            outcomes: Ghost(Seq::empty()),
                            reported: Ghost(Seq::empty()),
                            sleeps: Ghost(0),
                            fresh: Ghost(!has),
                        },
                    },
                )
            },
        }
    }
}

} // verus!
