use tcpc::engine::{ScanAction, ScanEngine, WriteFailure};
use tcpc::scanner::{Scanner, ScannerError};

/// What one simulated run did, in order.
struct RunLog {
    console: Vec<String>,
    file: Vec<String>,
    probed: Vec<u16>,
    sleeps: usize,
    actions: Vec<ScanAction>,
}

/// Drive an engine to completion, answering filesystem questions with the
/// given booleans and each probe with the next entry of `outcomes`.
fn drive(
    mut en: ScanEngine,
    file_exists: bool,
    parent_exists: bool,
    outcomes: &[bool],
) -> Result<RunLog, ScannerError> {
    let mut log = RunLog {
        console: Vec::new(),
        file: Vec::new(),
        probed: Vec::new(),
        sleeps: 0,
        actions: Vec::new(),
    };
    let mut next: usize = 0;
    loop {
        let a = en.next_action();
        log.actions.push(a);
        match a {
            ScanAction::CheckOutputFile => en.output_file_checked(file_exists),
            ScanAction::RemoveOutputFile => en.removal_done(Ok(()))?,
            ScanAction::CheckParentDir => en.parent_checked(parent_exists),
            ScanAction::CreateParentDir => en.dir_created(Ok(()))?,
            ScanAction::ResolveTarget => en.resolution_done(true)?,
            ScanAction::ProbePort(p) => {
                log.probed.push(p);
                let open = outcomes[next];
                next += 1;
                if let Some(rep) = en.probe_done(open) {
                    if rep.console {
                        log.console.push(rep.line.clone());
                    }
                    if rep.file {
                        log.file.push(rep.line.clone());
                    }
                }
            }
            ScanAction::AppendLine => en.write_done(Ok(()))?,
            ScanAction::Sleep => {
                log.sleeps += 1;
                en.slept();
            }
            ScanAction::Finished => return Ok(log),
            ScanAction::Stopped => panic!("engine stopped without an error"),
        }
    }
}

fn engine(s: Scanner) -> ScanEngine {
    s.start().unwrap()
}

#[test]
fn inverted_range_fails_before_any_action() {
    let s = Scanner::new()
        .set_target(String::from("localhost"))
        .set_start_port(2000)
        .set_max_port(1000);
    match s.start() {
        Ok(_) => panic!("an inverted range must not start"),
        Err(e) => assert!(matches!(e, ScannerError::InvalidPortRange)),
    }
}

#[test]
fn reported_ports_are_exactly_the_open_ones_in_ascending_order() {
    let s = Scanner::new()
        .set_target(String::from("localhost"))
        .set_output_file(String::new())
        .set_start_port(10)
        .set_max_port(14);
    let log = drive(engine(s), false, true, &[true, false, true, true, false]).unwrap();
    assert_eq!(log.probed, vec![10, 11, 12, 13, 14]);
    assert_eq!(log.console, vec!["10", "12", "13"]);
    assert!(log.file.is_empty());
}

#[test]
fn file_lines_match_console_lines_and_order() {
    let s = Scanner::new()
        .set_target(String::from("localhost"))
        .set_output_file(String::from("scan/out.txt"))
        .set_start_port(1)
        .set_max_port(3);
    let log = drive(engine(s), false, true, &[true, true, false]).unwrap();
    assert_eq!(log.console, vec!["1", "2"]);
    assert_eq!(log.file, vec!["1", "2"]);
}

#[test]
fn sleeps_exactly_once_per_port_but_the_last() {
    let all_closed = Scanner::new()
        .set_target(String::from("localhost"))
        .set_output_file(String::new())
        .set_start_port(100)
        .set_max_port(104);
    let log = drive(engine(all_closed), false, true, &[false; 5]).unwrap();
    assert_eq!(log.sleeps, 4);

    let all_open = Scanner::new()
        .set_target(String::from("localhost"))
        .set_output_file(String::new())
        .set_start_port(100)
        .set_max_port(104);
    let log = drive(engine(all_open), false, true, &[true; 5]).unwrap();
    assert_eq!(log.sleeps, 4);
}

#[test]
fn single_port_scan_probes_once_and_never_sleeps() {
    let s = Scanner::new()
        .set_target(String::from("localhost"))
        .set_output_file(String::new())
        .set_start_port(0)
        .set_max_port(0);
    let log = drive(engine(s), false, true, &[true]).unwrap();
    assert_eq!(log.probed, vec![0]);
    assert_eq!(log.sleeps, 0);
    assert_eq!(log.console, vec!["0"]);

    let s = Scanner::new()
        .set_target(String::from("localhost"))
        .set_output_file(String::new())
        .set_start_port(0)
        .set_max_port(0);
    let log = drive(engine(s), false, true, &[false]).unwrap();
    assert_eq!(log.probed, vec![0]);
    assert_eq!(log.sleeps, 0);
    assert!(log.console.is_empty());
}

#[test]
fn display_socket_changes_labels_not_detection() {
    let outcomes = [true, false, true];
    let plain = Scanner::new()
        .set_target(String::from("example.org"))
        .set_output_file(String::new())
        .set_start_port(79)
        .set_max_port(81)
        .set_display_socket(false);
    let with_socket = Scanner::new()
        .set_target(String::from("example.org"))
        .set_output_file(String::new())
        .set_start_port(79)
        .set_max_port(81)
        .set_display_socket(true);
    let log_plain = drive(engine(plain), false, true, &outcomes).unwrap();
    let log_socket = drive(engine(with_socket), false, true, &outcomes).unwrap();
    assert_eq!(log_plain.console, vec!["79", "81"]);
    assert_eq!(log_socket.console, vec!["example.org:79", "example.org:81"]);
    assert_eq!(log_plain.console.len(), log_socket.console.len());
    assert_eq!(log_plain.probed, log_socket.probed);
}

#[test]
fn quiet_suppresses_console_but_not_file() {
    let s = Scanner::new()
        .set_target(String::from("localhost"))
        .set_output_file(String::from("out.txt"))
        .set_quiet(true)
        .set_start_port(5)
        .set_max_port(6);
    let log = drive(engine(s), false, true, &[true, true]).unwrap();
    assert!(log.console.is_empty());
    assert_eq!(log.file, vec!["5", "6"]);
}

#[test]
fn existing_output_file_is_removed_before_any_append() {
    let s = Scanner::new()
        .set_target(String::from("localhost"))
        .set_output_file(String::from("out.txt"))
        .set_start_port(1)
        .set_max_port(2);
    let log = drive(engine(s), true, true, &[true, true]).unwrap();
    let remove_at = log
        .actions
        .iter()
        .position(|a| *a == ScanAction::RemoveOutputFile)
        .expect("an existing file must be removed");
    let first_append = log
        .actions
        .iter()
        .position(|a| *a == ScanAction::AppendLine)
        .expect("open ports must be appended");
    assert!(remove_at < first_append);
    // A second run into the same (now existing) path removes the file
    // again, so it holds only the later run's lines.
    let s2 = Scanner::new()
        .set_target(String::from("localhost"))
        .set_output_file(String::from("out.txt"))
        .set_start_port(1)
        .set_max_port(2);
    let log2 = drive(engine(s2), true, true, &[false, true]).unwrap();
    assert_eq!(log2.file, vec!["2"]);
}

#[test]
fn missing_parent_directory_is_created_then_file_filled() {
    let s = Scanner::new()
        .set_target(String::from("localhost"))
        .set_output_file(String::from("nonexistent/deeply/nested/out.txt"))
        .set_start_port(7)
        .set_max_port(7);
    let log = drive(engine(s), false, false, &[true]).unwrap();
    assert!(log.actions.contains(&ScanAction::CheckOutputFile));
    assert!(log.actions.contains(&ScanAction::CheckParentDir));
    assert!(log.actions.contains(&ScanAction::CreateParentDir));
    assert!(!log.actions.contains(&ScanAction::RemoveOutputFile));
    assert_eq!(log.file, vec!["7"]);
}

#[test]
fn unresolvable_target_fails_with_invalid_target_and_touches_no_file() {
    let s = Scanner::new()
        .set_target(String::from("this.invalid.host.test"))
        .set_output_file(String::new())
        .set_start_port(1)
        .set_max_port(10);
    let mut en = engine(s);
    assert_eq!(en.next_action(), ScanAction::ResolveTarget);
    let e = en.resolution_done(false).err().unwrap();
    assert!(matches!(e, ScannerError::InvalidTarget));
    assert_eq!(en.next_action(), ScanAction::Stopped);
}

#[test]
fn removal_failure_aborts_with_remove_file_failed() {
    let s = Scanner::new()
        .set_target(String::from("localhost"))
        .set_output_file(String::from("out.txt"))
        .set_start_port(1)
        .set_max_port(2);
    let mut en = engine(s);
    assert_eq!(en.next_action(), ScanAction::CheckOutputFile);
    en.output_file_checked(true);
    assert_eq!(en.next_action(), ScanAction::RemoveOutputFile);
    let e = en.removal_done(Err(String::from("busy"))).err().unwrap();
    match e {
        ScannerError::RemoveFileFailed { error } => assert_eq!(error, "busy"),
        other => panic!("unexpected error: {:?}", other),
    }
    assert_eq!(en.next_action(), ScanAction::Stopped);
}

#[test]
fn directory_failure_aborts_with_create_directory_failed() {
    let s = Scanner::new()
        .set_target(String::from("localhost"))
        .set_output_file(String::from("deep/out.txt"))
        .set_start_port(1)
        .set_max_port(2);
    let mut en = engine(s);
    en.output_file_checked(false);
    en.parent_checked(false);
    assert_eq!(en.next_action(), ScanAction::CreateParentDir);
    let e = en.dir_created(Err(String::from("read-only"))).err().unwrap();
    match e {
        ScannerError::CreateDirectoryFailed { error } => assert_eq!(error, "read-only"),
        other => panic!("unexpected error: {:?}", other),
    }
    assert_eq!(en.next_action(), ScanAction::Stopped);
}

#[test]
fn write_failure_aborts_the_rest_of_the_scan() {
    let s = Scanner::new()
        .set_target(String::from("localhost"))
        .set_output_file(String::from("out.txt"))
        .set_start_port(1)
        .set_max_port(5);
    let mut en = engine(s);
    en.output_file_checked(false);
    en.parent_checked(true);
    en.resolution_done(true).unwrap();
    assert_eq!(en.next_action(), ScanAction::ProbePort(1));
    let rep = en.probe_done(true).unwrap();
    assert!(rep.file);
    assert_eq!(en.next_action(), ScanAction::AppendLine);
    let e = en
        .write_done(Err(WriteFailure::WriteFailed { error: String::from("disk full") }))
        .err()
        .unwrap();
    match e {
        ScannerError::WriteFileFailed { error } => assert_eq!(error, "disk full"),
        other => panic!("unexpected error: {:?}", other),
    }
    assert_eq!(en.next_action(), ScanAction::Stopped);
}

#[test]
fn open_failure_aborts_with_open_file_failed() {
    let s = Scanner::new()
        .set_target(String::from("localhost"))
        .set_output_file(String::from("out.txt"))
        .set_start_port(3)
        .set_max_port(3);
    let mut en = engine(s);
    en.output_file_checked(false);
    en.parent_checked(true);
    en.resolution_done(true).unwrap();
    en.probe_done(true).unwrap();
    let e = en
        .write_done(Err(WriteFailure::OpenFailed { error: String::from("denied") }))
        .err()
        .unwrap();
    assert!(matches!(e, ScannerError::OpenFileFailed { .. }));
    assert_eq!(en.next_action(), ScanAction::Stopped);
}

#[test]
fn range_ending_at_the_highest_port_terminates() {
    let s = Scanner::new()
        .set_target(String::from("localhost"))
        .set_output_file(String::new())
        .set_start_port(65534)
        .set_max_port(65535);
    let log = drive(engine(s), false, true, &[true, true]).unwrap();
    assert_eq!(log.probed, vec![65534, 65535]);
    assert_eq!(log.sleeps, 1);
    assert_eq!(log.console, vec!["65534", "65535"]);
}

#[test]
fn closed_ports_produce_no_report() {
    let s = Scanner::new()
        .set_target(String::from("localhost"))
        .set_output_file(String::new())
        .set_start_port(40)
        .set_max_port(42);
    let log = drive(engine(s), false, true, &[false, false, false]).unwrap();
    assert!(log.console.is_empty());
    assert!(log.file.is_empty());
    assert_eq!(log.probed, vec![40, 41, 42]);
    assert_eq!(log.sleeps, 2);
}
