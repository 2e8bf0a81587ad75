use moodterm::{
    relay_step, Action, Event, Phase, ReadOutcome, Reply, SessionError, SessionState,
    TerminalEmulator,
};

/// Terminal attributes as the tests model them.
#[derive(Debug, Clone, Copy, PartialEq, Eq)]
struct Attrs {
    echo: bool,
    canonical: bool,
}

const COOKED: Attrs = Attrs { echo: true, canonical: true };
const RAW: Attrs = Attrs { echo: false, canonical: false };

/// Performs the terminal actions of a reply on a modelled terminal.
fn apply(term: &mut Attrs, reply: &Reply<Attrs>) {
    for a in &reply.actions {
        match a {
            Action::InstallRaw => *term = RAW,
            Action::RestoreAttributes(saved) => *term = *saved,
            _ => {}
        }
    }
}

/// Drives a fresh session through a successful start.
fn started(term: &mut Attrs) -> TerminalEmulator<Attrs> {
    let mut s = TerminalEmulator::new("/bin/echo-shell".to_string());
    let r = s.start_terminal_emulation();
    assert!(matches!(r.actions.as_slice(), [Action::CaptureAttributes]));
    let r = s.handle(Event::Captured(*term));
    assert!(matches!(r.actions.as_slice(), [Action::InstallRaw]));
    apply(term, &r);
    let r = s.handle(Event::RawInstalled);
    match r.actions.as_slice() {
        [Action::SpawnShell(path)] => assert_eq!(path, "/bin/echo-shell"),
        other => panic!("unexpected actions {:?}", other),
    }
    let r = s.handle(Event::Spawned);
    assert!(matches!(r.actions.as_slice(), [Action::StartRelay]));
    assert_eq!(r.error, None);
    assert_eq!(s.state(), SessionState::Active);
    s
}

fn is_teardown(r: &Reply<Attrs>, saved: Attrs) -> bool {
    match r.actions.as_slice() {
        [Action::ReleaseMaster, Action::JoinRelay, Action::RestoreAttributes(a), Action::ReapChild, Action::NotifyEnded] => {
            *a == saved
        }
        _ => false,
    }
}

#[test]
fn new_session_is_idle() {
    let s: TerminalEmulator<Attrs> = TerminalEmulator::new("/bin/sh".to_string());
    assert_eq!(s.state(), SessionState::Idle);
    assert_eq!(s.phase(), Phase::Idle);
    assert_eq!(s.last_error(), None);
    assert!(s.warnings().is_empty());
    assert_eq!(s.shell(), "/bin/sh");
}

#[test]
fn start_stop_restores_attributes() {
    let mut term = COOKED;
    let mut s = started(&mut term);
    assert_eq!(term, RAW);
    let r = s.stop_terminal_emulation();
    assert!(is_teardown(&r, COOKED));
    assert_eq!(r.error, None);
    apply(&mut term, &r);
    assert_eq!(term, COOKED);
    assert_eq!(s.state(), SessionState::Stopped);
}

#[test]
fn sends_are_written_in_order() {
    let mut term = COOKED;
    let mut s = started(&mut term);
    let chunks: Vec<Vec<u8>> = vec![b"ls".to_vec(), vec![], b" -l\n".to_vec(), vec![0xff, 0x00]];
    let mut written: Vec<u8> = Vec::new();
    for c in &chunks {
        let r = s.send(c.clone());
        assert_eq!(r.error, None);
        for a in r.actions {
            match a {
                Action::Write(b) => written.extend_from_slice(&b),
                other => panic!("unexpected action {:?}", other),
            }
        }
    }
    assert_eq!(written, b"ls -l\n\xff\x00".to_vec());
    assert_eq!(s.state(), SessionState::Active);
}

#[test]
fn eof_stops_and_later_sends_fail() {
    let mut term = COOKED;
    let mut s = started(&mut term);
    let r = s.handle(Event::Eof);
    assert!(is_teardown(&r, COOKED));
    assert_eq!(r.error, None);
    apply(&mut term, &r);
    assert_eq!(term, COOKED);
    assert_eq!(s.state(), SessionState::Stopped);
    let r = s.send(b"echo hi\n".to_vec());
    assert_eq!(r.error, Some(SessionError::SessionClosed));
    assert!(r.actions.is_empty());
    let r = s.stop_terminal_emulation();
    assert!(r.actions.is_empty());
    assert_eq!(r.error, None);
}

#[test]
fn stop_twice_is_a_no_op() {
    let mut term = COOKED;
    let mut s = started(&mut term);
    let first = s.stop_terminal_emulation();
    assert_eq!(first.actions.len(), 5);
    assert_eq!(first.error, None);
    let second = s.stop_terminal_emulation();
    assert!(second.actions.is_empty());
    assert_eq!(second.error, None);
    assert_eq!(s.state(), SessionState::Stopped);
    assert_eq!(s.last_error(), None);
}

#[test]
fn echo_shell_output_is_delivered() {
    let mut term = COOKED;
    let mut s = started(&mut term);
    let r = s.send(b"hello\n".to_vec());
    assert!(matches!(r.actions.as_slice(), [Action::Write(b)] if b == b"hello\n"));
    let mut buf = [0u8; moodterm::RELAY_BUFFER_SIZE];
    let reply = b"echo:hello\n";
    buf[..reply.len()].copy_from_slice(reply);
    let (ev, more) = relay_step::<Attrs>(&buf, ReadOutcome::Bytes(reply.len()));
    assert!(more);
    let r = s.handle(ev);
    let mut out: Vec<u8> = Vec::new();
    for a in r.actions {
        if let Action::Deliver(b) = a {
            out.extend_from_slice(&b);
        }
    }
    assert!(out.windows(reply.len()).any(|w| w == reply));
}

#[test]
fn capture_failure_leaves_session_idle() {
    let mut s: TerminalEmulator<Attrs> = TerminalEmulator::new("/bin/sh".to_string());
    s.start_terminal_emulation();
    let r = s.handle(Event::CaptureFailed);
    assert_eq!(r.error, Some(SessionError::AttributeRead));
    assert!(r.actions.is_empty());
    assert_eq!(s.state(), SessionState::Idle);
    assert_eq!(s.last_error(), Some(SessionError::AttributeRead));
}

#[test]
fn spawn_failure_restores_before_reporting() {
    let mut term = COOKED;
    let mut s = TerminalEmulator::new("/no/such/shell".to_string());
    s.start_terminal_emulation();
    let r = s.handle(Event::Captured(term));
    apply(&mut term, &r);
    s.handle(Event::RawInstalled);
    let r = s.handle(Event::SpawnFailed);
    assert_eq!(r.error, Some(SessionError::Spawn));
    assert!(matches!(r.actions.as_slice(), [Action::RestoreAttributes(a)] if *a == COOKED));
    apply(&mut term, &r);
    assert_eq!(term, COOKED);
    assert_eq!(s.state(), SessionState::Idle);
    assert_eq!(s.phase(), Phase::Idle);
}

#[test]
fn raw_install_failure_restores() {
    let mut s = TerminalEmulator::new("/bin/sh".to_string());
    s.start_terminal_emulation();
    s.handle(Event::Captured(COOKED));
    let r = s.handle(Event::RawInstallFailed);
    assert_eq!(r.error, Some(SessionError::AttributeWrite));
    assert!(matches!(r.actions.as_slice(), [Action::RestoreAttributes(a)] if *a == COOKED));
    assert_eq!(s.state(), SessionState::Idle);
}

#[test]
fn read_failure_stops_with_error() {
    let mut term = COOKED;
    let mut s = started(&mut term);
    let r = s.handle(Event::ReadFailed);
    assert_eq!(r.error, Some(SessionError::RelayRead));
    assert!(is_teardown(&r, COOKED));
    assert_eq!(s.state(), SessionState::Stopped);
    assert_eq!(s.last_error(), Some(SessionError::RelayRead));
}

#[test]
fn write_failure_closes_session() {
    let mut term = COOKED;
    let mut s = started(&mut term);
    let r = s.handle(Event::WriteFailed);
    assert_eq!(r.error, Some(SessionError::SessionClosed));
    assert!(is_teardown(&r, COOKED));
    assert_eq!(s.state(), SessionState::Stopped);
}

#[test]
fn send_before_start_has_no_handle() {
    let mut s: TerminalEmulator<Attrs> = TerminalEmulator::new("/bin/sh".to_string());
    let r = s.send(b"x".to_vec());
    assert_eq!(r.error, Some(SessionError::ClosedHandle));
    assert!(r.actions.is_empty());
    assert_eq!(s.state(), SessionState::Idle);
}

#[test]
fn second_start_is_refused() {
    let mut term = COOKED;
    let mut s = started(&mut term);
    let r = s.start_terminal_emulation();
    assert_eq!(r.error, Some(SessionError::AlreadyStarted));
    assert!(r.actions.is_empty());
    assert_eq!(s.state(), SessionState::Active);
}

#[test]
fn stop_on_idle_session_changes_nothing() {
    let mut s: TerminalEmulator<Attrs> = TerminalEmulator::new("/bin/sh".to_string());
    let r = s.stop_terminal_emulation();
    assert!(r.actions.is_empty());
    assert_eq!(r.error, None);
    assert_eq!(s.state(), SessionState::Idle);
}

#[test]
fn teardown_failures_are_warnings() {
    let mut term = COOKED;
    let mut s = started(&mut term);
    s.stop_terminal_emulation();
    let r = s.handle(Event::TeardownFailed(SessionError::AttributeWrite));
    assert_eq!(r.error, None);
    assert_eq!(s.warnings().as_slice(), &[SessionError::AttributeWrite]);
    assert_eq!(s.state(), SessionState::Stopped);
}

#[test]
fn output_after_stop_is_dropped() {
    let mut term = COOKED;
    let mut s = started(&mut term);
    s.stop_terminal_emulation();
    let r = s.handle(Event::Output(b"late".to_vec()));
    assert!(r.actions.is_empty());
    assert_eq!(r.error, None);
}

#[test]
fn outputs_are_delivered_in_order() {
    let mut term = COOKED;
    let mut s = started(&mut term);
    let chunks: Vec<&[u8]> = vec![b"$ ", b"echo:", b"\xfe\xff", b"hello\n"];
    let mut out: Vec<u8> = Vec::new();
    for c in &chunks {
        let r = s.handle(Event::Output(c.to_vec()));
        for a in r.actions {
            match a {
                Action::Deliver(b) => out.extend_from_slice(&b),
                other => panic!("unexpected action {:?}", other),
            }
        }
    }
    assert_eq!(out, b"$ echo:\xfe\xffhello\n".to_vec());
}

#[test]
fn every_install_is_restored_once() {
    let mut s = TerminalEmulator::new("/bin/sh".to_string());
    let mut balance: i32 = 0;
    let mut count = |r: &Reply<Attrs>| {
        for a in &r.actions {
            match a {
                Action::InstallRaw => balance += 1,
                Action::RestoreAttributes(_) => balance -= 1,
                _ => {}
            }
        }
    };
    count(&s.start_terminal_emulation());
    count(&s.handle(Event::Captured(COOKED)));
    count(&s.handle(Event::RawInstallFailed));
    count(&s.start_terminal_emulation());
    count(&s.handle(Event::Captured(COOKED)));
    count(&s.handle(Event::RawInstalled));
    count(&s.handle(Event::Spawned));
    count(&s.handle(Event::Eof));
    count(&s.stop_terminal_emulation());
    drop(count);
    assert_eq!(balance, 0);
    assert_eq!(s.state(), SessionState::Stopped);
}
