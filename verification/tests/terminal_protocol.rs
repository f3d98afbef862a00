//! Driving the password-read protocol against a fake terminal device
//! that records every mode call, as a platform driver would drive it.

use rpassword::Action;
use rpassword::Event;
use rpassword::PasswordRead;

/// A test double for the terminal device: a mode cell plus call-count
/// instrumentation for every mode query or change.
struct FakeTerminal {
    mode: u32,
    mode_calls: usize,
    applies: usize,
    read_result: Result<Vec<u8>, u8>,
    fetch_error: Option<u8>,
    suppress_error: Option<u8>,
    restore_error: Option<u8>,
}

impl FakeTerminal {
    fn new(mode: u32, read_result: Result<Vec<u8>, u8>) -> FakeTerminal {
        FakeTerminal {
            mode,
            mode_calls: 0,
            applies: 0,
            read_result,
            fetch_error: None,
            suppress_error: None,
            restore_error: None,
        }
    }

    /// The echo-suppressed working copy of a mode.
    fn silent_of(mode: u32) -> u32 {
        mode ^ 0x0000_00ff
    }
}

/// Runs the protocol to completion, performing each requested action on
/// the fake terminal, and returns the finished machine.
fn drive(term: &mut FakeTerminal, start: (PasswordRead<u32, u8>, Action<u32>)) -> PasswordRead<u32, u8> {
    let (mut machine, mut action) = start;
    loop {
        let event = match action {
            Action::FetchMode => {
                term.mode_calls += 1;
                match term.fetch_error {
                    Some(e) => Event::CallFailed { error: e },
                    None => Event::ModeFetched {
                        original: term.mode,
                        silent: FakeTerminal::silent_of(term.mode),
                    },
                }
            }
            Action::ApplyMode(m) => {
                term.mode_calls += 1;
                term.applies += 1;
                let failure = if term.applies == 1 { term.suppress_error } else { term.restore_error };
                match failure {
                    Some(e) => Event::CallFailed { error: e },
                    None => {
                        term.mode = m;
                        Event::ModeApplied
                    }
                }
            }
            Action::ReadLine => match std::mem::replace(&mut term.read_result, Ok(Vec::new())) {
                Ok(data) => Event::LineRead { data },
                Err(e) => Event::ReadFailed { error: e, partial: b"partial s".to_vec() },
            },
            Action::Finish => return machine,
        };
        assert!(machine.accepts(&event));
        let (next, next_action) = machine.step(event);
        machine = next;
        action = next_action;
    }
}

#[test]
fn interactive_read_restores_the_fetched_mode() {
    let mut term = FakeTerminal::new(0xbeef, Ok(b"hunter2\n".to_vec()));
    let machine = drive(&mut term, PasswordRead::new(true));
    assert!(machine.is_done());
    assert_eq!(machine.finish(), Ok(b"hunter2\n".to_vec()));
    // Round-trip query: the mode after the read equals the mode before.
    assert_eq!(term.mode, 0xbeef);
    // One fetch, one suppression, one restoration.
    assert_eq!(term.mode_calls, 3);
}

#[test]
fn failed_read_still_restores_and_zeroes_the_buffer() {
    let mut term = FakeTerminal::new(0x1234, Err(42));
    let machine = drive(&mut term, PasswordRead::new(true));
    assert!(machine.is_done());
    // The partial secret's storage holds only zero bytes.
    let buffer = machine.secret_bytes();
    assert_eq!(buffer.len(), b"partial s".len());
    assert!(buffer.iter().all(|b| *b == 0));
    // The terminal is back in its original mode even though the read failed.
    assert_eq!(term.mode, 0x1234);
    assert_eq!(machine.finish(), Err(42));
}

#[test]
fn restore_failure_supersedes_the_read_outcome() {
    let mut term = FakeTerminal::new(7, Ok(b"hunter2\n".to_vec()));
    term.restore_error = Some(9);
    let machine = drive(&mut term, PasswordRead::new(true));
    assert!(machine.is_done());
    // The secret gathered before the restoration failure is erased.
    assert!(machine.secret_bytes().iter().all(|b| *b == 0));
    assert_eq!(machine.finish(), Err(9));
}

#[test]
fn mode_query_failure_is_surfaced_before_any_change() {
    let mut term = FakeTerminal::new(3, Ok(b"never read\n".to_vec()));
    term.fetch_error = Some(11);
    let machine = drive(&mut term, PasswordRead::new(true));
    assert_eq!(term.mode, 3);
    assert_eq!(term.mode_calls, 1);
    assert_eq!(machine.finish(), Err(11));
}

#[test]
fn suppression_failure_is_surfaced_and_mode_kept() {
    let mut term = FakeTerminal::new(3, Ok(b"never read\n".to_vec()));
    term.suppress_error = Some(13);
    let machine = drive(&mut term, PasswordRead::new(true));
    assert_eq!(term.mode, 3);
    assert_eq!(machine.finish(), Err(13));
}

#[test]
fn non_interactive_read_issues_no_mode_calls() {
    let mut term = FakeTerminal::new(5, Ok(b"piped\n".to_vec()));
    let machine = drive(&mut term, PasswordRead::new(false));
    assert_eq!(term.mode_calls, 0);
    assert_eq!(term.mode, 5);
    assert_eq!(machine.finish(), Ok(b"piped\n".to_vec()));
}

#[test]
fn empty_input_succeeds_without_error() {
    let mut term = FakeTerminal::new(5, Ok(Vec::new()));
    let machine = drive(&mut term, PasswordRead::new(false));
    assert_eq!(machine.finish(), Ok(Vec::new()));
}

#[test]
fn unexpected_events_are_not_accepted() {
    let (machine, _action) = PasswordRead::<u32, u8>::new(false);
    assert!(!machine.accepts(&Event::ModeApplied));
    assert!(!machine.accepts(&Event::ModeFetched { original: 0, silent: 0 }));
    assert!(machine.accepts(&Event::LineRead { data: Vec::new() }));
}
