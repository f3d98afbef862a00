//! The step-by-step protocol of a terminal-aware password read.
//!
//! Suppressing echo around a read touches operating-system state that
//! this crate cannot inspect: the terminal's mode. The protocol is
//! therefore split from the system calls. A `PasswordRead` decides, step
//! by step, what the platform driver must do next (an [`Action`]); the
//! driver performs the call and reports what happened (an [`Event`]).
//! The machine guarantees the discipline the driver must follow: the
//! mode it asks the driver to restore is exactly the one the driver
//! fetched, restoration is requested on every exit path, a
//! non-interactive read never asks for a mode call at all, and the
//! secret buffer is zeroed before any failure is surfaced.
//!
//! The mode type `M` and the error type `E` are the driver's own; the
//! machine only carries their values. Concurrent reads from one process
//! race on the shared device mode; callers must serialize them.

use vstd::pervasive::unreached;
use vstd::prelude::*;

use crate::zeroize::all_zero;
use crate::zeroize::zero_memory;

verus! {

/// What the platform driver must do next.
pub enum Action<M> {
    /// Query the device's current mode, twice over: reply with
    /// `ModeFetched`, carrying the untouched original and a working copy
    /// altered to suppress echo (but not the newline echoed on enter).
    FetchMode,
    /// Apply the carried mode to the device; reply with `ModeApplied`.
    ApplyMode(M),
    /// Read one line from the input source, up to and including the
    /// terminator or to end of input; reply with `LineRead`.
    ReadLine,
    /// The read is over; collect the outcome with `finish`.
    Finish,
}

/// What the platform driver reports back after performing an action.
pub enum Event<M, E> {
    /// The device's current mode: the original to restore later, and the
    /// echo-suppressed working copy to apply for the read.
    ModeFetched { original: M, silent: M },
    /// The requested mode was applied to the device.
    ModeApplied,
    /// One line was read; `data` holds its bytes, terminator included.
    /// An immediate end of input yields an empty `data`, not a failure.
    LineRead { data: Vec<u8> },
    /// The line read failed; `partial` holds whatever bytes had been
    /// gathered before the failure, so that they can be erased.
    ReadFailed { error: E, partial: Vec<u8> },
    /// A mode query or mode change failed.
    CallFailed { error: E },
}

enum ReadState<M, E> {
    /// Waiting for the device's mode (interactive read).
    AwaitMode,
    /// Waiting for confirmation that the echo-suppressed mode is on.
    AwaitSilence { original: M },
    /// Echo is off; waiting for the line.
    AwaitLine { original: M },
    /// Waiting for confirmation that the original mode is back; if the
    /// line read itself failed, its error is kept to be surfaced then.
    AwaitRestore { read_error: Option<E> },
    /// Non-interactive read: waiting for the line, no mode calls.
    AwaitPlainLine,
    /// The read is over.
    Done { outcome: Result<(), E> },
}

/// One password read, from classification to outcome.
pub struct PasswordRead<M, E> {
    state: ReadState<M, E>,
    buffer: Vec<u8>,
    /// Whether the input was classified as an interactive terminal.
    is_tty: Ghost<bool>,
    /// The original device mode reported by `ModeFetched`, if any.
    orig_mode: Ghost<Option<M>>,
    /// Whether a confirmed mode change is still in force on the device.
    suppressed: Ghost<bool>,
    /// Whether the restoring mode change itself failed.
    restore_fail: Ghost<bool>,
    /// How many mode calls (fetches and applies) were requested.
    mode_ops: Ghost<nat>,
}

impl<M, E> PasswordRead<M, E> {
    /// The input was classified as an interactive terminal.
    pub closed spec fn interactive(&self) -> bool {
        self.is_tty@
    }

    /// The number of terminal mode calls requested so far.
    pub closed spec fn mode_calls(&self) -> nat {
        self.mode_ops@
    }

    /// A confirmed mode change has not yet been undone on the device.
    pub closed spec fn echo_off(&self) -> bool {
        self.suppressed@
    }

    /// Restoring the original mode was requested and reported failed.
    pub closed spec fn restore_failed(&self) -> bool {
        self.restore_fail@
    }

    /// The device mode fetched at the start, kept to be restored.
    pub closed spec fn saved_mode(&self) -> Option<M> {
        self.orig_mode@
    }

    /// The bytes of the secret buffer.
    pub closed spec fn secret(&self) -> Seq<u8> {
        self.buffer@
    }

    pub closed spec fn awaiting_mode(&self) -> bool {
        self.state is AwaitMode
    }

    pub closed spec fn awaiting_silence(&self) -> bool {
        self.state is AwaitSilence
    }

    pub closed spec fn awaiting_line(&self) -> bool {
        self.state is AwaitLine
    }

    pub closed spec fn awaiting_restore(&self) -> bool {
        self.state is AwaitRestore
    }

    pub closed spec fn awaiting_plain_line(&self) -> bool {
        self.state is AwaitPlainLine
    }

    pub closed spec fn done(&self) -> bool {
        self.state is Done
    }

    /// The read is over and the line is in the buffer.
    pub closed spec fn succeeded(&self) -> bool {
        self.state matches ReadState::Done { outcome: Ok(_) }
    }

    /// The read is over and failed.
    pub closed spec fn failed(&self) -> bool {
        self.state matches ReadState::Done { outcome: Err(_) }
    }

    /// The read is over and failed with exactly `e`.
    pub closed spec fn failed_with(&self, e: E) -> bool {
        self.state matches ReadState::Done { outcome: Err(e2) } && e2 == e
    }

    /// The error of a failed line read, kept until the mode is restored.
    pub closed spec fn pending_read_error(&self) -> Option<E> {
        match self.state {
            ReadState::AwaitRestore { read_error } => read_error,
            _ => None,
        }
    }

    /// The machine's invariant: what each waiting state implies about
    /// the device model and the buffer. It ties the saved mode to the
    /// fetched one, forces the buffer to be all zeros whenever a failure
    /// is (or is about to be) surfaced, and keeps a non-interactive read
    /// free of mode calls.
    pub closed spec fn wf(&self) -> bool {
        &&& match self.state {
            ReadState::AwaitMode => self.is_tty@ && !self.suppressed@ && !self.restore_fail@
                && self.orig_mode@ is None && self.buffer@.len() == 0,
            ReadState::AwaitSilence { original } => self.is_tty@ && !self.suppressed@
                && !self.restore_fail@ && self.orig_mode@ == Some(original) && self.buffer@.len()
                == 0,
            ReadState::AwaitLine { original } => self.is_tty@ && self.suppressed@
                && !self.restore_fail@ && self.orig_mode@ == Some(original) && self.buffer@.len()
                == 0,
            ReadState::AwaitRestore { read_error } => self.is_tty@ && self.suppressed@
                && !self.restore_fail@ && self.orig_mode@ is Some && (read_error is Some
                ==> all_zero(self.buffer@)),
            ReadState::AwaitPlainLine => !self.is_tty@ && self.buffer@.len() == 0,
            ReadState::Done { outcome } => (outcome is Err ==> all_zero(self.buffer@)) && (
            !self.restore_fail@ ==> !self.suppressed@),
        }
        &&& (!self.is_tty@ ==> self.mode_ops@ == 0 && !self.suppressed@ && self.orig_mode@ is None
            && !self.restore_fail@)
    }

    /// The events the machine is waiting for in its current state.
    pub open spec fn expects(&self, event: Event<M, E>) -> bool {
        match event {
            Event::ModeFetched { .. } => self.awaiting_mode(),
            Event::ModeApplied => self.awaiting_silence() || self.awaiting_restore(),
            Event::LineRead { .. } => self.awaiting_line() || self.awaiting_plain_line(),
            Event::ReadFailed { .. } => self.awaiting_line() || self.awaiting_plain_line(),
            Event::CallFailed { .. } => self.awaiting_mode() || self.awaiting_silence()
                || self.awaiting_restore(),
        }
    }

    /// Starts a read over an input that was classified as interactive
    /// (`is_terminal`) or not. An interactive read begins by fetching
    /// the device mode; a non-interactive one goes straight to the line
    /// and will never request a mode call.
    pub fn new(is_terminal: bool) -> (r: (PasswordRead<M, E>, Action<M>))
        ensures
            r.0.wf(),
            r.0.interactive() == is_terminal,
            !r.0.done(),
            r.0.secret().len() == 0,
            is_terminal ==> r.0.awaiting_mode() && r.1 == Action::<M>::FetchMode
                && r.0.mode_calls() == 1,
            !is_terminal ==> r.0.awaiting_plain_line() && r.1 == Action::<M>::ReadLine
                && r.0.mode_calls() == 0,
    {
        if is_terminal {
            let machine = PasswordRead {
                state: ReadState::AwaitMode,
                buffer: Vec::new(),
                is_tty: Ghost(true),
                orig_mode: Ghost(None),
                suppressed: Ghost(false),
                restore_fail: Ghost(false),
                mode_ops: Ghost(1nat),
            };
            (machine, Action::FetchMode)
        } else {
            let machine = PasswordRead {
                state: ReadState::AwaitPlainLine,
                buffer: Vec::new(),
                is_tty: Ghost(false),
                orig_mode: Ghost(None),
                suppressed: Ghost(false),
                restore_fail: Ghost(false),
                mode_ops: Ghost(0nat),
            };
            (machine, Action::ReadLine)
        }
    }

    /// Consumes the driver's report and decides the next action.
    ///
    /// The contract pins every transition down: where the mode is taken
    /// from, that restoration is requested after the line whether the
    /// read succeeded or failed, that a restoration failure supersedes a
    /// read failure, and that the buffer is zeroed before any failure.
    pub fn step(self, event: Event<M, E>) -> (r: (PasswordRead<M, E>, Action<M>))
        requires
            self.wf(),
            self.expects(event),
        ensures
            r.0.wf(),
            r.0.interactive() == self.interactive(),
            r.0.done() <==> r.1 is Finish,
            !self.interactive() ==> !(r.1 is ApplyMode) && !(r.1 is FetchMode),
            r.0.mode_calls() == if r.1 is ApplyMode {
                self.mode_calls() + 1
            } else {
                self.mode_calls()
            },
            self.awaiting_mode() ==> match event {
                Event::ModeFetched { original, silent } => r.0.awaiting_silence()
                    && r.0.saved_mode() == Some(original) && r.1 == Action::<M>::ApplyMode(silent),
                Event::CallFailed { error } => r.0.failed_with(error) && r.1
                    == Action::<M>::Finish,
                _ => false,
            },
            self.awaiting_silence() ==> match event {
                Event::ModeApplied => r.0.awaiting_line() && r.0.saved_mode() == self.saved_mode()
                    && r.0.echo_off() && r.1 == Action::<M>::ReadLine,
                Event::CallFailed { error } => r.0.failed_with(error) && r.1
                    == Action::<M>::Finish,
                _ => false,
            },
            self.awaiting_line() ==> match event {
                Event::LineRead { data } => r.0.awaiting_restore() && r.0.secret() == data@
                    && r.0.pending_read_error() is None && (self.saved_mode() matches Some(m)
                    && r.1 == Action::<M>::ApplyMode(m)),
                Event::ReadFailed { error, partial } => r.0.awaiting_restore() && all_zero(
                    r.0.secret(),
                ) && r.0.secret().len() == partial@.len() && r.0.pending_read_error()
                    == Some(error) && (self.saved_mode() matches Some(m) && r.1
                    == Action::<M>::ApplyMode(m)),
                _ => false,
            },
            self.awaiting_restore() ==> match event {
                Event::ModeApplied => !r.0.echo_off() && r.1 == Action::<M>::Finish && match self
                    .pending_read_error() {
                    Some(e) => r.0.failed_with(e) && all_zero(r.0.secret()),
                    None => r.0.succeeded() && r.0.secret() == self.secret(),
                },
                Event::CallFailed { error } => r.0.failed_with(error) && r.0.restore_failed()
                    && all_zero(r.0.secret()) && r.1 == Action::<M>::Finish,
                _ => false,
            },
            self.awaiting_plain_line() ==> match event {
                Event::LineRead { data } => r.0.succeeded() && r.0.secret() == data@ && r.1
                    == Action::<M>::Finish,
                Event::ReadFailed { error, .. } => r.0.failed_with(error) && all_zero(
                    r.0.secret(),
                ) && r.1 == Action::<M>::Finish,
                _ => false,
            },
    {
        let PasswordRead { state, mut buffer, is_tty, orig_mode, suppressed, restore_fail, mode_ops } = self;
        match (state, event) {
            (ReadState::AwaitMode, Event::ModeFetched { original, silent }) => {
                let ghost saved: Option<M> = Some(original);
                let machine = PasswordRead {
                    state: ReadState::AwaitSilence { original },
                    buffer,
                    is_tty,
                    orig_mode: Ghost(saved),
                    suppressed,
                    restore_fail,
                    mode_ops: Ghost(mode_ops@ + 1),
                };
                (machine, Action::ApplyMode(silent))
            },
            (ReadState::AwaitMode, Event::CallFailed { error }) => {
                let machine = PasswordRead {
                    state: ReadState::Done { outcome: Err(error) },
                    buffer,
                    is_tty,
                    orig_mode,
                    suppressed,
                    restore_fail,
                    mode_ops,
                };
                (machine, Action::Finish)
            },
            (ReadState::AwaitSilence { original }, Event::ModeApplied) => {
                let machine = PasswordRead {
                    state: ReadState::AwaitLine { original },
                    buffer,
                    is_tty,
                    orig_mode,
                    suppressed: Ghost(true),
                    restore_fail,
                    mode_ops,
                };
                (machine, Action::ReadLine)
            },
            (ReadState::AwaitSilence { original: _ }, Event::CallFailed { error }) => {
                let machine = PasswordRead {
                    state: ReadState::Done { outcome: Err(error) },
                    buffer,
                    is_tty,
                    orig_mode,
                    suppressed,
                    restore_fail,
                    mode_ops,
                };
                (machine, Action::Finish)
            },
            (ReadState::AwaitLine { original }, Event::LineRead { data }) => {
                buffer = data;
                let machine = PasswordRead {
                    state: ReadState::AwaitRestore { read_error: None },
                    buffer,
                    is_tty,
                    orig_mode,
                    suppressed,
                    restore_fail,
                    mode_ops: Ghost(mode_ops@ + 1),
                };
                (machine, Action::ApplyMode(original))
            },
            (ReadState::AwaitLine { original }, Event::ReadFailed { error, mut partial }) => {
                zero_memory(&mut partial);
                buffer = partial;
                let machine = PasswordRead {
                    state: ReadState::AwaitRestore { read_error: Some(error) },
                    buffer,
                    is_tty,
                    orig_mode,
                    suppressed,
                    restore_fail,
                    mode_ops: Ghost(mode_ops@ + 1),
                };
                (machine, Action::ApplyMode(original))
            },
            (ReadState::AwaitRestore { read_error: None }, Event::ModeApplied) => {
                let machine = PasswordRead {
                    state: ReadState::Done { outcome: Ok(()) },
                    buffer,
                    is_tty,
                    orig_mode,
                    suppressed: Ghost(false),
                    restore_fail,
                    mode_ops,
                };
                (machine, Action::Finish)
            },
            (ReadState::AwaitRestore { read_error: Some(read_error) }, Event::ModeApplied) => {
                let machine = PasswordRead {
                    state: ReadState::Done { outcome: Err(read_error) },
                    buffer,
                    is_tty,
                    orig_mode,
                    suppressed: Ghost(false),
                    restore_fail,
                    mode_ops,
                };
                (machine, Action::Finish)
            },
            (ReadState::AwaitRestore { read_error: _ }, Event::CallFailed { error }) => {
                zero_memory(&mut buffer);
                let machine = PasswordRead {
                    state: ReadState::Done { outcome: Err(error) },
                    buffer,
                    is_tty,
                    orig_mode,
                    suppressed,
                    restore_fail: Ghost(true),
                    mode_ops,
                };
                (machine, Action::Finish)
            },
            (ReadState::AwaitPlainLine, Event::LineRead { data }) => {
                buffer = data;
                let machine = PasswordRead {
                    state: ReadState::Done { outcome: Ok(()) },
                    buffer,
                    is_tty,
                    orig_mode,
                    suppressed,
                    restore_fail,
                    mode_ops,
                };
                (machine, Action::Finish)
            },
            (ReadState::AwaitPlainLine, Event::ReadFailed { error, mut partial }) => {
                zero_memory(&mut partial);
                buffer = partial;
                let machine = PasswordRead {
                    state: ReadState::Done { outcome: Err(error) },
                    buffer,
                    is_tty,
                    orig_mode,
                    suppressed,
                    restore_fail,
                    mode_ops,
                };
                (machine, Action::Finish)
            },
            _ => unreached(),
        }
    }

    /// Whether `event` is one the machine is waiting for. Unverified
    /// drivers call this before `step`, whose contract demands it.
    pub fn accepts(&self, event: &Event<M, E>) -> (r: bool)
        ensures
            r == self.expects(*event),
    {
        match event {
            Event::ModeFetched { .. } => matches!(&self.state, ReadState::AwaitMode),
            Event::ModeApplied => matches!(
                &self.state,
                ReadState::AwaitSilence { .. } | ReadState::AwaitRestore { .. }
            ),
            Event::LineRead { .. } => matches!(
                &self.state,
                ReadState::AwaitLine { .. } | ReadState::AwaitPlainLine
            ),
            Event::ReadFailed { .. } => matches!(
                &self.state,
                ReadState::AwaitLine { .. } | ReadState::AwaitPlainLine
            ),
            Event::CallFailed { .. } => matches!(
                &self.state,
                ReadState::AwaitMode | ReadState::AwaitSilence { .. } | ReadState::AwaitRestore {
                    ..
                }
            ),
        }
    }

    /// Whether the read is over and `finish` may be called.
    pub fn is_done(&self) -> (r: bool)
        ensures
            r == self.done(),
    {
        matches!(&self.state, ReadState::Done { .. })
    }

    /// The secret buffer as gathered so far.
    pub fn secret_bytes(&self) -> (r: &Vec<u8>)
        ensures
            r@ == self.secret(),
    {
        &self.buffer
    }

    /// The outcome of a finished read: the raw line on success, the
    /// error on failure (the buffer, then all zeros, is dropped).
    pub fn finish(self) -> (r: Result<Vec<u8>, E>)
        requires
            self.done(),
        ensures
            r is Ok <==> self.succeeded(),
            match r {
                Ok(b) => self.succeeded() && b@ == self.secret(),
                Err(e) => self.failed_with(e),
            },
    {
        match self.state {
            ReadState::Done { outcome: Ok(()) } => Ok(self.buffer),
            ReadState::Done { outcome: Err(e) } => Err(e),
            _ => unreached(),
        }
    }

    /// Restoration invariant: once the read is over, unless the
    /// restoring mode change itself was reported failed, no confirmed
    /// mode change is left in force: the device is back in the mode
    /// that was fetched before the read.
    pub proof fn lemma_mode_restored(&self)
        requires
            self.wf(),
            self.done(),
            !self.restore_failed(),
        ensures
            !self.echo_off(),
    {
    }

    /// A read classified non-interactive never requests a terminal mode
    /// call, neither a fetch nor an apply.
    pub proof fn lemma_plain_read_no_mode_calls(&self)
        requires
            self.wf(),
            !self.interactive(),
        ensures
            self.mode_calls() == 0,
    {
    }

    /// Secret hygiene: whenever a read ends in failure, the secret
    /// buffer holds only zero bytes.
    pub proof fn lemma_failed_read_zeroed(&self)
        requires
            self.wf(),
            self.failed(),
        ensures
            all_zero(self.secret()),
    {
    }
}

} // verus!
