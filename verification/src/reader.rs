//! The public entry points that read a password and the standard-stream
//! plumbing they need.
//!
//! The logic of a read lives in [`crate::sanitize`], [`crate::zeroize`]
//! and [`crate::terminal`]; this module connects it to standard input
//! and output through a few trusted wrappers, and turns the raw bytes of
//! a line into the returned string.

use std::io::BufRead;
use std::io::Write;

use vstd::prelude::*;

use crate::sanitize::fixes_newline;
use crate::sanitize::sanitized;
use crate::source::SecretSource;
use crate::terminal::Action;
use crate::terminal::Event;
use crate::terminal::PasswordRead;
use crate::zeroize::zero_memory;

verus! {

/// What a byte sequence reads as UTF-8: `Some` of its characters exactly
/// when it is valid UTF-8, `None` otherwise. Left uninterpreted: it
/// names the result of `String::from_utf8`.
pub uninterp spec fn decoded(bytes: Seq<u8>) -> Option<Seq<char>>;

/// Relies on `std::io::Stdin::lock` and `std::io::BufRead::read_until`:
/// appends one line of raw bytes from standard input to `buf`, up to and
/// including the first `'\n'` or to end of input, and returns how many
/// bytes were appended; on failure, bytes already gathered may stay
/// appended, but what was there before remains.
#[verifier::external_body]
fn read_line_stdin(buf: &mut Vec<u8>) -> (r: Result<usize, std::io::Error>)
    ensures
        r matches Ok(n) ==> final(buf)@.len() == old(buf)@.len() + n,
        final(buf)@.len() >= old(buf)@.len(),
        final(buf)@.subrange(0, old(buf)@.len() as int) == old(buf)@,
{
    std::io::stdin().lock().read_until(b'\n', buf)
}

/// Relies on `String::from_utf8`: returns the decoded string exactly
/// when the bytes are valid UTF-8, and otherwise (through
/// `FromUtf8Error::into_bytes`) gives the input bytes back unchanged.
#[verifier::external_body]
fn bytes_into_string(bytes: Vec<u8>) -> (r: Result<String, Vec<u8>>)
    ensures
        r matches Ok(s) ==> decoded(bytes@) == Some(s@),
        decoded(bytes@) is Some ==> r is Ok,
        bytes@.len() == 0 ==> r is Ok,
{
    String::from_utf8(bytes).map_err(|e| e.into_bytes())
}

/// Relies on `std::io::Error::new`: builds the error a line read
/// surfaces when the bytes are not valid UTF-8.
#[verifier::external_body]
fn invalid_data_error() -> (r: std::io::Error)
{
    std::io::Error::new(std::io::ErrorKind::InvalidData, "stream did not contain valid UTF-8")
}

/// Relies on `std::io::stdout`, `write!` and `std::io::Write::flush`:
/// writes the prompt to standard output and flushes it.
#[verifier::external_body]
fn display_on_stdout(prompt: &str) -> (r: Result<(), std::io::Error>)
{
    let mut stdout = std::io::stdout();
    write!(stdout, "{}", prompt)?;
    stdout.flush()
}

/// Relies on `std::io::stderr`, `write!` and `std::io::Write::flush`:
/// writes the prompt to standard error and flushes it.
#[verifier::external_body]
fn display_on_stderr(prompt: &str) -> (r: Result<(), std::io::Error>)
{
    let mut stderr = std::io::stderr();
    write!(stderr, "{}", prompt)?;
    stderr.flush()
}

/// Turns the raw bytes of a line read into the secret to return: strips
/// the trailing line terminator, then decodes the bytes as UTF-8. On
/// bytes that are not valid UTF-8 the buffer is zeroed and dropped, and
/// the read fails. Stripping is idempotent on single lines, so a line
/// that was already sanitized passes through unchanged.
pub fn finish_secret(secret: Vec<u8>) -> (r: Result<String, std::io::Error>)
    ensures
        r is Ok <==> decoded(sanitized(secret@)) is Some,
        r matches Ok(s) ==> decoded(sanitized(secret@)) == Some(s@),
{
    let mut line = secret;
    fixes_newline(&mut line);
    match bytes_into_string(line) {
        Ok(s) => Ok(s),
        Err(mut raw) => {
            zero_memory(&mut raw);
            Err(invalid_data_error())
        },
    }
}

/// Reads a password from standard input: one plain buffered line read,
/// with no prompt, no terminal-device opening and no mode manipulation,
/// sanitized before it is returned. An immediate end of input yields an
/// empty secret, not an error.
pub fn read_password() -> (r: Result<String, std::io::Error>)
    ensures
        r matches Ok(s) ==> exists|line: Seq<u8>| decoded(sanitized(line)) == Some(s@),
{
    let (machine, _action) = PasswordRead::<(), std::io::Error>::new(false);
    let mut buf: Vec<u8> = Vec::new();
    let event = match read_line_stdin(&mut buf) {
        Ok(_) => Event::LineRead { data: buf },
        Err(e) => Event::ReadFailed { error: e, partial: buf },
    };
    let (machine, _action) = machine.step(event);
    match machine.finish() {
        Ok(bytes) => finish_secret(bytes),
        Err(e) => Err(e),
    }
}

/// Reads a password from `source` if one is supplied: one line is read
/// from it, zeroed on failure, sanitized and decoded on success. With no
/// source, reads from standard input as [`read_password`] does, never
/// opening the terminal device and never touching terminal modes.
pub fn read_password_with_reader<T: SecretSource>(source: Option<T>) -> (r: Result<
    String,
    std::io::Error,
>)
    ensures
        source matches Some(src) ==> (r matches Ok(s) ==> decoded(sanitized(src.pending_line()))
            == Some(s@)),
        source matches Some(src) && decoded(sanitized(src.pending_line())) is None ==> r is Err,
        source is None ==> (r matches Ok(s) ==> exists|line: Seq<u8>| decoded(sanitized(line))
            == Some(s@)),
{
    match source {
        Some(mut reader) => {
            let mut password: Vec<u8> = Vec::new();
            match reader.read_secret_line(&mut password) {
                Ok(_) => finish_secret(password),
                Err(e) => {
                    zero_memory(&mut password);
                    Err(e)
                },
            }
        },
        None => read_password(),
    }
}

/// Writes the prompt to standard output, flushes it, then reads the
/// password from standard input as [`read_password`] does. Echo is not
/// suppressed on this path: suppression belongs to the dedicated
/// terminal path, which opens the terminal device itself.
pub fn prompt_password_stdout(prompt: &str) -> (r: Result<String, std::io::Error>)
    ensures
        r matches Ok(s) ==> exists|line: Seq<u8>| decoded(sanitized(line)) == Some(s@),
{
    match display_on_stdout(prompt) {
        Ok(_) => read_password(),
        Err(e) => Err(e),
    }
}

/// Writes the prompt to standard error, flushes it, then reads the
/// password from standard input as [`read_password`] does. Echo is not
/// suppressed on this path either.
pub fn prompt_password_stderr(prompt: &str) -> (r: Result<String, std::io::Error>)
    ensures
        r matches Ok(s) ==> exists|line: Seq<u8>| decoded(sanitized(line)) == Some(s@),
{
    match display_on_stderr(prompt) {
        Ok(_) => read_password(),
        Err(e) => Err(e),
    }
}

} // verus!
