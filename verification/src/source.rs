//! A caller-supplied line source for password reads.

use vstd::prelude::*;

verus! {

/// The operating-system error type that every read surfaces unchanged.
/// Opaque here: the crate never inspects one, it only carries them.
#[verifier::external_type_specification]
#[verifier::external_body]
pub struct ExIoError(std::io::Error);

/// A line-buffered byte source a caller may hand to
/// [`crate::read_password_with_reader`] in place of standard input, for
/// tests or for callers with their own input abstraction.
///
/// `pending_line()` is the implementer's model of the bytes the next
/// line read will yield; a successful read must deliver exactly them.
pub trait SecretSource {
    /// The bytes the next line read will yield, terminator included.
    spec fn pending_line(&self) -> Seq<u8>;

    /// Appends one line to `buf`, up to and including the terminator or
    /// to end of input, and returns how many bytes were appended. An
    /// immediate end of input yields `Ok(0)` and no bytes, not a
    /// failure. On failure, whatever was appended may stay in `buf`.
    fn read_secret_line(&mut self, buf: &mut Vec<u8>) -> (r: Result<usize, std::io::Error>)
        requires
            old(buf)@.len() == 0,
        ensures
            r matches Ok(n) ==> final(buf)@ == old(self).pending_line() && n == final(buf)@.len(),
    ;
}

} // verus!
