//! Stripping the trailing line terminator from a raw line read.

use vstd::prelude::*;

verus! {

/// The bytes of a raw line after its terminator is removed: one trailing
/// `'\n'` is dropped if present, and then one trailing `'\r'` is dropped
/// if present. A line with no trailing `'\n'` (end of input without a
/// newline) is left unchanged, so a lone trailing `'\r'` stays.
pub open spec fn sanitized(s: Seq<u8>) -> Seq<u8> {
    if s.len() > 0 && s.last() == 10u8 {
        let t = s.drop_last();
        if t.len() > 0 && t.last() == 13u8 {
            t.drop_last()
        } else {
            t
        }
    } else {
        s
    }
}

/// Removes the line terminator left at the end of `password` by a line
/// read: first one `'\n'` if present, then one `'\r'` if present.
pub fn fixes_newline(password: &mut Vec<u8>)
    ensures
        final(password)@ == sanitized(old(password)@),
{
    let n = password.len();
    if n > 0 && password[n - 1] == 10u8 {
        password.pop();
        if n > 1 && password[n - 2] == 13u8 {
            password.pop();
        }
    }
}

/// A line that ends in `"\r\n"` is sanitized to exactly the line with
/// that two-byte suffix removed.
pub proof fn lemma_sanitized_crlf(s: Seq<u8>)
    requires
        s.len() >= 2,
        s[s.len() - 1] == 10u8,
        s[s.len() - 2] == 13u8,
    ensures
        sanitized(s) == s.subrange(0, s.len() - 2),
{
    assert(sanitized(s) =~= s.subrange(0, s.len() - 2));
}

/// A line that ends in `'\n'` not preceded by `'\r'` is sanitized to
/// exactly the line with that one byte removed.
pub proof fn lemma_sanitized_lf(s: Seq<u8>)
    requires
        s.len() >= 1,
        s[s.len() - 1] == 10u8,
        s.len() >= 2 ==> s[s.len() - 2] != 13u8,
    ensures
        sanitized(s) == s.subrange(0, s.len() - 1),
{
    assert(sanitized(s) =~= s.subrange(0, s.len() - 1));
}

/// A line with no trailing `'\n'` is left unchanged.
pub proof fn lemma_sanitized_no_newline(s: Seq<u8>)
    requires
        s.len() == 0 || s[s.len() - 1] != 10u8,
    ensures
        sanitized(s) == s,
{
}

/// Sanitizing an already-sanitized line is a no-op. This holds for every
/// line whose own terminator does not shield a second one: a line ending
/// in `"\n\n"` or `"\n\r\n"` sanitizes to a line that still ends in
/// `'\n'`, which a second pass would strip again, so those two suffixes
/// are excluded.
pub proof fn lemma_sanitized_idempotent(s: Seq<u8>)
    requires
        !(s.len() >= 2 && s[s.len() - 1] == 10u8 && s[s.len() - 2] == 10u8),
        !(s.len() >= 3 && s[s.len() - 1] == 10u8 && s[s.len() - 2] == 13u8 && s[s.len() - 3]
            == 10u8),
    ensures
        sanitized(sanitized(s)) == sanitized(s),
{
    let t = sanitized(s);
    assert(t.len() == 0 || t[t.len() - 1] != 10u8);
    lemma_sanitized_no_newline(t);
}

} // verus!
