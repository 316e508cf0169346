//! Text-building primitives on `String`.

use vstd::prelude::*;

verus! {

/// `String::push`: appends `c` to the end of `buf`; the contract claims
/// exactly that.
#[verifier::external_body]
pub(crate) fn push_char(buf: &mut String, c: char)
    ensures
        final(buf)@ == old(buf)@.push(c),
{
    buf.push(c);
}

/// Appends a string slice.
pub(crate) fn push_str(buf: &mut String, s: &str)
    ensures
        final(buf)@ == old(buf)@ + s@,
{
    buf.append(s);
}

} // verus!
