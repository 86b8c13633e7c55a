//! The two places where the library calls code that is not verified. The
//! contracts in this module are believed, not proved.
use vstd::prelude::*;

verus! {

/// Draws one number from the process-wide generator of the `rand` crate,
/// by a call of `rand::random::<usize>()`.
///
/// Nothing is claimed about the number: every `usize` may come back, and
/// two calls may differ. The call can only fail where the operating system
/// cannot seed the generator.
#[verifier::external_body]
pub(crate) fn random_draw() -> (draw: usize) {
    rand::random::<usize>()
}

/// Appends one character to a string, by a call of `String::push` of the
/// standard library.
///
/// The contract repeats what the standard library documents: afterwards the
/// string holds the characters it held before, followed by `c`.
#[verifier::external_body]
pub(crate) fn push_char(text: &mut String, c: char)
    ensures
        final(text)@ == old(text)@.push(c),
{
    text.push(c);
}

} // verus!
