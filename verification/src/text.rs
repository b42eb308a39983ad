//! Text helpers that std provides and the verifier has no account of.

use vstd::prelude::*;

verus! {

/// What `str::trim` makes of a text: the text without its leading and
/// trailing whitespace.
pub uninterp spec fn trimmed(text: Seq<char>) -> Seq<char>;

/// `str::trim`: the slice of `text` that is left when leading and trailing
/// whitespace, as Unicode defines it, is taken off. The contract only gives
/// that result its name.
#[verifier::external_body]
pub(crate) fn trim(text: &str) -> (inner: &str)
    ensures
        inner@ == trimmed(text@),
{
    text.trim()
}

} // verus!
