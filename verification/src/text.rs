//! Bytes read as text.

use vstd::prelude::*;

verus! {

/// The text that std's `String::from_utf8_lossy` gives for `bytes`: the text
/// that the bytes encode, with the replacement character in place of what
/// encodes none
pub uninterp spec fn utf8_lossy(bytes: Seq<u8>) -> Seq<char>;

/// Calls std's `String::from_utf8_lossy`. The contract claims only that the
/// text depends on the bytes alone.
#[verifier::external_body]
pub(crate) fn from_utf8_lossy(bytes: &[u8]) -> (r: String)
    ensures
        r@ == utf8_lossy(bytes@),
{
    String::from_utf8_lossy(bytes).into_owned()
}

} // verus!
