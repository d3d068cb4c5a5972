//! Bytes, and the text that they spell.

use vstd::prelude::*;
use vstd::utf8::{decode_utf8, valid_utf8};

verus! {

/// What `String::from_utf8_lossy` reads from bytes.
pub uninterp spec fn utf8_lossy(bytes: Seq<u8>) -> Seq<char>;

/// The text that bytes spell. Valid UTF-8 is decoded; how other bytes are replaced is named by
/// [`utf8_lossy`].
pub fn text_from_utf8(bytes: &[u8]) -> (text: String)
    ensures
        text@ == utf8_lossy(bytes@),
        valid_utf8(bytes@) ==> text@ == decode_utf8(bytes@),
{
    decoded(bytes)
}

/// Calls `String::from_utf8_lossy`. Valid UTF-8 is decoded; how other bytes are replaced is named
/// by [`utf8_lossy`].
#[verifier::external_body]
fn decoded(bytes: &[u8]) -> (text: String)
    ensures
        text@ == utf8_lossy(bytes@),
        valid_utf8(bytes@) ==> text@ == decode_utf8(bytes@),
{
    String::from_utf8_lossy(bytes).to_string()
}

/// The bytes from `start` up to `end`.
pub fn bytes_between(bytes: &[u8], start: usize, end: usize) -> (part: Vec<u8>)
    requires
        start <= end <= bytes.len(),
    ensures
        part@ == bytes@.subrange(start as int, end as int),
{
    let mut part: Vec<u8> = Vec::new();
    for i in start..end
        invariant
            start <= end <= bytes.len(),
            part@ == bytes@.subrange(start as int, i as int),
    {
        part.push(bytes[i]);
        proof {
            assert(bytes@.subrange(start as int, i + 1) =~= bytes@.subrange(
                start as int,
                i as int,
            ).push(bytes@[i as int]));
        }
    }
    part
}

} // verus!
