//! Lengths of texts as stored.

use vstd::prelude::*;

verus! {

/// The length of a text in UTF-8 bytes, as `str::len` reports it.
pub open spec fn byte_len(s: Seq<char>) -> usize {
    vstd::utf8::encode_utf8(s).len() as usize
}

/// The length of a text in UTF-8 bytes.
pub fn text_len(s: &String) -> (n: usize)
    ensures
        n == byte_len(s@),
{
    let t: &str = s.as_str();
    t.len()
}

/// Whether a text is empty.
pub fn text_is_empty(s: &String) -> (b: bool)
    ensures
        b == (s@.len() == 0),
{
    s.as_str().is_empty()
}

} // verus!
