use vstd::prelude::*;
use vstd::utf8::encode_utf8;

verus! {

/// The number of bytes that a text takes in UTF-8, which is how its length
/// is stored and bounded on the ledger.
pub open spec fn byte_len(text: Seq<char>) -> usize {
    encode_utf8(text).len() as usize
}

/// Measures a text in bytes of UTF-8.
pub fn text_bytes(text: &String) -> (length: usize)
    ensures
        length == byte_len(text@),
{
    text.as_str().len()
}

/// A text has no more characters than bytes: every character takes at least
/// one byte.
pub proof fn lemma_chars_within_bytes(text: Seq<char>)
    ensures
        text.len() <= encode_utf8(text).len(),
    decreases text.len(),
{
    if text.len() > 0 {
        lemma_chars_within_bytes(text.drop_first());
    }
}

} // verus!
