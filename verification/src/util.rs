use vstd::prelude::*;

verus! {

/// A fatcat identifier ("fcid") as far as `is_fcid` checks it: plain ASCII
/// text of exactly 26 characters (for ASCII text, 26 bytes).
pub open spec fn spec_is_fcid(text: Seq<char>) -> bool {
    &&& vstd::utf8::is_ascii_chars(text)
    &&& text.len() == 26
}

/// Whether `raw` looks like a fatcat identifier: ASCII and 26 bytes long.
pub fn is_fcid(raw: &str) -> (b: bool)
    ensures
        b == spec_is_fcid(raw@),
        b ==> raw@.len() == 26,
        raw@.len() != 26 ==> !b,
{
    // For ASCII text the byte length and the character count agree.
    raw.is_ascii() && raw.unicode_len() == 26
}

} // verus!
