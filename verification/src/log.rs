//! Terminal logs.

use vstd::prelude::*;

verus! {

/// One line of the log: the bytes of `text`, which are its UTF-8 encoding,
/// and the byte of a line feed after them.  This is what is written to the
/// terminal for `text`.
pub fn say(text: &str) -> (line: Vec<u8>)
    ensures
        line@ == vstd::utf8::encode_utf8(text@).push(10u8),
{
    let mut line = text.as_bytes_vec();
    line.push(10u8);
    line
}

} // verus!
