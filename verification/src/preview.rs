//! File previews: telling text from binary content.

use vstd::prelude::*;

use crate::platform::utf8_text;
use crate::types::FileContent;
use vstd::utf8::{decode_utf8, valid_utf8};

verus! {

/// How many bytes of a file are read for its preview.
pub const PREVIEW_LIMIT: usize = 65536;

/// The text of the first `bytes.len() - k` bytes, if they are UTF-8.
pub open spec fn text_without_last(bytes: Seq<u8>, k: int) -> Option<Seq<char>> {
    if k <= bytes.len() && valid_utf8(bytes.take(bytes.len() - k)) {
        Some(decode_utf8(bytes.take(bytes.len() - k)))
    } else {
        None
    }
}

/// The text a preview shows for the first bytes of a file (`truncated` when the file
/// goes on past them), or `None` for a binary file. A file is binary when it holds a
/// zero byte or is not UTF-8; when the read stopped short of the end, up to three bytes
/// at the end may be the start of a char that was cut off, and are left out.
pub open spec fn preview_text(bytes: Seq<u8>, truncated: bool) -> Option<Seq<char>> {
    if bytes.contains(0u8) {
        None
    } else if valid_utf8(bytes) {
        Some(decode_utf8(bytes))
    } else if !truncated {
        None
    } else if text_without_last(bytes, 1) is Some {
        text_without_last(bytes, 1)
    } else if text_without_last(bytes, 2) is Some {
        text_without_last(bytes, 2)
    } else {
        text_without_last(bytes, 3)
    }
}

/// The text that stands in for a binary file's contents.
pub open spec fn binary_note() -> Seq<char> {
    "Binary file: no preview"@
}

/// The text of the first `bytes.len() - k` bytes, if they are UTF-8.
fn decode_without_last(bytes: &Vec<u8>, k: usize) -> (r: Option<String>)
    ensures
        match text_without_last(bytes@, k as int) {
            Some(t) => r matches Some(s) && s@ == t,
            None => r is None,
        },
{
    if k > bytes.len() {
        return None;
    }
    let kept = vstd::slice::slice_subrange(bytes.as_slice(), 0, bytes.len() - k);
    assert(kept@ =~= bytes@.take(bytes@.len() - k));
    utf8_text(kept)
}

/// The preview of a file from its first bytes (see [`preview_text`]): its text, or a
/// note that it is binary.
pub fn classify_preview(bytes: &Vec<u8>, truncated: bool) -> (r: FileContent)
    ensures
        match preview_text(bytes@, truncated) {
            Some(t) => r matches FileContent::Text(s) && s@ == t,
            None => r matches FileContent::Binary(s) && s@ == binary_note(),
        },
{
    let n = bytes.len();
    let mut i: usize = 0;
    while i < n
        invariant
            n == bytes@.len(),
            i <= n,
            forall|j: int| 0 <= j < i ==> bytes@[j] != 0u8,
        decreases n - i,
    {
        if bytes[i] == 0u8 {
            assert(bytes@.contains(0u8));
            return FileContent::Binary(String::from_str("Binary file: no preview"));
        }
        i = i + 1;
    }
    assert(!bytes@.contains(0u8));
    let mut text = decode_without_last(bytes, 0);
    assert(bytes@.take(bytes@.len() as int) =~= bytes@);
    if text.is_none() && truncated {
        text = decode_without_last(bytes, 1);
        if text.is_none() {
            text = decode_without_last(bytes, 2);
            if text.is_none() {
                text = decode_without_last(bytes, 3);
            }
        }
    }
    match text {
        Some(s) => FileContent::Text(s),
        None => FileContent::Binary(String::from_str("Binary file: no preview")),
    }
}

} // verus!
