//! The calls into the standard library that Verus has no specification for. Each item
//! here is believed as stated; its doc comment says what it claims of the call.

use vstd::prelude::*;

use std::path::Path;
use std::time::Instant;
use vstd::utf8::{decode_utf8, encode_utf8, valid_utf8};

verus! {

/// A point in time, as the standard library's monotonic clock gives it.
#[verifier::external_type_specification]
#[verifier::external_body]
pub struct ExInstant(Instant);

/// `Instant`'s `clone`: `Instant` is `Copy`, so the clone is the same instant.
pub assume_specification[ <Instant as Clone>::clone ](instant: &Instant) -> (r: Instant)
    ensures
        r == *instant,
;

/// `Instant::now`: the present moment. Nothing is claimed of it: it is the clock.
#[verifier::external_body]
pub(crate) fn instant_now() -> Instant {
    Instant::now()
}

/// `Instant::elapsed`, in whole milliseconds (`Duration::as_millis`): how long ago
/// `since` was. Nothing is claimed of it: it depends on the clock.
#[verifier::external_body]
pub(crate) fn elapsed_millis(since: &Instant) -> u128 {
    since.elapsed().as_millis()
}

/// `String::push`: appends `c` at the end.
#[verifier::external_body]
pub(crate) fn string_push(s: &mut String, c: char)
    ensures
        final(s)@ == old(s)@.push(c),
{
    s.push(c)
}

/// `String::pop`: removes and returns the last char, or returns `None` and leaves an
/// empty string alone.
#[verifier::external_body]
pub(crate) fn string_pop(s: &mut String) -> (r: Option<char>)
    ensures
        old(s)@.len() == 0 ==> r is None && final(s)@ == old(s)@,
        old(s)@.len() > 0 ==> r == Some(old(s)@.last()) && final(s)@ == old(s)@.drop_last(),
{
    s.pop()
}

/// `String::insert`: puts `c` in at byte offset `idx`, which must be where a char
/// starts or the end (the call panics elsewhere); the char lands at the position of the
/// char that started there.
#[verifier::external_body]
pub(crate) fn string_insert(s: &mut String, idx: usize, c: char)
    requires
        exists|k: int| 0 <= k <= old(s)@.len() && encode_utf8(old(s)@.take(k)).len() == idx,
    ensures
        forall|k: int|
            0 <= k <= old(s)@.len() && encode_utf8(old(s)@.take(k)).len() == idx ==> final(s)@
                == old(s)@.insert(k, c),
{
    s.insert(idx, c)
}

/// What `Path::join` gives for a base directory and a name, as text.
pub uninterp spec fn path_joined(base: Seq<char>, name: Seq<char>) -> Seq<char>;

/// `Path::join`: `name` appended to `base` with a separator (or `name` alone when it is
/// absolute). Its result is named, not restated.
#[verifier::external_body]
pub(crate) fn path_join(base: &str, name: &str) -> (r: String)
    ensures
        r@ == path_joined(base@, name@),
{
    Path::new(base).join(name).to_string_lossy().into_owned()
}

/// What `Path::parent` gives for a path, as text: `None` for a root or an empty path.
pub uninterp spec fn path_parent_of(path: Seq<char>) -> Option<Seq<char>>;

/// `Path::parent`: the path without its last component, if it has one.
#[verifier::external_body]
pub(crate) fn path_parent(path: &str) -> (r: Option<String>)
    ensures
        match r {
            Some(p) => path_parent_of(path@) == Some(p@),
            None => path_parent_of(path@) is None,
        },
{
    Path::new(path).parent().map(|p| p.to_string_lossy().into_owned())
}

/// What `Path::file_name` gives for a path, as text: `None` when it ends in `..`, is
/// a root, or is empty.
pub uninterp spec fn path_file_name_of(path: Seq<char>) -> Option<Seq<char>>;

/// `Path::file_name`: the last component of the path, if it is a normal one.
#[verifier::external_body]
pub(crate) fn path_file_name(path: &str) -> (r: Option<String>)
    ensures
        match r {
            Some(n) => path_file_name_of(path@) == Some(n@),
            None => path_file_name_of(path@) is None,
        },
{
    Path::new(path).file_name().map(|n| n.to_string_lossy().into_owned())
}

/// What the `Debug` form of a `Path` is: the path quoted, with escapes.
pub uninterp spec fn path_debug_text(path: Seq<char>) -> Seq<char>;

/// The `Debug` form of a `Path` (`format!("{:?}", path)`).
#[verifier::external_body]
pub(crate) fn path_debug(path: &str) -> (r: String)
    ensures
        r@ == path_debug_text(path@),
{
    format!("{:?}", Path::new(path))
}

/// `std::str::from_utf8` (the text copied out with `to_owned`): the text the bytes
/// encode when they are valid UTF-8, `None` when they are not.
#[verifier::external_body]
pub(crate) fn utf8_text(bytes: &[u8]) -> (r: Option<String>)
    ensures
        r is Some <==> valid_utf8(bytes@),
        r matches Some(s) ==> s@ == decode_utf8(bytes@),
{
    std::str::from_utf8(bytes).ok().map(|s| s.to_owned())
}

} // verus!
