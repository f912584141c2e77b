//! Bytes as text: the check for UTF-8 and the preview that events carry.

use vstd::prelude::*;
use vstd::slice::slice_subrange;
use vstd::string::*;
use vstd::utf8::{decode_utf8, valid_utf8};

verus! {

/// The error of `core::str::from_utf8`. Nothing is read from it.
#[verifier::external_type_specification]
#[verifier::external_body]
pub struct ExUtf8Error(core::str::Utf8Error);

/// `core::str::from_utf8` succeeds exactly on well-formed UTF-8, and the
/// string slice it gives has the bytes it was given.
pub assume_specification<'a>[ core::str::from_utf8 ](v: &'a [u8]) -> (res: Result<
    &'a str,
    core::str::Utf8Error,
>)
    ensures
        res is Ok <==> valid_utf8(v@),
        res matches Ok(s) ==> s.spec_bytes() == v@,
;

/// The text that `String::from_utf8_lossy` makes of `bytes`: the decoded
/// text, with U+FFFD in place of each ill-formed part.
pub uninterp spec fn utf8_lossy(bytes: Seq<u8>) -> Seq<char>;

/// `String::from_utf8_lossy`, as an owned string. On well-formed UTF-8 the
/// result is the decoded text; on other input it is only named.
#[verifier::external_body]
fn from_utf8_lossy(bytes: &[u8]) -> (text: String)
    ensures
        text@ == utf8_lossy(bytes@),
        valid_utf8(bytes@) ==> text@ == decode_utf8(bytes@),
{
    String::from_utf8_lossy(bytes).into_owned()
}

/// How many bytes of a URI or pointer an event shows.
pub const PREVIEW_LEN: usize = 32;

/// The bytes of `bytes` that an event shows: the first `PREVIEW_LEN`, or all of a shorter one.
pub open spec fn preview_bytes(bytes: Seq<u8>) -> Seq<u8> {
    if bytes.len() <= PREVIEW_LEN {
        bytes
    } else {
        bytes.take(PREVIEW_LEN as int)
    }
}

/// The text that an event shows of `bytes`.
pub open spec fn preview_text(bytes: Seq<u8>) -> Seq<char> {
    utf8_lossy(preview_bytes(bytes))
}

/// The first `PREVIEW_LEN` bytes of `bytes` as text, for an event.
pub fn preview_str(bytes: &[u8]) -> (text: String)
    ensures
        text@ == preview_text(bytes@),
        valid_utf8(preview_bytes(bytes@)) ==> text@ == decode_utf8(preview_bytes(bytes@)),
{
    let take = if bytes.len() <= PREVIEW_LEN {
        bytes.len()
    } else {
        PREVIEW_LEN
    };
    let head = slice_subrange(bytes, 0, take);
    assert(head@ =~= preview_bytes(bytes@));
    from_utf8_lossy(head)
}

} // verus!
