//! Turning a file's bytes into text.
//!
//! Bytes that are valid UTF-8 are taken as they are. Anything else is handed
//! to the GBK decoder of `encoding_rs`, which replaces what it cannot decode
//! and so never fails.

use vstd::prelude::*;
use vstd::utf8::*;

verus! {

/// `core::str::Utf8Error`, the reason bytes are not UTF-8. Nothing inside it
/// is visible here.
#[verifier::external_type_specification]
#[verifier::external_body]
pub struct ExUtf8Error(core::str::Utf8Error);

/// `core::str::from_utf8` succeeds exactly on valid UTF-8, and the string it
/// returns has the bytes it was given.
pub assume_specification<'a>[ core::str::from_utf8 ](v: &'a [u8]) -> (r: Result<
    &'a str,
    core::str::Utf8Error,
>)
    ensures
        r is Ok <==> valid_utf8(v@),
        r matches Ok(s) ==> encode_utf8(s@) == v@,
;

/// The text that `encoding_rs::GBK.decode` produces for `bytes`: the GBK
/// decoding with every malformed sequence replaced by U+FFFD, unless the
/// input opens with a UTF-8 or UTF-16 byte-order mark, in which case the mark
/// is dropped and the rest is decoded in that encoding.
pub uninterp spec fn gbk_decoded(bytes: Seq<u8>) -> Seq<char>;

/// The longest input the fallback decoder is given. The decoder sizes its
/// output buffer at up to three bytes for each input byte plus a few more,
/// and that size has to fit an allocation.
pub open spec fn fallback_limit() -> int {
    usize::MAX as int / 8
}

/// Calls `encoding_rs::GBK.decode` and keeps the text. Trusted: the text is
/// the one that [`gbk_decoded`] names. The decoder panics where the size of
/// its output buffer does not fit; `requires` leaves such inputs out.
#[verifier::external_body]
fn gbk_decode(bytes: &[u8]) -> (text: String)
    requires
        bytes.len() <= fallback_limit(),
    ensures
        text@ == gbk_decoded(bytes@),
{
    let (decoded, _, _) = encoding_rs::GBK.decode(bytes);
    decoded.into_owned()
}

/// The text of a file with the given bytes.
pub open spec fn decoded_text(bytes: Seq<u8>) -> Seq<char> {
    if valid_utf8(bytes) {
        decode_utf8(bytes)
    } else {
        gbk_decoded(bytes)
    }
}

/// Whether [`decode`] yields a text for `bytes`: always for valid UTF-8, and
/// otherwise as long as the fallback decoder can take the input.
pub open spec fn decodable(bytes: Seq<u8>) -> bool {
    valid_utf8(bytes) || bytes.len() <= fallback_limit()
}

/// Whether [`decode`] yields a text for `bytes`.
pub fn can_decode(bytes: &[u8]) -> (r: bool)
    ensures
        r == decodable(bytes@),
{
    bytes.len() <= usize::MAX / 8 || core::str::from_utf8(bytes).is_ok()
}

/// Decodes a file's bytes: as UTF-8 where they are valid UTF-8, through the
/// GBK fallback where they are not.
pub fn decode(bytes: &[u8]) -> (r: Option<String>)
    ensures
        r is Some <==> decodable(bytes@),
        r matches Some(text) ==> text@ == decoded_text(bytes@),
{
    match core::str::from_utf8(bytes) {
        Ok(s) => {
            proof {
                encode_utf8_decode_utf8(s@);
            }
            Some(s.to_owned())
        },
        Err(_) => {
            if bytes.len() <= usize::MAX / 8 {
                Some(gbk_decode(bytes))
            } else {
                None
            }
        },
    }
}

} // verus!
