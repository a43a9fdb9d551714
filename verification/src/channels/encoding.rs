//! Base64, UTF-8 and HMAC primitives used by channel adapters.

use vstd::prelude::*;
use vstd::utf8::*;

use base64::Engine as _;
use hmac::Mac as _;

verus! {

/// The text `base64`'s URL-safe, unpadded engine produces for some bytes.
pub uninterp spec fn b64url_nopad_encoding(bytes: Seq<u8>) -> Seq<char>;

/// The text `base64`'s standard, padded engine produces for some bytes.
pub uninterp spec fn b64_standard_encoding(bytes: Seq<u8>) -> Seq<char>;

/// What `base64`'s URL-safe, unpadded engine decodes a text to (none on error).
pub uninterp spec fn b64url_nopad_decoding(text: Seq<char>) -> Option<Seq<u8>>;

/// HMAC-SHA256 of a message under a key, as the `hmac` and `sha2` crates compute it.
pub uninterp spec fn hmac_sha256_of(key: Seq<u8>, msg: Seq<u8>) -> Seq<u8>;

/// Wraps `URL_SAFE_NO_PAD.encode` of the `base64` crate (which panics only when the
/// encoded length overflows `usize`).
#[verifier::external_body]
pub(crate) fn b64url_encode(bytes: &[u8]) -> (r: String)
    requires
        bytes@.len() <= usize::MAX / 2,
    ensures
        r@ == b64url_nopad_encoding(bytes@),
{
    base64::engine::general_purpose::URL_SAFE_NO_PAD.encode(bytes)
}

/// Wraps `STANDARD.encode` of the `base64` crate.
#[verifier::external_body]
pub(crate) fn b64_standard_encode(bytes: &[u8]) -> (r: String)
    requires
        bytes@.len() <= usize::MAX / 2,
    ensures
        r@ == b64_standard_encoding(bytes@),
{
    base64::engine::general_purpose::STANDARD.encode(bytes)
}

/// The `base64` crate's decode error, carried opaquely.
#[verifier::external_type_specification]
#[verifier::external_body]
pub struct ExDecodeError(base64::DecodeError);

/// std's UTF-8 conversion error, carried opaquely.
#[verifier::external_type_specification]
#[verifier::external_body]
pub struct ExFromUtf8Error(std::string::FromUtf8Error);

/// Decoding the URL-safe unpadded encoding of some bytes yields those bytes.
pub open spec fn gives_back_encoded(text: Seq<char>, r: Result<Vec<u8>, base64::DecodeError>) -> bool {
    forall|b: Seq<u8>| #[trigger] b64url_nopad_encoding(b) == text ==> (r matches Ok(v) && v@ == b)
}

/// Wraps `URL_SAFE_NO_PAD.decode` of the `base64` crate. Decoding what the same engine
/// encoded gives the original bytes back.
#[verifier::external_body]
pub(crate) fn b64url_decode(text: &str) -> (r: Result<Vec<u8>, base64::DecodeError>)
    ensures
        r matches Ok(v) ==> b64url_nopad_decoding(text@) == Some(v@),
        r is Err ==> b64url_nopad_decoding(text@) is None,
        gives_back_encoded(text@, r),
{
    base64::engine::general_purpose::URL_SAFE_NO_PAD.decode(text)
}

/// Wraps the `Display` of `base64::DecodeError`; nothing is stated of the text.
#[verifier::external_body]
pub(crate) fn decode_error_text(e: &base64::DecodeError) -> String {
    format!("{e}")
}

/// Wraps `String::from_utf8`: succeeds exactly on valid UTF-8, with the decoded text.
#[verifier::external_body]
pub(crate) fn string_from_utf8(bytes: Vec<u8>) -> (r: Result<String, std::string::FromUtf8Error>)
    ensures
        r is Ok <==> valid_utf8(bytes@),
        r matches Ok(s) ==> s@ == decode_utf8(bytes@),
{
    String::from_utf8(bytes)
}

/// Wraps the `Display` of `FromUtf8Error`; nothing is stated of the text.
#[verifier::external_body]
pub(crate) fn utf8_error_text(e: &std::string::FromUtf8Error) -> String {
    format!("{e}")
}

/// Wraps HMAC-SHA256 from the `hmac` and `sha2` crates (keyed construction, update,
/// finalize). HMAC accepts keys of any length, so it always yields a tag.
#[verifier::external_body]
pub(crate) fn hmac_sha256(key: &[u8], msg: &[u8]) -> (r: Option<Vec<u8>>)
    ensures
        r is Some,
        r matches Some(t) ==> t@ == hmac_sha256_of(key@, msg@) && t@.len() == 32,
{
    let mut mac = hmac::Hmac::<sha2::Sha256>::new_from_slice(key).ok()?;
    mac.update(msg);
    Some(mac.finalize().into_bytes().to_vec())
}

} // verus!
