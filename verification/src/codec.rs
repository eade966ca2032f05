//! Encodings and digests that outside crates compute.
//!
//! What they return is a function of the bytes handed in, and too long to
//! state: each result has a name here, and the contract of the call says that
//! the result is the named one. Nothing is proved of these contracts.
use base64::engine::general_purpose::STANDARD;
use base64::{DecodeError, Engine};
use ring::hmac;
use vstd::prelude::*;

verus! {

/// Why `base64` refused a text, carried through as an opaque value.
#[verifier::external_type_specification]
#[verifier::external_body]
pub struct ExDecodeError(DecodeError);

/// The standard base64 text, with padding, of the given bytes.
pub uninterp spec fn base64_text(data: Seq<u8>) -> Seq<char>;

/// The bytes that the given standard base64 text stands for, `None` where it
/// is no such text.
pub uninterp spec fn base64_bytes(text: Seq<char>) -> Option<Seq<u8>>;

/// The HMAC-SHA256 tag of `message` under `key`.
pub uninterp spec fn hmac_sha256_tag(key: Seq<u8>, message: Seq<u8>) -> Seq<u8>;

/// `Engine::encode` of `base64`'s `STANDARD` engine: the result is the base64
/// text of the bytes.
#[verifier::external_body]
pub(crate) fn base64_encode(data: &[u8]) -> (text: String)
    ensures
        text@ == base64_text(data@),
{
    STANDARD.encode(data)
}

/// `Engine::decode` of `base64`'s `STANDARD` engine: the bytes that the text
/// stands for, or the crate's error where it stands for none.
#[verifier::external_body]
pub(crate) fn base64_decode(text: &str) -> (data: Result<Vec<u8>, DecodeError>)
    ensures
        data matches Ok(bytes) ==> base64_bytes(text@) == Some(bytes@),
        data is Err ==> base64_bytes(text@) is None,
{
    STANDARD.decode(text)
}

/// `DecodeError`'s `to_string`: the crate's account of the error. Nothing is
/// claimed of the text.
#[verifier::external_body]
pub(crate) fn decode_error_text(error: &DecodeError) -> (text: String) {
    error.to_string()
}

/// `ring::hmac::sign` with a key made by `Key::new(HMAC_SHA256, ..)`: the
/// result is the tag of the message under the key.
#[verifier::external_body]
pub(crate) fn hmac_sha256(key: &[u8], message: &[u8]) -> (tag: Vec<u8>)
    ensures
        tag@ == hmac_sha256_tag(key@, message@),
{
    hmac::sign(&hmac::Key::new(hmac::HMAC_SHA256, key), message).as_ref().to_vec()
}

} // verus!
