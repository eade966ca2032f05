//! Two-factor authentication: the one-time-password settings of a user.
use totp_rs::{Algorithm, Secret, SecretParseError, TotpUrlError, TOTP};
use vstd::prelude::*;
use vstd::string::StringExecFns;

use crate::consts::{
    TOTP_DIGITS, TOTP_ISSUER_NAME, TOTP_PREFIX, TOTP_TOLERANCE, TOTP_VALIDITY_DURATION_IN_SECONDS,
};

verus! {

/// The one-time-password settings of `totp_rs`, carried through as an opaque
/// value.
#[verifier::external_type_specification]
#[verifier::external_body]
pub struct ExTotp(TOTP);

/// Why `totp_rs` refused settings, carried through as an opaque value.
#[verifier::external_type_specification]
#[verifier::external_body]
pub struct ExTotpUrlError(TotpUrlError);

/// Why `totp_rs` refused a secret, carried through as an opaque value.
#[verifier::external_type_specification]
#[verifier::external_body]
pub struct ExSecretParseError(SecretParseError);

/// The errors that a user's request can end in.
#[derive(Debug, Clone, Copy, PartialEq, Eq, Structural)]
pub enum UserErrors {
    InternalServerError,
}

/// The bytes that a base32 text (RFC 4648, unpadded) stands for, `None` where
/// it is no such text.
pub uninterp spec fn base32_secret(encoded: Seq<char>) -> Option<Seq<u8>>;

/// Whether `totp_rs` accepts the settings: six to eight digits, a secret of
/// at least 128 bits, and no colon in the issuer or in the account name.
pub open spec fn totp_accepts(
    digits: usize,
    secret: Seq<u8>,
    issuer: Option<Seq<char>>,
    account_name: Seq<char>,
) -> bool {
    &&& 6 <= digits <= 8
    &&& secret.len() >= 16
    &&& (issuer matches Some(name) ==> !name.contains(':'))
    &&& !account_name.contains(':')
}

/// An optional text as its characters.
pub open spec fn text_view(text: Option<String>) -> Option<Seq<char>> {
    match text {
        Some(held) => Some(held@),
        None => None,
    }
}

/// `Secret::Encoded(..).to_bytes()`: the bytes that the base32 text stands
/// for, or the crate's error where it stands for none.
#[verifier::external_body]
fn encoded_secret_bytes(encoded: String) -> (bytes: Result<Vec<u8>, SecretParseError>)
    ensures
        bytes matches Ok(held) ==> base32_secret(encoded@) == Some(held@),
        bytes is Err ==> base32_secret(encoded@) is None,
{
    Secret::Encoded(encoded).to_bytes()
}

/// `Secret::generate_secret().to_bytes()`: 160 bits from the system's random
/// source. Which bits is not said.
#[verifier::external_body]
fn generated_secret_bytes() -> (bytes: Result<Vec<u8>, SecretParseError>)
    ensures
        bytes is Ok,
        bytes matches Ok(held) ==> held@.len() == 20,
{
    Secret::generate_secret().to_bytes()
}

/// `TOTP::new` with the SHA-1 algorithm: settings are made exactly where
/// `totp_rs` accepts them.
#[verifier::external_body]
fn new_sha1_totp(
    digits: usize,
    skew: u8,
    step: u64,
    secret: Vec<u8>,
    issuer: Option<String>,
    account_name: String,
) -> (totp: Result<TOTP, TotpUrlError>)
    ensures
        totp is Ok <==> totp_accepts(digits, secret@, text_view(issuer), account_name@),
{
    TOTP::new(Algorithm::SHA1, digits, skew, step, secret, issuer, account_name)
}

/// The key that marks that the user has passed the one-time-password check.
pub fn get_totp_redis_key(user_id: &str) -> (key: String)
    ensures
        key@ == TOTP_PREFIX@ + user_id@,
{
    let mut key = String::from_str(TOTP_PREFIX);
    key.append(user_id);
    key
}

/// The default settings for the account `email` with the given secret: six
/// digits of SHA-1, valid for thirty seconds, one step of tolerance, issued
/// in the router's name. They are made exactly where the secret has at least
/// 128 bits and the account name no colon; else the call is an internal
/// error.
pub fn totp_from_secret(secret: Vec<u8>, email: String) -> (result: Result<TOTP, UserErrors>)
    ensures
        result is Ok <==> secret@.len() >= 16 && !email@.contains(':'),
        result is Err ==> result matches Err(UserErrors::InternalServerError),
{
    let issuer = TOTP_ISSUER_NAME.to_owned();
    proof {
        reveal_strlit("Hyperswitch");
        let name = issuer@;
        if name.contains(':') {
            let i = choose|i: int| 0 <= i < name.len() && name[i] == ':';
            assert(false);
        }
    }
    match new_sha1_totp(
        TOTP_DIGITS,
        TOTP_TOLERANCE,
        TOTP_VALIDITY_DURATION_IN_SECONDS,
        secret,
        Some(issuer),
        email,
    ) {
        Ok(totp) => Ok(totp),
        Err(_) => Err(UserErrors::InternalServerError),
    }
}

/// The default settings for the account `email`. With a secret given as
/// base32 text they are made exactly where the text stands for at least 128
/// bits and the account name has no colon. Without one, a secret of 160 bits
/// is drawn at random, and they are made exactly where the account name has
/// no colon. Else the call is an internal error.
pub fn generate_default_totp(email: String, secret: Option<String>) -> (result: Result<
    TOTP,
    UserErrors,
>)
    ensures
        secret matches Some(encoded) ==> (result is Ok <==> (base32_secret(encoded@) matches Some(
            bytes,
        ) && bytes.len() >= 16 && !email@.contains(':'))),
        secret is None ==> (result is Ok <==> !email@.contains(':')),
        result is Err ==> result matches Err(UserErrors::InternalServerError),
{
    let bytes = match secret {
        Some(encoded) => encoded_secret_bytes(encoded),
        None => generated_secret_bytes(),
    };
    match bytes {
        Ok(held) => totp_from_secret(held, email),
        Err(_) => Err(UserErrors::InternalServerError),
    }
}

} // verus!
