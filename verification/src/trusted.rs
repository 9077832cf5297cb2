//! The calls into `bcrypt`, `jsonwebtoken`, `chrono` and `uuid`, and two
//! functions of std that vstd does not specify.
//!
//! Verus does not read the bodies in this file: it takes the contracts as
//! given, and every proof in the crate that involves a password hash, a
//! token, a signature or a date rests on them.

use crate::models::{Claims, Timestamp};
use crate::password::hash_cost;
use crate::text::{after_last, before_last, count_char, is_ascii_alphanumeric};
use jsonwebtoken::{Algorithm, DecodingKey, EncodingKey, Header, Validation};
use serde_json::Value;
use vstd::prelude::*;

verus! {

#[verifier::external_type_specification]
#[verifier::external_body]
pub struct ExBcryptError(bcrypt::BcryptError);

#[verifier::external_type_specification]
#[verifier::external_body]
pub struct ExJwtError(jsonwebtoken::errors::Error);

/// The verdict of `bcrypt::verify` on a password and a stored hash: `Some` of
/// the boolean it returns, `None` where it returns an error because the
/// hash cannot be read.
pub uninterp spec fn bcrypt_verdict(password: Seq<char>, hash: Seq<char>) -> Option<bool>;

/// The text that `jsonwebtoken::crypto::sign` returns under HS256: the
/// HMAC-SHA256 of `message` keyed with `secret`, in URL-safe base64.
pub uninterp spec fn hs256_signature(secret: Seq<u8>, message: Seq<char>) -> Seq<char>;

/// The token that `jsonwebtoken::encode` returns for the default header,
/// a payload of the four claims and the secret as HS256 key.
pub uninterp spec fn jwt_encoded(
    secret: Seq<u8>,
    sub: Seq<char>,
    email: Seq<char>,
    exp: nat,
    iat: nat,
) -> Seq<char>;

/// The claims `(sub, email, exp, iat)` that `jsonwebtoken::decode` reads from
/// a token under HS256 with the secret as key, the expiry left unexamined;
/// `None` where it returns an error or one of the four is missing or of
/// another type.
pub uninterp spec fn jwt_decoded(secret: Seq<u8>, token: Seq<char>) -> Option<
    (Seq<char>, Seq<char>, nat, nat),
>;

/// The date of an instant in UTC as `chrono` writes it under the pattern
/// `%B %d, %Y`: the English name of the month, the day in two digits, a
/// comma and the year. `None` where `chrono` cannot represent the instant.
pub uninterp spec fn long_date(seconds: int, nanos: int) -> Option<Seq<char>>;

/// Whether `char::is_alphanumeric` holds of a character: whether Unicode
/// has it as a letter or a number.
pub uninterp spec fn is_alphanumeric_char(c: char) -> bool;

/// `char::is_alphanumeric`. Within ASCII it holds of the letters and the
/// digits and of nothing else.
pub assume_specification[ char::is_alphanumeric ](c: char) -> (b: bool)
    ensures
        b == is_alphanumeric_char(c),
        (c as u32) < 128 ==> b == is_ascii_alphanumeric(c),
;

/// `String::push`: appends the character to the end of the string.
pub assume_specification[ String::push ](s: &mut String, c: char)
    ensures
        final(s)@ == old(s)@.push(c),
;

/// `bcrypt::hash`: hashes the password under a fresh random salt. The hash
/// varies from call to call. What holds of each: `bcrypt::verify` accepts
/// the password against it, since both derive the digest from the same
/// password, cost and salt; and it states the cost, which is written in
/// two digits behind the version, between two `$`.
#[verifier::external_body]
pub(crate) fn bcrypt_hash(password: &str, cost: u32) -> (r: Result<String, bcrypt::BcryptError>)
    ensures
        r matches Ok(h) ==> bcrypt_verdict(password@, h@) == Some(true),
        r matches Ok(h) ==> hash_cost(h@) == Some(cost as nat),
{
    bcrypt::hash(password, cost)
}

/// `bcrypt::verify`: recomputes the digest from the password and the cost and
/// salt found in the hash, and compares the two digests in constant time.
#[verifier::external_body]
pub(crate) fn bcrypt_verify(password: &str, hash: &str) -> (r: Result<bool, bcrypt::BcryptError>)
    ensures
        r matches Ok(b) ==> bcrypt_verdict(password@, hash@) == Some(b),
        r is Err ==> bcrypt_verdict(password@, hash@) is None,
{
    bcrypt::verify(password, hash)
}

/// `jsonwebtoken::crypto::verify` under HS256: signs the message again and
/// compares the result with the given signature in constant time. For the
/// HMAC algorithms neither step has a failing path, so the call returns `Ok`.
#[verifier::external_body]
pub(crate) fn hs256_verify(
    signature: &str,
    message: &str,
    secret: &[u8],
) -> (r: Result<bool, jsonwebtoken::errors::Error>)
    ensures
        r is Ok,
        r matches Ok(b) ==> b == (signature@ == hs256_signature(secret@, message@)),
{
    let key = DecodingKey::from_secret(secret);
    jsonwebtoken::crypto::verify(signature, message.as_bytes(), &key, Algorithm::HS256)
}

/// `jsonwebtoken::encode` with the default header (HS256). The token is the
/// encoded header and payload joined by a dot, then a dot and the signature
/// of that text, and `jsonwebtoken::decode` reads the same claims back from
/// it. The call returns `Ok`: the key is of the header's family, a header
/// and a payload of two texts and two numbers always serialise, and
/// signing under HS256 has no failing path.
#[verifier::external_body]
pub(crate) fn jwt_encode(
    claims: &Claims,
    secret: &[u8],
) -> (r: Result<String, jsonwebtoken::errors::Error>)
    ensures
        r is Ok,
        r matches Ok(t) ==> {
            &&& jwt_encoded(secret@, claims.sub@, claims.email@, claims.exp as nat, claims.iat as nat)
                == t@
            &&& count_char(t@, '.') == 2
            &&& after_last(t@, '.') == hs256_signature(secret@, before_last(t@, '.'))
            &&& jwt_decoded(secret@, t@) == Some(
                (claims.sub@, claims.email@, claims.exp as nat, claims.iat as nat),
            )
        },
{
    let mut payload = serde_json::Map::new();
    payload.insert("sub".to_string(), Value::from(claims.sub.as_str()));
    payload.insert("email".to_string(), Value::from(claims.email.as_str()));
    payload.insert("exp".to_string(), Value::from(claims.exp));
    payload.insert("iat".to_string(), Value::from(claims.iat));
    jsonwebtoken::encode(&Header::default(), &payload, &EncodingKey::from_secret(secret))
}

/// `jsonwebtoken::decode` under HS256, with the check of the expiry switched
/// off: it checks the header, the algorithm and the signature and parses the
/// payload. The four claims are then taken out of the parsed payload.
#[verifier::external_body]
pub(crate) fn jwt_decode(token: &str, secret: &[u8]) -> (r: Option<Claims>)
    ensures
        r matches Some(c) ==> jwt_decoded(secret@, token@) == Some(
            (c.sub@, c.email@, c.exp as nat, c.iat as nat),
        ),
        r is None ==> jwt_decoded(secret@, token@) is None,
{
    let mut validation = Validation::new(Algorithm::HS256);
    validation.validate_exp = false;
    validation.required_spec_claims.clear();
    let key = DecodingKey::from_secret(secret);
    let payload = jsonwebtoken::decode::<Value>(token, &key, &validation).ok()?.claims;
    Some(Claims {
        sub: payload.get("sub")?.as_str()?.to_string(),
        email: payload.get("email")?.as_str()?.to_string(),
        exp: payload.get("exp")?.as_u64()?,
        iat: payload.get("iat")?.as_u64()?,
    })
}

/// `chrono::Utc::now`, as seconds since the Unix epoch and nanoseconds into
/// the second. It is the system clock: nothing is promised of the value.
#[verifier::external_body]
pub(crate) fn current_time() -> Timestamp {
    let now = chrono::Utc::now();
    Timestamp { seconds: now.timestamp(), nanos: now.timestamp_subsec_nanos() }
}

/// `uuid::Uuid::new_v4`, in its hyphenated notation. It is random: nothing
/// is promised of the value.
#[verifier::external_body]
pub(crate) fn new_uuid() -> String {
    uuid::Uuid::new_v4().to_string()
}

/// `chrono::DateTime::format` with the pattern `%B %d, %Y`, on the instant
/// that `chrono::DateTime::from_timestamp` makes of the seconds and
/// nanoseconds; `None` where that instant is outside chrono's range.
#[verifier::external_body]
pub(crate) fn format_long_date(instant: Timestamp) -> (r: Option<String>)
    ensures
        r matches Some(text) ==> long_date(instant.seconds as int, instant.nanos as int) == Some(text@),
        r is None ==> long_date(instant.seconds as int, instant.nanos as int) is None,
{
    let date = chrono::DateTime::from_timestamp(instant.seconds, instant.nanos)?;
    Some(date.format("%B %d, %Y").to_string())
}

} // verus!
