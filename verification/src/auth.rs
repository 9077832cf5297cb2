//! Session tokens: issued at login, verified on every later request.
//!
//! A token is three dot-joined segments: the encoded header, the encoded
//! claims and a signature over the first two, made with the process secret.
//! The token is the only record of a session: nothing is stored, nothing is
//! revoked, and a token stays good until its expiry unless the secret changes.

use crate::errors::{AuthError, ConfigError};
use crate::models::{Claims, ClaimsView};
use crate::text::{
    after_last, before_last, count_char, last_index_of, lemma_count_char_update, lemma_last_index_of,
    lemma_last_index_of_update, scan_char,
};
use crate::trusted::{
    current_time, hs256_signature, hs256_verify, jwt_decode, jwt_decoded, jwt_encode, jwt_encoded,
};
use vstd::prelude::*;
use vstd::utf8::encode_utf8;

verus! {

/// How long a token stays valid after it was issued, in seconds: 24 hours.
pub const TOKEN_TTL_SECONDS: u64 = 86400;

/// Issues and verifies session tokens under one secret. The secret is given
/// once, when the service is built, and never changes afterwards.
pub struct JwtUtils {
    secret: Vec<u8>,
}

impl View for JwtUtils {
    type V = Seq<u8>;

    /// The secret.
    closed spec fn view(&self) -> Seq<u8> {
        self.secret@
    }
}

/// The claims of a token issued at `now` for a subject: valid from `now` for
/// [`TOKEN_TTL_SECONDS`].
pub open spec fn claims_at(sub: Seq<char>, email: Seq<char>, now: nat) -> ClaimsView {
    ClaimsView { sub, email, exp: now + TOKEN_TTL_SECONDS as nat, iat: now }
}

/// `token` is what the service with this secret issues for these claims: it
/// has three segments, the third is the signature of the first two, and the
/// second decodes to the claims.
pub open spec fn issued_token(secret: Seq<u8>, claims: ClaimsView, token: Seq<char>) -> bool {
    &&& jwt_encoded(secret, claims.sub, claims.email, claims.exp, claims.iat) == token
    &&& count_char(token, '.') == 2
    &&& after_last(token, '.') == hs256_signature(secret, before_last(token, '.'))
    &&& jwt_decoded(secret, token) == Some((claims.sub, claims.email, claims.exp, claims.iat))
}

/// What issuing a token for a subject at time `now` gives: the token, or a
/// failure where the expiry does not fit the claims' time field.
pub open spec fn issue_outcome(
    secret: Seq<u8>,
    sub: Seq<char>,
    email: Seq<char>,
    now: nat,
) -> Result<Seq<char>, AuthError> {
    if now + TOKEN_TTL_SECONDS > u64::MAX {
        Err(AuthError::TokenIssuanceFailure)
    } else {
        Ok(jwt_encoded(secret, sub, email, now + TOKEN_TTL_SECONDS as nat, now))
    }
}

/// What issuing gives, given what the token crate built: its token, or a
/// failure where it built none.
pub open spec fn issue_given(encoded: Option<Seq<char>>) -> Result<Seq<char>, AuthError> {
    match encoded {
        Some(token) => Ok(token),
        None => Err(AuthError::TokenIssuanceFailure),
    }
}

/// What verifying a token of three segments gives, given whether its
/// signature is the one that the secret gives and what its claims decode
/// to: the claims, where the signature is right, the claims decode and
/// `now` is not past their expiry.
pub open spec fn verify_given(
    signature_matches: bool,
    decoded: Option<ClaimsView>,
    now: nat,
) -> Result<ClaimsView, AuthError> {
    if !signature_matches {
        Err(AuthError::TokenSignatureInvalid)
    } else {
        match decoded {
            None => Err(AuthError::TokenMalformed),
            Some(claims) => if now > claims.exp {
                Err(AuthError::TokenExpired)
            } else {
                Ok(claims)
            },
        }
    }
}

/// The claims that the token crate reads from a token, as claims.
pub open spec fn decoded_claims(secret: Seq<u8>, token: Seq<char>) -> Option<ClaimsView> {
    match jwt_decoded(secret, token) {
        None => None,
        Some((sub, email, exp, iat)) => Some(ClaimsView { sub, email, exp, iat }),
    }
}

/// The claims that a token carries, where it has three segments, is signed
/// with the secret and decodes; `Err` with the reason where it is not.
/// This does not look at the time.
pub open spec fn authentic_claims(
    secret: Seq<u8>,
    token: Seq<char>,
) -> Result<ClaimsView, AuthError> {
    if count_char(token, '.') != 2 {
        Err(AuthError::TokenMalformed)
    } else if after_last(token, '.') != hs256_signature(secret, before_last(token, '.')) {
        Err(AuthError::TokenSignatureInvalid)
    } else {
        match jwt_decoded(secret, token) {
            None => Err(AuthError::TokenMalformed),
            Some((sub, email, exp, iat)) => Ok(ClaimsView { sub, email, exp, iat }),
        }
    }
}

/// What verifying `token` at time `now` gives: its claims, where it is
/// authentic and `now` is not past its expiry.
pub open spec fn verify_outcome(
    secret: Seq<u8>,
    token: Seq<char>,
    now: nat,
) -> Result<ClaimsView, AuthError> {
    if count_char(token, '.') != 2 {
        Err(AuthError::TokenMalformed)
    } else {
        verify_given(
            after_last(token, '.') == hs256_signature(secret, before_last(token, '.')),
            decoded_claims(secret, token),
            now,
        )
    }
}

/// Verifying a token gives its claims where it is authentic and `now` is
/// not past their expiry, refuses it as expired where it is authentic and
/// `now` is past their expiry, and refuses it for what is wrong with it
/// where it is not authentic.
pub proof fn lemma_verify_outcome(secret: Seq<u8>, token: Seq<char>, now: nat)
    ensures
        verify_outcome(secret, token, now) == match authentic_claims(secret, token) {
            Err(e) => Err::<ClaimsView, AuthError>(e),
            Ok(claims) => if now > claims.exp {
                Err::<ClaimsView, AuthError>(AuthError::TokenExpired)
            } else {
                Ok::<ClaimsView, AuthError>(claims)
            },
        },
{
}

/// The secret that a configuration gives: the bytes of the configured
/// text, as they are, where there is one.
pub open spec fn configured_secret(configured: Option<String>) -> Result<Seq<u8>, ConfigError> {
    match configured {
        None => Err(ConfigError::MissingSecret),
        Some(text) => Ok(encode_utf8(text@)),
    }
}

/// A token or the reason why there is none, over the token's characters.
pub open spec fn token_result_view(r: Result<String, AuthError>) -> Result<Seq<char>, AuthError> {
    match r {
        Ok(token) => Ok(token@),
        Err(e) => Err(e),
    }
}

/// Claims or the reason why there are none, over the claims' views.
pub open spec fn claims_result_view(r: Result<Claims, AuthError>) -> Result<ClaimsView, AuthError> {
    match r {
        Ok(claims) => Ok(claims@),
        Err(e) => Err(e),
    }
}

/// The clock's reading as seconds since the epoch; a clock set before the
/// epoch reads as the epoch.
pub open spec fn seconds_since_epoch(timestamp: i64) -> nat {
    if timestamp < 0 {
        0
    } else {
        timestamp as nat
    }
}

/// What the clock can read, in seconds since the epoch: at most the
/// largest second that the clock's own number holds.
pub open spec fn clock_reading(now: nat) -> bool {
    now <= i64::MAX
}

/// Brings the clock's reading into the range of the claims' time fields.
pub fn clock_seconds(timestamp: i64) -> (now: u64)
    ensures
        now == seconds_since_epoch(timestamp),
        clock_reading(now as nat),
{
    if timestamp < 0 {
        0
    } else {
        timestamp as u64
    }
}

/// A token verifies to the claims it was issued for at every time up to its
/// expiry, and those claims span exactly [`TOKEN_TTL_SECONDS`].
pub proof fn lemma_issued_token_verifies(
    secret: Seq<u8>,
    sub: Seq<char>,
    email: Seq<char>,
    issued: nat,
    token: Seq<char>,
    now: nat,
)
    requires
        issued_token(secret, claims_at(sub, email, issued), token),
        now <= issued + TOKEN_TTL_SECONDS,
    ensures
        verify_outcome(secret, token, now) matches Ok(claims) && claims.sub == sub && claims.email == email
            && claims.iat == issued && claims.exp - claims.iat == 86400,
{
}

/// An authentic token that is read past its expiry is refused as expired,
/// and for no other reason.
pub proof fn lemma_expired_token_is_expired(
    secret: Seq<u8>,
    token: Seq<char>,
    claims: ClaimsView,
    now: nat,
)
    requires
        authentic_claims(secret, token) == Ok::<ClaimsView, AuthError>(claims),
        now > claims.exp,
    ensures
        verify_outcome(secret, token, now) == Err::<ClaimsView, AuthError>(AuthError::TokenExpired),
{
}

/// An issued token that is read past its expiry is refused as expired.
pub proof fn lemma_issued_token_expires(
    secret: Seq<u8>,
    sub: Seq<char>,
    email: Seq<char>,
    issued: nat,
    token: Seq<char>,
    now: nat,
)
    requires
        issued_token(secret, claims_at(sub, email, issued), token),
        now > issued + TOKEN_TTL_SECONDS,
    ensures
        verify_outcome(secret, token, now) == Err::<ClaimsView, AuthError>(AuthError::TokenExpired),
{
}

/// Replacing any one character of an issued token's signature segment by
/// another makes the token unusable at every time: it is refused as
/// malformed or as wrongly signed, and never yields claims.
pub proof fn lemma_tampered_signature_is_refused(
    secret: Seq<u8>,
    claims: ClaimsView,
    token: Seq<char>,
    position: int,
    replacement: char,
    now: nat,
)
    requires
        issued_token(secret, claims, token),
        last_index_of(token, '.') < position < token.len(),
        replacement != token[position],
    ensures
        verify_outcome(secret, token.update(position, replacement), now) matches Err(e)
            && e.is_invalid_token(),
{
    let tampered = token.update(position, replacement);
    let dot = last_index_of(token, '.');
    lemma_last_index_of(token, '.');
    lemma_count_char_update(token, position, replacement, '.');
    if replacement != '.' {
        lemma_last_index_of_update(token, position, replacement, '.');
        assert(before_last(tampered, '.') == before_last(token, '.'));
        assert(after_last(tampered, '.')[position - dot - 1] == replacement);
        assert(after_last(token, '.')[position - dot - 1] == token[position]);
    }
}

impl JwtUtils {
    /// A service that signs and verifies with `secret`.
    pub fn new(secret: Vec<u8>) -> (service: JwtUtils)
        ensures
            service@ == secret@,
    {
        JwtUtils { secret }
    }

    /// Another service with the same secret.
    pub fn duplicate(&self) -> (service: JwtUtils)
        ensures
            service@ == self@,
    {
        JwtUtils { secret: self.secret.clone() }
    }

    /// Builds the service from the configured secret: the bytes of its
    /// text. There is no default to fall back on where none is configured.
    pub fn from_config(configured: Option<String>) -> (r: Result<JwtUtils, ConfigError>)
        ensures
            match r {
                Ok(service) => configured_secret(configured) == Ok::<Seq<u8>, ConfigError>(service@),
                Err(e) => configured_secret(configured) == Err::<Seq<u8>, ConfigError>(e),
            },
    {
        match configured {
            None => Err(ConfigError::MissingSecret),
            Some(text) => Ok(JwtUtils::new(text.as_str().as_bytes_vec())),
        }
    }

    /// The secret that the service signs with.
    pub fn get_secret(&self) -> (secret: &Vec<u8>)
        ensures
            secret@ == self@,
    {
        &self.secret
    }

    /// What issuing gives, given what the token crate built: its token, or
    /// a failure where it built none.
    pub fn issue_given(encoded: Option<String>) -> (r: Result<String, AuthError>)
        ensures
            token_result_view(r) == issue_given(
                match encoded {
                    Some(token) => Some(token@),
                    None => None,
                },
            ),
    {
        match encoded {
            Some(token) => Ok(token),
            None => Err(AuthError::TokenIssuanceFailure),
        }
    }

    /// What verifying a token of three segments gives, given whether its
    /// signature is the one that the secret gives and what its claims
    /// decode to. A wrong signature comes first; then claims that do not
    /// decode; then the expiry.
    pub fn verify_given(
        signature_matches: bool,
        decoded: Option<Claims>,
        now: u64,
    ) -> (r: Result<Claims, AuthError>)
        ensures
            claims_result_view(r) == verify_given(
                signature_matches,
                match decoded {
                    Some(claims) => Some(claims@),
                    None => None,
                },
                now as nat,
            ),
    {
        if !signature_matches {
            return Err(AuthError::TokenSignatureInvalid);
        }
        match decoded {
            None => Err(AuthError::TokenMalformed),
            Some(claims) => {
                if now > claims.exp {
                    Err(AuthError::TokenExpired)
                } else {
                    Ok(claims)
                }
            },
        }
    }

    /// Issues a token for the subject as of `now`: it is valid from `now`
    /// for [`TOKEN_TTL_SECONDS`]. Fails only where the expiry does not fit
    /// the claims' time field.
    pub fn create_token_at(
        &self,
        user_id: &str,
        email: &str,
        now: u64,
    ) -> (r: Result<String, AuthError>)
        ensures
            token_result_view(r) == issue_outcome(self@, user_id@, email@, now as nat),
            r matches Ok(token) ==> issued_token(self@, claims_at(user_id@, email@, now as nat), token@),
    {
        let exp = match now.checked_add(TOKEN_TTL_SECONDS) {
            Some(exp) => exp,
            None => {
                return Err(AuthError::TokenIssuanceFailure);
            },
        };
        let claims = Claims { sub: user_id.to_owned(), email: email.to_owned(), exp, iat: now };
        let encoded = match jwt_encode(&claims, self.secret.as_slice()) {
            Ok(token) => Some(token),
            Err(_) => None,
        };
        JwtUtils::issue_given(encoded)
    }

    /// Issues a token for the subject as of the system clock's present
    /// reading. Whatever the clock reads, the token is the one issued for
    /// this subject at that reading, with a validity of
    /// [`TOKEN_TTL_SECONDS`]; no reading of the clock makes the issue fail.
    pub fn create_token(&self, user_id: &str, email: &str) -> (r: Result<String, AuthError>)
        ensures
            r is Ok,
            exists|now: nat|
                clock_reading(now) && token_result_view(r) == #[trigger] issue_outcome(
                    self@,
                    user_id@,
                    email@,
                    now,
                ) && issued_token(self@, claims_at(user_id@, email@, now), r->Ok_0@),
    {
        let now = clock_seconds(current_time().seconds);
        self.create_token_at(user_id, email, now)
    }

    /// Verifies a token as of `now`.
    ///
    /// The token must have three segments, and the third must be the
    /// signature of the first two under the secret; only then are the claims
    /// decoded, and only then is the expiry examined.
    pub fn verify_token_at(&self, token: &str, now: u64) -> (r: Result<Claims, AuthError>)
        ensures
            claims_result_view(r) == verify_outcome(self@, token@, now as nat),
    {
        let length = token.unicode_len();
        let (dots, last) = scan_char(token, '.');
        if dots != 2 {
            return Err(AuthError::TokenMalformed);
        }
        proof {
            lemma_last_index_of(token@, '.');
        }
        let message = token.substring_char(0, last);
        let signature = token.substring_char(last + 1, length);
        let signature_matches = match hs256_verify(signature, message, self.secret.as_slice()) {
            Ok(matches) => matches,
            Err(_) => false,
        };
        let decoded = if signature_matches {
            jwt_decode(token, self.secret.as_slice())
        } else {
            None
        };
        JwtUtils::verify_given(signature_matches, decoded, now)
    }

    /// Verifies a token as of the system clock's present reading. Whatever
    /// the clock reads, claims that come back are the token's own, and a
    /// token that is not authentic is refused for that reason.
    pub fn verify_token(&self, token: &str) -> (r: Result<Claims, AuthError>)
        ensures
            exists|now: nat|
                clock_reading(now) && claims_result_view(r) == #[trigger] verify_outcome(
                    self@,
                    token@,
                    now,
                ),
            r is Ok ==> claims_result_view(r) == authentic_claims(self@, token@),
            r is Err ==> claims_result_view(r) == authentic_claims(self@, token@) || (r
                == Err::<Claims, AuthError>(AuthError::TokenExpired) && authentic_claims(
                self@,
                token@,
            ) is Ok),
    {
        let now = clock_seconds(current_time().seconds);
        self.verify_token_at(token, now)
    }
}

} // verus!
