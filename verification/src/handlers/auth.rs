//! The login endpoint, the endpoint that checks a token, and the
//! administration of credentials.
//!
//! Each function takes what was read from the request and what the
//! credential store answered, and says what is to be answered or stored
//! next. Login and token check do not tell a client why it was refused:
//! the reason stays in the outcome, for the operator's log.

use crate::auth::{
    claims_at, claims_result_view, clock_reading, clock_seconds, issue_outcome, issued_token,
    token_result_view, verify_outcome, JwtUtils, TOKEN_TTL_SECONDS,
};
use crate::models::{Claims, ClaimsView};
use crate::errors::{AuthError, ClientError};
use crate::models::{
    text_view, ChangePasswordRequest, CreateUserRequest, LoginRequest, LoginResponse,
    LoginResponseView, Timestamp, UpdateUserRequest, User, UserInfo, UserInfoView, UserView,
};
use crate::password::{password_matches, CredentialHasher};
use crate::reply::{Answer, Reply, StoreFailure};
use crate::text::str_eq;
use crate::trusted::{current_time, new_uuid};
use vstd::prelude::*;

verus! {

/// The body of the answer to a refused login.
pub const INVALID_CREDENTIALS_BODY: &'static str = "{\"error\":\"Invalid credentials\"}";

/// The body of the answer to a login that failed because no token could be issued.
pub const TOKEN_FAILURE_BODY: &'static str = "{\"error\":\"Failed to create token\"}";

/// The body of the answer to a login that failed because the credential store did.
pub const STORAGE_FAILURE_BODY: &'static str = "{\"error\":\"Database error\"}";

/// The body of the answer to a token that does not verify.
pub const INVALID_TOKEN_BODY: &'static str = "{\"valid\":false,\"error\":\"Invalid token\"}";

/// What the credential store answered when it was asked for an email.
#[derive(Debug, Clone, PartialEq, Eq)]
pub enum UserLookup {
    /// The credential stored under the email.
    Found(User),
    /// No credential is stored under the email.
    NotFound,
    /// The store could not be asked.
    Unavailable,
}

/// The mathematical content of a [`UserLookup`].
pub enum UserLookupView {
    Found(UserView),
    NotFound,
    Unavailable,
}

impl View for UserLookup {
    type V = UserLookupView;

    open spec fn view(&self) -> UserLookupView {
        match self {
            UserLookup::Found(user) => UserLookupView::Found(user@),
            UserLookup::NotFound => UserLookupView::NotFound,
            UserLookup::Unavailable => UserLookupView::Unavailable,
        }
    }
}

/// How a login ended.
#[derive(Debug, Clone, PartialEq, Eq)]
pub enum LoginOutcome {
    /// The client is logged in and gets the token and its identity.
    Granted(LoginResponse),
    /// The client is not logged in. The reason is for diagnostics; the
    /// client sees only [`LoginOutcome::status`] and [`LoginOutcome::error_body`].
    Refused(AuthError),
}

/// The mathematical content of a [`LoginOutcome`].
pub enum LoginOutcomeView {
    Granted(LoginResponseView),
    Refused(AuthError),
}

impl View for LoginOutcome {
    type V = LoginOutcomeView;

    open spec fn view(&self) -> LoginOutcomeView {
        match self {
            LoginOutcome::Granted(response) => LoginOutcomeView::Granted(response@),
            LoginOutcome::Refused(reason) => LoginOutcomeView::Refused(*reason),
        }
    }
}

/// How a login ends, given what the store answered, whether the password
/// matches the stored hash and what issuing a token gave. The store comes
/// first, then the password; a token is asked for only after both.
pub open spec fn login_given(
    lookup: UserLookupView,
    password_matches: bool,
    issued: Option<Result<Seq<char>, AuthError>>,
) -> LoginOutcomeView {
    match lookup {
        UserLookupView::Unavailable => LoginOutcomeView::Refused(AuthError::StorageUnavailable),
        UserLookupView::NotFound => LoginOutcomeView::Refused(AuthError::CredentialNotFound),
        UserLookupView::Found(user) => if !password_matches {
            LoginOutcomeView::Refused(AuthError::PasswordMismatch)
        } else {
            match issued {
                Some(Ok(token)) => LoginOutcomeView::Granted(
                    LoginResponseView { token, user: UserInfo::of(user) },
                ),
                Some(Err(reason)) => LoginOutcomeView::Refused(reason),
                None => LoginOutcomeView::Refused(AuthError::TokenIssuanceFailure),
            }
        },
    }
}

/// How a login ends, given what the store answered, the password that was
/// sent and the time.
pub open spec fn login_outcome(
    secret: Seq<u8>,
    lookup: UserLookupView,
    password: Seq<char>,
    now: nat,
) -> LoginOutcomeView {
    match lookup {
        UserLookupView::Found(user) => login_given(
            lookup,
            password_matches(password, user.password_hash),
            Some(issue_outcome(secret, user.id, user.email, now)),
        ),
        _ => login_given(lookup, false, None),
    }
}

/// What issuing a token gave, where one was asked for, over the token's characters.
pub open spec fn issued_view(issued: Option<Result<String, AuthError>>) -> Option<
    Result<Seq<char>, AuthError>,
> {
    match issued {
        Some(r) => Some(token_result_view(r)),
        None => None,
    }
}

impl LoginOutcomeView {
    /// The status of the answer to the client.
    pub open spec fn status_code(self) -> u16 {
        match self {
            LoginOutcomeView::Granted(_) => 200,
            LoginOutcomeView::Refused(reason) => reason.surfaced().status_code(),
        }
    }

    /// The body of the answer to the client where the login was refused.
    pub open spec fn error_text(self) -> Option<Seq<char>> {
        match self {
            LoginOutcomeView::Granted(_) => None,
            LoginOutcomeView::Refused(reason) => Some(
                match reason.surfaced() {
                    ClientError::InvalidCredentials => INVALID_CREDENTIALS_BODY@,
                    _ => if reason == AuthError::StorageUnavailable {
                        STORAGE_FAILURE_BODY@
                    } else {
                        TOKEN_FAILURE_BODY@
                    },
                },
            ),
        }
    }
}

/// A login with the right email and a wrong password and a login with an
/// email that is not stored get the same answer, status and body: 401 and
/// the text of [`INVALID_CREDENTIALS_BODY`]. Neither the time nor the
/// password that came with the unknown email makes a difference.
pub proof fn lemma_login_refusals_look_alike(
    secret: Seq<u8>,
    user: UserView,
    wrong_password: Seq<char>,
    other_password: Seq<char>,
    now: nat,
    other_now: nat,
)
    requires
        !password_matches(wrong_password, user.password_hash),
    ensures
        ({
            let mismatch = login_outcome(secret, UserLookupView::Found(user), wrong_password, now);
            let unknown = login_outcome(secret, UserLookupView::NotFound, other_password, other_now);
            &&& mismatch.status_code() == unknown.status_code()
            &&& mismatch.error_text() == unknown.error_text()
            &&& mismatch.status_code() == 401
            &&& mismatch.error_text() == Some(INVALID_CREDENTIALS_BODY@)
        }),
{
}

/// A login with the password of a stored credential is granted at every
/// time whose expiry fits the claims' time field, and so at every reading
/// of the clock: the client gets the token issued for the credential's id
/// and email, and the credential's visible part.
pub proof fn lemma_login_is_granted(
    secret: Seq<u8>,
    user: UserView,
    password: Seq<char>,
    now: nat,
)
    requires
        password_matches(password, user.password_hash),
        clock_reading(now) || now + TOKEN_TTL_SECONDS <= u64::MAX,
    ensures
        login_outcome(secret, UserLookupView::Found(user), password, now) == LoginOutcomeView::Granted(
            LoginResponseView {
                token: issue_outcome(secret, user.id, user.email, now)->Ok_0,
                user: UserInfo::of(user),
            },
        ),
        issue_outcome(secret, user.id, user.email, now) is Ok,
{
}

/// A login is refused for one of four reasons. Missing credential and
/// wrong password are answered with 401; a failure of the store or of the
/// token service is answered with 500, and so never looks like a refusal
/// of the credentials.
pub proof fn lemma_login_refusal_reasons(
    secret: Seq<u8>,
    lookup: UserLookupView,
    password: Seq<char>,
    now: nat,
)
    ensures
        login_outcome(secret, lookup, password, now) matches LoginOutcomeView::Refused(reason) ==> {
            let outcome = login_outcome(secret, lookup, password, now);
            &&& reason == AuthError::CredentialNotFound || reason == AuthError::PasswordMismatch || reason
                == AuthError::StorageUnavailable || reason == AuthError::TokenIssuanceFailure
            &&& outcome.status_code() == 401 <==> reason == AuthError::CredentialNotFound || reason
                == AuthError::PasswordMismatch
            &&& outcome.status_code() == 500 <==> reason == AuthError::StorageUnavailable || reason
                == AuthError::TokenIssuanceFailure
            &&& outcome.error_text() == Some(INVALID_CREDENTIALS_BODY@) <==> outcome.status_code() == 401
        },
{
    reveal_strlit("{\"error\":\"Invalid credentials\"}");
    reveal_strlit("{\"error\":\"Failed to create token\"}");
    reveal_strlit("{\"error\":\"Database error\"}");
    assert(INVALID_CREDENTIALS_BODY@[10] == 'I');
    assert(TOKEN_FAILURE_BODY@[10] == 'F');
    assert(STORAGE_FAILURE_BODY@[10] == 'D');
}

impl LoginOutcome {
    /// Decides a login, given what the store answered, whether the
    /// password matches the stored hash and what issuing a token gave,
    /// where one was asked for.
    pub fn given(
        lookup: UserLookup,
        password_matches: bool,
        issued: Option<Result<String, AuthError>>,
    ) -> (outcome: LoginOutcome)
        ensures
            outcome@ == login_given(lookup@, password_matches, issued_view(issued)),
    {
        let user = match lookup {
            UserLookup::Found(user) => user,
            UserLookup::NotFound => {
                return LoginOutcome::Refused(AuthError::CredentialNotFound);
            },
            UserLookup::Unavailable => {
                return LoginOutcome::Refused(AuthError::StorageUnavailable);
            },
        };
        if !password_matches {
            return LoginOutcome::Refused(AuthError::PasswordMismatch);
        }
        match issued {
            Some(Ok(token)) => LoginOutcome::Granted(
                LoginResponse {
                    token,
                    user: UserInfo { id: user.id, email: user.email, name: user.name },
                },
            ),
            Some(Err(reason)) => LoginOutcome::Refused(reason),
            None => LoginOutcome::Refused(AuthError::TokenIssuanceFailure),
        }
    }

    /// The status of the answer to the client.
    pub fn status(&self) -> (code: u16)
        ensures
            code == self@.status_code(),
    {
        match self {
            LoginOutcome::Granted(_) => 200,
            LoginOutcome::Refused(reason) => reason.surface().status(),
        }
    }

    /// The body of the answer to the client where the login was refused;
    /// `None` where it was granted and the body is the response itself.
    pub fn error_body(&self) -> (body: Option<String>)
        ensures
            body is Some == self@.error_text() is Some,
            body matches Some(text) ==> Some(text@) == self@.error_text(),
    {
        match self {
            LoginOutcome::Granted(_) => None,
            LoginOutcome::Refused(reason) => {
                let text = match reason.surface() {
                    ClientError::InvalidCredentials => INVALID_CREDENTIALS_BODY,
                    _ => match reason {
                        AuthError::StorageUnavailable => STORAGE_FAILURE_BODY,
                        _ => TOKEN_FAILURE_BODY,
                    },
                };
                Some(text.to_owned())
            },
        }
    }
}

/// Handles a login as of time `now`: `lookup` is what the credential store
/// answered for the email in `login_data`. The password is checked only
/// where a credential was found, and a token is issued only where the
/// password matches.
pub fn login_at(
    jwt: &JwtUtils,
    hasher: &CredentialHasher,
    lookup: UserLookup,
    login_data: &LoginRequest,
    now: u64,
) -> (outcome: LoginOutcome)
    ensures
        outcome@ == login_outcome(jwt@, lookup@, login_data.password@, now as nat),
        outcome matches LoginOutcome::Granted(response) ==> lookup matches UserLookup::Found(user)
            && issued_token(jwt@, claims_at(user.id@, user.email@, now as nat), response.token@),
{
    let password_matches = match &lookup {
        UserLookup::Found(user) => hasher.verify(
            login_data.password.as_str(),
            user.password_hash.as_str(),
        ),
        _ => false,
    };
    let issued = match &lookup {
        UserLookup::Found(user) => if password_matches {
            Some(jwt.create_token_at(user.id.as_str(), user.email.as_str(), now))
        } else {
            None
        },
        _ => None,
    };
    LoginOutcome::given(lookup, password_matches, issued)
}

/// Handles a login as of the system clock's present reading. Whatever the
/// clock reads, the outcome is the one that [`login_outcome`] gives for
/// that reading; no reading makes the issue of the token fail.
pub fn login(
    jwt: &JwtUtils,
    hasher: &CredentialHasher,
    lookup: UserLookup,
    login_data: &LoginRequest,
) -> (outcome: LoginOutcome)
    ensures
        exists|now: nat|
            clock_reading(now) && outcome@ == #[trigger] login_outcome(
                jwt@,
                lookup@,
                login_data.password@,
                now,
            ),
        outcome matches LoginOutcome::Refused(reason) ==> reason != AuthError::TokenIssuanceFailure,
{
    let now = clock_seconds(current_time().seconds);
    login_at(jwt, hasher, lookup, login_data, now)
}

/// What the token-checking endpoint found.
#[derive(Debug, Clone, PartialEq, Eq)]
pub enum TokenCheck {
    /// The token verifies; these are its subject and email.
    Valid { user_id: String, email: String },
    /// The token does not verify. Why is not said.
    Invalid,
}

/// The mathematical content of a [`TokenCheck`].
pub enum TokenCheckView {
    Valid { user_id: Seq<char>, email: Seq<char> },
    Invalid,
}

impl View for TokenCheck {
    type V = TokenCheckView;

    open spec fn view(&self) -> TokenCheckView {
        match self {
            TokenCheck::Valid { user_id, email } => {
                TokenCheckView::Valid { user_id: user_id@, email: email@ }
            },
            TokenCheck::Invalid => TokenCheckView::Invalid,
        }
    }
}

/// What the token-checking endpoint finds, given what verifying the token
/// gave: subject and email of a token that verifies, and no more than
/// that a token does not verify, whatever the reason.
pub open spec fn token_check_given(verified: Result<ClaimsView, AuthError>) -> TokenCheckView {
    match verified {
        Ok(claims) => TokenCheckView::Valid { user_id: claims.sub, email: claims.email },
        Err(_) => TokenCheckView::Invalid,
    }
}

/// What the token-checking endpoint finds for a token at time `now`.
pub open spec fn token_check(secret: Seq<u8>, token: Seq<char>, now: nat) -> TokenCheckView {
    token_check_given(verify_outcome(secret, token, now))
}

impl TokenCheck {
    /// What the token-checking endpoint finds, given what verifying the
    /// token gave.
    pub fn given(verified: Result<Claims, AuthError>) -> (check: TokenCheck)
        ensures
            check@ == token_check_given(claims_result_view(verified)),
    {
        match verified {
            Ok(claims) => TokenCheck::Valid { user_id: claims.sub, email: claims.email },
            Err(_) => TokenCheck::Invalid,
        }
    }

    /// The status of the answer to the client: 200 for a token that
    /// verifies, 401 for any other.
    pub fn status(&self) -> (code: u16)
        ensures
            code == if self is Valid { 200u16 } else { 401u16 },
    {
        match self {
            TokenCheck::Valid { .. } => 200,
            TokenCheck::Invalid => 401,
        }
    }

    /// The body of the answer to the client for a token that does not verify.
    pub fn error_body(&self) -> (body: Option<String>)
        ensures
            body is Some == (self is Invalid),
            body matches Some(text) ==> text@ == INVALID_TOKEN_BODY@,
    {
        match self {
            TokenCheck::Valid { .. } => None,
            TokenCheck::Invalid => Some(INVALID_TOKEN_BODY.to_owned()),
        }
    }
}

/// Checks the token of a request to the token-checking endpoint as of time `now`.
pub fn verify_token_at(jwt: &JwtUtils, token: &str, now: u64) -> (check: TokenCheck)
    ensures
        check@ == token_check(jwt@, token@, now as nat),
{
    TokenCheck::given(jwt.verify_token_at(token, now))
}

/// Checks the token of a request to the token-checking endpoint as of the
/// system clock's present reading.
pub fn verify_token(jwt: &JwtUtils, token: &str) -> (check: TokenCheck)
    ensures
        exists|now: nat| clock_reading(now) && check@ == #[trigger] token_check(jwt@, token@, now),
{
    let now = clock_seconds(current_time().seconds);
    verify_token_at(jwt, token, now)
}

/// The body of the answer where a credential with the email exists already.
pub const USER_EXISTS_BODY: &'static str = "{\"error\":\"User with this email already exists\"}";

/// The body of the answer where the password of a new credential could not be hashed.
pub const HASH_FAILURE_BODY: &'static str = "{\"error\":\"Failed to hash password\"}";

/// The body of the answer where a new credential could not be stored.
pub const CREATE_FAILURE_BODY: &'static str = "{\"error\":\"Failed to create user\"}";

/// The body of the answer where no credential has the id.
pub const USER_NOT_FOUND_BODY: &'static str = "{\"error\":\"User not found\"}";

/// The body of the answer where another credential has the new email.
pub const EMAIL_TAKEN_BODY: &'static str = "{\"error\":\"Email already taken by another user\"}";

/// The body of the answer where an update would change nothing.
pub const NOTHING_TO_UPDATE_BODY: &'static str = "{\"error\":\"No fields to update\"}";

/// The body of the answer where a changed credential could not be stored.
pub const UPDATE_FAILURE_BODY: &'static str = "{\"error\":\"Failed to update user\"}";

/// The body of the answer where the current password is not the stored one.
pub const WRONG_PASSWORD_BODY: &'static str = "{\"error\":\"Current password is incorrect\"}";

/// The body of the answer where a new password could not be hashed.
pub const NEW_HASH_FAILURE_BODY: &'static str = "{\"error\":\"Failed to hash new password\"}";

/// The body of the answer where a new password could not be stored.
pub const PASSWORD_UPDATE_FAILURE_BODY: &'static str = "{\"error\":\"Failed to update password\"}";

/// The body of the answer where a new password was stored.
pub const PASSWORD_UPDATED_BODY: &'static str = "{\"message\":\"Password updated successfully\"}";

/// The body of the answer where a credential could not be deleted.
pub const DELETE_FAILURE_BODY: &'static str = "{\"error\":\"Failed to delete user\"}";

/// The body of the answer where a credential was deleted.
pub const USER_DELETED_BODY: &'static str = "{\"message\":\"User deleted successfully\"}";

/// The body of the answer where the credentials could not be listed.
pub const FETCH_FAILURE_BODY: &'static str = "{\"error\":\"Failed to fetch users\"}";

/// The email of the administrator that is created where none is configured.
pub const FALLBACK_ADMIN_EMAIL: &'static str = "admin@treatments.com";

/// The password of the administrator that is created where none is configured.
pub const FALLBACK_ADMIN_PASSWORD: &'static str = "admin123";

/// The name of the administrator that is created where none is configured.
pub const FALLBACK_ADMIN_NAME: &'static str = "Treatment Administrator";

/// The client-visible parts of the stored credentials, in their order, or
/// the answer to give where the store could not list them.
pub fn get_users(stored: Result<Vec<User>, StoreFailure>) -> (r: Result<Vec<UserInfo>, Reply>)
    ensures
        stored is Err ==> r == Err::<Vec<UserInfo>, Reply>(
            (Reply { status: 500, body: FETCH_FAILURE_BODY }),
        ),
        stored matches Ok(users) ==> r matches Ok(infos) && infos.len() == users.len() && forall|i: int|
            0 <= i < users.len() ==> (#[trigger] infos[i])@ == UserInfo::of(users[i]@),
{
    let users = match stored {
        Ok(users) => users,
        Err(_) => {
            return Err(Reply { status: 500, body: FETCH_FAILURE_BODY });
        },
    };
    let mut infos: Vec<UserInfo> = Vec::new();
    let mut i: usize = 0;
    while i < users.len()
        invariant
            i <= users.len(),
            infos.len() == i,
            forall|j: int| 0 <= j < i ==> (#[trigger] infos[j])@ == UserInfo::of(users[j]@),
        decreases users.len() - i,
    {
        let user = &users[i];
        infos.push(UserInfo { id: user.id.clone(), email: user.email.clone(), name: user.name.clone() });
        i += 1;
    }
    Ok(infos)
}

/// The hash that hashing gave, where it was asked for and gave one.
pub open spec fn hash_given(hashed: Option<Result<String, AuthError>>) -> Option<Seq<char>> {
    match hashed {
        Some(Ok(text)) => Some(text@),
        _ => None,
    }
}

/// The credential to store for a request to create one, given the number
/// of credentials that the store holds under the email, a fresh id, the
/// time and what hashing the password gave, where it was asked for. The
/// store comes first, then the email; the hash is looked at only after both.
pub fn create_user_given(
    existing: Result<i64, StoreFailure>,
    user_data: &CreateUserRequest,
    id: String,
    now: Timestamp,
    hashed: Option<Result<String, AuthError>>,
) -> (r: Result<User, Reply>)
    ensures
        existing is Err ==> r == Err::<User, Reply>(
            (Reply { status: 500, body: STORAGE_FAILURE_BODY }),
        ),
        existing matches Ok(count) && count > 0 ==> r == Err::<User, Reply>(
            (Reply { status: 409, body: USER_EXISTS_BODY }),
        ),
        existing matches Ok(count) && count <= 0 && hash_given(hashed) is None ==> r == Err::<
            User,
            Reply,
        >((Reply { status: 500, body: HASH_FAILURE_BODY })),
        existing matches Ok(count) && count <= 0 && hash_given(hashed) is Some ==> (r matches Ok(user)
            && user@ == (UserView {
            id: id@,
            email: user_data.email@,
            password_hash: hash_given(hashed)->0,
            name: user_data.name@,
            created_at: now,
        })),
{
    match existing {
        Err(_) => {
            return Err(Reply { status: 500, body: STORAGE_FAILURE_BODY });
        },
        Ok(count) => {
            if count > 0 {
                return Err(Reply { status: 409, body: USER_EXISTS_BODY });
            }
        },
    }
    match hashed {
        Some(Ok(password_hash)) => Ok(
            User {
                id,
                email: user_data.email.clone(),
                password_hash,
                name: user_data.name.clone(),
                created_at: now,
            },
        ),
        _ => Err(Reply { status: 500, body: HASH_FAILURE_BODY }),
    }
}

/// Prepares a new credential with the given id and time of creation.
/// `existing` is the number of credentials that the store holds under the
/// email. The password is hashed only where the email is free. The
/// credential that comes back is to be stored; its hash is salted, so all
/// that is known of it is that it matches the password.
pub fn create_user_with(
    hasher: &CredentialHasher,
    existing: Result<i64, StoreFailure>,
    user_data: &CreateUserRequest,
    id: String,
    now: Timestamp,
) -> (r: Result<User, Reply>)
    ensures
        existing is Err ==> r == Err::<User, Reply>(
            (Reply { status: 500, body: STORAGE_FAILURE_BODY }),
        ),
        existing matches Ok(count) && count > 0 ==> r == Err::<User, Reply>(
            (Reply { status: 409, body: USER_EXISTS_BODY }),
        ),
        existing matches Ok(count) && count <= 0 ==> match r {
            Ok(user) => user.id@ == id@ && user.email@ == user_data.email@ && user.name@
                == user_data.name@ && user.created_at == now && password_matches(
                user_data.password@,
                user.password_hash@,
            ),
            Err(reply) => reply == (Reply { status: 500, body: HASH_FAILURE_BODY }),
        },
{
    let hashed = match existing {
        Ok(count) => if count > 0 {
            None
        } else {
            Some(hasher.hash(user_data.password.as_str()))
        },
        Err(_) => None,
    };
    create_user_given(existing, user_data, id, now, hashed)
}

/// Prepares a new credential under a fresh random id, created at the
/// system clock's present reading. Whatever id and time are drawn, the
/// request is refused where the email is taken or the store failed, and a
/// credential that comes back carries the request's email and name and a
/// hash that matches its password.
pub fn create_user(
    hasher: &CredentialHasher,
    existing: Result<i64, StoreFailure>,
    user_data: &CreateUserRequest,
) -> (r: Result<User, Reply>)
    ensures
        existing is Err ==> r == Err::<User, Reply>(
            (Reply { status: 500, body: STORAGE_FAILURE_BODY }),
        ),
        existing matches Ok(count) && count > 0 ==> r == Err::<User, Reply>(
            (Reply { status: 409, body: USER_EXISTS_BODY }),
        ),
        existing matches Ok(count) && count <= 0 ==> match r {
            Ok(user) => user.email@ == user_data.email@ && user.name@ == user_data.name@
                && password_matches(user_data.password@, user.password_hash@),
            Err(reply) => reply == (Reply { status: 500, body: HASH_FAILURE_BODY }),
        },
{
    create_user_with(hasher, existing, user_data, new_uuid(), current_time())
}

/// The answer to a request to create a credential, once the store has been
/// asked to hold it.
pub fn create_user_reply(
    user: &User,
    stored: Result<(), StoreFailure>,
) -> (outcome: Answer<UserInfo>)
    ensures
        stored is Ok ==> (outcome matches Answer::Record { status, record: info } && status == 201
            && info@ == UserInfo::of(user@)),
        stored is Err ==> outcome == Answer::<UserInfo>::Fixed(
            (Reply { status: 500, body: CREATE_FAILURE_BODY }),
        ),
{
    match stored {
        Ok(_) => Answer::Record {
            status: 201,
            record: UserInfo { id: user.id.clone(), email: user.email.clone(), name: user.name.clone() },
        },
        Err(_) => Answer::Fixed(Reply { status: 500, body: CREATE_FAILURE_BODY }),
    }
}

/// What is to be done next for a request to change a credential.
#[derive(Debug, Clone, PartialEq, Eq)]
pub enum UpdateUserAction {
    /// Answer the client; nothing is stored.
    Answer(Reply),
    /// Ask the store how many other credentials have this email, and come back with the number.
    CountOthersWithEmail(String),
    /// Store this email and this name for the credential.
    Store { email: String, name: String },
}

/// The mathematical content of an [`UpdateUserAction`].
pub enum UpdateUserActionView {
    Answer(Reply),
    CountOthersWithEmail(Seq<char>),
    Store { email: Seq<char>, name: Seq<char> },
}

impl View for UpdateUserAction {
    type V = UpdateUserActionView;

    open spec fn view(&self) -> UpdateUserActionView {
        match self {
            UpdateUserAction::Answer(reply) => UpdateUserActionView::Answer(*reply),
            UpdateUserAction::CountOthersWithEmail(email) => {
                UpdateUserActionView::CountOthersWithEmail(email@)
            },
            UpdateUserAction::Store { email, name } => {
                UpdateUserActionView::Store { email: email@, name: name@ }
            },
        }
    }
}

/// What is to be done next for a request to change a credential's email and
/// name. A field changes where the request has it and it differs from what
/// is stored. A new email needs the store's word that no other credential
/// has it; a request that changes nothing is refused.
pub open spec fn update_user_action(
    lookup: UserLookupView,
    email: Option<Seq<char>>,
    name: Option<Seq<char>>,
    others_with_email: Option<Result<i64, StoreFailure>>,
) -> UpdateUserActionView {
    match lookup {
        UserLookupView::Unavailable => UpdateUserActionView::Answer(
            Reply { status: 500, body: STORAGE_FAILURE_BODY },
        ),
        UserLookupView::NotFound => UpdateUserActionView::Answer(
            Reply { status: 404, body: USER_NOT_FOUND_BODY },
        ),
        UserLookupView::Found(user) => {
            let new_name = if name is Some && name->0 != user.name {
                name->0
            } else {
                user.name
            };
            if email is Some && email->0 != user.email {
                match others_with_email {
                    None => UpdateUserActionView::CountOthersWithEmail(email->0),
                    Some(Err(_)) => UpdateUserActionView::Answer(
                        Reply { status: 500, body: STORAGE_FAILURE_BODY },
                    ),
                    Some(Ok(count)) => if count > 0 {
                        UpdateUserActionView::Answer(Reply { status: 409, body: EMAIL_TAKEN_BODY })
                    } else {
                        UpdateUserActionView::Store { email: email->0, name: new_name }
                    },
                }
            } else if name is Some && name->0 != user.name {
                UpdateUserActionView::Store { email: user.email, name: new_name }
            } else {
                UpdateUserActionView::Answer(Reply { status: 400, body: NOTHING_TO_UPDATE_BODY })
            }
        },
    }
}

/// Decides what is to be done next for a request to change a credential.
/// `lookup` is what the store answered for the id; `others_with_email` is
/// its count of other credentials with the new email, once that has been
/// asked for.
pub fn update_user(
    lookup: &UserLookup,
    user_data: &UpdateUserRequest,
    others_with_email: Option<Result<i64, StoreFailure>>,
) -> (action: UpdateUserAction)
    ensures
        action@ == update_user_action(
            lookup@,
            text_view(user_data.email),
            text_view(user_data.name),
            others_with_email,
        ),
{
    let user = match lookup {
        UserLookup::Found(user) => user,
        UserLookup::NotFound => {
            return UpdateUserAction::Answer(Reply { status: 404, body: USER_NOT_FOUND_BODY });
        },
        UserLookup::Unavailable => {
            return UpdateUserAction::Answer(Reply { status: 500, body: STORAGE_FAILURE_BODY });
        },
    };
    let name_changes = match &user_data.name {
        Some(name) => !str_eq(name.as_str(), user.name.as_str()),
        None => false,
    };
    let new_name = match &user_data.name {
        Some(name) => if name_changes {
            name.clone()
        } else {
            user.name.clone()
        },
        None => user.name.clone(),
    };
    match &user_data.email {
        Some(email) => {
            if !str_eq(email.as_str(), user.email.as_str()) {
                return match others_with_email {
                    None => UpdateUserAction::CountOthersWithEmail(email.clone()),
                    Some(Err(_)) => UpdateUserAction::Answer(
                        Reply { status: 500, body: STORAGE_FAILURE_BODY },
                    ),
                    Some(Ok(count)) => if count > 0 {
                        UpdateUserAction::Answer(Reply { status: 409, body: EMAIL_TAKEN_BODY })
                    } else {
                        UpdateUserAction::Store { email: email.clone(), name: new_name }
                    },
                };
            }
        },
        None => {},
    }
    if name_changes {
        UpdateUserAction::Store { email: user.email.clone(), name: new_name }
    } else {
        UpdateUserAction::Answer(Reply { status: 400, body: NOTHING_TO_UPDATE_BODY })
    }
}

/// The answer to a request to change a credential, once the store has been
/// asked to hold the new email and name.
pub fn update_user_reply(
    user: &User,
    email: String,
    name: String,
    stored: Result<(), StoreFailure>,
) -> (outcome: Answer<UserInfo>)
    ensures
        stored is Ok ==> (outcome matches Answer::Record { status, record: info } && status == 200
            && info@ == (UserInfoView { id: user.id@, email: email@, name: name@ })),
        stored is Err ==> outcome == Answer::<UserInfo>::Fixed(
            (Reply { status: 500, body: UPDATE_FAILURE_BODY }),
        ),
{
    match stored {
        Ok(_) => Answer::Record { status: 200, record: UserInfo { id: user.id.clone(), email, name } },
        Err(_) => Answer::Fixed(Reply { status: 500, body: UPDATE_FAILURE_BODY }),
    }
}

/// The hash to store for a request to change a password, given what the
/// store answered for the id, whether the current password matches the
/// stored hash and what hashing the new password gave, where it was asked
/// for. The store comes first, then the current password; the new hash is
/// looked at only after both.
pub fn change_password_given(
    lookup: &UserLookup,
    current_matches: bool,
    hashed: Option<Result<String, AuthError>>,
) -> (r: Result<String, Reply>)
    ensures
        lookup is Unavailable ==> r == Err::<String, Reply>(
            (Reply { status: 500, body: STORAGE_FAILURE_BODY }),
        ),
        lookup is NotFound ==> r == Err::<String, Reply>(
            (Reply { status: 404, body: USER_NOT_FOUND_BODY }),
        ),
        lookup is Found && !current_matches ==> r == Err::<String, Reply>(
            (Reply { status: 401, body: WRONG_PASSWORD_BODY }),
        ),
        lookup is Found && current_matches && hash_given(hashed) is None ==> r == Err::<
            String,
            Reply,
        >((Reply { status: 500, body: NEW_HASH_FAILURE_BODY })),
        lookup is Found && current_matches && hash_given(hashed) is Some ==> (r matches Ok(new_hash)
            && new_hash@ == hash_given(hashed)->0),
{
    match lookup {
        UserLookup::Found(_) => {},
        UserLookup::NotFound => {
            return Err(Reply { status: 404, body: USER_NOT_FOUND_BODY });
        },
        UserLookup::Unavailable => {
            return Err(Reply { status: 500, body: STORAGE_FAILURE_BODY });
        },
    }
    if !current_matches {
        return Err(Reply { status: 401, body: WRONG_PASSWORD_BODY });
    }
    match hashed {
        Some(Ok(new_hash)) => Ok(new_hash),
        _ => Err(Reply { status: 500, body: NEW_HASH_FAILURE_BODY }),
    }
}

/// Prepares a change of password: the hash of the new password, to be
/// stored, where the credential exists and the current password is the
/// stored one; the answer to the client where not. The current password is
/// checked only where a credential was found, and the new one is hashed
/// only where the current one matches.
pub fn change_password(
    hasher: &CredentialHasher,
    lookup: &UserLookup,
    password_data: &ChangePasswordRequest,
) -> (r: Result<String, Reply>)
    ensures
        lookup is Unavailable ==> r == Err::<String, Reply>(
            (Reply { status: 500, body: STORAGE_FAILURE_BODY }),
        ),
        lookup is NotFound ==> r == Err::<String, Reply>(
            (Reply { status: 404, body: USER_NOT_FOUND_BODY }),
        ),
        lookup matches UserLookup::Found(user) && !password_matches(
            password_data.current_password@,
            user.password_hash@,
        ) ==> r == Err::<String, Reply>((Reply { status: 401, body: WRONG_PASSWORD_BODY })),
        lookup matches UserLookup::Found(user) && password_matches(
            password_data.current_password@,
            user.password_hash@,
        ) ==> match r {
            Ok(new_hash) => password_matches(password_data.new_password@, new_hash@),
            Err(reply) => reply == (Reply { status: 500, body: NEW_HASH_FAILURE_BODY }),
        },
{
    let current_matches = match lookup {
        UserLookup::Found(user) => hasher.verify(
            password_data.current_password.as_str(),
            user.password_hash.as_str(),
        ),
        _ => false,
    };
    let hashed = if current_matches {
        Some(hasher.hash(password_data.new_password.as_str()))
    } else {
        None
    };
    change_password_given(lookup, current_matches, hashed)
}

/// The answer to a request to change a password, once the store has been
/// asked to hold the new hash.
pub fn change_password_reply(stored: Result<(), StoreFailure>) -> (reply: Reply)
    ensures
        stored is Ok ==> reply == (Reply { status: 200, body: PASSWORD_UPDATED_BODY }),
        stored is Err ==> reply == (Reply { status: 500, body: PASSWORD_UPDATE_FAILURE_BODY }),
{
    match stored {
        Ok(_) => Reply { status: 200, body: PASSWORD_UPDATED_BODY },
        Err(_) => Reply { status: 500, body: PASSWORD_UPDATE_FAILURE_BODY },
    }
}

/// The answer to a request to delete a credential: `deleted` is the number
/// of credentials that the store deleted for the id.
pub fn delete_user(deleted: Result<u64, StoreFailure>) -> (reply: Reply)
    ensures
        deleted is Err ==> reply == (Reply { status: 500, body: DELETE_FAILURE_BODY }),
        deleted matches Ok(rows) && rows == 0 ==> reply == (Reply {
            status: 404,
            body: USER_NOT_FOUND_BODY,
        }),
        deleted matches Ok(rows) && rows > 0 ==> reply == (Reply {
            status: 200,
            body: USER_DELETED_BODY,
        }),
{
    match deleted {
        Err(_) => Reply { status: 500, body: DELETE_FAILURE_BODY },
        Ok(rows) => if rows == 0 {
            Reply { status: 404, body: USER_NOT_FOUND_BODY }
        } else {
            Reply { status: 200, body: USER_DELETED_BODY }
        },
    }
}

/// The administrator that is created when the store holds no credential yet.
#[derive(Debug, Clone, PartialEq, Eq)]
pub struct DefaultAdmin {
    pub email: String,
    pub password: String,
    pub name: String,
    /// Email and password are the built-in ones, which anyone can know:
    /// the operator is to be warned.
    pub well_known_credentials: bool,
}

/// What is configured, or else the built-in value.
pub open spec fn configured_or(configured: Option<String>, fallback: Seq<char>) -> Seq<char> {
    match configured {
        Some(text) => text@,
        None => fallback,
    }
}

/// Decides whether the first administrator is to be created, and with
/// which credentials: only where the store holds no credential at all, and
/// with the configured email, password and name. Where one of them is not
/// configured a built-in value stands in for it. That is a known weakness
/// of a first run, kept as it is and made visible: the result says when
/// the email and password in use are the built-in ones.
pub fn create_default_user(
    user_count: i64,
    email: Option<String>,
    password: Option<String>,
    name: Option<String>,
) -> (admin: Option<DefaultAdmin>)
    ensures
        admin is Some == (user_count == 0),
        admin matches Some(a) ==> {
            &&& a.email@ == configured_or(email, FALLBACK_ADMIN_EMAIL@)
            &&& a.password@ == configured_or(password, FALLBACK_ADMIN_PASSWORD@)
            &&& a.name@ == configured_or(name, FALLBACK_ADMIN_NAME@)
            &&& a.well_known_credentials == (a.email@ == FALLBACK_ADMIN_EMAIL@ && a.password@
                == FALLBACK_ADMIN_PASSWORD@)
        },
{
    if user_count != 0 {
        return None;
    }
    let email = match email {
        Some(email) => email,
        None => FALLBACK_ADMIN_EMAIL.to_owned(),
    };
    let password = match password {
        Some(password) => password,
        None => FALLBACK_ADMIN_PASSWORD.to_owned(),
    };
    let name = match name {
        Some(name) => name,
        None => FALLBACK_ADMIN_NAME.to_owned(),
    };
    let well_known_credentials = str_eq(email.as_str(), FALLBACK_ADMIN_EMAIL) && str_eq(
        password.as_str(),
        FALLBACK_ADMIN_PASSWORD,
    );
    Some(DefaultAdmin { email, password, name, well_known_credentials })
}

} // verus!
