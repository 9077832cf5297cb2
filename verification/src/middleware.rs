//! The guard that every request passes before a protected handler runs.
//!
//! The guard decides from the request's path, its method and its
//! `Authorization` header alone. It lets the login endpoint and preflight
//! requests through untouched; every other request needs a bearer token
//! that verifies, and is turned away with one and the same answer if it has
//! none.

use crate::auth::{claims_result_view, clock_reading, clock_seconds, verify_outcome, JwtUtils};
use crate::errors::AuthError;
use crate::models::{Claims, ClaimsView};
use crate::text::{starts_with, str_eq, strip_prefix};
use crate::trusted::current_time;
use vstd::prelude::*;

verus! {

/// The path of the login endpoint, which needs no token.
pub const LOGIN_PATH: &'static str = "/auth/login";

/// The method of preflight requests, which need no token.
pub const PREFLIGHT_METHOD: &'static str = "OPTIONS";

/// The scheme that the `Authorization` header must open with, the blank included.
pub const BEARER_PREFIX: &'static str = "Bearer ";

/// The status of the answer to a request that is turned away.
pub const REJECTION_STATUS: u16 = 401;

/// The text of the answer to a request that is turned away.
pub const REJECTION_MESSAGE: &'static str = "Authentication required";

/// What a handler learns of the caller: the verified claims, or nothing
/// where the request came through without a token.
#[derive(Debug, Clone, PartialEq, Eq)]
pub struct AuthContext {
    pub claims: Option<Claims>,
}

impl View for AuthContext {
    type V = Option<ClaimsView>;

    open spec fn view(&self) -> Option<ClaimsView> {
        match self.claims {
            Some(claims) => Some(claims@),
            None => None,
        }
    }
}

/// The guard's verdict on a request.
#[derive(Debug, Clone, PartialEq, Eq)]
pub enum AccessDecision {
    /// The handler runs, with this context.
    Allowed(AuthContext),
    /// The handler does not run. The reason is for diagnostics only: the
    /// answer to the client is the same whatever it is.
    Rejected(AuthError),
}

/// The mathematical content of a [`AccessDecision`].
pub enum AccessDecisionView {
    Allowed(Option<ClaimsView>),
    Rejected(AuthError),
}

impl View for AccessDecision {
    type V = AccessDecisionView;

    open spec fn view(&self) -> AccessDecisionView {
        match self {
            AccessDecision::Allowed(context) => AccessDecisionView::Allowed(context@),
            AccessDecision::Rejected(reason) => AccessDecisionView::Rejected(*reason),
        }
    }
}

/// The answer that ends a request that was turned away.
#[derive(Debug, Clone, PartialEq, Eq)]
pub struct Rejection {
    pub status: u16,
    pub message: String,
}

/// The request needs no token: it goes to the login endpoint, or it is a preflight request.
pub open spec fn bypasses(path: Seq<char>, method: Seq<char>) -> bool {
    path == LOGIN_PATH@ || method == PREFLIGHT_METHOD@
}

/// The token in an `Authorization` header: what follows the bearer scheme,
/// where the header opens with the scheme and something follows it.
pub open spec fn bearer_token(header: Seq<char>) -> Option<Seq<char>> {
    if starts_with(header, BEARER_PREFIX@) && header.len() > BEARER_PREFIX@.len() {
        Some(header.subrange(BEARER_PREFIX@.len() as int, header.len() as int))
    } else {
        None
    }
}

/// Where a request stands before any token is verified.
#[derive(Debug, Clone, Copy, PartialEq, Eq)]
pub enum Admission<'a> {
    /// The request needs no token and goes through as it is.
    Bypass,
    /// The request is turned away: it has no header, or none that holds a bearer token.
    Refuse(AuthError),
    /// The request goes through if this token verifies.
    Verify(&'a str),
}

/// The mathematical content of an [`Admission`].
pub enum AdmissionView {
    Bypass,
    Refuse(AuthError),
    Verify(Seq<char>),
}

impl<'a> View for Admission<'a> {
    type V = AdmissionView;

    open spec fn view(&self) -> AdmissionView {
        match self {
            Admission::Bypass => AdmissionView::Bypass,
            Admission::Refuse(reason) => AdmissionView::Refuse(*reason),
            Admission::Verify(token) => AdmissionView::Verify(token@),
        }
    }
}

/// Where a request stands before any token is verified: the bypass is
/// looked at first, and the header only where the request needs a token.
pub open spec fn admission_of(
    path: Seq<char>,
    method: Seq<char>,
    authorization: Option<Seq<char>>,
) -> AdmissionView {
    if bypasses(path, method) {
        AdmissionView::Bypass
    } else {
        match authorization {
            None => AdmissionView::Refuse(AuthError::MissingAuthHeader),
            Some(header) => match bearer_token(header) {
                None => AdmissionView::Refuse(AuthError::TokenMalformed),
                Some(token) => AdmissionView::Verify(token),
            },
        }
    }
}

/// The verdict on a request that needs a token, given what verifying its
/// token gave: the handler runs with the claims, or the request is turned
/// away for the reason that the token was refused for.
pub open spec fn decision_given(verified: Result<ClaimsView, AuthError>) -> AccessDecisionView {
    match verified {
        Ok(claims) => AccessDecisionView::Allowed(Some(claims)),
        Err(reason) => AccessDecisionView::Rejected(reason),
    }
}

/// The guard's verdict on a request that arrives at time `now`.
pub open spec fn access_decision(
    secret: Seq<u8>,
    path: Seq<char>,
    method: Seq<char>,
    authorization: Option<Seq<char>>,
    now: nat,
) -> AccessDecisionView {
    match admission_of(path, method, authorization) {
        AdmissionView::Bypass => AccessDecisionView::Allowed(None),
        AdmissionView::Refuse(reason) => AccessDecisionView::Rejected(reason),
        AdmissionView::Verify(token) => decision_given(verify_outcome(secret, token, now)),
    }
}

/// The answer is the one that the verdict asks for: on an allowed request
/// what the handler made of a context with the verdict's claims, on a
/// request that was turned away the fixed rejection.
pub open spec fn dispatched<R, F: FnOnce(AuthContext) -> R>(
    decision: AccessDecisionView,
    handler: F,
    answer: Result<R, Rejection>,
) -> bool {
    match decision {
        AccessDecisionView::Allowed(claims) => answer matches Ok(value) && exists|context: AuthContext|
            #![trigger handler.ensures((context,), value)]
            context@ == claims && handler.ensures((context,), value),
        AccessDecisionView::Rejected(_) => answer matches Err(rejection) && rejection.status
            == REJECTION_STATUS && rejection.message@ == REJECTION_MESSAGE@,
    }
}

/// Looks at a request before any token is verified: whether it needs a
/// token at all, and if so, which token its `Authorization` header holds.
pub fn admission<'a>(path: &str, method: &str, authorization: Option<&'a str>) -> (r: Admission<'a>)
    ensures
        r@ == admission_of(path@, method@, header_view(authorization)),
{
    if str_eq(path, LOGIN_PATH) || str_eq(method, PREFLIGHT_METHOD) {
        return Admission::Bypass;
    }
    let header = match authorization {
        Some(header) => header,
        None => {
            return Admission::Refuse(AuthError::MissingAuthHeader);
        },
    };
    match strip_prefix(header, BEARER_PREFIX) {
        Some(token) => {
            if token.is_empty() {
                Admission::Refuse(AuthError::TokenMalformed)
            } else {
                Admission::Verify(token)
            }
        },
        None => Admission::Refuse(AuthError::TokenMalformed),
    }
}

/// The view of an optional header.
pub open spec fn header_view(authorization: Option<&str>) -> Option<Seq<char>> {
    match authorization {
        Some(header) => Some(header@),
        None => None,
    }
}

/// A request to a protected route that carries no `Authorization` header
/// is turned away, at every time and under every secret.
pub proof fn lemma_missing_header_is_rejected(
    secret: Seq<u8>,
    path: Seq<char>,
    method: Seq<char>,
    now: nat,
)
    requires
        !bypasses(path, method),
    ensures
        access_decision(secret, path, method, None, now) == AccessDecisionView::Rejected(
            AuthError::MissingAuthHeader,
        ),
{
}

/// A preflight request and a request to the login endpoint pass the guard
/// whatever they carry in the `Authorization` header, and without one; the
/// handler gets no claims from them.
pub proof fn lemma_bypass_needs_no_header(
    secret: Seq<u8>,
    path: Seq<char>,
    method: Seq<char>,
    authorization: Option<Seq<char>>,
    now: nat,
)
    requires
        path == LOGIN_PATH@ || method == PREFLIGHT_METHOD@,
    ensures
        access_decision(secret, path, method, authorization, now) == AccessDecisionView::Allowed(None),
{
}

/// Builds the guard for each worker that handles requests.
pub struct AuthMiddleware {
    jwt: JwtUtils,
}

/// The guard in front of the protected handlers.
pub struct AuthMiddlewareService {
    jwt: JwtUtils,
}

impl AuthMiddleware {
    /// The secret under which the guard verifies tokens.
    pub closed spec fn secret(&self) -> Seq<u8> {
        self.jwt@
    }

    /// A builder of guards that verify tokens with `jwt`.
    pub fn new(jwt: JwtUtils) -> (factory: AuthMiddleware)
        ensures
            factory.secret() == jwt@,
    {
        AuthMiddleware { jwt }
    }

    /// A guard that verifies tokens under the builder's secret.
    pub fn new_transform(&self) -> (service: AuthMiddlewareService)
        ensures
            service.secret() == self.secret(),
    {
        AuthMiddlewareService { jwt: self.jwt.duplicate() }
    }
}

impl AccessDecision {
    /// The verdict on a request that needs a token, given what verifying
    /// its token gave.
    pub fn given(verified: Result<Claims, AuthError>) -> (decision: AccessDecision)
        ensures
            decision@ == decision_given(claims_result_view(verified)),
    {
        match verified {
            Ok(claims) => AccessDecision::Allowed(AuthContext { claims: Some(claims) }),
            Err(reason) => AccessDecision::Rejected(reason),
        }
    }

    /// The answer to the client where the request was turned away. It does
    /// not depend on the reason.
    pub fn rejection(&self) -> (answer: Option<Rejection>)
        ensures
            answer is Some == (self is Rejected),
            answer matches Some(rejection) ==> rejection.status == REJECTION_STATUS
                && rejection.message@ == REJECTION_MESSAGE@,
    {
        match self {
            AccessDecision::Allowed(_) => None,
            AccessDecision::Rejected(_) => Some(
                Rejection { status: REJECTION_STATUS, message: REJECTION_MESSAGE.to_owned() },
            ),
        }
    }
}

impl AuthMiddlewareService {
    /// The secret under which the guard verifies tokens.
    pub closed spec fn secret(&self) -> Seq<u8> {
        self.jwt@
    }

    /// This guard's verdict on a request that arrives at time `now`.
    pub open spec fn decision_at(
        &self,
        path: Seq<char>,
        method: Seq<char>,
        authorization: Option<Seq<char>>,
        now: nat,
    ) -> AccessDecisionView {
        access_decision(self.secret(), path, method, authorization, now)
    }

    /// Decides on a request that arrives at time `now`.
    pub fn call_at(
        &self,
        path: &str,
        method: &str,
        authorization: Option<&str>,
        now: u64,
    ) -> (decision: AccessDecision)
        ensures
            decision@ == self.decision_at(path@, method@, header_view(authorization), now as nat),
    {
        match admission(path, method, authorization) {
            Admission::Bypass => AccessDecision::Allowed(AuthContext { claims: None }),
            Admission::Refuse(reason) => AccessDecision::Rejected(reason),
            Admission::Verify(token) => AccessDecision::given(self.jwt.verify_token_at(token, now)),
        }
    }

    /// Runs `handler` behind the guard, as of time `now`: the handler is
    /// called, once and with the context that the guard made, where the
    /// request is allowed; where it is turned away the handler is not
    /// called and the answer is the fixed rejection.
    pub fn dispatch_at<R, F: FnOnce(AuthContext) -> R>(
        &self,
        path: &str,
        method: &str,
        authorization: Option<&str>,
        now: u64,
        handler: F,
    ) -> (answer: Result<R, Rejection>)
        requires
            forall|context: AuthContext| handler.requires((context,)),
        ensures
            dispatched(
                self.decision_at(path@, method@, header_view(authorization), now as nat),
                handler,
                answer,
            ),
    {
        match self.call_at(path, method, authorization, now) {
            AccessDecision::Allowed(context) => {
                let ghost given = context;
                let value = handler(context);
                let answer = Ok(value);
                assert(handler.ensures((given,), answer->Ok_0));
                answer
            },
            AccessDecision::Rejected(_) => Err(
                Rejection { status: REJECTION_STATUS, message: REJECTION_MESSAGE.to_owned() },
            ),
        }
    }

    /// Runs `handler` behind the guard as of the system clock's present
    /// reading. Whatever the clock reads, the answer is the one that the
    /// guard's verdict at that reading asks for: the handler's, given the
    /// context with the verified claims, or the fixed rejection. A request
    /// that needs no token reaches the handler at every reading; one that
    /// needs a token and has no header, or a header that holds no bearer
    /// token, reaches it at none.
    pub fn dispatch<R, F: FnOnce(AuthContext) -> R>(
        &self,
        path: &str,
        method: &str,
        authorization: Option<&str>,
        handler: F,
    ) -> (answer: Result<R, Rejection>)
        requires
            forall|context: AuthContext| handler.requires((context,)),
        ensures
            exists|now: nat|
                clock_reading(now) && dispatched(
                    #[trigger] self.decision_at(path@, method@, header_view(authorization), now),
                    handler,
                    answer,
                ),
            admission_of(path@, method@, header_view(authorization)) is Bypass ==> answer is Ok,
            admission_of(path@, method@, header_view(authorization)) is Refuse ==> answer is Err,
    {
        let now = clock_seconds(current_time().seconds);
        self.dispatch_at(path, method, authorization, now, handler)
    }

    /// Decides on a request as of the system clock's present reading.
    /// Whatever the clock reads, the verdict is the one that
    /// [`access_decision`] gives for that reading.
    pub fn call(
        &self,
        path: &str,
        method: &str,
        authorization: Option<&str>,
    ) -> (decision: AccessDecision)
        ensures
            exists|now: nat|
                clock_reading(now) && decision@ == #[trigger] self.decision_at(
                    path@,
                    method@,
                    header_view(authorization),
                    now,
                ),
    {
        let now = clock_seconds(current_time().seconds);
        self.call_at(path, method, authorization, now)
    }
}

} // verus!
