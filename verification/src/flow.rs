//! The two legs of a login: the redirect to the provider, and the callback
//! that turns an authorization code into a signed token.
//!
//! Cache, provider and datastore are reached by the caller. The functions
//! here decide: each takes what the outside answered and says what is done
//! next. Within one callback the actions come in one fixed order, and none
//! is handed out before the step before it has succeeded.

use vstd::prelude::*;
use crate::error::AllForOneError;
use crate::ids::{fresh_id, hyphenated, parse_id, parsed_uuid, uuid_text};
use crate::provider::{
    pkce_verifier_ok, provider_named, AuthRedirectInfo, OAuthProvider, OAuthProviderClient,
};
use crate::text::join2;
use crate::session::{AuthVerifyToken, SessionCookie, SessionCookieConfig};

verus! {

/// Why an extractor refused a request.
#[derive(Debug)]
pub struct Rejection {
    /// The status that the extractor chose. It is kept for the log; the
    /// client is answered as for every malformed request.
    pub status: u16,
    pub reason: String,
}

/// What a provider name in a path stands for: the provider, or the refusal
/// of a name that no provider has.
pub open spec fn path_provider(name: Seq<char>) -> Result<OAuthProvider, (u16, Seq<char>)> {
    match provider_named(name) {
        Some(idp) => Ok(idp),
        None => Err((400u16, "unknown provider: "@ + name)),
    }
}

/// Reads the provider from its path segment.
pub fn provider_of_path(name: &str) -> (idp: Result<OAuthProvider, Rejection>)
    ensures
        match idp {
            Ok(found) => path_provider(name@) == Ok::<OAuthProvider, (u16, Seq<char>)>(found),
            Err(rejection) => path_provider(name@) == Err::<OAuthProvider, (u16, Seq<char>)>(
                (rejection.status, rejection.reason@),
            ),
        },
{
    match OAuthProvider::from_name(name) {
        Some(idp) => Ok(idp),
        None => Err(Rejection { status: 400, reason: join2("unknown provider: ", name) }),
    }
}

/// The query of a callback.
#[derive(Debug)]
pub struct OAuthCallbackQuery {
    pub code: String,
    pub state: String,
}

/// Everything that a login leaves to be done: the entry to store, and the
/// redirect to answer with once it is stored.
#[derive(Debug)]
pub struct LoginPlan {
    pub session_id: u128,
    /// The key of the cache entry: the session id as text.
    pub cache_key: String,
    pub cache_body: AuthVerifyToken,
    /// Seconds after which the cache drops the entry: the lifetime of the
    /// cookie.
    pub cache_ttl: u64,
    /// The cookie that carries the session id, and nothing else.
    pub cookie: SessionCookie,
    /// Where the browser is sent.
    pub location: String,
}

/// Whether a plan is the one for a redirect, a session id and the settings.
pub open spec fn plans(
    info: AuthRedirectInfo,
    session_id: u128,
    config: SessionCookieConfig,
    plan: LoginPlan,
) -> bool {
    &&& plan.session_id == session_id
    &&& plan.cache_key@ == hyphenated(session_id)
    &&& plan.cache_body.csrf_token@ == info.csrf_token@
    &&& plan.cache_body.pkce_verifier@ == info.pkce_verifier@
    &&& plan.cache_body.nonce == info.nonce
    &&& plan.cache_ttl == config.lifetime()
    &&& plan.cookie@ == config.session_cookie(hyphenated(session_id))
    &&& plan.cookie.max_age == Some(plan.cache_ttl as i64)
    &&& parsed_uuid(plan.cookie.value@) == Some(session_id)
    &&& plan.location@ == info.auth_url@
}

/// Lays out a login for a given redirect and session id.
pub fn plan_login(info: AuthRedirectInfo, session_id: u128, config: &SessionCookieConfig) -> (plan:
    LoginPlan)
    ensures
        plans(info, session_id, *config, plan),
{
    let cache_key = uuid_text(session_id);
    let cookie = config.create_session_cookie(cache_key.as_str());
    let lifetime = config.session_lifetime();
    LoginPlan {
        session_id,
        cache_key,
        cache_body: AuthVerifyToken {
            csrf_token: info.csrf_token,
            pkce_verifier: info.pkce_verifier,
            nonce: info.nonce,
        },
        cache_ttl: lifetime as u64,
        cookie,
        location: info.auth_url,
    }
}

/// Starts a login with a provider: a fresh redirect and a fresh session id.
/// A malformed path is refused before anything is generated.
pub fn oauth_login(
    path: Result<OAuthProvider, Rejection>,
    oauth_client: &OAuthProviderClient,
    session_config: &SessionCookieConfig,
) -> (started: Result<LoginPlan, AllForOneError>)
    ensures
        match path {
            Err(rejection) => started matches Err(
                AllForOneError::Path { extractor_status, reason },
            ) && extractor_status == rejection.status && reason@ == rejection.reason@,
            Ok(idp) => {
                &&& started matches Ok(plan)
                &&& plan.cache_body.csrf_token@.len() > 0
                &&& pkce_verifier_ok(plan.cache_body.pkce_verifier@)
                &&& plan.cache_body.nonce is None
                &&& plan.cache_key@ == hyphenated(plan.session_id)
                &&& plan.cache_ttl == session_config.lifetime()
                &&& plan.cookie@ == session_config.session_cookie(hyphenated(plan.session_id))
                &&& plan.cookie.max_age == Some(plan.cache_ttl as i64)
                &&& parsed_uuid(plan.cookie.value@) == Some(plan.session_id)
                &&& match idp {
                    OAuthProvider::Github => oauth_client.github.redirect_for(
                        plan.cache_body.csrf_token@,
                        plan.cache_body.pkce_verifier@,
                    ) == Some(plan.location@),
                }
            },
        },
{
    let idp = match path {
        Ok(idp) => idp,
        Err(rejection) => {
            return Err(
                AllForOneError::Path {
                    extractor_status: rejection.status,
                    reason: rejection.reason,
                },
            );
        },
    };
    let info = oauth_client.auth_request(idp);
    let session_id = fresh_id();
    Ok(plan_login(info, session_id, session_config))
}

/// The answer to a login.
#[derive(Debug)]
pub struct LoginRedirect {
    pub location: String,
    pub cookie: SessionCookie,
}

/// Ends a login once the cache has answered: the redirect goes out only if
/// the session was stored.
pub fn finish_login(plan: LoginPlan, stored: Result<(), String>) -> (answer: Result<
    LoginRedirect,
    AllForOneError,
>)
    ensures
        match stored {
            Ok(_) => answer matches Ok(redirect) && redirect.location@ == plan.location@
                && redirect.cookie@ == plan.cookie@,
            Err(detail) => answer matches Err(AllForOneError::Internal(d)) && d@ == detail@,
        },
{
    match stored {
        Ok(_) => Ok(LoginRedirect { location: plan.location, cookie: plan.cookie }),
        Err(detail) => Err(AllForOneError::Internal(detail)),
    }
}

/// Where a callback stands.
#[derive(Debug)]
pub enum CallbackState {
    /// The callback came in with a session id; the session is being fetched.
    Received { idp: OAuthProvider, code: String, state: String },
    /// The CSRF token matched; the code is being exchanged.
    Verified { idp: OAuthProvider },
    /// The provider gave an access token; the identity is being fetched.
    TokenExchanged { idp: OAuthProvider },
    /// The provider named the user; the local user is being resolved.
    IdentityKnown,
    /// The local user is known; the token is being signed.
    IdentityResolved,
    /// The token went out.
    Issued,
    /// The callback was refused.
    Rejected,
}

/// What the outside answered.
#[derive(Debug)]
pub enum CallbackEvent {
    SessionFound { entry: AuthVerifyToken },
    /// The cache holds nothing under the session id: never stored, expired,
    /// or already consumed.
    SessionMissing,
    CacheFailed { detail: String },
    CodeExchanged { access_token: String },
    ExchangeFailed { detail: String },
    IdentityFetched { idp_uid: String },
    IdentityFailed { detail: String },
    UserResolved { user_id: u128 },
    DatastoreFailed { detail: String },
    TokenIssued { jwt: String },
    IssueFailed,
}

/// What the caller does next.
#[derive(Debug)]
pub enum CallbackAction {
    /// Take the session's entry out of the cache: read and delete in one.
    FetchSession { session_id: u128 },
    ExchangeCode { idp: OAuthProvider, code: String, pkce_verifier: String },
    FetchIdentity { idp: OAuthProvider, access_token: String },
    /// Look the user up and create it if absent, in one unit of work.
    ResolveUser { idp: OAuthProvider, idp_uid: String },
    IssueToken { sub: u128 },
    Respond { access_token: String },
    Reject { error: AllForOneError },
}

/// The callback ends refused, as an authentication failure with this detail.
pub open spec fn rejects_auth(detail: Seq<char>, next: CallbackState, action: CallbackAction) -> bool {
    &&& next is Rejected
    &&& action matches CallbackAction::Reject { error: AllForOneError::Auth(d) }
    &&& d@ == detail
}

/// The callback ends refused, as an internal failure with this detail.
pub open spec fn rejects_internal(detail: Seq<char>, next: CallbackState, action: CallbackAction) -> bool {
    &&& next is Rejected
    &&& action matches CallbackAction::Reject { error: AllForOneError::Internal(d) }
    &&& d@ == detail
}

/// The callback ends refused, as a datastore failure with this detail.
pub open spec fn rejects_datastore(detail: Seq<char>, next: CallbackState, action: CallbackAction) -> bool {
    &&& next is Rejected
    &&& action matches CallbackAction::Reject { error: AllForOneError::Db(d) }
    &&& d@ == detail
}

/// The step that a state and an event allow.
pub open spec fn callback_rule(
    state: CallbackState,
    event: CallbackEvent,
    next: CallbackState,
    action: CallbackAction,
) -> bool {
    match (state, event) {
        (
            CallbackState::Received { idp, code, state: returned },
            CallbackEvent::SessionFound { entry },
        ) => if entry.csrf_token@ == returned@ {
            &&& next == (CallbackState::Verified { idp })
            &&& action matches CallbackAction::ExchangeCode { idp: asked, code: sent, pkce_verifier }
            &&& asked == idp
            &&& sent@ == code@
            &&& pkce_verifier@ == entry.pkce_verifier@
        } else {
            rejects_auth("csrf token is invalid"@, next, action)
        },
        (CallbackState::Received { .. }, CallbackEvent::SessionMissing) => rejects_auth(
            "session is not found"@,
            next,
            action,
        ),
        (CallbackState::Received { .. }, CallbackEvent::CacheFailed { detail }) => rejects_internal(
            detail@,
            next,
            action,
        ),
        (CallbackState::Verified { idp }, CallbackEvent::CodeExchanged { access_token }) => {
            &&& next == (CallbackState::TokenExchanged { idp })
            &&& action matches CallbackAction::FetchIdentity { idp: asked, access_token: sent }
            &&& asked == idp
            &&& sent@ == access_token@
        },
        (CallbackState::Verified { .. }, CallbackEvent::ExchangeFailed { detail }) => rejects_auth(
            detail@,
            next,
            action,
        ),
        (CallbackState::TokenExchanged { idp }, CallbackEvent::IdentityFetched { idp_uid }) => {
            &&& next is IdentityKnown
            &&& action matches CallbackAction::ResolveUser { idp: asked, idp_uid: sent }
            &&& asked == idp
            &&& sent@ == idp_uid@
        },
        (
            CallbackState::TokenExchanged { .. },
            CallbackEvent::IdentityFailed { detail },
        ) => rejects_auth(detail@, next, action),
        (CallbackState::IdentityKnown, CallbackEvent::UserResolved { user_id }) => {
            &&& next is IdentityResolved
            &&& action == (CallbackAction::IssueToken { sub: user_id })
        },
        (CallbackState::IdentityKnown, CallbackEvent::DatastoreFailed { detail }) => rejects_datastore(
            detail@,
            next,
            action,
        ),
        (CallbackState::IdentityResolved, CallbackEvent::TokenIssued { jwt }) => {
            &&& next is Issued
            &&& action matches CallbackAction::Respond { access_token }
            &&& access_token@ == jwt@
        },
        (CallbackState::IdentityResolved, CallbackEvent::IssueFailed) => rejects_internal(
            "fail to issue jwt"@,
            next,
            action,
        ),
        _ => rejects_internal("event out of order"@, next, action),
    }
}

fn reject_auth(detail: &str) -> (step: (CallbackState, CallbackAction))
    ensures
        rejects_auth(detail@, step.0, step.1),
{
    (
        CallbackState::Rejected,
        CallbackAction::Reject { error: AllForOneError::Auth(detail.to_owned()) },
    )
}

fn reject_internal(detail: String) -> (step: (CallbackState, CallbackAction))
    ensures
        rejects_internal(detail@, step.0, step.1),
{
    (CallbackState::Rejected, CallbackAction::Reject { error: AllForOneError::Internal(detail) })
}

/// One step of a callback.
pub fn callback_step(state: CallbackState, event: CallbackEvent) -> (step: (
    CallbackState,
    CallbackAction,
))
    ensures
        callback_rule(state, event, step.0, step.1),
{
    match (state, event) {
        (
            CallbackState::Received { idp, code, state: returned },
            CallbackEvent::SessionFound { entry },
        ) => {
            if entry.csrf_token != returned {
                return reject_auth("csrf token is invalid");
            }
            (
                CallbackState::Verified { idp },
                CallbackAction::ExchangeCode { idp, code, pkce_verifier: entry.pkce_verifier },
            )
        },
        (CallbackState::Received { .. }, CallbackEvent::SessionMissing) => reject_auth(
            "session is not found",
        ),
        (CallbackState::Received { .. }, CallbackEvent::CacheFailed { detail }) => reject_internal(
            detail,
        ),
        (CallbackState::Verified { idp }, CallbackEvent::CodeExchanged { access_token }) => (
            CallbackState::TokenExchanged { idp },
            CallbackAction::FetchIdentity { idp, access_token },
        ),
        (CallbackState::Verified { .. }, CallbackEvent::ExchangeFailed { detail }) => (
            CallbackState::Rejected,
            CallbackAction::Reject { error: AllForOneError::Auth(detail) },
        ),
        (CallbackState::TokenExchanged { idp }, CallbackEvent::IdentityFetched { idp_uid }) => (
            CallbackState::IdentityKnown,
            CallbackAction::ResolveUser { idp, idp_uid },
        ),
        (CallbackState::TokenExchanged { .. }, CallbackEvent::IdentityFailed { detail }) => (
            CallbackState::Rejected,
            CallbackAction::Reject { error: AllForOneError::Auth(detail) },
        ),
        (CallbackState::IdentityKnown, CallbackEvent::UserResolved { user_id }) => (
            CallbackState::IdentityResolved,
            CallbackAction::IssueToken { sub: user_id },
        ),
        (CallbackState::IdentityKnown, CallbackEvent::DatastoreFailed { detail }) => (
            CallbackState::Rejected,
            CallbackAction::Reject { error: AllForOneError::Db(detail) },
        ),
        (CallbackState::IdentityResolved, CallbackEvent::TokenIssued { jwt }) => (
            CallbackState::Issued,
            CallbackAction::Respond { access_token: jwt },
        ),
        (CallbackState::IdentityResolved, CallbackEvent::IssueFailed) => reject_internal(
            "fail to issue jwt".to_owned(),
        ),
        _ => reject_internal("event out of order".to_owned()),
    }
}

/// How a callback starts: the first state and action, and the cookie that
/// clears the session cookie, which goes out with the answer whatever the
/// outcome.
#[derive(Debug)]
pub struct CallbackStart {
    pub state: CallbackState,
    pub action: CallbackAction,
    pub removal_cookie: SessionCookie,
}

/// The start that a request allows.
pub open spec fn callback_start_rule(
    path: Result<OAuthProvider, Rejection>,
    query: Result<OAuthCallbackQuery, Rejection>,
    session_cookie: Option<Seq<char>>,
    next: CallbackState,
    action: CallbackAction,
) -> bool {
    match path {
        Err(rejection) => {
            &&& next is Rejected
            &&& action matches CallbackAction::Reject {
                error: AllForOneError::Path { extractor_status, reason },
            }
            &&& extractor_status == rejection.status
            &&& reason@ == rejection.reason@
        },
        Ok(idp) => match query {
            Err(rejection) => {
                &&& next is Rejected
                &&& action matches CallbackAction::Reject {
                    error: AllForOneError::Query { extractor_status, reason },
                }
                &&& extractor_status == rejection.status
                &&& reason@ == rejection.reason@
            },
            Ok(params) => match session_cookie {
                None => rejects_auth("session id is not found"@, next, action),
                Some(value) => match parsed_uuid(value) {
                    None => rejects_auth("session id is not found"@, next, action),
                    Some(session_id) => {
                        &&& next matches CallbackState::Received { idp: kept, code, state }
                        &&& kept == idp
                        &&& code@ == params.code@
                        &&& state@ == params.state@
                        &&& action == (CallbackAction::FetchSession { session_id })
                    },
                },
            },
        },
    }
}

/// Takes a callback in: the path, the query, and the value of the session
/// cookie if the request carried one.
pub fn oauth_callback(
    query: Result<OAuthCallbackQuery, Rejection>,
    path: Result<OAuthProvider, Rejection>,
    session_cookie: Option<&str>,
    session_config: &SessionCookieConfig,
) -> (start: CallbackStart)
    ensures
        callback_start_rule(
            path,
            query,
            match session_cookie {
                Some(value) => Some(value@),
                None => None,
            },
            start.state,
            start.action,
        ),
        start.removal_cookie@ == session_config.removal_cookie(),
{
    let removal_cookie = session_config.create_session_removal_cookie();
    let idp = match path {
        Ok(idp) => idp,
        Err(rejection) => {
            return CallbackStart {
                state: CallbackState::Rejected,
                action: CallbackAction::Reject {
                    error: AllForOneError::Path {
                        extractor_status: rejection.status,
                        reason: rejection.reason,
                    },
                },
                removal_cookie,
            };
        },
    };
    let params = match query {
        Ok(params) => params,
        Err(rejection) => {
            return CallbackStart {
                state: CallbackState::Rejected,
                action: CallbackAction::Reject {
                    error: AllForOneError::Query {
                        extractor_status: rejection.status,
                        reason: rejection.reason,
                    },
                },
                removal_cookie,
            };
        },
    };
    let session_id = match session_cookie {
        Some(value) => parse_id(value),
        None => None,
    };
    match session_id {
        Some(session_id) => CallbackStart {
            state: CallbackState::Received { idp, code: params.code, state: params.state },
            action: CallbackAction::FetchSession { session_id },
            removal_cookie,
        },
        None => {
            let step = reject_auth("session id is not found");
            CallbackStart { state: step.0, action: step.1, removal_cookie }
        },
    }
}

/// A callback that presents the cookie of a login is led to the session
/// that the login stored, and to no other.
pub proof fn cookie_leads_back_to_its_session(
    plan: LoginPlan,
    idp: OAuthProvider,
    params: OAuthCallbackQuery,
    next: CallbackState,
    action: CallbackAction,
)
    requires
        parsed_uuid(plan.cookie.value@) == Some(plan.session_id),
        callback_start_rule(Ok(idp), Ok(params), Some(plan.cookie.value@), next, action),
    ensures
        action == (CallbackAction::FetchSession { session_id: plan.session_id }),
        next is Received,
{
}

/// A callback whose `state` differs from the CSRF token stored for its
/// session is refused as an authentication failure, and the code is not
/// exchanged.
pub proof fn csrf_mismatch_is_rejected(
    state: CallbackState,
    entry: AuthVerifyToken,
    next: CallbackState,
    action: CallbackAction,
)
    requires
        ({
            &&& state matches CallbackState::Received { state: returned, .. }
            &&& returned@ != entry.csrf_token@
        }),
        callback_rule(state, CallbackEvent::SessionFound { entry }, next, action),
    ensures
        next is Rejected,
        ({
            &&& action matches CallbackAction::Reject { error }
            &&& error.status() == crate::error::STATUS_UNAUTHORIZED
            &&& error.code_text() == crate::error::AUTH_ERROR@
        }),
        !(action is ExchangeCode),
{
}

/// A code is exchanged only as the step that follows a found session whose
/// CSRF token equals the returned `state`, and only with the verifier that
/// was stored with that token.
pub proof fn exchange_needs_matching_csrf(
    state: CallbackState,
    event: CallbackEvent,
    next: CallbackState,
    action: CallbackAction,
)
    requires
        callback_rule(state, event, next, action),
        action is ExchangeCode,
    ensures
        ({
            &&& state matches CallbackState::Received { state: returned, code, .. }
            &&& event matches CallbackEvent::SessionFound { entry }
            &&& entry.csrf_token@ == returned@
            &&& action matches CallbackAction::ExchangeCode { code: sent, pkce_verifier, .. }
            &&& sent@ == code@
            &&& pkce_verifier@ == entry.pkce_verifier@
        }),
{
}

/// A callback whose session id the cache does not hold is refused as an
/// authentication failure.
pub proof fn missing_session_is_rejected(state: CallbackState, next: CallbackState, action: CallbackAction)
    requires
        state is Received,
        callback_rule(state, CallbackEvent::SessionMissing, next, action),
    ensures
        next is Rejected,
        ({
            &&& action matches CallbackAction::Reject { error }
            &&& error.status() == crate::error::STATUS_UNAUTHORIZED
            &&& error.code_text() == crate::error::AUTH_ERROR@
        }),
{
}

/// What taking a session out of a cache leaves in the cache and reports: an
/// entry is removed as it is read.
pub open spec fn taken(cache: Map<u128, AuthVerifyToken>, session_id: u128) -> (
    Map<u128, AuthVerifyToken>,
    CallbackEvent,
) {
    if cache.dom().contains(session_id) {
        (cache.remove(session_id), CallbackEvent::SessionFound { entry: cache[session_id] })
    } else {
        (cache, CallbackEvent::SessionMissing)
    }
}

/// A session serves one callback: once its entry was taken, a second
/// callback with the same session id finds nothing and is refused as an
/// authentication failure, whatever `state` and code it brings.
pub proof fn session_serves_one_callback(
    cache: Map<u128, AuthVerifyToken>,
    session_id: u128,
    second: CallbackState,
    next: CallbackState,
    action: CallbackAction,
)
    requires
        second is Received,
        callback_rule(second, taken(taken(cache, session_id).0, session_id).1, next, action),
    ensures
        taken(taken(cache, session_id).0, session_id).1 is SessionMissing,
        next is Rejected,
        ({
            &&& action matches CallbackAction::Reject { error }
            &&& error.status() == crate::error::STATUS_UNAUTHORIZED
            &&& error.code_text() == crate::error::AUTH_ERROR@
        }),
{
}

/// How far a callback has come.
pub open spec fn progress(state: CallbackState) -> nat {
    match state {
        CallbackState::Received { .. } => 1,
        CallbackState::Verified { .. } => 2,
        CallbackState::TokenExchanged { .. } => 3,
        CallbackState::IdentityKnown => 4,
        CallbackState::IdentityResolved => 5,
        CallbackState::Issued => 6,
        CallbackState::Rejected => 6,
    }
}

/// No step is skipped or repeated: a step either refuses the callback or
/// moves it on by exactly one stage, and each action is handed out at its
/// own stage only.
pub proof fn steps_keep_their_order(
    state: CallbackState,
    event: CallbackEvent,
    next: CallbackState,
    action: CallbackAction,
)
    requires
        callback_rule(state, event, next, action),
    ensures
        next is Rejected || progress(next) == progress(state) + 1,
        next is Rejected <==> action is Reject,
        action is ExchangeCode ==> state is Received,
        action is FetchIdentity ==> state is Verified,
        action is ResolveUser ==> state is TokenExchanged,
        action is IssueToken ==> state is IdentityKnown,
        action is Respond ==> state is IdentityResolved,
        !(action is FetchSession),
        state is Issued || state is Rejected ==> next is Rejected,
{
}

} // verus!
