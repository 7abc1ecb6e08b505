use vstd::prelude::*;

use crate::error::{AppError, AppErrorView};
use crate::jwt::{issue_tokens, issued_pair, Claims};
use crate::response::{success_view, ApiResponse, ApiResponseView, AuthResponse, STATUS_OK};
use crate::session::{refresh_key_spec, refresh_session_key};
use crate::text::{owned, same_text};

verus! {

/// How looking a refresh token's session up went: found, not there, or the
/// store could not be reached or read.
pub enum LookupOutcome {
    Found,
    Missing,
    Unavailable,
}

/// The outcome of looking `key` up in a session store whose present keys
/// are `store`.
pub open spec fn lookup_in(store: Set<Seq<char>>, key: Seq<char>) -> LookupOutcome {
    if store.contains(key) {
        LookupOutcome::Found
    } else {
        LookupOutcome::Missing
    }
}

/// A refresh under way: the session key of the presented refresh token and
/// the subject and role its claims name. Only a refresh step makes one.
pub struct RefreshSession {
    key: String,
    sub: String,
    role: String,
}

/// The mathematical content of a [`RefreshSession`].
pub struct RefreshSessionView {
    pub key: Seq<char>,
    pub sub: Seq<char>,
    pub role: Seq<char>,
}

impl View for RefreshSession {
    type V = RefreshSessionView;

    closed spec fn view(&self) -> RefreshSessionView {
        RefreshSessionView { key: self.key@, sub: self.sub@, role: self.role@ }
    }
}

impl RefreshSession {
    /// The session-store key of the presented refresh token.
    pub fn key(&self) -> (res: &str)
        ensures
            res@ == self@.key,
    {
        self.key.as_str()
    }
}

/// Where a token refresh stands, with the outcome of the work it last asked for.
pub enum RefreshStep {
    /// A refresh request arrived with this refresh token.
    Begin { token: String },
    /// The token was checked: its claims, or `None` when it was refused.
    TokenVerified { token: String, claims: Option<Claims> },
    /// The token's session entry was looked up.
    SessionLooked { session: RefreshSession, outcome: LookupOutcome },
    /// The session entry was deleted (whether that worked is not looked at).
    SessionRevoked { session: RefreshSession },
}

/// What a token refresh asks for next.
pub enum RefreshAction {
    /// Check the token and read its claims.
    VerifyToken { token: String },
    /// Look the session's key up in the session store.
    LookupSession { session: RefreshSession },
    /// Delete the session's key from the session store.
    RevokeSession { session: RefreshSession },
    /// Answer the request.
    Respond(Result<ApiResponse<AuthResponse>, AppError>),
}

/// The mathematical content of a [`RefreshAction`].
pub enum RefreshActionView {
    VerifyToken { token: Seq<char> },
    LookupSession { session: RefreshSessionView },
    RevokeSession { session: RefreshSessionView },
    Respond(Result<ApiResponseView<(Seq<char>, Seq<char>)>, AppErrorView>),
}

impl View for RefreshAction {
    type V = RefreshActionView;

    open spec fn view(&self) -> RefreshActionView {
        match self {
            RefreshAction::VerifyToken { token } => RefreshActionView::VerifyToken {
                token: token@,
            },
            RefreshAction::LookupSession { session } => RefreshActionView::LookupSession {
                session: session@,
            },
            RefreshAction::RevokeSession { session } => RefreshActionView::RevokeSession {
                session: session@,
            },
            RefreshAction::Respond(r) => RefreshActionView::Respond(
                match r {
                    Ok(a) => Ok(a@),
                    Err(e) => Err(e@),
                },
            ),
        }
    }
}

/// The refresh protocol: the token must check out and be a refresh token,
/// its session entry must exist; the entry is then deleted and a new pair of
/// tokens issued for the subject and role of the token's claims. The issue
/// time comes from the clock, so for that last step what is fixed is what
/// holds of every outcome.
pub open spec fn refresh_next(step: RefreshStep, action: RefreshActionView) -> bool {
    match step {
        RefreshStep::Begin { token } => action == RefreshActionView::VerifyToken { token: token@ },
        RefreshStep::TokenVerified { token, claims } => match claims {
            None => action == RefreshActionView::Respond(
                Err(AppErrorView::Unauthorized("Invalid refresh token"@)),
            ),
            Some(c) => if c.typ@ != "refresh"@ {
                action == RefreshActionView::Respond(
                    Err(AppErrorView::Unauthorized("Invalid token type"@)),
                )
            } else {
                action == RefreshActionView::LookupSession {
                    session: RefreshSessionView {
                        key: refresh_key_spec(token@),
                        sub: c.sub@,
                        role: c.role@,
                    },
                }
            },
        },
        RefreshStep::SessionLooked { session, outcome } => match outcome {
            LookupOutcome::Unavailable => action == RefreshActionView::Respond(
                Err(AppErrorView::ServiceUnavailable("Auth unavailable"@)),
            ),
            LookupOutcome::Missing => action == RefreshActionView::Respond(
                Err(AppErrorView::Unauthorized("Token expired"@)),
            ),
            LookupOutcome::Found => action == RefreshActionView::RevokeSession {
                session: session@,
            },
        },
        RefreshStep::SessionRevoked { session } => match action {
            RefreshActionView::Respond(Ok(r)) => match r.data {
                Some(tokens) => {
                    &&& r == success_view(STATUS_OK, "Refresh successful"@, tokens)
                    &&& issued_pair(tokens, session@.sub, session@.role)
                },
                None => false,
            },
            _ => false,
        },
    }
}

/// One step of a token refresh: given where it stands, what to do next.
pub fn refresh(step: RefreshStep) -> (action: RefreshAction)
    ensures
        refresh_next(step, action@),
{
    match step {
        RefreshStep::Begin { token } => RefreshAction::VerifyToken { token },
        RefreshStep::TokenVerified { token, claims } => match claims {
            None => RefreshAction::Respond(
                Err(AppError::Unauthorized(owned("Invalid refresh token"))),
            ),
            Some(c) => {
                if !same_text(c.typ.as_str(), "refresh") {
                    RefreshAction::Respond(Err(AppError::Unauthorized(owned("Invalid token type"))))
                } else {
                    let key = refresh_session_key(token.as_str());
                    RefreshAction::LookupSession {
                        session: RefreshSession { key, sub: c.sub, role: c.role },
                    }
                }
            },
        },
        RefreshStep::SessionLooked { session, outcome } => match outcome {
            LookupOutcome::Unavailable => RefreshAction::Respond(
                Err(AppError::ServiceUnavailable(owned("Auth unavailable"))),
            ),
            LookupOutcome::Missing => RefreshAction::Respond(
                Err(AppError::Unauthorized(owned("Token expired"))),
            ),
            LookupOutcome::Found => RefreshAction::RevokeSession { session },
        },
        RefreshStep::SessionRevoked { session } => {
            let tokens = issue_tokens(session.sub.as_str(), session.role.as_str());
            RefreshAction::Respond(
                Ok(ApiResponse::success(STATUS_OK, "Refresh successful", tokens)),
            )
        },
    }
}

/// Where a logout stands.
pub enum LogoutStep {
    /// A logout request arrived with this refresh token.
    Begin { token: String },
    /// The delete of the session entry was attempted; `connected` tells
    /// whether the session store could be reached at all.
    Revoked { connected: bool },
}

/// What a logout asks for next.
pub enum LogoutAction {
    /// Delete `key` from the session store.
    RevokeSession { key: String },
    /// Answer the request.
    Respond(Result<(), AppError>),
}

/// The mathematical content of a [`LogoutAction`].
pub enum LogoutActionView {
    RevokeSession { key: Seq<char> },
    Respond(Result<(), AppErrorView>),
}

impl View for LogoutAction {
    type V = LogoutActionView;

    open spec fn view(&self) -> LogoutActionView {
        match self {
            LogoutAction::RevokeSession { key } => LogoutActionView::RevokeSession { key: key@ },
            LogoutAction::Respond(r) => LogoutActionView::Respond(
                match r {
                    Ok(()) => Ok(()),
                    Err(e) => Err(e@),
                },
            ),
        }
    }
}

/// The logout protocol: delete the token's session entry; only an
/// unreachable session store is an error, a failed delete is not.
pub open spec fn logout_spec(step: LogoutStep) -> LogoutActionView {
    match step {
        LogoutStep::Begin { token } => LogoutActionView::RevokeSession {
            key: refresh_key_spec(token@),
        },
        LogoutStep::Revoked { connected } => if connected {
            LogoutActionView::Respond(Ok(()))
        } else {
            LogoutActionView::Respond(Err(AppErrorView::ServiceUnavailable("Auth unavailable"@)))
        },
    }
}

/// One step of a logout: given where it stands, what to do next.
pub fn logout(step: LogoutStep) -> (action: LogoutAction)
    ensures
        action@ == logout_spec(step),
{
    match step {
        LogoutStep::Begin { token } => LogoutAction::RevokeSession {
            key: refresh_session_key(token.as_str()),
        },
        LogoutStep::Revoked { connected } => if connected {
            LogoutAction::Respond(Ok(()))
        } else {
            LogoutAction::Respond(Err(AppError::ServiceUnavailable(owned("Auth unavailable"))))
        },
    }
}

} // verus!
