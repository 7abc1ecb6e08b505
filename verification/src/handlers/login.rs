use vstd::prelude::*;

use crate::error::{AppError, AppErrorView};
use crate::password::{bcrypt_verifies, verify_password};
use crate::response::{success_view, ApiResponse, ApiResponseView, AuthResponse, STATUS_OK};
use crate::jwt::{issued_pair, IssuedTokens, IssuedView};
use crate::session::{login_key_spec, login_session_key, SESSION_TTL_SECONDS};
use crate::text::owned;

verus! {

/// A user row as login reads it: id, stored password hash, role.
pub struct UserRecord {
    pub id: String,
    pub password_hash: String,
    pub role: String,
}

/// How writing a session entry went: written, no connection to the store
/// (with the connection error's text), or the write itself failed.
pub enum StoreOutcome {
    Stored,
    ConnectFailed(String),
    WriteFailed,
}

/// Where a login stands, with the outcome of the work it last asked for.
pub enum LoginStep {
    /// A login request arrived.
    Begin { email: String, password: String },
    /// The user row for the email was looked up: a database error's text, no
    /// such user, or the row.
    UserFetched { password: String, lookup: Result<Option<UserRecord>, String> },
    /// The refresh token's session entry was written, or not.
    SessionStored { issued: IssuedTokens, outcome: StoreOutcome },
}

/// What a login asks for next.
pub enum LoginAction {
    /// Look up the user row for `email`; `password` comes back with the result.
    FetchUser { email: String, password: String },
    /// Write `user_id` under `key` in the session store for `ttl_seconds`.
    StoreSession { key: String, user_id: String, ttl_seconds: u64, issued: IssuedTokens },
    /// Answer the request.
    Respond(Result<ApiResponse<AuthResponse>, AppError>),
}

/// The mathematical content of a [`LoginAction`].
pub enum LoginActionView {
    FetchUser { email: Seq<char>, password: Seq<char> },
    StoreSession { key: Seq<char>, user_id: Seq<char>, ttl_seconds: u64, issued: IssuedView },
    Respond(Result<ApiResponseView<(Seq<char>, Seq<char>)>, AppErrorView>),
}

impl View for LoginAction {
    type V = LoginActionView;

    open spec fn view(&self) -> LoginActionView {
        match self {
            LoginAction::FetchUser { email, password } => LoginActionView::FetchUser {
                email: email@,
                password: password@,
            },
            LoginAction::StoreSession { key, user_id, ttl_seconds, issued } =>
                LoginActionView::StoreSession {
                key: key@,
                user_id: user_id@,
                ttl_seconds: *ttl_seconds,
                issued: issued@,
            },
            LoginAction::Respond(r) => LoginActionView::Respond(
                match r {
                    Ok(a) => Ok(a@),
                    Err(e) => Err(e@),
                },
            ),
        }
    }
}

/// The refusal for an unknown email and for a wrong password alike.
pub open spec fn invalid_credentials() -> AppErrorView {
    AppErrorView::Unauthorized("Invalid credentials"@)
}

/// The login protocol: look the user up by email, check the password with
/// bcrypt, issue tokens for the user's id and role, record the refresh token
/// in the session store for seven days, answer with both tokens. The issue
/// time comes from the clock, so for that step what is fixed is what holds
/// of every outcome.
pub open spec fn login_next(step: LoginStep, action: LoginActionView) -> bool {
    match step {
        LoginStep::Begin { email, password } => action == LoginActionView::FetchUser {
            email: email@,
            password: password@,
        },
        LoginStep::UserFetched { password, lookup } => match lookup {
            Err(m) => action == LoginActionView::Respond(Err(AppErrorView::Internal(m@))),
            Ok(None) => action == LoginActionView::Respond(Err(invalid_credentials())),
            Ok(Some(r)) => match bcrypt_verifies(password@, r.password_hash@) {
                None => action == LoginActionView::Respond(
                    Err(AppErrorView::Internal("Password verify failed"@)),
                ),
                Some(false) => action == LoginActionView::Respond(Err(invalid_credentials())),
                Some(true) => match action {
                    LoginActionView::StoreSession { key, user_id, ttl_seconds, issued } => {
                        &&& issued.user_id == r.id@
                        &&& issued.role == r.role@
                        &&& issued_pair(issued.tokens, r.id@, r.role@)
                        &&& key == login_key_spec(issued.tokens.1)
                        &&& user_id == r.id@
                        &&& ttl_seconds == SESSION_TTL_SECONDS
                    },
                    _ => false,
                },
            },
        },
        LoginStep::SessionStored { issued, outcome } => match outcome {
            StoreOutcome::Stored => {
                &&& action == LoginActionView::Respond(
                    Ok(success_view(STATUS_OK, "Login successful"@, issued@.tokens)),
                )
                &&& issued_pair(issued@.tokens, issued@.user_id, issued@.role)
            },
            StoreOutcome::ConnectFailed(m) => action == LoginActionView::Respond(
                Err(AppErrorView::Internal(m@)),
            ),
            StoreOutcome::WriteFailed => action == LoginActionView::Respond(
                Err(AppErrorView::ServiceUnavailable("Auth service unavailable"@)),
            ),
        },
    }
}

/// One step of a login: given where it stands, what to do next.
pub fn login(step: LoginStep) -> (action: LoginAction)
    ensures
        login_next(step, action@),
{
    match step {
        LoginStep::Begin { email, password } => LoginAction::FetchUser { email, password },
        LoginStep::UserFetched { password, lookup } => match lookup {
            Err(m) => LoginAction::Respond(Err(AppError::Internal(m))),
            Ok(None) => LoginAction::Respond(
                Err(AppError::Unauthorized(owned("Invalid credentials"))),
            ),
            Ok(Some(r)) => match verify_password(password.as_str(), r.password_hash.as_str()) {
                None => LoginAction::Respond(
                    Err(AppError::Internal(owned("Password verify failed"))),
                ),
                Some(false) => LoginAction::Respond(
                    Err(AppError::Unauthorized(owned("Invalid credentials"))),
                ),
                Some(true) => {
                    let issued = IssuedTokens::issue(r.id.as_str(), r.role.as_str());
                    let key = login_session_key(issued.refresh_token());
                    LoginAction::StoreSession {
                        key,
                        user_id: r.id,
                        ttl_seconds: SESSION_TTL_SECONDS,
                        issued,
                    }
                },
            },
        },
        LoginStep::SessionStored { issued, outcome } => match outcome {
            StoreOutcome::Stored => {
                let tokens = issued.into_tokens();
                LoginAction::Respond(
                    Ok(ApiResponse::success(STATUS_OK, "Login successful", tokens)),
                )
            },
            StoreOutcome::ConnectFailed(m) => LoginAction::Respond(Err(AppError::Internal(m))),
            StoreOutcome::WriteFailed => LoginAction::Respond(
                Err(AppError::ServiceUnavailable(owned("Auth service unavailable"))),
            ),
        },
    }
}

} // verus!
