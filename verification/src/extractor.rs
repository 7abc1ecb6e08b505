use vstd::prelude::*;

use crate::error::{AppError, AppErrorView};
use crate::jwt::{verify_token, verify_token_post, Claims, TokenError};
use crate::text::{owned, same_text};

verus! {

/// The identity a request carries once its token has been accepted.
pub struct AuthUser {
    pub user_id: String,
    pub role: String,
}

/// What the `Authorization` header yields: the text after `Bearer `, or the
/// refusal for a missing header or another scheme.
pub open spec fn bearer_spec(header: Option<&str>) -> Result<Seq<char>, AppErrorView> {
    match header {
        None => Err(AppErrorView::Unauthorized("Missing Authorization header"@)),
        Some(h) => if h@.len() >= 7 && h@.subrange(0, 7) == "Bearer "@ {
            Ok(h@.skip(7))
        } else {
            Err(AppErrorView::Unauthorized("Invalid Authorization format"@))
        },
    }
}

/// Takes the token out of an `Authorization: Bearer <token>` header.
/// `header` is `None` when the request has no such header or its value is
/// not visible ASCII.
pub fn bearer_token(header: Option<&str>) -> (res: Result<String, AppError>)
    ensures
        match bearer_spec(header) {
            Ok(t) => res matches Ok(s) && s@ == t,
            Err(e) => res matches Err(r) && r@ == e,
        },
{
    proof {
        reveal_strlit("Bearer ");
    }
    match header {
        None => Err(AppError::Unauthorized(owned("Missing Authorization header"))),
        Some(h) => {
            let n = h.unicode_len();
            if n >= 7 && same_text(h.substring_char(0, 7), "Bearer ") {
                Ok(owned(h.substring_char(7, n)))
            } else {
                Err(AppError::Unauthorized(owned("Invalid Authorization format")))
            }
        },
    }
}

/// The outcome of a request's authentication, given the verifier's answer
/// for its token: an accepted token's claims are handed on, a refused token
/// is refused with `Unauthorized("Invalid or expired token")`.
pub open spec fn accepted_spec(verified: Result<String, TokenError>) -> Result<Seq<char>, AppErrorView> {
    match verified {
        Ok(payload) => Ok(payload@),
        Err(_) => Err(AppErrorView::Unauthorized("Invalid or expired token"@)),
    }
}

/// The mathematical content of an authentication result.
pub open spec fn auth_result_view(res: Result<String, AppError>) -> Result<Seq<char>, AppErrorView> {
    match res {
        Ok(p) => Ok(p@),
        Err(e) => Err(e@),
    }
}

/// Maps the verifier's answer for a request's token to the request's
/// authentication result.
pub fn accept_verified(verified: Result<String, TokenError>) -> (res: Result<String, AppError>)
    ensures
        auth_result_view(res) == accepted_spec(verified),
{
    match verified {
        Ok(payload) => Ok(payload),
        Err(_) => Err(AppError::Unauthorized(owned("Invalid or expired token"))),
    }
}

/// Checks the bearer token of a request and gives back the JSON text of its
/// claims. A missing or malformed header is refused as `bearer_token` says;
/// otherwise the result is the verifier's answer for the token, mapped by
/// [`accept_verified`].
pub fn authenticate(header: Option<&str>) -> (res: Result<String, AppError>)
    ensures
        match bearer_spec(header) {
            Err(e) => res matches Err(r) && r@ == e,
            Ok(t) => exists|v: Result<String, TokenError>|
                #[trigger] verify_token_post(t, v) && auth_result_view(res) == accepted_spec(v),
        },
{
    let token = match bearer_token(header) {
        Ok(t) => t,
        Err(e) => return Err(e),
    };
    let verified = verify_token(token.as_str());
    let ghost v = verified;
    let res = accept_verified(verified);
    assert(verify_token_post(token@, v));
    res
}

/// The identity named by the claims of an accepted token; no claims (the
/// token's claims did not read as this service's claims) is refused like an
/// invalid token.
pub fn auth_user(claims: Option<Claims>) -> (res: Result<AuthUser, AppError>)
    ensures
        match claims {
            None => res matches Err(e) && e@ == AppErrorView::Unauthorized(
                "Invalid or expired token"@,
            ),
            Some(c) => res matches Ok(u) && u.user_id == c.sub && u.role == c.role,
        },
{
    match claims {
        None => Err(AppError::Unauthorized(owned("Invalid or expired token"))),
        Some(c) => Ok(AuthUser { user_id: c.sub, role: c.role }),
    }
}

} // verus!
