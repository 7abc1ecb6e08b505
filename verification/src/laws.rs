//! Properties of the service as a whole, proved over the specifications
//! that the step functions and helpers are verified against.

use vstd::prelude::*;

use crate::error::{error_response_view, error_status, AppErrorView};
use crate::extractor::{accepted_spec, bearer_spec};
use crate::handlers::login::{login_next, LoginActionView, LoginStep, StoreOutcome, UserRecord};
use crate::handlers::refresh::{
    logout_spec, lookup_in, refresh_next, LogoutActionView, LogoutStep, LookupOutcome,
    RefreshActionView, RefreshSession, RefreshStep,
};
use crate::handlers::register::{
    after_hash_spec, register_next, registered_role, RegisterActionView, RegisterStep,
};
use crate::ids::is_uuid_v4_text;
use crate::handlers::users::{
    create_user_next, effective_page, effective_per_page, get_users_spec, offset_fits, page_offset,
    CreateUserActionView, CreateUserStep, GetUsersActionView, GetUsersStep, UserQuery,
};
use crate::jwt::{
    claims_json, expiry, hs256_jwt, issued_access, issued_pair, issued_refresh, verify_token_post,
    Claims, TokenError, ACCESS_TOKEN_LIFETIME, JWT_SECRET, REFRESH_TOKEN_LIFETIME,
};
use crate::password::bcrypt_verifies;
use crate::response::{success_view, STATUS_OK};
use crate::session::{login_key_spec, refresh_key_spec, SESSION_TTL_SECONDS};

verus! {

/// Every error is answered as an error: the flag is set, there is no data,
/// and the status is the error's status, a client or server error code.
pub proof fn law_error_answers(e: AppErrorView)
    ensures
        error_response_view(e).error,
        error_response_view(e).data is None,
        error_response_view(e).status == error_status(e),
        400 <= error_response_view(e).status < 600,
{
}

/// A login gives the same answer for an unknown email as for a known email
/// with a wrong password, so the answer does not tell which emails exist.
pub proof fn law_login_hides_unknown_emails(
    password: String,
    record: UserRecord,
    unknown: LoginActionView,
    wrong: LoginActionView,
)
    requires
        bcrypt_verifies(password@, record.password_hash@) == Some(false),
        login_next(LoginStep::UserFetched { password, lookup: Ok(None) }, unknown),
        login_next(LoginStep::UserFetched { password, lookup: Ok(Some(record)) }, wrong),
    ensures
        unknown == wrong,
{
}

/// A login writes a session only for the user whose stored hash the given
/// password verifies against, with tokens issued for that user's id and
/// role, under the key of the issued refresh token, for seven days.
pub proof fn law_login_tokens_need_password(step: LoginStep, action: LoginActionView)
    requires
        login_next(step, action),
    ensures
        action matches LoginActionView::StoreSession { key, user_id, ttl_seconds, issued } ==> step matches LoginStep::UserFetched {
            password,
            lookup: Ok(Some(r)),
        } && bcrypt_verifies(password@, r.password_hash@) == Some(true) && user_id == r.id@
            && issued.user_id == r.id@ && issued.role == r.role@ && issued_pair(
            issued.tokens,
            r.id@,
            r.role@,
        ) && key == login_key_spec(issued.tokens.1) && ttl_seconds == SESSION_TTL_SECONDS,
{
}

/// A login succeeds only once the refresh token's session entry is written,
/// and its answer carries the tokens issued for the logged-in user and role.
pub proof fn law_login_succeeds_only_when_stored(step: LoginStep, action: LoginActionView)
    requires
        login_next(step, action),
    ensures
        action matches LoginActionView::Respond(Ok(r)) ==> step matches LoginStep::SessionStored {
            issued,
            outcome: StoreOutcome::Stored,
        } && r == success_view(STATUS_OK, "Login successful"@, issued@.tokens) && issued_pair(
            issued@.tokens,
            issued@.user_id,
            issued@.role,
        ),
{
}

/// Login writes its session entry under `refresh_token:` and the token,
/// while refresh and logout read and delete under `refresh:` and the token;
/// the two keys never meet, so a refresh never finds a session written at
/// login, and a logout never deletes one.
pub proof fn law_login_and_refresh_keys_differ(t1: Seq<char>, t2: Seq<char>)
    ensures
        login_key_spec(t1) != refresh_key_spec(t2),
{
    reveal_strlit("refresh_token:");
    reveal_strlit("refresh:");
    assert(login_key_spec(t1)[7] == '_');
    assert(refresh_key_spec(t2)[7] == ':');
}

/// A refresh goes on past the token check only with a token whose claims
/// say it is a refresh token, and it looks up that very token's session for
/// the claims' subject and role.
pub proof fn law_refresh_needs_refresh_token(step: RefreshStep, action: RefreshActionView)
    requires
        refresh_next(step, action),
    ensures
        action matches RefreshActionView::LookupSession { session } ==> step matches RefreshStep::TokenVerified {
            token,
            claims: Some(c),
        } && c.typ@ == "refresh"@ && session.key == refresh_key_spec(token@) && session.sub
            == c.sub@ && session.role == c.role@,
{
}

/// An access token is refused by refresh.
pub proof fn law_refresh_refuses_access_tokens(token: String, c: Claims, action: RefreshActionView)
    requires
        c.typ@ == "access"@,
        refresh_next(RefreshStep::TokenVerified { token, claims: Some(c) }, action),
    ensures
        action == RefreshActionView::Respond(Err(AppErrorView::Unauthorized("Invalid token type"@))),
{
    reveal_strlit("access");
    reveal_strlit("refresh");
    assert(c.typ@ != "refresh"@) by {
        assert(c.typ@[0] == 'a');
    }
}

/// A refresh rotates: its session entry is deleted only after it was found,
/// and it succeeds only after that delete, answering with a new pair of
/// tokens issued for the subject and role of the refreshed token.
pub proof fn law_refresh_rotates(step: RefreshStep, action: RefreshActionView)
    requires
        refresh_next(step, action),
    ensures
        action matches RefreshActionView::RevokeSession { session } ==> step matches RefreshStep::SessionLooked {
            session: s,
            outcome: LookupOutcome::Found,
        } && session == s@,
        action matches RefreshActionView::Respond(Ok(r)) ==> step matches RefreshStep::SessionRevoked {
            session,
        } && r.data is Some && r == success_view(STATUS_OK, "Refresh successful"@, r.data->0)
            && issued_pair(r.data->0, session@.sub, session@.role),
{
}

/// A refresh token is used at most once: once its session entry is gone
/// from the store (deleted by an earlier refresh of the same token, or by a
/// logout with it, which deletes the very same key), a refresh with it that
/// reaches the store is refused with `Token expired`.
pub proof fn law_refresh_token_single_use(
    token: String,
    c: Claims,
    session: RefreshSession,
    store: Set<Seq<char>>,
    action: RefreshActionView,
)
    requires
        refresh_next(
            RefreshStep::TokenVerified { token, claims: Some(c) },
            RefreshActionView::LookupSession { session: session@ },
        ),
        refresh_next(
            RefreshStep::SessionLooked {
                session,
                outcome: lookup_in(store.remove(refresh_key_spec(token@)), session@.key),
            },
            action,
        ),
    ensures
        action == RefreshActionView::Respond(Err(AppErrorView::Unauthorized("Token expired"@))),
        logout_spec(LogoutStep::Begin { token }) == (LogoutActionView::RevokeSession {
            key: session@.key,
        }),
{
}

/// Distinct users or roles are never issued the same token, and an access
/// token is never a refresh token.
pub proof fn law_tokens_one_to_one(
    a: Seq<char>,
    b: Seq<char>,
    u1: Seq<char>,
    r1: Seq<char>,
    u2: Seq<char>,
    r2: Seq<char>,
)
    ensures
        issued_access(a, u1, r1) && issued_access(b, u2, r2) && a == b ==> u1 == u2 && r1 == r2,
        issued_refresh(a, u1, r1) && issued_refresh(b, u2, r2) && a == b ==> u1 == u2 && r1
            == r2,
        issued_access(a, u1, r1) && issued_refresh(b, u2, r2) ==> a != b,
{
    reveal_strlit("access");
    reveal_strlit("refresh");
    assert("access"@ != "refresh"@) by {
        assert("access"@[0] != "refresh"@[0]);
    }
}

/// A logout succeeds whenever the session store can be reached, whether or
/// not the token had a session.
pub proof fn law_logout_succeeds_when_reachable()
    ensures
        logout_spec(LogoutStep::Revoked { connected: true }) == LogoutActionView::Respond(Ok(())),
{
}

/// A registration inserts its user with role `user` and with a hash that
/// verifies the password it was given, under a fresh UUID; and when it
/// succeeds, its answer carries tokens issued for the registered user with
/// role `user`, never `admin`.
pub proof fn law_registration_role_and_hash(step: RegisterStep, action: RegisterActionView)
    requires
        register_next(step, action),
    ensures
        action matches RegisterActionView::InsertUser { user_id, role, password_hash, .. } ==> step matches RegisterStep::Validated {
            password,
            ..
        } && role == registered_role() && bcrypt_verifies(password@, password_hash) == Some(true)
            && is_uuid_v4_text(user_id),
        action matches RegisterActionView::Respond(Ok(r)) ==> step matches RegisterStep::RefreshTokenStored {
            registration,
            ..
        } && r.data == Some(registration@.tokens) && issued_pair(
            registration@.tokens,
            registration@.user_id,
            registered_role(),
        ) && registered_role() != "admin"@,
{
    reveal_strlit("user");
    reveal_strlit("admin");
    assert(registered_role().len() == 4);
    assert(registered_role() != "admin"@);
    match step {
        RegisterStep::Validated { outcome: Ok(()), .. } => {
            assert(!(action matches RegisterActionView::Respond(Ok(_))));
        },
        _ => {},
    }
}

/// A header `Bearer <t>` yields exactly `t`.
pub proof fn law_bearer_round_trip(header: &str, t: Seq<char>)
    requires
        header@ == "Bearer "@ + t,
    ensures
        bearer_spec(Some(header)) == Ok::<Seq<char>, AppErrorView>(t),
{
    reveal_strlit("Bearer ");
    assert(header@.subrange(0, 7) =~= "Bearer "@);
    assert(header@.skip(7) =~= t);
}

/// Only admins list users; anyone else is refused before the database is asked.
pub proof fn law_listing_admin_only(role: String, query: UserQuery)
    requires
        role@ != "admin"@,
    ensures
        get_users_spec::<()>(GetUsersStep::Begin { role, query }) == GetUsersActionView::<
            (),
        >::Respond(Err(AppErrorView::Forbidden("Admin access only"@))),
{
}

/// The page asked for is at least 1, the page size at most 100, and
/// consecutive pages follow each other without gap or overlap.
pub proof fn law_pages_tile(q1: UserQuery, q2: UserQuery, p: i64)
    requires
        1 <= p < i64::MAX,
        q1.page == Some(p),
        q2.page == Some((p + 1) as i64),
        q1.per_page == q2.per_page,
    ensures
        effective_page(q1) >= 1,
        effective_per_page(q1) <= 100,
        page_offset(q2) == page_offset(q1) + effective_per_page(q1),
{
    assert(page_offset(q2) == page_offset(q1) + effective_per_page(q1)) by (nonlinear_arith)
        requires
            page_offset(q1) == (p - 1) * effective_per_page(q1),
            page_offset(q2) == p * effective_per_page(q1),
    ;
}

/// A refresh token outlives an access token issued at the same moment, for
/// any moment from 300 seconds before the Unix epoch on whose expiries fit
/// the claims' unsigned field.
pub proof fn law_refresh_outlives_access(now: i64)
    requires
        -ACCESS_TOKEN_LIFETIME <= now,
        now + REFRESH_TOKEN_LIFETIME <= usize::MAX,
    ensures
        expiry(now, ACCESS_TOKEN_LIFETIME) < expiry(now, REFRESH_TOKEN_LIFETIME),
{
}

/// An admin's listing counts and then reads exactly the page asked for. The
/// page number is the one asked for (1 when absent or below 1), the page size
/// the one asked for (10 when absent, at most 100); the count filters names
/// by the search text with a `%` on each side; and once counted, the read
/// takes page-size rows after skipping (page - 1) * page-size rows.
pub proof fn law_listing_reads_requested_page<U>(
    role: String,
    query: UserQuery,
    pattern: String,
    total: i64,
)
    requires
        role@ == "admin"@,
        offset_fits(query),
    ensures
        ({
            let p: int = match query.page {
                Some(x) => if x < 1 {
                    1
                } else {
                    x as int
                },
                None => 1,
            };
            let n: int = match query.per_page {
                Some(x) => if x > 100 {
                    100
                } else {
                    x as int
                },
                None => 10,
            };
            let s: Seq<char> = match query.search {
                Some(t) => t@,
                None => Seq::empty(),
            };
            &&& get_users_spec::<U>(GetUsersStep::Begin { role, query })
                == GetUsersActionView::<U>::CountUsers {
                pattern: "%"@ + s + "%"@,
                page: p as i64,
                per_page: n as i64,
                offset: ((p - 1) * n) as i64,
            }
            &&& get_users_spec::<U>(
                GetUsersStep::Counted {
                    pattern,
                    page: p as i64,
                    per_page: n as i64,
                    offset: ((p - 1) * n) as i64,
                    count: Ok(total),
                },
            ) == GetUsersActionView::<U>::FetchUsers {
                pattern: pattern@,
                limit: n as i64,
                offset: ((p - 1) * n) as i64,
                total,
                page: p as i64,
            }
        }),
{
}

/// Once the matching users are counted, the read asks for as many rows as
/// the page size, after skipping the page's offset, under the same name
/// filter, and carries the count and the page number on.
pub proof fn law_listing_fetch_takes_counted_page<U>(
    pattern: String,
    page: i64,
    per_page: i64,
    offset: i64,
    total: i64,
)
    ensures
        ({
            let a = get_users_spec::<U>(
                GetUsersStep::Counted { pattern, page, per_page, offset, count: Ok(total) },
            );
            &&& a is FetchUsers
            &&& a->FetchUsers_limit == per_page
            &&& a->FetchUsers_offset == offset
            &&& a->FetchUsers_pattern == pattern@
            &&& a->FetchUsers_total == total
            &&& a->FetchUsers_page == page
        }),
{
}

/// The session key of a refresh token is `refresh:` followed by the whole
/// token: the token reads back from the key after its 8-character prefix,
/// so distinct tokens have distinct keys; a logout deletes exactly the key
/// of the token it was given.
pub proof fn law_refresh_key_is_whole_token(t1: Seq<char>, t2: Seq<char>, token: String)
    ensures
        refresh_key_spec(t1).len() == t1.len() + 8,
        refresh_key_spec(t1).subrange(0, 8) == "refresh:"@,
        refresh_key_spec(t1).skip(8) == t1,
        refresh_key_spec(t1) == refresh_key_spec(t2) ==> t1 == t2,
        logout_spec(LogoutStep::Begin { token }) == (LogoutActionView::RevokeSession {
            key: "refresh:"@ + token@,
        }),
{
    reveal_strlit("refresh:");
    assert(refresh_key_spec(t1).subrange(0, 8) =~= "refresh:"@);
    assert(refresh_key_spec(t1).skip(8) =~= t1);
    assert(refresh_key_spec(t2).skip(8) =~= t2);
}

/// The session key login writes is `refresh_token:` followed by the whole
/// refresh token, so distinct tokens have distinct keys.
pub proof fn law_login_key_is_whole_token(t1: Seq<char>, t2: Seq<char>)
    ensures
        login_key_spec(t1).len() == t1.len() + 14,
        login_key_spec(t1).subrange(0, 14) == "refresh_token:"@,
        login_key_spec(t1).skip(14) == t1,
        login_key_spec(t1) == login_key_spec(t2) ==> t1 == t2,
{
    reveal_strlit("refresh_token:");
    assert(login_key_spec(t1).subrange(0, 14) =~= "refresh_token:"@);
    assert(login_key_spec(t1).skip(14) =~= t1);
    assert(login_key_spec(t2).skip(14) =~= t2);
}

/// Once the password is hashed, a registration inserts the user under the
/// chosen id with exactly that hash, the given name and email, and role
/// `user`; it answers `Hash password failed` only when there is no hash.
pub proof fn law_registration_inserts_the_hash(
    name: Seq<char>,
    email: Seq<char>,
    h: Seq<char>,
    id: Seq<char>,
)
    ensures
        after_hash_spec(name, email, Some(h), id) == (RegisterActionView::InsertUser {
            user_id: id,
            name,
            email,
            password_hash: h,
            role: "user"@,
        }),
        after_hash_spec(name, email, None, id) == RegisterActionView::Respond(
            Err(AppErrorView::Internal("Hash password failed"@)),
        ),
{
}

/// A validated registration either inserts the user, with the given name
/// and email, role `user`, a hash that verifies the given password and a
/// version 4 UUID, or answers that hashing failed; nothing else.
pub proof fn law_validated_registration_hashes_or_fails(
    name: String,
    email: String,
    password: String,
    action: RegisterActionView,
)
    requires
        register_next(RegisterStep::Validated { name, email, password, outcome: Ok(()) }, action),
    ensures
        action == RegisterActionView::Respond(Err(AppErrorView::Internal("Hash password failed"@)))
            || ({
            &&& action is InsertUser
            &&& action->InsertUser_name == name@
            &&& action->InsertUser_email == email@
            &&& action->InsertUser_role == "user"@
            &&& bcrypt_verifies(password@, action->InsertUser_password_hash) == Some(true)
            &&& is_uuid_v4_text(action->InsertUser_user_id)
        }),
{
}

/// A validated user creation inserts a row with the given name and email
/// under the text of a version 4 UUID, and does nothing else.
pub proof fn law_created_user_keeps_fields<U>(
    name: String,
    email: String,
    action: CreateUserActionView<U>,
)
    requires
        create_user_next(CreateUserStep::<U>::Validated { name, email, outcome: Ok(()) }, action),
    ensures
        action is InsertUser,
        action->InsertUser_name == name@,
        action->InsertUser_email == email@,
        is_uuid_v4_text(action->InsertUser_id),
{
}

/// A token this service issued is refused only as expired, never as
/// invalid; accepted, it yields exactly the claims it was issued with, and
/// authentication hands those claims on or answers `Invalid or expired token`.
pub proof fn law_issued_token_accepted_or_expired(
    sub: Seq<char>,
    role: Seq<char>,
    exp: usize,
    typ: Seq<char>,
    v: Result<String, TokenError>,
)
    requires
        verify_token_post(hs256_jwt(sub, role, exp, typ, JWT_SECRET@), v),
    ensures
        v is Ok ==> v->Ok_0@ == claims_json(sub, role, exp, typ),
        v is Err ==> v->Err_0 == TokenError::Expired,
        accepted_spec(v) == Ok::<Seq<char>, AppErrorView>(claims_json(sub, role, exp, typ))
            || accepted_spec(v) == Err::<Seq<char>, AppErrorView>(
            AppErrorView::Unauthorized("Invalid or expired token"@),
        ),
{
}

} // verus!
