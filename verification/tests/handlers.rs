use auth_api::error::AppError;
use auth_api::handlers::login::{login, LoginAction, LoginStep, StoreOutcome, UserRecord};
use auth_api::handlers::refresh::{
    logout, refresh, LogoutAction, LogoutStep, LookupOutcome, RefreshAction, RefreshStep,
};
use auth_api::handlers::register::{register, register_after_hash, RegisterAction, RegisterStep};
use auth_api::handlers::users::{
    create_user, get_users, offset_in_range, CreateUserAction, CreateUserStep, GetUsersAction,
    GetUsersStep, UserQuery,
};
use auth_api::jwt::{verify_token, Claims, IssuedTokens, REFRESH_TOKEN_LIFETIME};
use auth_api::password::{hash_password, verify_password};
use auth_api::response::{ApiResponse, AuthResponse};

fn s(x: &str) -> String {
    x.to_string()
}

fn unauthorized<T>(r: Result<T, AppError>, msg: &str) {
    match r {
        Err(AppError::Unauthorized(m)) => assert_eq!(m, msg),
        _ => panic!("expected Unauthorized({})", msg),
    }
}

fn responded_login(a: LoginAction) -> Result<ApiResponse<AuthResponse>, AppError> {
    match a {
        LoginAction::Respond(r) => r,
        _ => panic!("expected an answer"),
    }
}

#[test]
fn login_begins_with_lookup() {
    match login(LoginStep::Begin { email: s("a@b.c"), password: s("pw") }) {
        LoginAction::FetchUser { email, password } => {
            assert_eq!(email, "a@b.c");
            assert_eq!(password, "pw");
        }
        _ => panic!(),
    }
}

#[test]
fn login_database_error_is_internal() {
    let a = login(LoginStep::UserFetched { password: s("pw"), lookup: Err(s("conn reset")) });
    match responded_login(a) {
        Err(AppError::Internal(m)) => assert_eq!(m, "conn reset"),
        _ => panic!(),
    }
}

#[test]
fn login_unknown_email_and_wrong_password_look_alike() {
    let unknown = responded_login(login(LoginStep::UserFetched { password: s("pw"), lookup: Ok(None) }));
    unauthorized(unknown, "Invalid credentials");
    let rec = UserRecord { id: s("id-1"), password_hash: hash_password("right").unwrap(), role: s("user") };
    let wrong = responded_login(login(LoginStep::UserFetched { password: s("pw"), lookup: Ok(Some(rec)) }));
    unauthorized(wrong, "Invalid credentials");
}

#[test]
fn login_unreadable_hash_is_internal() {
    let rec = UserRecord { id: s("id-1"), password_hash: s("plain"), role: s("user") };
    match responded_login(login(LoginStep::UserFetched { password: s("plain"), lookup: Ok(Some(rec)) })) {
        Err(AppError::Internal(m)) => assert_eq!(m, "Password verify failed"),
        _ => panic!(),
    }
}

#[test]
fn login_right_password_issues_tokens_and_stores_session() {
    let rec = UserRecord { id: s("id-1"), password_hash: hash_password("right").unwrap(), role: s("admin") };
    let issued = match login(LoginStep::UserFetched { password: s("right"), lookup: Ok(Some(rec)) }) {
        LoginAction::StoreSession { key, user_id, ttl_seconds, issued } => {
            assert_eq!(key, format!("refresh_token:{}", issued.refresh_token()));
            assert_eq!(user_id, "id-1");
            assert_eq!(ttl_seconds, 604800);
            assert_eq!(issued.user_id(), "id-1");
            issued
        }
        _ => panic!(),
    };
    let refresh_token = issued.refresh_token().to_string();
    let ok = responded_login(login(LoginStep::SessionStored { issued, outcome: StoreOutcome::Stored }))
        .ok()
        .unwrap();
    assert!(!ok.error);
    assert_eq!(ok.status, 200);
    assert_eq!(ok.message, "Login successful");
    let tokens = ok.data.unwrap();
    assert_eq!(tokens.refresh_token, refresh_token);
    let access = verify_token(&tokens.access_token).unwrap();
    assert!(access.starts_with("{\"sub\":\"id-1\",\"role\":\"admin\",\"exp\":"));
    assert!(access.ends_with(",\"typ\":\"access\"}"));
    let refresh = verify_token(&tokens.refresh_token).unwrap();
    assert!(refresh.ends_with(",\"typ\":\"refresh\"}"));
}

#[test]
fn login_store_failures() {
    let issued = IssuedTokens::issue("id-1", "user");
    match responded_login(login(LoginStep::SessionStored {
        issued,
        outcome: StoreOutcome::ConnectFailed(s("refused")),
    })) {
        Err(AppError::Internal(m)) => assert_eq!(m, "refused"),
        _ => panic!(),
    }
    let issued = IssuedTokens::issue("id-1", "user");
    match responded_login(login(LoginStep::SessionStored { issued, outcome: StoreOutcome::WriteFailed })) {
        Err(AppError::ServiceUnavailable(m)) => assert_eq!(m, "Auth service unavailable"),
        _ => panic!(),
    }
}

fn claims(typ: &str) -> Claims {
    Claims { sub: s("id-7"), role: s("user"), exp: 0, typ: s(typ) }
}

fn responded_refresh(a: RefreshAction) -> Result<ApiResponse<AuthResponse>, AppError> {
    match a {
        RefreshAction::Respond(r) => r,
        _ => panic!("expected an answer"),
    }
}

#[test]
fn refresh_flow() {
    match refresh(RefreshStep::Begin { token: s("t") }) {
        RefreshAction::VerifyToken { token } => assert_eq!(token, "t"),
        _ => panic!(),
    }
    unauthorized(
        responded_refresh(refresh(RefreshStep::TokenVerified { token: s("t"), claims: None })),
        "Invalid refresh token",
    );
    unauthorized(
        responded_refresh(refresh(RefreshStep::TokenVerified { token: s("t"), claims: Some(claims("access")) })),
        "Invalid token type",
    );
    let lookup = || match refresh(RefreshStep::TokenVerified { token: s("t"), claims: Some(claims("refresh")) }) {
        RefreshAction::LookupSession { session } => {
            assert_eq!(session.key(), "refresh:t");
            session
        }
        _ => panic!(),
    };
    match responded_refresh(refresh(RefreshStep::SessionLooked { session: lookup(), outcome: LookupOutcome::Unavailable })) {
        Err(AppError::ServiceUnavailable(m)) => assert_eq!(m, "Auth unavailable"),
        _ => panic!(),
    }
    unauthorized(
        responded_refresh(refresh(RefreshStep::SessionLooked { session: lookup(), outcome: LookupOutcome::Missing })),
        "Token expired",
    );
    let session = match refresh(RefreshStep::SessionLooked { session: lookup(), outcome: LookupOutcome::Found }) {
        RefreshAction::RevokeSession { session } => {
            assert_eq!(session.key(), "refresh:t");
            session
        }
        _ => panic!(),
    };
    let done = responded_refresh(refresh(RefreshStep::SessionRevoked { session })).ok().unwrap();
    assert_eq!(done.message, "Refresh successful");
    assert_eq!(done.status, 200);
    let tokens = done.data.unwrap();
    let access = verify_token(&tokens.access_token).unwrap();
    assert!(access.starts_with("{\"sub\":\"id-7\",\"role\":\"user\",\"exp\":"));
    assert!(access.ends_with(",\"typ\":\"access\"}"));
    let refreshed = verify_token(&tokens.refresh_token).unwrap();
    assert!(refreshed.starts_with("{\"sub\":\"id-7\",\"role\":\"user\",\"exp\":"));
    assert!(refreshed.ends_with(",\"typ\":\"refresh\"}"));
}

#[test]
fn logout_flow() {
    match logout(LogoutStep::Begin { token: s("t") }) {
        LogoutAction::RevokeSession { key } => assert_eq!(key, "refresh:t"),
        _ => panic!(),
    }
    assert!(matches!(logout(LogoutStep::Revoked { connected: true }), LogoutAction::Respond(Ok(()))));
    match logout(LogoutStep::Revoked { connected: false }) {
        LogoutAction::Respond(Err(AppError::ServiceUnavailable(m))) => assert_eq!(m, "Auth unavailable"),
        _ => panic!(),
    }
}

fn responded_register(a: RegisterAction) -> Result<ApiResponse<AuthResponse>, AppError> {
    match a {
        RegisterAction::Respond(r) => r,
        _ => panic!("expected an answer"),
    }
}

#[test]
fn register_flow() {
    assert!(matches!(
        register(RegisterStep::Begin { name: s("n"), email: s("e"), password: s("p") }),
        RegisterAction::Validate { .. }
    ));
    match responded_register(register(RegisterStep::Validated {
        name: s("n"),
        email: s("e"),
        password: s("p"),
        outcome: Err(s("email: invalid")),
    })) {
        Err(AppError::Validation(m)) => assert_eq!(m, "email: invalid"),
        _ => panic!(),
    }
    let insert = || match register(RegisterStep::Validated {
        name: s("n"),
        email: s("e"),
        password: s("secret"),
        outcome: Ok(()),
    }) {
        RegisterAction::InsertUser { user, name, email, password_hash, role } => {
            assert_eq!(name, "n");
            assert_eq!(email, "e");
            assert_eq!(role, "user");
            assert_eq!(verify_password("secret", &password_hash), Some(true));
            assert_eq!(user.id().len(), 36);
            assert_eq!(&user.id()[14..15], "4");
            user
        }
        _ => panic!(),
    };
    match responded_register(register(RegisterStep::UserInserted { user: insert(), outcome: Err(s("dup")) })) {
        Err(AppError::Internal(m)) => assert_eq!(m, "dup"),
        _ => panic!(),
    }
    let user = insert();
    let id = user.id().to_string();
    let registration = match register(RegisterStep::UserInserted { user, outcome: Ok(()) }) {
        RegisterAction::StoreRefreshToken { registration, ttl_seconds } => {
            assert_eq!(registration.user_id(), id);
            assert_eq!(ttl_seconds, REFRESH_TOKEN_LIFETIME);
            registration
        }
        _ => panic!(),
    };
    let refresh_token = registration.refresh_token().to_string();
    let ok = responded_register(register(RegisterStep::RefreshTokenStored { registration, outcome: Ok(()) }))
        .ok()
        .unwrap();
    assert_eq!(ok.message, "Register successfully");
    let tokens = ok.data.unwrap();
    assert_eq!(tokens.refresh_token, refresh_token);
    let access = verify_token(&tokens.access_token).unwrap();
    assert!(access.starts_with(&format!("{{\"sub\":\"{}\",\"role\":\"user\",\"exp\":", id)));
    let user = insert();
    let registration = match register(RegisterStep::UserInserted { user, outcome: Ok(()) }) {
        RegisterAction::StoreRefreshToken { registration, .. } => registration,
        _ => panic!(),
    };
    match responded_register(register(RegisterStep::RefreshTokenStored { registration, outcome: Err(s("x")) })) {
        Err(AppError::Internal(m)) => assert_eq!(m, "x"),
        _ => panic!(),
    }
}

fn query(page: Option<i64>, per_page: Option<i64>, search: Option<&str>) -> UserQuery {
    UserQuery { page, per_page, search: search.map(s) }
}

fn count_step(role: &str, q: UserQuery) -> (String, i64, i64, i64) {
    match get_users::<u8>(GetUsersStep::Begin { role: s(role), query: q }) {
        GetUsersAction::CountUsers { pattern, page, per_page, offset } => (pattern, page, per_page, offset),
        _ => panic!("expected a count"),
    }
}

#[test]
fn listing_is_admin_only() {
    match get_users::<u8>(GetUsersStep::Begin { role: s("user"), query: query(Some(i64::MAX), Some(100), None) }) {
        GetUsersAction::Respond(Err(AppError::Forbidden(m))) => assert_eq!(m, "Admin access only"),
        _ => panic!(),
    }
    match get_users::<u8>(GetUsersStep::Begin { role: s("user"), query: query(None, None, None) }) {
        GetUsersAction::Respond(Err(AppError::Forbidden(m))) => assert_eq!(m, "Admin access only"),
        _ => panic!(),
    }
}

#[test]
fn listing_normalises_the_query() {
    assert_eq!(count_step("admin", query(None, None, None)), (s("%%"), 1, 10, 0));
    assert_eq!(count_step("admin", query(Some(0), Some(500), Some("bob"))), (s("%bob%"), 1, 100, 0));
    assert_eq!(count_step("admin", query(Some(3), Some(20), None)), (s("%%"), 3, 20, 40));
    assert_eq!(count_step("admin", query(Some(-4), Some(0), None)), (s("%%"), 1, 0, 0));
    assert_eq!(count_step("admin", query(Some(2), Some(-5), None)), (s("%%"), 2, -5, -5));
}

#[test]
fn listing_offset_range() {
    assert!(offset_in_range(&query(Some(3), Some(20), None)));
    assert!(!offset_in_range(&query(Some(i64::MAX), Some(100), None)));
    assert!(offset_in_range(&query(Some(i64::MAX), Some(1), None)));
    assert!(!offset_in_range(&query(Some(3), Some(i64::MIN), None)));
}

#[test]
fn listing_flow() {
    match get_users::<u8>(GetUsersStep::Counted { pattern: s("%%"), page: 2, per_page: 10, offset: 10, count: Ok(25) }) {
        GetUsersAction::FetchUsers { pattern, limit, offset, total, page } => {
            assert_eq!((pattern, limit, offset, total, page), (s("%%"), 10, 10, 25, 2));
        }
        _ => panic!(),
    }
    match get_users::<u8>(GetUsersStep::Counted { pattern: s("%%"), page: 2, per_page: 10, offset: 10, count: Err(s("e")) }) {
        GetUsersAction::Respond(Err(AppError::Internal(m))) => assert_eq!(m, "e"),
        _ => panic!(),
    }
    match get_users::<u8>(GetUsersStep::Fetched { total: 25, page: 2, per_page: 10, rows: Ok(vec![1, 2]) }) {
        GetUsersAction::Respond(Ok(r)) => {
            assert_eq!(r.message, "User Fetch successful");
            let p = r.data.unwrap();
            assert_eq!(p.items, vec![1, 2]);
            assert_eq!((p.total, p.page, p.per_page), (25, 2, 10));
        }
        _ => panic!(),
    }
}

#[test]
fn create_user_flow() {
    assert!(matches!(
        create_user::<u8>(CreateUserStep::Begin { name: s("n"), email: s("e") }),
        CreateUserAction::Validate { .. }
    ));
    match create_user::<u8>(CreateUserStep::Validated { name: s("n"), email: s("e"), outcome: Err(s("bad")) }) {
        CreateUserAction::Respond(Err(AppError::Validation(m))) => assert_eq!(m, "bad"),
        _ => panic!(),
    }
    match create_user::<u8>(CreateUserStep::Validated { name: s("n"), email: s("e"), outcome: Ok(()) }) {
        CreateUserAction::InsertUser { id, name, email } => {
            assert_eq!((name, email), (s("n"), s("e")));
            assert_eq!(id.len(), 36);
            assert_eq!(&id[14..15], "4");
        }
        _ => panic!(),
    }
    match create_user::<u8>(CreateUserStep::Inserted {
        row: Err(s("error returned from database: duplicate key value violates unique constraint \"users_email_key\"")),
    }) {
        CreateUserAction::Respond(Err(AppError::Conflict(m))) => assert_eq!(m, "Email already exists"),
        _ => panic!(),
    }
    match create_user::<u8>(CreateUserStep::Inserted { row: Err(s("duplicate-key")) }) {
        CreateUserAction::Respond(Err(AppError::Internal(m))) => assert_eq!(m, "duplicate-key"),
        _ => panic!(),
    }
    assert!(matches!(create_user::<u8>(CreateUserStep::Inserted { row: Ok(7) }), CreateUserAction::Respond(Ok(7))));
}

#[test]
fn consecutive_pages_tile() {
    for per_page in [1i64, 10, 37, 100] {
        for page in 1i64..6 {
            let (_, _, n, o1) = count_step("admin", query(Some(page), Some(per_page), None));
            let (_, _, _, o2) = count_step("admin", query(Some(page + 1), Some(per_page), None));
            assert_eq!(o2, o1 + n);
        }
    }
}

#[test]
fn register_after_hash_is_exact() {
    match register_after_hash(s("n"), s("e"), None, s("id")) {
        RegisterAction::Respond(Err(AppError::Internal(m))) => assert_eq!(m, "Hash password failed"),
        _ => panic!(),
    }
    match register_after_hash(s("n"), s("e"), Some(s("h")), s("id")) {
        RegisterAction::InsertUser { user, name, email, password_hash, role } => {
            assert_eq!(user.id(), "id");
            assert_eq!((name, email, password_hash, role), (s("n"), s("e"), s("h"), s("user")));
        }
        _ => panic!(),
    }
}

#[test]
fn refresh_token_used_once() {
    // the key a refresh deletes is the key a later refresh, or a logout, uses
    let session = match refresh(RefreshStep::TokenVerified { token: s("t"), claims: Some(claims("refresh")) }) {
        RefreshAction::LookupSession { session } => session,
        _ => panic!(),
    };
    match logout(LogoutStep::Begin { token: s("t") }) {
        LogoutAction::RevokeSession { key } => assert_eq!(key, session.key()),
        _ => panic!(),
    }
    unauthorized(
        responded_refresh(refresh(RefreshStep::SessionLooked { session, outcome: LookupOutcome::Missing })),
        "Token expired",
    );
}
