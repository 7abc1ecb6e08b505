use auth_api::error::AppError;
use auth_api::response::{ApiResponse, AuthResponse};
use auth_api::role::require_admin;
use auth_api::routes::rate_limit_enabled;
use auth_api::session::{login_session_key, refresh_session_key, SESSION_TTL_SECONDS};

fn check(e: AppError, status: u16, message: &str, detail: Option<&str>) {
    let r = e.into_response();
    assert!(r.error);
    assert_eq!(r.status, status);
    assert_eq!(r.message, message);
    assert!(r.data.is_none());
    assert_eq!(r.error_message.as_deref(), detail);
}

#[test]
fn validation_error_has_fixed_headline_and_detail() {
    check(AppError::Validation("name: too short".to_string()), 400, "Validation error", Some("name: too short"));
}

#[test]
fn internal_error_hides_text_in_detail() {
    check(AppError::Internal("db down".to_string()), 500, "Internal server error", Some("db down"));
}

#[test]
fn other_errors_show_their_text() {
    check(AppError::Unauthorized("no".to_string()), 401, "no", None);
    check(AppError::NotFound("gone".to_string()), 404, "gone", None);
    check(AppError::Conflict("taken".to_string()), 409, "taken", None);
    check(AppError::Forbidden("nope".to_string()), 403, "nope", None);
    check(AppError::ServiceUnavailable("later".to_string()), 503, "later", None);
}

#[test]
fn success_envelope() {
    let r = ApiResponse::success(
        200,
        "Login successful",
        AuthResponse { access_token: "a".to_string(), refresh_token: "r".to_string() },
    );
    assert!(!r.error);
    assert_eq!(r.status, 200);
    assert_eq!(r.message, "Login successful");
    let d = r.data.unwrap();
    assert_eq!(d.access_token, "a");
    assert_eq!(d.refresh_token, "r");
    assert!(r.error_message.is_none());
}

#[test]
fn error_envelope() {
    let r = ApiResponse::<u8>::error(418, "teapot", Some("short and stout".to_string()));
    assert!(r.error);
    assert_eq!(r.status, 418);
    assert_eq!(r.message, "teapot");
    assert!(r.data.is_none());
    assert_eq!(r.error_message.as_deref(), Some("short and stout"));
}

#[test]
fn admin_passes_role_check() {
    assert!(require_admin("admin").is_ok());
}

#[test]
fn other_roles_are_forbidden() {
    for role in ["user", "Admin", "admin ", ""] {
        match require_admin(role) {
            Err(AppError::Forbidden(m)) => assert_eq!(m, "Admin access only"),
            _ => panic!("role {:?} should be refused", role),
        }
    }
}

#[test]
fn rate_limit_only_for_exact_true() {
    assert!(rate_limit_enabled(Some("true")));
    assert!(!rate_limit_enabled(Some("TRUE")));
    assert!(!rate_limit_enabled(Some("false")));
    assert!(!rate_limit_enabled(Some("")));
    assert!(!rate_limit_enabled(None));
}

#[test]
fn session_keys() {
    assert_eq!(login_session_key("tok"), "refresh_token:tok");
    assert_eq!(refresh_session_key("tok"), "refresh:tok");
    assert_eq!(SESSION_TTL_SECONDS, 7 * 24 * 3600);
}

#[test]
fn login_and_refresh_keys_never_meet() {
    for t1 in ["", "a", ":x", "token"] {
        for t2 in ["", "a", "_token:", "token"] {
            assert_ne!(login_session_key(t1), refresh_session_key(t2));
        }
    }
}
