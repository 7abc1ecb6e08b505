use vstd::prelude::*;

use crate::text::owned;

verus! {

/// HTTP status 200.
pub const STATUS_OK: u16 = 200;
/// HTTP status 400.
pub const STATUS_BAD_REQUEST: u16 = 400;
/// HTTP status 401.
pub const STATUS_UNAUTHORIZED: u16 = 401;
/// HTTP status 403.
pub const STATUS_FORBIDDEN: u16 = 403;
/// HTTP status 404.
pub const STATUS_NOT_FOUND: u16 = 404;
/// HTTP status 409.
pub const STATUS_CONFLICT: u16 = 409;
/// HTTP status 500.
pub const STATUS_INTERNAL_SERVER_ERROR: u16 = 500;
/// HTTP status 503.
pub const STATUS_SERVICE_UNAVAILABLE: u16 = 503;

/// The JSON envelope every endpoint answers with.
///
/// `error_message` carries the detail text that the service puts into the
/// envelope as a JSON string, when there is one.
pub struct ApiResponse<T> {
    pub error: bool,
    pub status: u16,
    pub message: String,
    pub data: Option<T>,
    pub error_message: Option<String>,
}

/// The mathematical content of an [`ApiResponse`].
pub struct ApiResponseView<V> {
    pub error: bool,
    pub status: u16,
    pub message: Seq<char>,
    pub data: Option<V>,
    pub error_message: Option<Seq<char>>,
}

/// Maps an optional string to its optional text.
pub open spec fn opt_text(s: Option<String>) -> Option<Seq<char>> {
    match s {
        Some(t) => Some(t@),
        None => None,
    }
}

impl<T: View> View for ApiResponse<T> {
    type V = ApiResponseView<T::V>;

    open spec fn view(&self) -> ApiResponseView<T::V> {
        ApiResponseView {
            error: self.error,
            status: self.status,
            message: self.message@,
            data: match self.data {
                Some(d) => Some(d@),
                None => None,
            },
            error_message: opt_text(self.error_message),
        }
    }
}

/// The envelope of a successful answer.
pub open spec fn success_view<V>(status: u16, message: Seq<char>, data: V) -> ApiResponseView<V> {
    ApiResponseView { error: false, status, message, data: Some(data), error_message: None }
}

/// The envelope of a failed answer.
pub open spec fn error_view<V>(
    status: u16,
    message: Seq<char>,
    error_message: Option<Seq<char>>,
) -> ApiResponseView<V> {
    ApiResponseView { error: true, status, message, data: None, error_message }
}

impl<T> ApiResponse<T> {
    /// A successful answer carrying `data`.
    pub fn success(status: u16, message: &str, data: T) -> (res: ApiResponse<T>)
        ensures
            !res.error,
            res.status == status,
            res.message@ == message@,
            res.data == Some(data),
            res.error_message is None,
    {
        ApiResponse {
            error: false,
            status,
            message: owned(message),
            data: Some(data),
            error_message: None,
        }
    }

    /// A failed answer: no data, and `error_message` as the detail.
    pub fn error(status: u16, message: &str, error_message: Option<String>) -> (res: ApiResponse<
        (),
    >)
        ensures
            res@ == error_view::<()>(status, message@, opt_text(error_message)),
    {
        ApiResponse { error: true, status, message: owned(message), data: None, error_message }
    }
}

/// The access and refresh tokens handed to a client.
pub struct AuthResponse {
    pub access_token: String,
    pub refresh_token: String,
}

impl View for AuthResponse {
    type V = (Seq<char>, Seq<char>);

    open spec fn view(&self) -> (Seq<char>, Seq<char>) {
        (self.access_token@, self.refresh_token@)
    }
}

/// A new refresh token on its own.
pub struct RefreshResponse {
    pub refresh_token: String,
}

} // verus!
