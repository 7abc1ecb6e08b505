use vstd::prelude::*;

use crate::response::{
    error_view, ApiResponse, ApiResponseView, STATUS_BAD_REQUEST, STATUS_CONFLICT, STATUS_FORBIDDEN,
    STATUS_INTERNAL_SERVER_ERROR, STATUS_NOT_FOUND, STATUS_SERVICE_UNAVAILABLE, STATUS_UNAUTHORIZED,
};

verus! {

/// Every way a request can fail; each carries the text shown to the client.
#[derive(Debug)]
pub enum AppError {
    Conflict(String),
    Forbidden(String),
    Validation(String),
    Unauthorized(String),
    NotFound(String),
    Internal(String),
    ServiceUnavailable(String),
}

/// The mathematical content of an [`AppError`].
pub enum AppErrorView {
    Conflict(Seq<char>),
    Forbidden(Seq<char>),
    Validation(Seq<char>),
    Unauthorized(Seq<char>),
    NotFound(Seq<char>),
    Internal(Seq<char>),
    ServiceUnavailable(Seq<char>),
}

impl View for AppError {
    type V = AppErrorView;

    open spec fn view(&self) -> AppErrorView {
        match self {
            AppError::Conflict(m) => AppErrorView::Conflict(m@),
            AppError::Forbidden(m) => AppErrorView::Forbidden(m@),
            AppError::Validation(m) => AppErrorView::Validation(m@),
            AppError::Unauthorized(m) => AppErrorView::Unauthorized(m@),
            AppError::NotFound(m) => AppErrorView::NotFound(m@),
            AppError::Internal(m) => AppErrorView::Internal(m@),
            AppError::ServiceUnavailable(m) => AppErrorView::ServiceUnavailable(m@),
        }
    }
}

/// The HTTP status of the answer to an error.
pub open spec fn error_status(e: AppErrorView) -> u16 {
    match e {
        AppErrorView::Validation(_) => STATUS_BAD_REQUEST,
        AppErrorView::Unauthorized(_) => STATUS_UNAUTHORIZED,
        AppErrorView::NotFound(_) => STATUS_NOT_FOUND,
        AppErrorView::Internal(_) => STATUS_INTERNAL_SERVER_ERROR,
        AppErrorView::Conflict(_) => STATUS_CONFLICT,
        AppErrorView::Forbidden(_) => STATUS_FORBIDDEN,
        AppErrorView::ServiceUnavailable(_) => STATUS_SERVICE_UNAVAILABLE,
    }
}

/// The answer sent for an error: a validation failure and an internal failure
/// get a fixed headline and show their own text as the detail; every other
/// error shows its text as the headline, with no detail.
pub open spec fn error_response_view(e: AppErrorView) -> ApiResponseView<()> {
    match e {
        AppErrorView::Validation(m) => error_view(
            STATUS_BAD_REQUEST,
            "Validation error"@,
            Some(m),
        ),
        AppErrorView::Internal(m) => error_view(
            STATUS_INTERNAL_SERVER_ERROR,
            "Internal server error"@,
            Some(m),
        ),
        AppErrorView::Unauthorized(m) => error_view(STATUS_UNAUTHORIZED, m, None),
        AppErrorView::NotFound(m) => error_view(STATUS_NOT_FOUND, m, None),
        AppErrorView::Conflict(m) => error_view(STATUS_CONFLICT, m, None),
        AppErrorView::Forbidden(m) => error_view(STATUS_FORBIDDEN, m, None),
        AppErrorView::ServiceUnavailable(m) => error_view(STATUS_SERVICE_UNAVAILABLE, m, None),
    }
}

impl AppError {
    /// The answer the service sends for this error.
    pub fn into_response(self) -> (res: ApiResponse<()>)
        ensures
            res@ == error_response_view(self@),
    {
        match self {
            AppError::Validation(msg) => {
                ApiResponse::<()>::error(STATUS_BAD_REQUEST, "Validation error", Some(msg))
            },
            AppError::Unauthorized(msg) => {
                ApiResponse::<()>::error(STATUS_UNAUTHORIZED, msg.as_str(), None)
            },
            AppError::NotFound(msg) => {
                ApiResponse::<()>::error(STATUS_NOT_FOUND, msg.as_str(), None)
            },
            AppError::Internal(msg) => {
                ApiResponse::<()>::error(
                    STATUS_INTERNAL_SERVER_ERROR,
                    "Internal server error",
                    Some(msg),
                )
            },
            AppError::Conflict(msg) => {
                ApiResponse::<()>::error(STATUS_CONFLICT, msg.as_str(), None)
            },
            AppError::Forbidden(msg) => {
                ApiResponse::<()>::error(STATUS_FORBIDDEN, msg.as_str(), None)
            },
            AppError::ServiceUnavailable(msg) => {
                ApiResponse::<()>::error(STATUS_SERVICE_UNAVAILABLE, msg.as_str(), None)
            },
        }
    }
}

} // verus!
