//! The API error taxonomy.
//!
//! Payload-carrying variants hold the message shown to the caller; the
//! `Database`, `Jwt` and `Internal` payloads are internal detail and are
//! never exposed — `response_message` replaces them with a fixed text.

use vstd::prelude::*;
use vstd::string::StringExecFns;

verus! {

#[derive(Debug)]
pub enum ApiError {
    Unauthorized,
    Forbidden,
    NotFound,
    BadRequest(String),
    Conflict(String),
    Database(String),
    OAuth(String),
    Jwt(String),
    Internal(String),
}

pub enum ApiErrorView {
    Unauthorized,
    Forbidden,
    NotFound,
    BadRequest(Seq<char>),
    Conflict(Seq<char>),
    Database(Seq<char>),
    OAuth(Seq<char>),
    Jwt(Seq<char>),
    Internal(Seq<char>),
}

impl View for ApiError {
    type V = ApiErrorView;

    open spec fn view(&self) -> ApiErrorView {
        match self {
            ApiError::Unauthorized => ApiErrorView::Unauthorized,
            ApiError::Forbidden => ApiErrorView::Forbidden,
            ApiError::NotFound => ApiErrorView::NotFound,
            ApiError::BadRequest(m) => ApiErrorView::BadRequest(m@),
            ApiError::Conflict(m) => ApiErrorView::Conflict(m@),
            ApiError::Database(m) => ApiErrorView::Database(m@),
            ApiError::OAuth(m) => ApiErrorView::OAuth(m@),
            ApiError::Jwt(m) => ApiErrorView::Jwt(m@),
            ApiError::Internal(m) => ApiErrorView::Internal(m@),
        }
    }
}

impl DeepView for ApiError {
    type V = ApiErrorView;

    open spec fn deep_view(&self) -> ApiErrorView {
        self.view()
    }
}

/// The HTTP status an error is reported with.
pub open spec fn spec_status_code(e: ApiErrorView) -> int {
    match e {
        ApiErrorView::Unauthorized => 401,
        ApiErrorView::Forbidden => 403,
        ApiErrorView::NotFound => 404,
        ApiErrorView::BadRequest(_) => 400,
        ApiErrorView::Conflict(_) => 409,
        ApiErrorView::Database(_) => 500,
        ApiErrorView::OAuth(_) => 400,
        ApiErrorView::Jwt(_) => 401,
        ApiErrorView::Internal(_) => 500,
    }
}

/// The message shown to the caller. Internal payloads are not leaked.
pub open spec fn spec_response_message(e: ApiErrorView) -> Seq<char> {
    match e {
        ApiErrorView::Unauthorized => "Authentication required"@,
        ApiErrorView::Forbidden => "Access denied"@,
        ApiErrorView::NotFound => "Resource not found"@,
        ApiErrorView::BadRequest(m) => m,
        ApiErrorView::Conflict(m) => m,
        ApiErrorView::Database(_) => "Database error"@,
        ApiErrorView::OAuth(m) => m,
        ApiErrorView::Jwt(_) => "Invalid token"@,
        ApiErrorView::Internal(_) => "Internal server error"@,
    }
}

impl ApiError {
    pub fn status_code(&self) -> (r: u16)
        ensures
            r as int == spec_status_code(self@),
    {
        match self {
            ApiError::Unauthorized => 401,
            ApiError::Forbidden => 403,
            ApiError::NotFound => 404,
            ApiError::BadRequest(_) => 400,
            ApiError::Conflict(_) => 409,
            ApiError::Database(_) => 500,
            ApiError::OAuth(_) => 400,
            ApiError::Jwt(_) => 401,
            ApiError::Internal(_) => 500,
        }
    }

    pub fn response_message(&self) -> (r: String)
        ensures
            r@ == spec_response_message(self@),
    {
        match self {
            ApiError::Unauthorized => String::from_str("Authentication required"),
            ApiError::Forbidden => String::from_str("Access denied"),
            ApiError::NotFound => String::from_str("Resource not found"),
            ApiError::BadRequest(m) => m.clone(),
            ApiError::Conflict(m) => m.clone(),
            ApiError::Database(_) => String::from_str("Database error"),
            ApiError::OAuth(m) => m.clone(),
            ApiError::Jwt(_) => String::from_str("Invalid token"),
            ApiError::Internal(_) => String::from_str("Internal server error"),
        }
    }
}

} // verus!
