use vstd::prelude::*;

verus! {

/// Application errors, mapped to HTTP responses at the handler boundary.
#[derive(Debug, Clone, Copy, PartialEq, Eq)]
pub enum AppError {
    NotFound,
    /// Plain-text body when `Some`, empty body when `None`.
    Conflict(Option<&'static str>),
    /// Plain-text body when `Some`, empty body when `None`.
    BadRequest(Option<&'static str>),
    Forbidden,
    Internal,
    /// A server error that carries a plain-text body.
    InternalMessage(&'static str),
    ServiceUnavailable(Option<&'static str>),
    Unauthorized,
    PayloadTooLarge(Option<&'static str>),
    Gone,
}

/// The HTTP status code that answers an error.
pub open spec fn status_of(e: AppError) -> u16 {
    match e {
        AppError::NotFound => 404,
        AppError::Conflict(_) => 409,
        AppError::BadRequest(_) => 400,
        AppError::Forbidden => 403,
        AppError::Internal => 500,
        AppError::InternalMessage(_) => 500,
        AppError::ServiceUnavailable(_) => 503,
        AppError::Unauthorized => 401,
        AppError::PayloadTooLarge(_) => 413,
        AppError::Gone => 410,
    }
}

/// The plain-text body of the response to an error, if it has one.
pub open spec fn body_of(e: AppError) -> Option<&'static str> {
    match e {
        AppError::Conflict(m) => m,
        AppError::BadRequest(m) => m,
        AppError::InternalMessage(m) => Some(m),
        AppError::ServiceUnavailable(m) => m,
        AppError::PayloadTooLarge(m) => m,
        _ => None,
    }
}

impl AppError {
    /// The HTTP status code of the response.
    pub fn status_code(&self) -> (r: u16)
        ensures
            r == status_of(*self),
    {
        match self {
            AppError::NotFound => 404,
            AppError::Conflict(_) => 409,
            AppError::BadRequest(_) => 400,
            AppError::Forbidden => 403,
            AppError::Internal => 500,
            AppError::InternalMessage(_) => 500,
            AppError::ServiceUnavailable(_) => 503,
            AppError::Unauthorized => 401,
            AppError::PayloadTooLarge(_) => 413,
            AppError::Gone => 410,
        }
    }

    /// The plain-text body of the response, if any.
    pub fn body(&self) -> (r: Option<&'static str>)
        ensures
            r == body_of(*self),
    {
        match self {
            AppError::Conflict(m) => *m,
            AppError::BadRequest(m) => *m,
            AppError::InternalMessage(m) => Some(*m),
            AppError::ServiceUnavailable(m) => *m,
            AppError::PayloadTooLarge(m) => *m,
            _ => None,
        }
    }
}

} // verus!
