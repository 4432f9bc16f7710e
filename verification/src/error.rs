use vstd::prelude::*;

verus! {

/// Errors that a request can end in.
#[derive(Debug, Clone, PartialEq, Eq)]
pub enum AppError {
    BadRequest(String),
    Unauthorized(String),
    Forbidden(String),
    Validation(String),
    Argon2(String),
    Jwt(String),
    Database(String),
    Internal(String),
}

/// HTTP status code for each kind of error.
pub open spec fn status_of(e: AppError) -> u16 {
    match e {
        AppError::BadRequest(_) => 400,
        AppError::Unauthorized(_) => 401,
        AppError::Forbidden(_) => 403,
        AppError::Validation(_) => 422,
        AppError::Jwt(_) => 401,
        AppError::Argon2(_) => 500,
        AppError::Database(_) => 500,
        AppError::Internal(_) => 500,
    }
}

impl AppError {
    /// The HTTP status code that the error is answered with.
    pub fn status_code(&self) -> (code: u16)
        ensures
            code == status_of(*self),
    {
        match self {
            AppError::BadRequest(_) => 400,
            AppError::Unauthorized(_) => 401,
            AppError::Forbidden(_) => 403,
            AppError::Validation(_) => 422,
            AppError::Jwt(_) => 401,
            AppError::Argon2(_) => 500,
            AppError::Database(_) => 500,
            AppError::Internal(_) => 500,
        }
    }
}

} // verus!
