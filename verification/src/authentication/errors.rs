//! The errors of the authentication service and the HTTP answers they get.

use vstd::prelude::*;

use crate::text::join2;

verus! {

/// An error of the authentication service.
#[derive(Debug)]
pub enum AppError {
    NotFound(String),
    Unauthorized,
    BadRequest(String),
    Conflict(String),
    /// An internal failure, with its message.
    Internal(String),
}

impl AppError {
    /// The HTTP status of the answer.
    pub open spec fn spec_status(&self) -> u16 {
        match self {
            AppError::NotFound(_) => 404,
            AppError::Unauthorized => 401,
            AppError::BadRequest(_) => 400,
            AppError::Conflict(_) => 409,
            AppError::Internal(_) => 500,
        }
    }

    /// The text of the answer's `error` member.
    pub open spec fn spec_body_message(&self) -> Seq<char> {
        match self {
            AppError::NotFound(m) => m@,
            AppError::Unauthorized => "unauthorized"@,
            AppError::BadRequest(m) => m@,
            AppError::Conflict(m) => m@,
            AppError::Internal(m) => m@,
        }
    }

    /// The error's description.
    pub open spec fn spec_description(&self) -> Seq<char> {
        match self {
            AppError::NotFound(m) => "Not found: "@ + m@,
            AppError::Unauthorized => "Unauthorized"@,
            AppError::BadRequest(m) => "Bad request: "@ + m@,
            AppError::Conflict(m) => "Conflict: "@ + m@,
            AppError::Internal(_) => "Internal error"@,
        }
    }

    /// The HTTP status of the answer to this error.
    pub fn status_code(&self) -> (r: u16)
        ensures
            r == self.spec_status(),
    {
        match self {
            AppError::NotFound(_) => 404,
            AppError::Unauthorized => 401,
            AppError::BadRequest(_) => 400,
            AppError::Conflict(_) => 409,
            AppError::Internal(_) => 500,
        }
    }

    /// The text that the answer's JSON body carries under `error`.
    pub fn body_message(&self) -> (r: String)
        ensures
            r@ == self.spec_body_message(),
    {
        match self {
            AppError::NotFound(m) => m.clone(),
            AppError::Unauthorized => "unauthorized".to_owned(),
            AppError::BadRequest(m) => m.clone(),
            AppError::Conflict(m) => m.clone(),
            AppError::Internal(m) => m.clone(),
        }
    }

    /// The error's description, as `Display` gives it.
    pub fn description(&self) -> (r: String)
        ensures
            r@ == self.spec_description(),
    {
        match self {
            AppError::NotFound(m) => join2("Not found: ", m.as_str()),
            AppError::Unauthorized => "Unauthorized".to_owned(),
            AppError::BadRequest(m) => join2("Bad request: ", m.as_str()),
            AppError::Conflict(m) => join2("Conflict: ", m.as_str()),
            AppError::Internal(_) => "Internal error".to_owned(),
        }
    }
}

} // verus!
