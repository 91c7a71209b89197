//! The errors of the CRUD service and the HTTP answers they get.

use vstd::prelude::*;

verus! {

/// An error of the CRUD service, with its message.
#[derive(Debug)]
pub enum AppError {
    NotFound(String),
    Conflict(String),
    Database(String),
    Internal(String),
}

impl AppError {
    /// The HTTP status of the answer.
    pub open spec fn spec_status(&self) -> u16 {
        match self {
            AppError::NotFound(_) => 404,
            AppError::Conflict(_) => 409,
            AppError::Database(_) => 500,
            AppError::Internal(_) => 500,
        }
    }

    /// The error's message, which the answer carries under `error`.
    pub open spec fn spec_message(&self) -> Seq<char> {
        match self {
            AppError::NotFound(m) => m@,
            AppError::Conflict(m) => m@,
            AppError::Database(m) => m@,
            AppError::Internal(m) => m@,
        }
    }

    /// The HTTP status of the answer to this error.
    pub fn status_code(&self) -> (r: u16)
        ensures
            r == self.spec_status(),
    {
        match self {
            AppError::NotFound(_) => 404,
            AppError::Conflict(_) => 409,
            AppError::Database(_) => 500,
            AppError::Internal(_) => 500,
        }
    }

    /// The text that the answer's JSON body carries under `error`.
    pub fn message(&self) -> (r: String)
        ensures
            r@ == self.spec_message(),
    {
        match self {
            AppError::NotFound(m) => m.clone(),
            AppError::Conflict(m) => m.clone(),
            AppError::Database(m) => m.clone(),
            AppError::Internal(m) => m.clone(),
        }
    }

    /// The error that a failed database call becomes, from the failure's
    /// description.
    pub fn from_database(description: String) -> (r: AppError)
        ensures
            r matches AppError::Database(m) && m@ == description@,
    {
        AppError::Database(description)
    }
}

} // verus!
