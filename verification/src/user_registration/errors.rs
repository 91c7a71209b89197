//! The errors of the registration service and the HTTP answers they get.

use vstd::prelude::*;

verus! {

/// An error of the registration service, with its message.
#[derive(Debug)]
pub enum AppError {
    Validation(String),
    Internal(String),
    ImvalidEmail(String),
}

impl AppError {
    /// The HTTP status of the answer.
    pub open spec fn spec_status(&self) -> u16 {
        match self {
            AppError::Validation(_) => 400,
            AppError::Internal(_) => 500,
            AppError::ImvalidEmail(_) => 500,
        }
    }

    /// The error's message, which the answer carries under `error`.
    pub open spec fn spec_message(&self) -> Seq<char> {
        match self {
            AppError::Validation(m) => m@,
            AppError::Internal(m) => m@,
            AppError::ImvalidEmail(m) => m@,
        }
    }

    /// The HTTP status of the answer to this error.
    pub fn status_code(&self) -> (r: u16)
        ensures
            r == self.spec_status(),
    {
        match self {
            AppError::Validation(_) => 400,
            AppError::Internal(_) => 500,
            AppError::ImvalidEmail(_) => 500,
        }
    }

    /// The text that the answer's JSON body carries under `error`.
    pub fn message(&self) -> (r: String)
        ensures
            r@ == self.spec_message(),
    {
        match self {
            AppError::Validation(m) => m.clone(),
            AppError::Internal(m) => m.clone(),
            AppError::ImvalidEmail(m) => m.clone(),
        }
    }
}

} // verus!
