//! The envelope of the registration service's answers.

use vstd::prelude::*;

verus! {

/// An answer: a state word and the data, if any.
#[derive(Debug)]
pub struct ApiResponse<T> {
    pub state: String,
    pub data: Option<T>,
}

} // verus!
