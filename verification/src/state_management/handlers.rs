//! What the CRUD handlers decide from the database's answers.

use vstd::prelude::*;

use crate::state_management::errors::AppError;

verus! {

/// A row that the handler looked up (reading, or updating, one user): a
/// missing one is not found.
pub fn found_or_not_found<T>(row: Option<T>) -> (r: Result<T, AppError>)
    ensures
        match row {
            Some(x) => r matches Ok(y) && y == x,
            None => r matches Err(AppError::NotFound(m)) && m@ == "User not found"@,
        },
{
    match row {
        Some(x) => Ok(x),
        None => Err(AppError::NotFound("User not found".to_owned())),
    }
}

/// The outcome of a delete from the number of rows it removed: none is not
/// found; otherwise the status `deleted`.
pub fn delete_outcome(rows_affected: u64) -> (r: Result<String, AppError>)
    ensures
        rows_affected == 0 ==> (r matches Err(AppError::NotFound(m)) && m@ == "User not found"@),
        rows_affected != 0 ==> (r matches Ok(s) && s@ == "deleted"@),
{
    if rows_affected == 0 {
        Err(AppError::NotFound("User not found".to_owned()))
    } else {
        Ok("deleted".to_owned())
    }
}

} // verus!
