use vstd::prelude::*;
use crate::error::{AppError, AppResult};

verus! {

/// User operations that run inside a login's transaction.
pub struct UserTxRepository;

/// Judges how many rows a phone update changed: none means there is no such user.
pub fn check_rows_affected(rows: u64) -> (r: AppResult<()>)
    ensures
        rows == 0 ==> r matches Err(AppError::UserNotFound),
        rows != 0 ==> r is Ok,
{
    if rows == 0 {
        Err(AppError::UserNotFound)
    } else {
        Ok(())
    }
}

/// The error of a query for one user row that failed: a missing row means there
/// is no such user, and any other failure is a database error with its text.
pub fn lookup_error(row_not_found: bool, detail: String) -> (r: AppError)
    ensures
        row_not_found ==> r is UserNotFound,
        !row_not_found ==> r == AppError::Database(detail),
{
    if row_not_found {
        AppError::UserNotFound
    } else {
        AppError::Database(detail)
    }
}

} // verus!
