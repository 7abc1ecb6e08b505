use vstd::prelude::*;

use crate::error::{AppError, AppErrorView};
use crate::text::{owned, same_text};

verus! {

/// Lets only the `admin` role through; any other role is refused with
/// `Forbidden("Admin access only")`.
pub fn require_admin(role: &str) -> (res: Result<(), AppError>)
    ensures
        role@ == "admin"@ <==> res is Ok,
        res is Err ==> res->Err_0@ == AppErrorView::Forbidden("Admin access only"@),
{
    if !same_text(role, "admin") {
        return Err(AppError::Forbidden(owned("Admin access only")));
    }
    Ok(())
}

} // verus!
