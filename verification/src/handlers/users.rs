use vstd::prelude::*;

use crate::error::{AppError, AppErrorView};
use crate::response::{success_view, ApiResponse, ApiResponseView, STATUS_OK};
use crate::ids::{is_uuid_v4_text, new_record_id};
use crate::role::require_admin;
use crate::text::{contains_text, has_substring, joined, owned};

verus! {

/// The query string of a user listing: page number, page size, name filter.
pub struct UserQuery {
    pub page: Option<i64>,
    pub per_page: Option<i64>,
    pub search: Option<String>,
}

/// One page of users with the figures the listing reports.
pub struct UserPage<U> {
    pub items: Vec<U>,
    pub total: i64,
    pub page: i64,
    pub per_page: i64,
}

impl<U> View for UserPage<U> {
    type V = (Seq<U>, i64, i64, i64);

    open spec fn view(&self) -> (Seq<U>, i64, i64, i64) {
        (self.items@, self.total, self.page, self.per_page)
    }
}

/// The page asked for: 1 when absent, and never below 1.
pub open spec fn effective_page(q: UserQuery) -> i64 {
    let p = match q.page {
        Some(p) => p,
        None => 1,
    };
    if p < 1 {
        1
    } else {
        p
    }
}

/// The page size asked for: 10 when absent, and never above 100.
pub open spec fn effective_per_page(q: UserQuery) -> i64 {
    let n = match q.per_page {
        Some(n) => n,
        None => 10,
    };
    if n > 100 {
        100
    } else {
        n
    }
}

/// The number of rows skipped before the page.
pub open spec fn page_offset(q: UserQuery) -> int {
    (effective_page(q) - 1) * effective_per_page(q)
}

/// The offset of the page fits in a 64-bit integer.
pub open spec fn offset_fits(q: UserQuery) -> bool {
    i64::MIN <= page_offset(q) <= i64::MAX
}

/// Whether the offset of the page a query asks for fits in a 64-bit
/// integer; an admin's listing may only start when it does.
pub fn offset_in_range(query: &UserQuery) -> (res: bool)
    ensures
        res == offset_fits(*query),
{
    let page: i64 = match query.page {
        Some(p) => p,
        None => 1,
    };
    let page: i64 = if page < 1 {
        1
    } else {
        page
    };
    let per_page: i64 = match query.per_page {
        Some(n) => n,
        None => 10,
    };
    let per_page: i64 = if per_page > 100 {
        100
    } else {
        per_page
    };
    let a: i128 = (page - 1) as i128;
    let b: i128 = per_page as i128;
    assert(-0x8000_0000_0000_0000 * 0x8000_0000_0000_0000 <= a * b <= 0x8000_0000_0000_0000
        * 0x8000_0000_0000_0000) by (nonlinear_arith)
        requires
            0 <= a < 0x8000_0000_0000_0000,
            -0x8000_0000_0000_0000 <= b <= 100,
    ;
    let prod: i128 = a * b;
    -0x8000_0000_0000_0000i128 <= prod && prod <= 0x7fff_ffff_ffff_ffffi128
}

/// The name filter: the search text with a `%` wildcard on each side.
pub open spec fn name_pattern(q: UserQuery) -> Seq<char> {
    let s = match q.search {
        Some(s) => s@,
        None => Seq::empty(),
    };
    "%"@ + s + "%"@
}

/// Where a user listing stands, with the outcome of the work it last asked for.
pub enum GetUsersStep<U> {
    /// A listing request arrived from a user with `role`.
    Begin { role: String, query: UserQuery },
    /// The matching users were counted, or the database's error text.
    Counted { pattern: String, page: i64, per_page: i64, offset: i64, count: Result<i64, String> },
    /// The page of users was read, or the database's error text.
    Fetched { total: i64, page: i64, per_page: i64, rows: Result<Vec<U>, String> },
}

/// What a user listing asks for next.
pub enum GetUsersAction<U> {
    /// Count the users whose name matches `pattern`.
    CountUsers { pattern: String, page: i64, per_page: i64, offset: i64 },
    /// Read at most `limit` matching users, newest first, after skipping `offset`.
    FetchUsers { pattern: String, limit: i64, offset: i64, total: i64, page: i64 },
    /// Answer the request.
    Respond(Result<ApiResponse<UserPage<U>>, AppError>),
}

/// The mathematical content of a [`GetUsersAction`].
pub enum GetUsersActionView<U> {
    CountUsers { pattern: Seq<char>, page: i64, per_page: i64, offset: i64 },
    FetchUsers { pattern: Seq<char>, limit: i64, offset: i64, total: i64, page: i64 },
    Respond(Result<ApiResponseView<(Seq<U>, i64, i64, i64)>, AppErrorView>),
}

impl<U> View for GetUsersAction<U> {
    type V = GetUsersActionView<U>;

    open spec fn view(&self) -> GetUsersActionView<U> {
        match self {
            GetUsersAction::CountUsers { pattern, page, per_page, offset } =>
                GetUsersActionView::CountUsers {
                pattern: pattern@,
                page: *page,
                per_page: *per_page,
                offset: *offset,
            },
            GetUsersAction::FetchUsers { pattern, limit, offset, total, page } =>
                GetUsersActionView::FetchUsers {
                pattern: pattern@,
                limit: *limit,
                offset: *offset,
                total: *total,
                page: *page,
            },
            GetUsersAction::Respond(r) => GetUsersActionView::Respond(
                match r {
                    Ok(a) => Ok(a@),
                    Err(e) => Err(e@),
                },
            ),
        }
    }
}

/// The listing protocol: admins only; normalise the page and page size,
/// count the users whose name matches, read the page, answer with the users
/// and the figures.
pub open spec fn get_users_spec<U>(step: GetUsersStep<U>) -> GetUsersActionView<U> {
    match step {
        GetUsersStep::Begin { role, query } => if role@ != "admin"@ {
            GetUsersActionView::Respond(Err(AppErrorView::Forbidden("Admin access only"@)))
        } else {
            GetUsersActionView::CountUsers {
                pattern: name_pattern(query),
                page: effective_page(query),
                per_page: effective_per_page(query),
                offset: page_offset(query) as i64,
            }
        },
        GetUsersStep::Counted { pattern, page, per_page, offset, count } => match count {
            Err(m) => GetUsersActionView::Respond(Err(AppErrorView::Internal(m@))),
            Ok(total) => GetUsersActionView::FetchUsers {
                pattern: pattern@,
                limit: per_page,
                offset,
                total,
                page,
            },
        },
        GetUsersStep::Fetched { total, page, per_page, rows } => match rows {
            Err(m) => GetUsersActionView::Respond(Err(AppErrorView::Internal(m@))),
            Ok(items) => GetUsersActionView::Respond(
                Ok(success_view(STATUS_OK, "User Fetch successful"@, (items@, total, page, per_page))),
            ),
        },
    }
}

/// One step of a user listing: given where it stands, what to do next.
pub fn get_users<U>(step: GetUsersStep<U>) -> (action: GetUsersAction<U>)
    requires
        step matches GetUsersStep::Begin { role, query } ==> (role@ == "admin"@ ==> offset_fits(
            query,
        )),
    ensures
        action@ == get_users_spec(step),
{
    match step {
        GetUsersStep::Begin { role, query } => {
            match require_admin(role.as_str()) {
                Err(e) => GetUsersAction::Respond(Err(e)),
                Ok(()) => {
                    let page: i64 = match query.page {
                        Some(p) => p,
                        None => 1,
                    };
                    let page: i64 = if page < 1 {
                        1
                    } else {
                        page
                    };
                    let per_page: i64 = match query.per_page {
                        Some(n) => n,
                        None => 10,
                    };
                    let per_page: i64 = if per_page > 100 {
                        100
                    } else {
                        per_page
                    };
                    let offset: i64 = (page - 1) * per_page;
                    let pattern = match &query.search {
                        Some(s) => joined("%", s.as_str()),
                        None => owned("%"),
                    };
                    let pattern = joined(pattern.as_str(), "%");
                    proof {
                        assert(pattern@ =~= name_pattern(query));
                    }
                    GetUsersAction::CountUsers { pattern, page, per_page, offset }
                },
            }
        },
        GetUsersStep::Counted { pattern, page, per_page, offset, count } => match count {
            Err(m) => GetUsersAction::Respond(Err(AppError::Internal(m))),
            Ok(total) => GetUsersAction::FetchUsers { pattern, limit: per_page, offset, total, page },
        },
        GetUsersStep::Fetched { total, page, per_page, rows } => match rows {
            Err(m) => GetUsersAction::Respond(Err(AppError::Internal(m))),
            Ok(items) => GetUsersAction::Respond(
                Ok(
                    ApiResponse::success(
                        STATUS_OK,
                        "User Fetch successful",
                        UserPage { items, total, page, per_page },
                    ),
                ),
            ),
        },
    }
}

/// Where creating a user stands, with the outcome of the work it last asked for.
pub enum CreateUserStep<U> {
    /// A request to create a user arrived.
    Begin { name: String, email: String },
    /// The request was validated: the validation errors' text, or fine.
    Validated { name: String, email: String, outcome: Result<(), String> },
    /// The row was inserted and read back, or the database's error text.
    Inserted { row: Result<U, String> },
}

/// What creating a user asks for next.
pub enum CreateUserAction<U> {
    /// Validate the request's fields.
    Validate { name: String, email: String },
    /// Insert a user row under `id` and read it back.
    InsertUser { id: String, name: String, email: String },
    /// Answer with the new user, or refuse.
    Respond(Result<U, AppError>),
}

/// The mathematical content of a [`CreateUserAction`].
pub enum CreateUserActionView<U> {
    Validate { name: Seq<char>, email: Seq<char> },
    InsertUser { id: Seq<char>, name: Seq<char>, email: Seq<char> },
    Respond(Result<U, AppErrorView>),
}

impl<U> View for CreateUserAction<U> {
    type V = CreateUserActionView<U>;

    open spec fn view(&self) -> CreateUserActionView<U> {
        match self {
            CreateUserAction::Validate { name, email } => CreateUserActionView::Validate {
                name: name@,
                email: email@,
            },
            CreateUserAction::InsertUser { id, name, email } => CreateUserActionView::InsertUser {
                id: id@,
                name: name@,
                email: email@,
            },
            CreateUserAction::Respond(r) => CreateUserActionView::Respond(
                match r {
                    Ok(u) => Ok(*u),
                    Err(e) => Err(e@),
                },
            ),
        }
    }
}

/// The refusal for a failed insert: a duplicate key means the email is
/// taken; anything else is an internal error showing the database's text.
pub open spec fn insert_error(message: Seq<char>) -> AppErrorView {
    if has_substring(message, "duplicate key"@) {
        AppErrorView::Conflict("Email already exists"@)
    } else {
        AppErrorView::Internal(message)
    }
}

/// The create-user protocol: validate, insert under a fresh random UUID,
/// answer with the stored row. The id is drawn at random, so for that step
/// what is fixed is what holds of every outcome.
pub open spec fn create_user_next<U>(step: CreateUserStep<U>, action: CreateUserActionView<U>) -> bool {
    match step {
        CreateUserStep::Begin { name, email } => action == CreateUserActionView::<U>::Validate {
            name: name@,
            email: email@,
        },
        CreateUserStep::Validated { name, email, outcome } => match outcome {
            Err(m) => action == CreateUserActionView::<U>::Respond(
                Err(AppErrorView::Validation(m@)),
            ),
            Ok(()) => match action {
                CreateUserActionView::InsertUser { id, name: n, email: e } => {
                    &&& n == name@
                    &&& e == email@
                    &&& is_uuid_v4_text(id)
                },
                _ => false,
            },
        },
        CreateUserStep::Inserted { row } => match row {
            Err(m) => action == CreateUserActionView::<U>::Respond(Err(insert_error(m@))),
            Ok(u) => action == CreateUserActionView::<U>::Respond(Ok(u)),
        },
    }
}

/// One step of creating a user: given where it stands, what to do next.
pub fn create_user<U>(step: CreateUserStep<U>) -> (action: CreateUserAction<U>)
    ensures
        create_user_next(step, action@),
{
    match step {
        CreateUserStep::Begin { name, email } => CreateUserAction::Validate { name, email },
        CreateUserStep::Validated { name, email, outcome } => match outcome {
            Err(m) => CreateUserAction::Respond(Err(AppError::Validation(m))),
            Ok(()) => CreateUserAction::InsertUser { id: new_record_id(), name, email },
        },
        CreateUserStep::Inserted { row } => match row {
            Err(m) => {
                if contains_text(m.as_str(), "duplicate key") {
                    CreateUserAction::Respond(
                        Err(AppError::Conflict(owned("Email already exists"))),
                    )
                } else {
                    CreateUserAction::Respond(Err(AppError::Internal(m)))
                }
            },
            Ok(u) => CreateUserAction::Respond(Ok(u)),
        },
    }
}

} // verus!
