use vstd::prelude::*;

use crate::error::{AppError, AppErrorView};
use crate::ids::{is_uuid_v4_text, new_record_id};
use crate::jwt::{issued_pair, IssuedTokens, IssuedView, REFRESH_TOKEN_LIFETIME};
use crate::password::{bcrypt_verifies, hash_password};
use crate::response::{opt_text, success_view, ApiResponse, ApiResponseView, AuthResponse, STATUS_OK};
use crate::text::owned;

verus! {

/// The role every registered user gets.
pub open spec fn registered_role() -> Seq<char> {
    "user"@
}

/// A user about to be inserted: the fresh id chosen for the row.
/// Only a registration step makes one.
pub struct NewUser {
    id: String,
}

impl View for NewUser {
    type V = Seq<char>;

    closed spec fn view(&self) -> Seq<char> {
        self.id@
    }
}

impl NewUser {
    /// The id of the row to insert.
    pub fn id(&self) -> (res: &str)
        ensures
            res@ == self@,
    {
        self.id.as_str()
    }
}

/// The tokens issued to a newly inserted user. Only a registration step
/// makes one, and it always names the role `user`.
pub struct Registration {
    issued: IssuedTokens,
}

impl View for Registration {
    type V = IssuedView;

    closed spec fn view(&self) -> IssuedView {
        self.issued@
    }
}

impl Registration {
    #[verifier::type_invariant]
    spec fn names_the_user_role(self) -> bool {
        self.issued@.role == registered_role()
    }

    /// The new user's id.
    pub fn user_id(&self) -> (res: &str)
        ensures
            res@ == self@.user_id,
    {
        self.issued.user_id()
    }

    /// The refresh token issued to the new user.
    pub fn refresh_token(&self) -> (res: &str)
        ensures
            res@ == self@.tokens.1,
    {
        self.issued.refresh_token()
    }
}

/// Where a registration stands, with the outcome of the work it last asked for.
pub enum RegisterStep {
    /// A registration request arrived.
    Begin { name: String, email: String, password: String },
    /// The request was validated: the validation errors' text, or fine.
    Validated { name: String, email: String, password: String, outcome: Result<(), String> },
    /// The user row was inserted, or the database's error text.
    UserInserted { user: NewUser, outcome: Result<(), String> },
    /// The refresh token's record was stored, or the database's error text.
    RefreshTokenStored { registration: Registration, outcome: Result<(), String> },
}

/// What a registration asks for next.
pub enum RegisterAction {
    /// Validate the request's fields.
    Validate { name: String, email: String, password: String },
    /// Insert a user row under the new user's id.
    InsertUser { user: NewUser, name: String, email: String, password_hash: String, role: String },
    /// Store a record of the new user's refresh token, expiring after
    /// `ttl_seconds`.
    StoreRefreshToken { registration: Registration, ttl_seconds: i64 },
    /// Answer the request.
    Respond(Result<ApiResponse<AuthResponse>, AppError>),
}

/// The mathematical content of a [`RegisterAction`].
pub enum RegisterActionView {
    Validate { name: Seq<char>, email: Seq<char>, password: Seq<char> },
    InsertUser {
        user_id: Seq<char>,
        name: Seq<char>,
        email: Seq<char>,
        password_hash: Seq<char>,
        role: Seq<char>,
    },
    StoreRefreshToken {
        user_id: Seq<char>,
        role: Seq<char>,
        tokens: (Seq<char>, Seq<char>),
        ttl_seconds: i64,
    },
    Respond(Result<ApiResponseView<(Seq<char>, Seq<char>)>, AppErrorView>),
}

impl View for RegisterAction {
    type V = RegisterActionView;

    open spec fn view(&self) -> RegisterActionView {
        match self {
            RegisterAction::Validate { name, email, password } => RegisterActionView::Validate {
                name: name@,
                email: email@,
                password: password@,
            },
            RegisterAction::InsertUser { user, name, email, password_hash, role } =>
                RegisterActionView::InsertUser {
                user_id: user@,
                name: name@,
                email: email@,
                password_hash: password_hash@,
                role: role@,
            },
            RegisterAction::StoreRefreshToken { registration, ttl_seconds } =>
                RegisterActionView::StoreRefreshToken {
                user_id: registration@.user_id,
                role: registration@.role,
                tokens: registration@.tokens,
                ttl_seconds: *ttl_seconds,
            },
            RegisterAction::Respond(r) => RegisterActionView::Respond(
                match r {
                    Ok(a) => Ok(a@),
                    Err(e) => Err(e@),
                },
            ),
        }
    }
}

/// What a registration does once the password has been hashed (`None`
/// when hashing failed) and an id chosen for the new user: a failed hash is
/// an internal error; otherwise the user is inserted under that id, with
/// that hash and role `user`.
pub open spec fn after_hash_spec(
    name: Seq<char>,
    email: Seq<char>,
    hash: Option<Seq<char>>,
    id: Seq<char>,
) -> RegisterActionView {
    match hash {
        None => RegisterActionView::Respond(Err(AppErrorView::Internal("Hash password failed"@))),
        Some(h) => RegisterActionView::InsertUser {
            user_id: id,
            name,
            email,
            password_hash: h,
            role: registered_role(),
        },
    }
}

/// The registration step that follows hashing: given the hash (or `None`)
/// and the id chosen for the new user, what to do next.
pub fn register_after_hash(name: String, email: String, hash: Option<String>, id: String) -> (action:
    RegisterAction)
    ensures
        action@ == after_hash_spec(name@, email@, opt_text(hash), id@),
{
    match hash {
        None => RegisterAction::Respond(Err(AppError::Internal(owned("Hash password failed")))),
        Some(h) => RegisterAction::InsertUser {
            user: NewUser { id },
            name,
            email,
            password_hash: h,
            role: owned("user"),
        },
    }
}

/// The registration protocol: validate; hash the password and choose a fresh
/// UUID for the user; insert the user with that hash and role `user`; issue
/// the user's tokens with role `user`; store the refresh token's record for
/// seven days; answer with both tokens. Hashing and choosing the id and the
/// issue time draw on randomness and the clock, so for those steps what is
/// fixed is what holds of every outcome.
pub open spec fn register_next(step: RegisterStep, action: RegisterActionView) -> bool {
    match step {
        RegisterStep::Begin { name, email, password } => action == RegisterActionView::Validate {
            name: name@,
            email: email@,
            password: password@,
        },
        RegisterStep::Validated { name, email, password, outcome } => match outcome {
            Err(m) => action == RegisterActionView::Respond(Err(AppErrorView::Validation(m@))),
            Ok(()) => exists|hash: Option<Seq<char>>, id: Seq<char>|
                {
                    &&& #[trigger] after_hash_spec(name@, email@, hash, id) == action
                    &&& hash matches Some(h) ==> bcrypt_verifies(password@, h) == Some(true)
                    &&& is_uuid_v4_text(id)
                },
        },
        RegisterStep::UserInserted { user, outcome } => match outcome {
            Err(m) => action == RegisterActionView::Respond(Err(AppErrorView::Internal(m@))),
            Ok(()) => match action {
                RegisterActionView::StoreRefreshToken { user_id, role, tokens, ttl_seconds } => {
                    &&& user_id == user@
                    &&& role == registered_role()
                    &&& issued_pair(tokens, user@, registered_role())
                    &&& ttl_seconds == REFRESH_TOKEN_LIFETIME
                },
                _ => false,
            },
        },
        RegisterStep::RefreshTokenStored { registration, outcome } => match outcome {
            Err(m) => action == RegisterActionView::Respond(Err(AppErrorView::Internal(m@))),
            Ok(()) => {
                &&& action == RegisterActionView::Respond(
                    Ok(success_view(STATUS_OK, "Register successfully"@, registration@.tokens)),
                )
                &&& registration@.role == registered_role()
                &&& issued_pair(registration@.tokens, registration@.user_id, registered_role())
            },
        },
    }
}

/// One step of a registration: given where it stands, what to do next.
pub fn register(step: RegisterStep) -> (action: RegisterAction)
    ensures
        register_next(step, action@),
{
    match step {
        RegisterStep::Begin { name, email, password } => RegisterAction::Validate {
            name,
            email,
            password,
        },
        RegisterStep::Validated { name, email, password, outcome } => match outcome {
            Err(m) => RegisterAction::Respond(Err(AppError::Validation(m))),
            Ok(()) => {
                let hash = hash_password(password.as_str());
                let id = new_record_id();
                let ghost hash_view = opt_text(hash);
                let ghost id_view = id@;
                let ghost name_view = name@;
                let ghost email_view = email@;
                let action = register_after_hash(name, email, hash, id);
                assert(after_hash_spec(name_view, email_view, hash_view, id_view) == action@);
                action
            },
        },
        RegisterStep::UserInserted { user, outcome } => match outcome {
            Err(m) => RegisterAction::Respond(Err(AppError::Internal(m))),
            Ok(()) => {
                let issued = IssuedTokens::issue(user.id(), "user");
                let registration = Registration { issued };
                RegisterAction::StoreRefreshToken {
                    registration,
                    ttl_seconds: REFRESH_TOKEN_LIFETIME,
                }
            },
        },
        RegisterStep::RefreshTokenStored { registration, outcome } => match outcome {
            Err(m) => RegisterAction::Respond(Err(AppError::Internal(m))),
            Ok(()) => {
                proof {
                    use_type_invariant(&registration);
                }
                let Registration { issued } = registration;
                let tokens = issued.into_tokens();
                RegisterAction::Respond(
                    Ok(ApiResponse::success(STATUS_OK, "Register successfully", tokens)),
                )
            },
        },
    }
}

} // verus!
