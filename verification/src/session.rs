use vstd::prelude::*;

use crate::text::joined;

verus! {

/// Seconds a session entry written at login lives in the session store: seven days.
pub const SESSION_TTL_SECONDS: u64 = 604800;

/// The session-store key under which login records a refresh token.
pub open spec fn login_key_spec(refresh_token: Seq<char>) -> Seq<char> {
    "refresh_token:"@ + refresh_token
}

/// The session-store key that refresh and logout look a refresh token up under.
pub open spec fn refresh_key_spec(refresh_token: Seq<char>) -> Seq<char> {
    "refresh:"@ + refresh_token
}

/// The key login writes a refresh token's session under.
pub fn login_session_key(refresh_token: &str) -> (key: String)
    ensures
        key@ == login_key_spec(refresh_token@),
{
    joined("refresh_token:", refresh_token)
}

/// The key refresh and logout read and delete a refresh token's session under.
pub fn refresh_session_key(refresh_token: &str) -> (key: String)
    ensures
        key@ == refresh_key_spec(refresh_token@),
{
    joined("refresh:", refresh_token)
}

} // verus!
