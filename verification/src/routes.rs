use vstd::prelude::*;

use crate::text::same_text;

verus! {

/// Seconds after which the authentication routes replenish one request of
/// their quota when rate limiting is on.
pub const RATE_LIMIT_PERIOD_SECONDS: u64 = 5;

/// Requests the authentication routes admit in a burst when rate limiting is on.
pub const RATE_LIMIT_BURST: u32 = 10;

/// Whether the authentication routes are rate limited, from the value of
/// the `ENABLE_RATE_LIMIT` setting (`None` when it is unset or not text):
/// only the exact value `true` turns it on.
pub fn rate_limit_enabled(setting: Option<&str>) -> (res: bool)
    ensures
        res == (setting matches Some(v) && v@ == "true"@),
{
    match setting {
        Some(v) => same_text(v, "true"),
        None => false,
    }
}

} // verus!
