//! The authenticated identities that the HTTP layer extracts and hands to
//! the handlers, and the freshness rule for bearer-token sessions.

use vstd::prelude::*;

verus! {

/// How long a session token stays valid, in seconds.
pub const AUTH_TIME_SECONDS: u64 = 3600 * 24 * 30;

/// The username of an authenticated caller.
pub struct Authorize(pub String);

/// The username of an album's owner, reached through a valid share token.
pub struct PublicAuthorize(pub String);

/// Whether a session made at `created_at` is still fresh at `now`: its
/// lifetime has not yet passed. A stale session is rejected and deleted.
pub fn session_is_fresh(created_at: u64, now: u64, validity_seconds: u64) -> (result: bool)
    ensures
        result == (now < created_at + validity_seconds),
{
    (now as u128) < (created_at as u128) + (validity_seconds as u128)
}

} // verus!
