//! The signed-in user, and how long a looked-up user is trusted without
//! reading it again.

use vstd::prelude::*;

use crate::entity::user::Role;
use crate::models::user::User;

verus! {

/// How long, in seconds, a cached user is trusted.
pub const CACHE_TTL_SECS: u64 = 300;

/// The signed-in user, as the request handlers see it.
#[derive(Clone, Debug)]
pub struct Authenticated {
    pub id: i32,
    pub name: String,
    pub email: String,
    pub role: Role,
}

/// Whether a cache entry of the given age (whole seconds and the
/// nanoseconds beyond them) is still fresh: younger than the time to live.
pub fn cache_entry_fresh(elapsed_secs: u64, elapsed_nanos: u32) -> (r: bool)
    requires
        elapsed_nanos < 1_000_000_000,
    ensures
        r == (elapsed_secs * 1_000_000_000 + elapsed_nanos < CACHE_TTL_SECS * 1_000_000_000),
{
    elapsed_secs < CACHE_TTL_SECS
}

impl Authenticated {
    /// The signed-in identity of a user, refused (`None`) when the account
    /// is disabled.
    pub fn from_user(user: &User) -> (r: Option<Authenticated>)
        ensures
            r is None <==> user.disabled,
            r matches Some(a) ==> a.id == user.id && a.name == user.name && a.email == user.email
                && a.role == user.role,
    {
        if user.disabled {
            return None;
        }
        Some(
            Authenticated {
                id: user.id,
                name: user.name.clone(),
                email: user.email.clone(),
                role: user.role,
            },
        )
    }
}

} // verus!
