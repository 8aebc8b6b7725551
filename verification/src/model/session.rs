use vstd::prelude::*;

verus! {

/// What a new login session is made from. `expires_at` is in microseconds since
/// the Unix epoch.
#[derive(Debug, Clone)]
pub struct CreateSession {
    pub user_id: u128,
    pub session_key: String,
    pub expires_at: i64,
}

/// How long a login session lasts: thirty days, in microseconds.
pub const SESSION_LIFETIME_MICROS: i64 = 2_592_000_000_000;

} // verus!
