use vstd::prelude::*;
use crate::model::session::{CreateSession, SESSION_LIFETIME_MICROS};
use crate::utils::jwt::{now_micros, LATEST_CLOCK_MICROS};

verus! {

/// Session operations that run inside a login's transaction.
pub struct SessionTxRepository;

/// The session for `user_id` made at `now_micros`: it expires thirty days later.
pub open spec fn spec_session_at(user_id: u128, session_key: String, now_micros: i64) -> CreateSession {
    CreateSession {
        user_id,
        session_key,
        expires_at: (now_micros + SESSION_LIFETIME_MICROS) as i64,
    }
}

impl SessionTxRepository {
    /// The session for `user_id` with `session_key`, made at `now_micros`.
    pub fn create_session_data_at(user_id: u128, session_key: String, now_micros: i64) -> (r: CreateSession)
        requires
            now_micros <= i64::MAX - SESSION_LIFETIME_MICROS,
        ensures
            r == spec_session_at(user_id, session_key, now_micros),
    {
        CreateSession { user_id, session_key, expires_at: now_micros + SESSION_LIFETIME_MICROS }
    }

    /// The session for `user_id` with `session_key`, made now: it expires thirty
    /// days after the clock's reading. `None` where the system clock reads before
    /// the Unix epoch.
    pub fn create_session_data(user_id: u128, session_key: String) -> (r: Option<CreateSession>)
        ensures
            r matches Some(s) ==> exists|now: i64| 0 <= now <= LATEST_CLOCK_MICROS && s == #[trigger] spec_session_at(user_id, session_key, now),
    {
        match now_micros() {
            Some(now) => Some(Self::create_session_data_at(user_id, session_key, now)),
            None => None,
        }
    }
}

} // verus!
