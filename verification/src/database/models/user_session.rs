//! Login sessions of users.

use vstd::prelude::*;

use crate::clock::now_millis;
use crate::entity_id::{is_v7_uuid, EntityId, ForSession, ForUser};

verus! {

/// How long, in ms, a session stays valid: seven days.
pub const INACTIVE_SESSION_TIMEOUT: i64 = 604_800_000;

/// When a session created at `now` expires (saturating at the largest timestamp).
pub open spec fn session_expiry(now: i64) -> i64 {
    if now + INACTIVE_SESSION_TIMEOUT <= i64::MAX {
        (now + INACTIVE_SESSION_TIMEOUT) as i64
    } else {
        i64::MAX
    }
}

/// A login session.
#[derive(Debug, Clone)]
pub struct UserSession {
    pub id: EntityId<ForSession>,
    pub user_id: EntityId<ForUser>,
    /// Time in ms.
    pub created_at: i64,
    /// Time in ms.
    pub expires_at: i64,
}

impl UserSession {
    /// A session for `user_id` with a fresh identifier, created now and
    /// expiring seven days later.
    pub fn new(user_id: EntityId<ForUser>) -> (s: Self)
        ensures
            s.user_id@ == user_id@,
            s.created_at >= 0,
            s.expires_at == session_expiry(s.created_at),
            is_v7_uuid(s.id@),
    {
        Self::new_at(user_id, now_millis())
    }

    /// A session for `user_id` with a fresh identifier, created at time `now`
    /// and expiring seven days later (or at the end of time, if that is sooner).
    pub fn new_at(user_id: EntityId<ForUser>, now: i64) -> (s: Self)
        ensures
            s.user_id@ == user_id@,
            s.created_at == now,
            s.expires_at == session_expiry(now),
            is_v7_uuid(s.id@),
    {
        Self {
            id: EntityId::new(),
            user_id,
            created_at: now,
            expires_at: if now <= i64::MAX - INACTIVE_SESSION_TIMEOUT {
                now + INACTIVE_SESSION_TIMEOUT
            } else {
                i64::MAX
            },
        }
    }

    /// Whether the session has expired at time `now`.
    pub fn is_expired_at(&self, now: i64) -> (r: bool)
        ensures
            r == (now > self.expires_at),
    {
        now > self.expires_at
    }

    /// Whether the session has expired by the current clock: the answer of
    /// [`UserSession::is_expired_at`] for the time the clock read.
    pub fn is_expired(&self) -> (r: bool)
        ensures
            exists|now: i64| now >= 0 && r == #[trigger] session_expired_at(self.expires_at, now),
            r ==> self.expires_at < i64::MAX,
    {
        let now = now_millis();
        let r = self.is_expired_at(now);
        assert(r == session_expired_at(self.expires_at, now));
        r
    }
}

/// Whether a session expiring at `expires_at` has expired at time `now`.
pub open spec fn session_expired_at(expires_at: i64, now: i64) -> bool {
    now > expires_at
}

/// Once a session has expired it stays expired: expiry is monotone in time.
pub proof fn lemma_session_expiry_monotone(s: UserSession, t1: i64, t2: i64)
    requires
        t1 <= t2,
        t1 > s.expires_at,
    ensures
        t2 > s.expires_at,
{
}

} // verus!
