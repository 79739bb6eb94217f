//! Sessions of the aggregating endpoint: how long they live, when they are
//! idle, and the settings of their periodic cleanup.
use vstd::prelude::*;
use crate::types::{token_expired_at, Token};

verus! {

/// Seconds between two cleanups of stale sessions, unless configured.
pub const DEFAULT_CLEANUP_INTERVAL_SECONDS: u64 = 300;

/// Seconds without use after which a session is idle, unless configured.
pub const DEFAULT_IDLE_TIMEOUT_SECONDS: u64 = 3600;

/// The settings of the session store: the cleanup period and the idle
/// timeout, both in seconds. The sessions themselves live in the database.
#[derive(Debug)]
pub struct SessionManagerSqlite {
    cleanup_interval: u64,
    default_idle_timeout: u64,
}

impl SessionManagerSqlite {
    /// The cleanup period, in seconds.
    pub closed spec fn cleanup_interval_spec(&self) -> u64 {
        self.cleanup_interval
    }

    /// The idle timeout, in seconds.
    pub closed spec fn idle_timeout_spec(&self) -> u64 {
        self.default_idle_timeout
    }

    /// The default settings: cleanup every five minutes, idle after an hour.
    pub fn new() -> (r: Self)
        ensures
            r.cleanup_interval_spec() == DEFAULT_CLEANUP_INTERVAL_SECONDS,
            r.idle_timeout_spec() == DEFAULT_IDLE_TIMEOUT_SECONDS,
    {
        SessionManagerSqlite {
            cleanup_interval: DEFAULT_CLEANUP_INTERVAL_SECONDS,
            default_idle_timeout: DEFAULT_IDLE_TIMEOUT_SECONDS,
        }
    }

    /// Settings with the given cleanup period and idle timeout (seconds).
    pub fn new_with_config(cleanup_interval: u64, idle_timeout: u64) -> (r: Self)
        ensures
            r.cleanup_interval_spec() == cleanup_interval,
            r.idle_timeout_spec() == idle_timeout,
    {
        SessionManagerSqlite { cleanup_interval, default_idle_timeout: idle_timeout }
    }

    /// The cleanup period, in seconds.
    pub fn cleanup_interval(&self) -> (r: u64)
        ensures
            r == self.cleanup_interval_spec(),
    {
        self.cleanup_interval
    }

    /// The idle timeout, in seconds.
    pub fn default_idle_timeout(&self) -> (r: u64)
        ensures
            r == self.idle_timeout_spec(),
    {
        self.default_idle_timeout
    }

    /// The idle timeout a cleanup uses: the one asked for, else the default.
    pub fn idle_timeout_for_cleanup(&self, idle_timeout: Option<u64>) -> (r: u64)
        ensures
            r == match idle_timeout {
                Some(t) => t,
                None => self.idle_timeout_spec(),
            },
    {
        match idle_timeout {
            Some(t) => t,
            None => self.default_idle_timeout,
        }
    }
}

/// A stored session is valid at `now` (seconds since the epoch) when it has
/// no expiry or `now` has not passed it.
pub open spec fn stored_session_valid(expires_at: Option<i64>, now: i64) -> bool {
    match expires_at {
        Some(e) => now <= e,
        None => true,
    }
}

/// A stored session is valid until its expiry and not after: one whose
/// expiry is not before `now` is valid, one whose expiry has passed is not,
/// and one without an expiry stays valid.
pub proof fn law_session_valid_until_expiry(expires_at: Option<i64>, now: i64)
    ensures
        (expires_at matches Some(e) && now <= e) ==> stored_session_valid(expires_at, now),
        (expires_at matches Some(e) && now > e) ==> !stored_session_valid(expires_at, now),
        expires_at is None ==> stored_session_valid(expires_at, now),
{
}

/// Whether a stored session (found, with expiry `expires_at`) is valid at
/// `now`; a session that was not found is not.
pub fn is_session_valid_at(found: bool, expires_at: Option<i64>, now: i64) -> (r: bool)
    ensures
        r == (found && stored_session_valid(expires_at, now)),
        !found ==> !r,
        found && (expires_at matches Some(e) && now <= e) ==> r,
        (expires_at matches Some(e) && now > e) ==> !r,
        found && expires_at is None ==> r,
{
    proof {
        law_session_valid_until_expiry(expires_at, now);
    }
    if !found {
        return false;
    }
    match expires_at {
        Some(e) => now <= e,
        None => true,
    }
}

/// A live session: its token and its times, in milliseconds since the Unix
/// epoch.
#[derive(Debug)]
pub struct SessionInfo {
    /// Session identifier.
    pub id: String,
    /// The token the session was opened with.
    pub token: Token,
    /// Opening time (ms).
    pub created_at: u64,
    /// Last use (ms).
    pub last_accessed: u64,
    /// Expiry (ms), if the session has its own.
    pub expires_at: Option<u64>,
}

/// A session has expired at `now` (ms): past its own expiry when it has
/// one, else when its token has expired.
pub open spec fn session_expired_at(s: SessionInfo, now: u64) -> bool {
    match s.expires_at {
        Some(e) => now > e,
        None => token_expired_at(s.token.expires_at, now / 1000),
    }
}

/// A session has been idle at `now` (ms) for longer than `idle_timeout`
/// seconds. A clock reading before the last use counts as no time.
pub open spec fn session_idle_longer_than(s: SessionInfo, now: u64, idle_timeout: u64) -> bool {
    now > s.last_accessed && now - s.last_accessed > idle_timeout * 1000
}

/// The session after a use at `now` (ms): only its last use changes, to
/// `now` or, where the clock reads earlier than the recorded use, to that
/// use: the last use never moves back.
pub open spec fn accessed_at(s: SessionInfo, now: u64) -> SessionInfo {
    SessionInfo { last_accessed: if now > s.last_accessed { now } else { s.last_accessed }, ..s }
}

impl SessionInfo {
    /// A session opened at `now` (ms) with the given id, token and expiry.
    pub fn new_at(id: String, token: Token, expires_at: Option<u64>, now: u64) -> (r: Self)
        ensures
            r.id == id,
            r.token == token,
            r.created_at == now,
            r.last_accessed == now,
            r.expires_at == expires_at,
    {
        SessionInfo { id, token, created_at: now, last_accessed: now, expires_at }
    }

    /// A session opened now, under a fresh random identifier.
    pub fn new(token: Token, expires_at: Option<u64>) -> (r: Self)
        ensures
            r.token == token,
            r.expires_at == expires_at,
            r.created_at == r.last_accessed,
    {
        let id = crate::ids::new_uuid_v4();
        let now = crate::clock::system_now_millis();
        Self::new_at(id, token, expires_at, now)
    }

    /// Records a use at `now` (ms); a reading earlier than the recorded use
    /// leaves it as it is.
    pub fn update_access_at(&mut self, now: u64)
        ensures
            *final(self) == accessed_at(*old(self), now),
            final(self).last_accessed >= old(self).last_accessed,
    {
        if now > self.last_accessed {
            self.last_accessed = now;
        }
    }

    /// Records a use now: the last use becomes the clock's reading,
    /// whatever it is, unless that is earlier than the recorded use; it
    /// never moves back, and nothing else changes.
    pub fn update_access(&mut self)
        ensures
            exists|now: u64| *final(self) == accessed_at(*old(self), now),
            final(self).last_accessed >= old(self).last_accessed,
    {
        let now = crate::clock::system_now_millis();
        self.update_access_at(now);
        assert(*self == accessed_at(*old(self), now));
    }

    /// Whether the session has expired at `now` (ms).
    pub fn is_expired_at(&self, now: u64) -> (r: bool)
        ensures
            r == session_expired_at(*self, now),
    {
        match self.expires_at {
            Some(e) => now > e,
            None => self.token.is_expired_at(now / 1000),
        }
    }

    /// Whether the session has expired now: whether it has expired at the
    /// clock's reading, whatever it is.
    pub fn is_expired(&self) -> (r: bool)
        ensures
            exists|now: u64| r == session_expired_at(*self, now),
            self.expires_at is None && self.token.expires_at is None ==> !r,
    {
        let now = crate::clock::system_now_millis();
        let r = self.is_expired_at(now);
        assert(r == session_expired_at(*self, now));
        r
    }

    /// Whether the session has been idle at `now` (ms) for longer than
    /// `idle_timeout` seconds.
    pub fn is_idle_longer_than_at(&self, idle_timeout: u64, now: u64) -> (r: bool)
        ensures
            r == session_idle_longer_than(*self, now, idle_timeout),
    {
        if now <= self.last_accessed {
            return false;
        }
        let elapsed: u64 = now - self.last_accessed;
        (elapsed as u128) > (idle_timeout as u128) * 1000
    }

    /// Whether the session has been idle for longer than `idle_timeout`
    /// seconds: whether it has at the clock's reading, whatever it is.
    pub fn is_idle_longer_than(&self, idle_timeout: u64) -> (r: bool)
        ensures
            exists|now: u64| r == session_idle_longer_than(*self, now, idle_timeout),
    {
        let now = crate::clock::system_now_millis();
        let r = self.is_idle_longer_than_at(idle_timeout, now);
        assert(r == session_idle_longer_than(*self, now, idle_timeout));
        r
    }
}

/// A session used at `now` is not idle at `now`, whatever the timeout.
pub proof fn law_fresh_use_is_not_idle(s: SessionInfo, now: u64, idle_timeout: u64)
    ensures
        !session_idle_longer_than(SessionInfo { last_accessed: now, ..s }, now, idle_timeout),
{
}

/// Expiry is lasting: a session expired at `now` is expired at every later
/// time.
pub proof fn law_expiry_is_lasting(s: SessionInfo, now: u64, later: u64)
    requires
        now <= later,
        session_expired_at(s, now),
    ensures
        session_expired_at(s, later),
{
    if s.expires_at is None {
        assert(now / 1000 <= later / 1000) by (nonlinear_arith)
            requires
                now <= later,
        ;
    }
}

} // verus!
