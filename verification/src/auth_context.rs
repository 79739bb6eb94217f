//! Authentication state of a request: the session the bearer token opened,
//! and the permission answers derived from it.
use vstd::prelude::*;
use std::sync::Arc;
use crate::text::{chars_of, starts_with, starts_with_chars, string_from_range};

verus! {

/// The session a request runs in, opened from a validated token.
#[derive(Debug)]
pub struct SessionInfo {
    /// Session identifier.
    pub id: String,
    /// The token the session was opened with.
    pub token_id: Option<String>,
    /// Opening time, seconds since the Unix epoch.
    pub created_at: u64,
    /// Expiry, seconds since the Unix epoch.
    pub expires_at: Option<u64>,
    /// Last use, seconds since the Unix epoch.
    pub last_used_at: Option<u64>,
}

/// The session id attached to a request.
#[derive(Debug)]
pub struct SessionIdExtension(pub String);

/// The session attached to a request.
#[derive(Debug)]
pub struct SessionInfoExtension(pub Arc<SessionInfo>);

/// A session with expiry `expires_at` has expired at time `now`.
pub open spec fn expired_at(expires_at: Option<u64>, now: u64) -> bool {
    match expires_at {
        Some(e) => e < now,
        None => false,
    }
}

impl SessionInfo {
    /// Whether the session has expired at time `now` (seconds since the
    /// Unix epoch): it has an expiry and the expiry is before `now`.
    pub fn is_expired_at(&self, now: u64) -> (r: bool)
        ensures
            r == expired_at(self.expires_at, now),
    {
        match self.expires_at {
            Some(e) => e < now,
            None => false,
        }
    }

    /// Whether the session has expired now: whether it has at the clock's
    /// reading, whatever it is. A session without expiry never expires.
    pub fn is_expired(&self) -> (r: bool)
        ensures
            exists|now: u64| r == expired_at(self.expires_at, now),
            self.expires_at is None ==> !r,
            r ==> self.expires_at is Some,
    {
        let now = crate::clock::system_now_seconds();
        let r = self.is_expired_at(now);
        assert(r == expired_at(self.expires_at, now));
        r
    }

    /// The session a validated token opens at time `now`: its id is the
    /// token's id, it was created and last used at `now`, and it expires
    /// when the token does.
    pub fn from_token(token_id: &str, expires_at: Option<u64>, now: u64) -> (r: SessionInfo)
        ensures
            r.id@ == token_id@,
            r.token_id matches Some(t) && t@ == token_id@,
            r.created_at == now,
            r.last_used_at == Some(now),
            r.expires_at == expires_at,
    {
        SessionInfo {
            id: token_id.to_owned(),
            token_id: Some(token_id.to_owned()),
            created_at: now,
            expires_at,
            last_used_at: Some(now),
        }
    }
}

/// The outcome of a permission check.
#[derive(Clone, Copy, Debug, PartialEq, Eq, Structural)]
pub enum PermissionResult {
    /// Access is allowed.
    Allowed,
    /// There is no authenticated session.
    NotAuthenticated,
    /// The session lacks the permission.
    InsufficientPermissions,
    /// The session has expired.
    SessionExpired,
}

/// What a permission check answers for a request with the given session at
/// time `now`.
pub open spec fn permission_result(session: Option<Arc<SessionInfo>>, now: u64) -> PermissionResult {
    match session {
        None => PermissionResult::NotAuthenticated,
        Some(s) => if expired_at(s.expires_at, now) {
            PermissionResult::SessionExpired
        } else {
            PermissionResult::Allowed
        },
    }
}

/// The authentication state of one request.
#[derive(Debug)]
pub struct AuthContext {
    /// The session, when the request was authenticated.
    pub session_info: Option<Arc<SessionInfo>>,
}

impl AuthContext {
    /// The context of a request with the given session (or none).
    pub fn new(session_info: Option<Arc<SessionInfo>>) -> (r: AuthContext)
        ensures
            r.session_info == session_info,
    {
        AuthContext { session_info }
    }

    /// Whether the request carries a session.
    pub fn has_valid_session(&self) -> (r: bool)
        ensures
            r == self.session_info is Some,
    {
        self.session_info.is_some()
    }

    /// Whether the session has expired at time `now`; a request without a
    /// session counts as expired.
    pub fn is_session_expired_at(&self, now: u64) -> (r: bool)
        ensures
            r == match self.session_info {
                Some(s) => expired_at(s.expires_at, now),
                None => true,
            },
    {
        match &self.session_info {
            Some(s) => s.is_expired_at(now),
            None => true,
        }
    }

    /// Whether the session has expired now; a request without a session
    /// counts as expired.
    pub fn is_session_expired(&self) -> (r: bool)
        ensures
            self.session_info is None ==> r,
            self.session_info matches Some(s) && s.expires_at is None ==> !r,
    {
        let now = crate::clock::system_now_seconds();
        self.is_session_expired_at(now)
    }

    /// The session id, if any.
    pub fn session_id(&self) -> (r: Option<&str>)
        ensures
            match self.session_info {
                Some(s) => r matches Some(x) && x@ == s.id@,
                None => r is None,
            },
    {
        match &self.session_info {
            Some(s) => Some(s.id.as_str()),
            None => None,
        }
    }

    /// The id of the token behind the session, if any.
    pub fn token_id(&self) -> (r: Option<&str>)
        ensures
            match self.session_info {
                Some(s) => match s.token_id {
                    Some(t) => r matches Some(x) && x@ == t@,
                    None => r is None,
                },
                None => r is None,
            },
    {
        match &self.session_info {
            Some(s) => match &s.token_id {
                Some(t) => Some(t.as_str()),
                None => None,
            },
            None => None,
        }
    }

    /// Whether a tool may be used: any authenticated session may (the
    /// per-token filtering happens when tools are listed).
    pub fn has_tool_permission(&self, _tool_name: &str) -> (r: bool)
        ensures
            r == self.session_info is Some,
    {
        self.session_info.is_some()
    }

    /// Whether a resource may be read: any authenticated session may.
    pub fn has_resource_permission(&self, _resource_uri: &str) -> (r: bool)
        ensures
            r == self.session_info is Some,
    {
        self.session_info.is_some()
    }

    /// Whether a prompt may be fetched: any authenticated session may.
    pub fn has_prompt_permission(&self, _prompt_name: &str) -> (r: bool)
        ensures
            r == self.session_info is Some,
    {
        self.session_info.is_some()
    }

    /// Whether a prompt template may be used: any authenticated session may.
    pub fn has_prompt_template_permission(&self, _template_name: &str) -> (r: bool)
        ensures
            r == self.session_info is Some,
    {
        self.session_info.is_some()
    }

    /// Records an access of the session; the session is shared and left
    /// unchanged.
    pub fn update_session_access(&self) {
    }

    /// The permission answer at time `now`, the same for every tool,
    /// resource and prompt: no session, an expired one, or allowed.
    pub fn check_permission_at(&self, now: u64) -> (r: PermissionResult)
        ensures
            r == permission_result(self.session_info, now),
    {
        if !self.has_valid_session() {
            return PermissionResult::NotAuthenticated;
        }
        if self.is_session_expired_at(now) {
            return PermissionResult::SessionExpired;
        }
        PermissionResult::Allowed
    }

    /// The permission answer for a tool now.
    pub fn check_tool_permission_with_result(&self, _tool_name: &str) -> (r: PermissionResult)
        ensures
            self.session_info is None <==> r == PermissionResult::NotAuthenticated,
            self.session_info matches Some(s) && s.expires_at is None ==> r == PermissionResult::Allowed,
            r != PermissionResult::InsufficientPermissions,
    {
        self.check_permission_at(crate::clock::system_now_seconds())
    }

    /// The permission answer for a resource now.
    pub fn check_resource_permission_with_result(&self, _resource_uri: &str) -> (r: PermissionResult)
        ensures
            self.session_info is None <==> r == PermissionResult::NotAuthenticated,
            self.session_info matches Some(s) && s.expires_at is None ==> r == PermissionResult::Allowed,
            r != PermissionResult::InsufficientPermissions,
    {
        self.check_permission_at(crate::clock::system_now_seconds())
    }

    /// The permission answer for a prompt now.
    pub fn check_prompt_permission_with_result(&self, _prompt_name: &str) -> (r: PermissionResult)
        ensures
            self.session_info is None <==> r == PermissionResult::NotAuthenticated,
            self.session_info matches Some(s) && s.expires_at is None ==> r == PermissionResult::Allowed,
            r != PermissionResult::InsufficientPermissions,
    {
        self.check_permission_at(crate::clock::system_now_seconds())
    }
}

/// Why a request was turned away before reaching the MCP handler.
#[derive(Clone, Copy, Debug, PartialEq, Eq, Structural)]
pub enum AuthRejection {
    /// No `Authorization` header.
    MissingHeader,
    /// The header is not `Bearer <token>`.
    InvalidFormat,
    /// The token was not accepted.
    InvalidToken,
}

impl AuthRejection {
    /// The HTTP status the request is answered with: 401.
    pub fn status_code(&self) -> (r: u16)
        ensures
            r == 401,
    {
        401
    }
}

/// The prefix of a bearer `Authorization` header.
pub open spec fn bearer_prefix() -> Seq<char> {
    seq!['B', 'e', 'a', 'r', 'e', 'r', ' ']
}

/// The token of an `Authorization` header: what follows `Bearer `.
pub fn extract_bearer_token(header: Option<&str>) -> (r: Result<String, AuthRejection>)
    ensures
        match header {
            None => r == Err::<String, AuthRejection>(AuthRejection::MissingHeader),
            Some(h) => if starts_with(h@, bearer_prefix()) {
                r matches Ok(t) && t@ == h@.skip(7)
            } else {
                r == Err::<String, AuthRejection>(AuthRejection::InvalidFormat)
            },
        },
{
    match header {
        None => Err(AuthRejection::MissingHeader),
        Some(h) => {
            let v = chars_of(h);
            let mut p: Vec<char> = Vec::new();
            p.push('B');
            p.push('e');
            p.push('a');
            p.push('r');
            p.push('e');
            p.push('r');
            p.push(' ');
            assert(p@ =~= bearer_prefix());
            if starts_with_chars(&v, &p) {
                let t = string_from_range(&v, 7, v.len());
                assert(t@ =~= h@.skip(7));
                Ok(t)
            } else {
                Err(AuthRejection::InvalidFormat)
            }
        },
    }
}

/// What the authentication layer does once the token has been checked
/// (`validated` holds the accepted token's id, or why it was refused) and
/// its record looked up (`token_expiry` holds the record's expiry when it
/// was found): a refused token is answered 401; an accepted one goes on to
/// the MCP handler, carrying the session it opens at `now` when its record
/// was found.
pub fn admit_request(validated: Result<String, String>, token_expiry: Option<Option<u64>>, now: u64) -> (r: Result<
    Option<SessionInfo>,
    AuthRejection,
>)
    ensures
        validated is Err ==> r == Err::<Option<SessionInfo>, AuthRejection>(AuthRejection::InvalidToken),
        validated matches Ok(id) ==> match token_expiry {
            Some(expiry) => r matches Ok(Some(s)) && s.id@ == id@ && (s.token_id matches Some(t) && t@ == id@)
                && s.created_at == now && s.last_used_at == Some(now) && s.expires_at == expiry,
            None => r matches Ok(None),
        },
{
    match validated {
        Err(_) => Err(AuthRejection::InvalidToken),
        Ok(id) => match token_expiry {
            Some(expiry) => Ok(Some(SessionInfo::from_token(id.as_str(), expiry, now))),
            None => Ok(None),
        },
    }
}

} // verus!
