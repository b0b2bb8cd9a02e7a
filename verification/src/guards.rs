//! Guards that an operation's session must pass.
use vstd::prelude::*;
use crate::sessions::Session;
use crate::errors::{ApiError, ApiErrorView, create_internal_server_error, create_forbidden_error,
    internal_server_error, forbidden_error};

verus! {

/// What a guarded operation requires of its session.
#[derive(Clone, Copy, Debug, PartialEq, Eq, Structural)]
pub enum SessionType {
    /// A logged-in user, whose token may still await its second factor.
    Token,
    /// A logged-in user with a verified token.
    User,
    /// A logged-in user with a verified token who is not banned.
    NotBanned,
    /// A logged-in administrator with a verified token.
    Admin,
}

/// A guard on the session of an operation.
pub struct SessionGuard {
    session_type: SessionType,
}

/// The error a guard of type `t` answers for a session, if any.
pub open spec fn guard_error(t: SessionType, session: Option<&Session>) -> Option<ApiErrorView> {
    match session {
        None => Some(internal_server_error(None, "NO_SESSION_ERROR"@)),
        Some(s) => match s.user {
            None => Some(forbidden_error(Some("Not logged in."@), "NOT_LOGGED_IN"@)),
            Some(u) => if t == SessionType::Admin && !u.admin {
                Some(forbidden_error(None, "NOT_GLOBAL_ADMIN"@))
            } else if t == SessionType::NotBanned && u.banned {
                Some(forbidden_error(None, "USER_BANNED"@))
            } else if t != SessionType::Token && !s.verified {
                Some(forbidden_error(None, "UNVERIFIED_TOKEN"@))
            } else {
                None
            },
        },
    }
}

impl SessionGuard {
    /// The guard's requirement.
    pub closed spec fn kind(&self) -> SessionType {
        self.session_type
    }

    pub fn new(session_type: SessionType) -> (r: Self)
        ensures
            r.kind() == session_type,
    {
        Self { session_type }
    }

    /// Checks a session (`None` when the request carries none).
    pub fn check(&self, session: Option<&Session>) -> (r: Result<(), ApiError>)
        ensures
            match guard_error(self.kind(), session) {
                None => r is Ok,
                Some(e) => r matches Err(x) && x@ == e,
            },
    {
        let session = match session {
            Some(s) => s,
            None => {
                return Err(create_internal_server_error(None, "NO_SESSION_ERROR"));
            },
        };
        let user = match &session.user {
            Some(u) => u,
            None => {
                return Err(create_forbidden_error(Some("Not logged in."), "NOT_LOGGED_IN"));
            },
        };
        if self.session_type == SessionType::Admin && !user.admin {
            Err(create_forbidden_error(None, "NOT_GLOBAL_ADMIN"))
        } else if self.session_type == SessionType::NotBanned && user.banned {
            Err(create_forbidden_error(None, "USER_BANNED"))
        } else if self.session_type != SessionType::Token && !session.verified {
            Err(create_forbidden_error(None, "UNVERIFIED_TOKEN"))
        } else {
            Ok(())
        }
    }
}

/// Law: the session kinds are nested: a session admitted for users is admitted where a token
/// suffices, and one admitted for users that are not banned, or for administrators, is
/// admitted for users.
pub proof fn lemma_guard_levels(session: Option<&Session>)
    ensures
        guard_error(SessionType::User, session) is None ==> guard_error(SessionType::Token, session) is None,
        guard_error(SessionType::NotBanned, session) is None ==> guard_error(SessionType::User, session) is None,
        guard_error(SessionType::Admin, session) is None ==> guard_error(SessionType::User, session) is None,
{
}

/// Law: what each kind of session needs. `Token` admits any session with a user; `User`
/// admits a user whose token is verified, whether banned or not; `NotBanned` adds that the
/// user is not banned; `Admin` adds that the user is an administrator (banned or not).
pub proof fn lemma_guard_admits(session: Option<&Session>)
    ensures
        guard_error(SessionType::Token, session) is None <==> (session matches Some(s) && s.user is Some),
        guard_error(SessionType::User, session) is None <==> (session matches Some(s) && s.user is Some && s.verified),
        guard_error(SessionType::NotBanned, session) is None <==> (session matches Some(s) && s.user matches Some(u)
            && s.verified && !u.banned),
        guard_error(SessionType::Admin, session) is None <==> (session matches Some(s) && s.user matches Some(u)
            && s.verified && u.admin),
{
}

} // verus!
