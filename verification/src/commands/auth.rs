//! Authentication command records, and the auth state reported for a session.
use crate::auth::middleware::SessionContext;
use vstd::prelude::*;

verus! {

#[derive(Debug, Clone, PartialEq, Eq)]
pub struct AuthState {
    pub authenticated: bool,
    pub session_id: Option<String>,
    pub user_id: Option<String>,
    pub branch_id: Option<String>,
    pub role: Option<String>,
    pub organization_id: Option<String>,
}

#[derive(Debug, Clone, PartialEq, Eq)]
pub struct LoginResult {
    pub success: bool,
    pub session_id: Option<String>,
    pub user_id: Option<String>,
    pub role: Option<String>,
    pub branch_id: Option<String>,
}

/// The auth state reported for the outcome of validating a session: signed in with the
/// session's identity when it validated (`Some`), signed out with nothing known otherwise.
pub fn auth_state_of(session: Option<SessionContext>) -> (r: AuthState)
    ensures
        match session {
            Some(c) => {
                &&& r.authenticated
                &&& r.session_id == Some(c.session_id)
                &&& r.user_id == Some(c.user_id)
                &&& r.branch_id == Some(c.branch_id)
                &&& r.role == Some(c.role)
                &&& r.organization_id == c.organization_id
            },
            None => {
                &&& !r.authenticated
                &&& r.session_id is None
                &&& r.user_id is None
                &&& r.branch_id is None
                &&& r.role is None
                &&& r.organization_id is None
            },
        },
{
    match session {
        Some(c) => AuthState {
            authenticated: true,
            session_id: Some(c.session_id),
            user_id: Some(c.user_id),
            branch_id: Some(c.branch_id),
            role: Some(c.role),
            organization_id: c.organization_id,
        },
        None => AuthState {
            authenticated: false,
            session_id: None,
            user_id: None,
            branch_id: None,
            role: None,
            organization_id: None,
        },
    }
}

} // verus!
