//! Authorization boundary: session error mapping, declarative requests and the
//! authorization decision (session scope first, then the permission requirements).
use crate::permission::{
    branch_mismatch, opt_view, permission_code, role_from_code, scope_mismatch, validate_scope,
    Permission, PermissionError, Role,
};
use crate::text::{char_count, owned, trim, trim_seq};
use vstd::prelude::*;

verus! {

/// Why a local session failed validation.
#[derive(Debug, Clone, PartialEq, Eq)]
pub enum SessionValidationError {
    Revoked,
    Expired,
    NotFound,
    InactiveUser,
    InactiveBranch,
    Database(String),
}

/// The validated local session an authorization runs against.
#[derive(Debug, Clone, PartialEq, Eq)]
pub struct SessionContext {
    pub session_id: String,
    pub user_id: String,
    pub role: String,
    pub organization_id: Option<String>,
    pub branch_id: String,
}

/// Typed authorization errors of the middleware boundary.
#[derive(Debug, Clone, PartialEq, Eq)]
pub enum AuthMiddlewareError {
    Unauthenticated(String),
    SessionExpired(String),
    SessionRevoked(String),
    PermissionDenied { role: String, permission: String, reason: String },
    ScopeMismatch { expected: String, actual: String },
    Database(String),
    Validation(String),
}

/// Mathematical image of an `AuthMiddlewareError`.
pub enum MiddlewareFault {
    Unauthenticated(Seq<char>),
    SessionExpired(Seq<char>),
    SessionRevoked(Seq<char>),
    PermissionDenied { role: Seq<char>, permission: Seq<char>, reason: Seq<char> },
    ScopeMismatch { expected: Seq<char>, actual: Seq<char> },
    Database(Seq<char>),
    Validation(Seq<char>),
}

impl View for AuthMiddlewareError {
    type V = MiddlewareFault;

    open spec fn view(&self) -> MiddlewareFault {
        match self {
            AuthMiddlewareError::Unauthenticated(m) => MiddlewareFault::Unauthenticated(m@),
            AuthMiddlewareError::SessionExpired(m) => MiddlewareFault::SessionExpired(m@),
            AuthMiddlewareError::SessionRevoked(m) => MiddlewareFault::SessionRevoked(m@),
            AuthMiddlewareError::PermissionDenied { role, permission, reason } => {
                MiddlewareFault::PermissionDenied {
                    role: role@,
                    permission: permission@,
                    reason: reason@,
                }
            },
            AuthMiddlewareError::ScopeMismatch { expected, actual } => {
                MiddlewareFault::ScopeMismatch { expected: expected@, actual: actual@ }
            },
            AuthMiddlewareError::Database(m) => MiddlewareFault::Database(m@),
            AuthMiddlewareError::Validation(m) => MiddlewareFault::Validation(m@),
        }
    }
}

/// The text a middleware error is displayed with.
pub open spec fn middleware_error_text(f: MiddlewareFault) -> Seq<char> {
    match f {
        MiddlewareFault::Unauthenticated(m) => "Authentication required: "@ + m,
        MiddlewareFault::SessionExpired(m) => "Session expired: "@ + m,
        MiddlewareFault::SessionRevoked(m) => "Session revoked: "@ + m,
        MiddlewareFault::PermissionDenied { role, permission, reason } => "Permission denied: role '"@
            + role + "' lacks permission '"@ + permission + "'. Reason: "@ + reason,
        MiddlewareFault::ScopeMismatch { expected, actual } => "Scope mismatch: operation requires scope '"@
            + expected + "', but session has scope '"@ + actual + "'"@,
        MiddlewareFault::Database(m) => "Database error: "@ + m,
        MiddlewareFault::Validation(m) => "Validation error: "@ + m,
    }
}

impl AuthMiddlewareError {
    /// The display text of this error.
    pub fn describe(&self) -> (r: String)
        ensures
            r@ == middleware_error_text(self@),
    {
        match self {
            AuthMiddlewareError::Unauthenticated(m) => crate::text::concat2("Authentication required: ", m.as_str()),
            AuthMiddlewareError::SessionExpired(m) => crate::text::concat2("Session expired: ", m.as_str()),
            AuthMiddlewareError::SessionRevoked(m) => crate::text::concat2("Session revoked: ", m.as_str()),
            AuthMiddlewareError::PermissionDenied { role, permission, reason } => {
                let mut m = crate::text::concat5(
                    "Permission denied: role '",
                    role.as_str(),
                    "' lacks permission '",
                    permission.as_str(),
                    "'. Reason: ",
                );
                crate::text::push_str(&mut m, reason.as_str());
                m
            },
            AuthMiddlewareError::ScopeMismatch { expected, actual } => crate::text::concat5(
                "Scope mismatch: operation requires scope '",
                expected.as_str(),
                "', but session has scope '",
                actual.as_str(),
                "'",
            ),
            AuthMiddlewareError::Database(m) => crate::text::concat2("Database error: ", m.as_str()),
            AuthMiddlewareError::Validation(m) => crate::text::concat2("Validation error: ", m.as_str()),
        }
    }
}

/// What a permission error becomes at the middleware boundary.
pub open spec fn from_permission_spec(err: PermissionError) -> MiddlewareFault {
    match err {
        PermissionError::PermissionDenied { role, permission, reason } => {
            MiddlewareFault::PermissionDenied { role: role@, permission: permission@, reason: reason@ }
        },
        PermissionError::ScopeMismatch { expected, actual } => MiddlewareFault::ScopeMismatch {
            expected: expected@,
            actual: actual@,
        },
        PermissionError::Database(m) => MiddlewareFault::Database(m@),
        PermissionError::InvalidPermission(p) => MiddlewareFault::Validation(
            "Invalid permission: "@ + p@,
        ),
        PermissionError::InvalidRole(r) => MiddlewareFault::Validation("Invalid role: "@ + r@),
    }
}

impl AuthMiddlewareError {
    /// Converts a permission error into a middleware error.
    pub fn from_permission_error(err: PermissionError) -> (r: Self)
        ensures
            r@ == from_permission_spec(err),
    {
        match err {
            PermissionError::PermissionDenied { role, permission, reason } => {
                AuthMiddlewareError::PermissionDenied { role, permission, reason }
            },
            PermissionError::ScopeMismatch { expected, actual } => {
                AuthMiddlewareError::ScopeMismatch { expected, actual }
            },
            PermissionError::Database(m) => AuthMiddlewareError::Database(m),
            PermissionError::InvalidPermission(p) => {
                let mut m = String::from_str("Invalid permission: ");
                crate::text::push_str(&mut m, p.as_str());
                AuthMiddlewareError::Validation(m)
            },
            PermissionError::InvalidRole(r) => {
                let mut m = String::from_str("Invalid role: ");
                crate::text::push_str(&mut m, r.as_str());
                AuthMiddlewareError::Validation(m)
            },
        }
    }
}

/// What a session validation failure becomes at the middleware boundary.
pub open spec fn session_error_spec(err: SessionValidationError) -> MiddlewareFault {
    match err {
        SessionValidationError::Revoked => MiddlewareFault::SessionRevoked("Session has been revoked"@),
        SessionValidationError::Expired => MiddlewareFault::SessionExpired("Session has expired"@),
        SessionValidationError::NotFound => MiddlewareFault::Unauthenticated("Session not found"@),
        SessionValidationError::InactiveUser => MiddlewareFault::Unauthenticated(
            "User account is inactive"@,
        ),
        SessionValidationError::InactiveBranch => MiddlewareFault::Unauthenticated(
            "Branch is inactive"@,
        ),
        SessionValidationError::Database(m) => MiddlewareFault::Database(m@),
    }
}

/// Maps a session validation failure to a middleware error.
pub fn map_session_error(err: SessionValidationError) -> (r: AuthMiddlewareError)
    ensures
        r@ == session_error_spec(err),
{
    match err {
        SessionValidationError::Revoked => AuthMiddlewareError::SessionRevoked(
            String::from_str("Session has been revoked"),
        ),
        SessionValidationError::Expired => AuthMiddlewareError::SessionExpired(
            String::from_str("Session has expired"),
        ),
        SessionValidationError::NotFound => AuthMiddlewareError::Unauthenticated(
            String::from_str("Session not found"),
        ),
        SessionValidationError::InactiveUser => AuthMiddlewareError::Unauthenticated(
            String::from_str("User account is inactive"),
        ),
        SessionValidationError::InactiveBranch => AuthMiddlewareError::Unauthenticated(
            String::from_str("Branch is inactive"),
        ),
        SessionValidationError::Database(m) => AuthMiddlewareError::Database(m),
    }
}

/// Declarative authorization request.
#[derive(Debug, Clone, PartialEq, Eq)]
pub struct AuthorizeRequest<'a> {
    pub session_id: &'a str,
    pub permission: Option<Permission>,
    pub require_all: Option<&'a [Permission]>,
    pub require_any: Option<&'a [Permission]>,
    pub target_org_id: Option<&'a str>,
    pub target_branch_id: Option<&'a str>,
}

impl<'a> AuthorizeRequest<'a> {
    /// A request for a session with no permission or scope requirement.
    pub fn new(session_id: &'a str) -> (r: Self)
        ensures
            r.session_id == session_id,
            r.permission is None,
            r.require_all is None,
            r.require_any is None,
            r.target_org_id is None,
            r.target_branch_id is None,
    {
        AuthorizeRequest {
            session_id,
            permission: None,
            require_all: None,
            require_any: None,
            target_org_id: None,
            target_branch_id: None,
        }
    }

    /// Requires a single permission.
    pub fn with_permission(self, permission: Permission) -> (r: Self)
        ensures
            r == (AuthorizeRequest { permission: Some(permission), ..self }),
    {
        AuthorizeRequest { permission: Some(permission), ..self }
    }

    /// Requires every one of `permissions`.
    pub fn with_all_permissions(self, permissions: &'a [Permission]) -> (r: Self)
        ensures
            r == (AuthorizeRequest { require_all: Some(permissions), ..self }),
    {
        AuthorizeRequest { require_all: Some(permissions), ..self }
    }

    /// Requires at least one of `permissions`.
    pub fn with_any_permission(self, permissions: &'a [Permission]) -> (r: Self)
        ensures
            r == (AuthorizeRequest { require_any: Some(permissions), ..self }),
    {
        AuthorizeRequest { require_any: Some(permissions), ..self }
    }

    /// Constrains the operation to an organisation.
    pub fn with_organization_scope(self, org_id: &'a str) -> (r: Self)
        ensures
            r == (AuthorizeRequest { target_org_id: Some(org_id), ..self }),
    {
        AuthorizeRequest { target_org_id: Some(org_id), ..self }
    }

    /// Constrains the operation to a branch.
    pub fn with_branch_scope(self, branch_id: &'a str) -> (r: Self)
        ensures
            r == (AuthorizeRequest { target_branch_id: Some(branch_id), ..self }),
    {
        AuthorizeRequest { target_branch_id: Some(branch_id), ..self }
    }
}

/// The session ID of a request must not be blank.
pub fn check_session_id(session_id: &str) -> (r: Result<(), AuthMiddlewareError>)
    ensures
        trim_seq(session_id@).len() == 0 ==> (r matches Err(e) && e@
            == MiddlewareFault::Unauthenticated("Session ID is required"@)),
        trim_seq(session_id@).len() != 0 ==> r is Ok,
{
    if char_count(trim(session_id)) == 0 {
        Err(AuthMiddlewareError::Unauthenticated(String::from_str("Session ID is required")))
    } else {
        Ok(())
    }
}

/// The first permission of `list`, from index `i` on, that is not in `granted`.
pub open spec fn first_missing_from(list: Seq<Permission>, granted: Seq<Permission>, i: int) -> Option<
    Permission,
>
    decreases list.len() - i,
{
    if i < 0 || i >= list.len() {
        None
    } else if !granted.contains(list[i]) {
        Some(list[i])
    } else {
        first_missing_from(list, granted, i + 1)
    }
}

pub open spec fn denied(role: Seq<char>, permission: Seq<char>, reason: Seq<char>) -> Result<(), MiddlewareFault> {
    Err(MiddlewareFault::PermissionDenied { role, permission, reason })
}

/// Check of one required permission: an unknown role fails closed, then the permission must
/// be granted.
pub open spec fn single_spec(role: Seq<char>, p: Permission, granted: Seq<Permission>) -> Result<(), MiddlewareFault> {
    if role_from_code(role) is None {
        denied(role, permission_code(p), "Unknown or invalid role fails closed"@)
    } else if !granted.contains(p) {
        denied(role, permission_code(p), "Role or user override does not grant this permission"@)
    } else {
        Ok(())
    }
}

/// Check of an all-of requirement: an empty list fails closed, then each permission in order.
pub open spec fn all_spec(role: Seq<char>, list: Seq<Permission>, granted: Seq<Permission>) -> Result<(), MiddlewareFault> {
    if list.len() == 0 {
        denied(role, "none"@, "Empty permission list fails closed"@)
    } else if role_from_code(role) is None {
        denied(role, permission_code(list[0]), "Unknown or invalid role fails closed"@)
    } else {
        match first_missing_from(list, granted, 0) {
            Some(p) => denied(
                role,
                permission_code(p),
                "Role or user override does not grant this permission"@,
            ),
            None => Ok(()),
        }
    }
}

/// Check of an any-of requirement: an empty list or an unknown role fails closed, then at
/// least one permission must be granted.
pub open spec fn any_spec(role: Seq<char>, list: Seq<Permission>, granted: Seq<Permission>) -> Result<(), MiddlewareFault> {
    if list.len() == 0 {
        denied(role, "none"@, "Empty permission list fails closed"@)
    } else if role_from_code(role) is None {
        denied(role, "any"@, "Unknown or invalid role fails closed"@)
    } else if exists|i: int| 0 <= i < list.len() && granted.contains(#[trigger] list[i]) {
        Ok(())
    } else {
        denied(role, "any"@, "User possesses none of the required permissions"@)
    }
}

pub open spec fn opt_string_view(o: Option<String>) -> Option<Seq<char>> {
    match o {
        Some(s) => Some(s@),
        None => None,
    }
}

pub open spec fn opt_slice_view(o: Option<&[Permission]>) -> Option<Seq<Permission>> {
    match o {
        Some(s) => Some(s@),
        None => None,
    }
}

/// The authorization decision for a validated session whose effective permissions are
/// `granted`: scope first (no role bypasses it), then the single, all-of and any-of
/// requirements in that order.
pub open spec fn authorize_spec(
    permission: Option<Permission>,
    require_all: Option<Seq<Permission>>,
    require_any: Option<Seq<Permission>>,
    target_org: Option<Seq<char>>,
    target_branch: Option<Seq<char>>,
    session_org: Option<Seq<char>>,
    session_branch: Seq<char>,
    role: Seq<char>,
    granted: Seq<Permission>,
) -> Result<(), MiddlewareFault> {
    match scope_mismatch(session_org, session_branch, target_org, target_branch) {
        Some((e, a)) => Err(MiddlewareFault::ScopeMismatch { expected: e, actual: a }),
        None => {
            let s = match permission {
                Some(p) => single_spec(role, p, granted),
                None => Ok(()),
            };
            if s is Err {
                s
            } else {
                let a = match require_all {
                    Some(l) => all_spec(role, l, granted),
                    None => Ok(()),
                };
                if a is Err {
                    a
                } else {
                    match require_any {
                        Some(l) => any_spec(role, l, granted),
                        None => Ok(()),
                    }
                }
            }
        },
    }
}

fn deny(role: &str, permission: &str, reason: &str) -> (r: AuthMiddlewareError)
    ensures
        r@ == (MiddlewareFault::PermissionDenied {
            role: role@,
            permission: permission@,
            reason: reason@,
        }),
{
    AuthMiddlewareError::PermissionDenied {
        role: owned(role),
        permission: owned(permission),
        reason: owned(reason),
    }
}

fn contains_permission(granted: &[Permission], p: Permission) -> (r: bool)
    ensures
        r == granted@.contains(p),
{
    let mut i: usize = 0;
    while i < granted.len()
        invariant
            i <= granted@.len(),
            forall|k: int| 0 <= k < i ==> granted@[k] != p,
        decreases granted.len() - i,
    {
        if granted[i] == p {
            assert(granted@[i as int] == p);
            return true;
        }
        i = i + 1;
    }
    false
}

fn check_single(role: &str, p: Permission, granted: &[Permission]) -> (r: Result<(), AuthMiddlewareError>)
    ensures
        match single_spec(role@, p, granted@) {
            Ok(()) => r is Ok,
            Err(f) => r matches Err(e) && e@ == f,
        },
{
    if Role::parse(role).is_none() {
        return Err(deny(role, p.as_str(), "Unknown or invalid role fails closed"));
    }
    if !contains_permission(granted, p) {
        return Err(deny(role, p.as_str(), "Role or user override does not grant this permission"));
    }
    Ok(())
}

fn check_all(role: &str, list: &[Permission], granted: &[Permission]) -> (r: Result<(), AuthMiddlewareError>)
    ensures
        match all_spec(role@, list@, granted@) {
            Ok(()) => r is Ok,
            Err(f) => r matches Err(e) && e@ == f,
        },
{
    if list.len() == 0 {
        return Err(deny(role, "none", "Empty permission list fails closed"));
    }
    if Role::parse(role).is_none() {
        return Err(deny(role, list[0].as_str(), "Unknown or invalid role fails closed"));
    }
    let mut i: usize = 0;
    while i < list.len()
        invariant
            i <= list@.len(),
            list@.len() > 0,
            role_from_code(role@) is Some,
            first_missing_from(list@, granted@, 0) == first_missing_from(list@, granted@, i as int),
        decreases list.len() - i,
    {
        if !contains_permission(granted, list[i]) {
            return Err(
                deny(role, list[i].as_str(), "Role or user override does not grant this permission"),
            );
        }
        i = i + 1;
    }
    Ok(())
}

fn check_any(role: &str, list: &[Permission], granted: &[Permission]) -> (r: Result<(), AuthMiddlewareError>)
    ensures
        match any_spec(role@, list@, granted@) {
            Ok(()) => r is Ok,
            Err(f) => r matches Err(e) && e@ == f,
        },
{
    if list.len() == 0 {
        return Err(deny(role, "none", "Empty permission list fails closed"));
    }
    if Role::parse(role).is_none() {
        return Err(deny(role, "any", "Unknown or invalid role fails closed"));
    }
    let mut i: usize = 0;
    while i < list.len()
        invariant
            i <= list@.len(),
            list@.len() > 0,
            role_from_code(role@) is Some,
            forall|k: int| 0 <= k < i ==> !granted@.contains(#[trigger] list@[k]),
        decreases list.len() - i,
    {
        if contains_permission(granted, list[i]) {
            assert(granted@.contains(list@[i as int]));
            return Ok(());
        }
        i = i + 1;
    }
    Err(deny(role, "any", "User possesses none of the required permissions"))
}

/// Decides an authorization request for a validated session whose effective permissions are
/// `granted`.
pub fn decide_authorization(
    req: &AuthorizeRequest<'_>,
    session: &SessionContext,
    granted: &[Permission],
) -> (r: Result<(), AuthMiddlewareError>)
    ensures
        match authorize_spec(
            req.permission,
            opt_slice_view(req.require_all),
            opt_slice_view(req.require_any),
            opt_view(req.target_org_id),
            opt_view(req.target_branch_id),
            opt_string_view(session.organization_id),
            session.branch_id@,
            session.role@,
            granted@,
        ) {
            Ok(()) => r is Ok,
            Err(f) => r matches Err(e) && e@ == f,
        },
{
    let org: Option<&str> = match &session.organization_id {
        Some(o) => Some(o.as_str()),
        None => None,
    };
    match validate_scope(org, session.branch_id.as_str(), req.target_org_id, req.target_branch_id) {
        Err(e) => {
            return Err(AuthMiddlewareError::from_permission_error(e));
        },
        Ok(()) => {},
    }
    let role = session.role.as_str();
    if let Some(p) = req.permission {
        match check_single(role, p, granted) {
            Err(e) => {
                return Err(e);
            },
            Ok(()) => {},
        }
    }
    if let Some(list) = req.require_all {
        match check_all(role, list, granted) {
            Err(e) => {
                return Err(e);
            },
            Ok(()) => {},
        }
    }
    if let Some(list) = req.require_any {
        return check_any(role, list, granted);
    }
    Ok(())
}

/// No set of granted permissions lets a session act outside its organisation or branch.
pub proof fn lemma_scope_mismatch_always_denies(
    permission: Option<Permission>,
    require_all: Option<Seq<Permission>>,
    require_any: Option<Seq<Permission>>,
    target_org: Option<Seq<char>>,
    target_branch: Option<Seq<char>>,
    session_org: Option<Seq<char>>,
    session_branch: Seq<char>,
    role: Seq<char>,
    granted: Seq<Permission>,
)
    requires
        scope_mismatch(session_org, session_branch, target_org, target_branch) is Some,
    ensures
        (authorize_spec(
            permission,
            require_all,
            require_any,
            target_org,
            target_branch,
            session_org,
            session_branch,
            role,
            granted,
        ) matches Err(MiddlewareFault::ScopeMismatch { .. })),
{
}

/// An empty all-of or any-of requirement never authorizes.
pub proof fn lemma_empty_requirement_denies(
    permission: Option<Permission>,
    require_all: Option<Seq<Permission>>,
    require_any: Option<Seq<Permission>>,
    target_org: Option<Seq<char>>,
    target_branch: Option<Seq<char>>,
    session_org: Option<Seq<char>>,
    session_branch: Seq<char>,
    role: Seq<char>,
    granted: Seq<Permission>,
)
    requires
        require_all == Some(Seq::<Permission>::empty()) || require_any == Some(
            Seq::<Permission>::empty(),
        ),
    ensures
        authorize_spec(
            permission,
            require_all,
            require_any,
            target_org,
            target_branch,
            session_org,
            session_branch,
            role,
            granted,
        ) is Err,
{
}


proof fn lemma_first_missing_none(list: Seq<Permission>, granted: Seq<Permission>, i: int)
    requires
        0 <= i,
    ensures
        first_missing_from(list, granted, i) is None <==> forall|j: int|
            i <= j < list.len() ==> granted.contains(#[trigger] list[j]),
    decreases list.len() - i,
{
    if i < list.len() {
        lemma_first_missing_none(list, granted, i + 1);
    }
}

/// A session is authorized exactly when the target is inside its scope and every requirement
/// given holds: a single permission is granted to a known role, every permission of a
/// non-empty all-of list is granted to a known role, and at least one permission of a
/// non-empty any-of list is granted to a known role.
pub proof fn lemma_authorized_exactly(
    permission: Option<Permission>,
    require_all: Option<Seq<Permission>>,
    require_any: Option<Seq<Permission>>,
    target_org: Option<Seq<char>>,
    target_branch: Option<Seq<char>>,
    session_org: Option<Seq<char>>,
    session_branch: Seq<char>,
    role: Seq<char>,
    granted: Seq<Permission>,
)
    ensures
        authorize_spec(
            permission,
            require_all,
            require_any,
            target_org,
            target_branch,
            session_org,
            session_branch,
            role,
            granted,
        ) is Ok <==> {
            &&& scope_mismatch(session_org, session_branch, target_org, target_branch) is None
            &&& permission is Some ==> role_from_code(role) is Some && granted.contains(
                permission->Some_0,
            )
            &&& require_all is Some ==> {
                &&& require_all->Some_0.len() > 0
                &&& role_from_code(role) is Some
                &&& forall|j: int|
                    0 <= j < require_all->Some_0.len() ==> granted.contains(
                        #[trigger] require_all->Some_0[j],
                    )
            }
            &&& require_any is Some ==> {
                &&& require_any->Some_0.len() > 0
                &&& role_from_code(role) is Some
                &&& exists|j: int|
                    0 <= j < require_any->Some_0.len() && granted.contains(
                        #[trigger] require_any->Some_0[j],
                    )
            }
        },
{
    if let Some(l) = require_all {
        lemma_first_missing_none(l, granted, 0);
    }
}

} // verus!
