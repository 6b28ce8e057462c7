//! Cash registers of a branch: records and field rules.
use crate::rules::{bounded_spec, bounded_text, nonblank_spec, nonblank_text};
use crate::text::{all_upper, byte_len, chars_of, is_alnum, owned, push_str, trim, trim_seq, utf8_len};
use vstd::prelude::*;

verus! {

#[derive(Debug, Clone, PartialEq, Eq)]
pub struct Register {
    pub id: String,
    pub organization_id: String,
    pub branch_id: String,
    pub name: String,
    pub code: Option<String>,
    pub is_active: bool,
    pub created_at: String,
}

#[derive(Debug, Clone)]
pub struct CreateRegisterInput {
    pub organization_id: String,
    pub branch_id: String,
    pub name: String,
    pub code: Option<String>,
    pub is_active: Option<bool>,
}

#[derive(Debug, Clone)]
pub struct UpdateRegisterInput {
    pub id: String,
    pub name: String,
    pub code: Option<String>,
    pub is_active: bool,
}

#[derive(Debug, PartialEq, Eq)]
pub enum RegisterError {
    Validation(String),
    NotFound(String),
    InvalidOrganization(String),
    InvalidBranch(String),
    Database(String),
}


/// The text a register error is displayed with.
pub open spec fn register_error_text(e: RegisterError) -> Seq<char> {
    match e {
        RegisterError::Validation(m) => "Validation error: "@ + m@,
        RegisterError::NotFound(m) => "Register not found: "@ + m@,
        RegisterError::InvalidOrganization(m) => "Invalid organization: "@ + m@,
        RegisterError::InvalidBranch(m) => "Invalid branch: "@ + m@,
        RegisterError::Database(m) => "Database error: "@ + m@,
    }
}

impl RegisterError {
    /// The display text of this error.
    pub fn describe(&self) -> (r: String)
        ensures
            r@ == register_error_text(*self),
    {
        match self {
            RegisterError::Validation(m) => crate::text::concat2("Validation error: ", m.as_str()),
            RegisterError::NotFound(m) => crate::text::concat2("Register not found: ", m.as_str()),
            RegisterError::InvalidOrganization(m) => crate::text::concat2("Invalid organization: ", m.as_str()),
            RegisterError::InvalidBranch(m) => crate::text::concat2("Invalid branch: ", m.as_str()),
            RegisterError::Database(m) => crate::text::concat2("Database error: ", m.as_str()),
        }
    }
}

/// Validates a register name: trimmed, 1 to 255 characters.
pub fn validate_name(s: &str) -> (r: Result<String, RegisterError>)
    ensures
        match bounded_spec(s@, "Register name cannot be empty"@, 255, false, "Register name exceeds maximum length of 255 characters"@) {
            Ok(t) => r matches Ok(x) && x@ == t,
            Err(m) => r matches Err(RegisterError::Validation(x)) && x@ == m,
        },
{
    match bounded_text(s, "Register name cannot be empty", 255, false, "Register name exceeds maximum length of 255 characters") {
        Ok(t) => Ok(t),
        Err(m) => Err(RegisterError::Validation(m)),
    }
}

/// Validates a register identifier: trimmed, not empty.
pub fn validate_id(s: &str) -> (r: Result<String, RegisterError>)
    ensures
        match nonblank_spec(s@, "Register ID cannot be empty"@) {
            Ok(t) => r matches Ok(x) && x@ == t,
            Err(m) => r matches Err(RegisterError::Validation(x)) && x@ == m,
        },
{
    match nonblank_text(s, "Register ID cannot be empty") {
        Ok(t) => Ok(t),
        Err(m) => Err(RegisterError::Validation(m)),
    }
}

/// Validates the organization reference of a register: trimmed, not empty.
pub fn validate_organization_ref(s: &str) -> (r: Result<String, RegisterError>)
    ensures
        match nonblank_spec(s@, "Organization ID cannot be empty"@) {
            Ok(t) => r matches Ok(x) && x@ == t,
            Err(m) => r matches Err(RegisterError::Validation(x)) && x@ == m,
        },
{
    match nonblank_text(s, "Organization ID cannot be empty") {
        Ok(t) => Ok(t),
        Err(m) => Err(RegisterError::Validation(m)),
    }
}

/// The error for an organization reference that does not exist.
pub fn missing_organization(organization_id: &str) -> (r: RegisterError)
    ensures
        r matches RegisterError::InvalidOrganization(m) && m@ == "Organization with ID '"@ + organization_id@
            + "' does not exist"@,
{
    RegisterError::InvalidOrganization(
        crate::text::concat3("Organization with ID '", organization_id, "' does not exist"),
    )
}

/// Validates the branch reference of a register: trimmed, not empty.
pub fn validate_branch_ref(s: &str) -> (r: Result<String, RegisterError>)
    ensures
        match nonblank_spec(s@, "Branch ID cannot be empty"@) {
            Ok(t) => r matches Ok(x) && x@ == t,
            Err(m) => r matches Err(RegisterError::Validation(x)) && x@ == m,
        },
{
    match nonblank_text(s, "Branch ID cannot be empty") {
        Ok(t) => Ok(t),
        Err(m) => Err(RegisterError::Validation(m)),
    }
}

/// What `check_register_branch` decides from the organization stored for the branch:
/// `None` when the branch does not exist, `Some(None)` when its organization is missing.
pub open spec fn register_branch_spec(organization_id: Seq<char>, branch_id: Seq<char>, branch_org: Option<Option<Seq<char>>>) -> Result<(), Seq<char>> {
    match branch_org {
        Some(Some(org)) => if org == organization_id {
            Ok(())
        } else {
            Err("Branch '"@ + branch_id + "' belongs to organization '"@ + org + "', not '"@ + organization_id + "'"@)
        },
        Some(None) => Err("Branch '"@ + branch_id + "' has corrupt or NULL organization_id"@),
        None => Err("Branch with ID '"@ + branch_id + "' does not exist"@),
    }
}

/// Checks that a register's branch exists and belongs to the register's organization.
pub fn check_register_branch(organization_id: &str, branch_id: &str, branch_org: Option<Option<String>>) -> (r: Result<(), RegisterError>)
    ensures
        match register_branch_spec(
            organization_id@,
            branch_id@,
            match branch_org {
                Some(Some(o)) => Some(Some(o@)),
                Some(None) => Some(None),
                None => None,
            },
        ) {
            Ok(()) => r is Ok,
            Err(m) => r matches Err(RegisterError::InvalidBranch(x)) && x@ == m,
        },
{
    match branch_org {
        Some(Some(org)) => {
            if crate::text::str_eq(org.as_str(), organization_id) {
                Ok(())
            } else {
                let mut m = crate::text::concat5("Branch '", branch_id, "' belongs to organization '", org.as_str(), "', not '");
                push_str(&mut m, organization_id);
                push_str(&mut m, "'");
                Err(RegisterError::InvalidBranch(m))
            }
        },
        Some(None) => Err(
            RegisterError::InvalidBranch(crate::text::concat3("Branch '", branch_id, "' has corrupt or NULL organization_id")),
        ),
        None => Err(RegisterError::InvalidBranch(crate::text::concat3("Branch with ID '", branch_id, "' does not exist"))),
    }
}

} // verus!
