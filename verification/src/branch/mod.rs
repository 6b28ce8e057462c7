//! Branches of an organization: records and field rules.
use crate::rules::{bounded_spec, bounded_text, nonblank_spec, nonblank_text};
use crate::text::{all_upper, byte_len, chars_of, is_alnum, owned, push_str, trim, trim_seq, utf8_len};
use vstd::prelude::*;

verus! {

#[derive(Debug, Clone, PartialEq, Eq)]
pub struct Branch {
    pub id: String,
    pub organization_id: String,
    pub name: String,
    pub address: Option<String>,
    pub currency: String,
    pub is_active: bool,
    pub created_at: String,
}

#[derive(Debug, Clone)]
pub struct CreateBranchInput {
    pub organization_id: String,
    pub name: String,
    pub address: Option<String>,
    pub currency: Option<String>,
    pub is_active: Option<bool>,
}

#[derive(Debug, Clone)]
pub struct UpdateBranchInput {
    pub id: String,
    pub name: String,
    pub address: Option<String>,
    pub currency: String,
    pub is_active: bool,
}

#[derive(Debug, PartialEq, Eq)]
pub enum BranchError {
    Validation(String),
    NotFound(String),
    InvalidOrganization(String),
    Database(String),
}


/// The text a branch error is displayed with.
pub open spec fn branch_error_text(e: BranchError) -> Seq<char> {
    match e {
        BranchError::Validation(m) => "Validation error: "@ + m@,
        BranchError::NotFound(m) => "Branch not found: "@ + m@,
        BranchError::InvalidOrganization(m) => "Invalid organization: "@ + m@,
        BranchError::Database(m) => "Database error: "@ + m@,
    }
}

impl BranchError {
    /// The display text of this error.
    pub fn describe(&self) -> (r: String)
        ensures
            r@ == branch_error_text(*self),
    {
        match self {
            BranchError::Validation(m) => crate::text::concat2("Validation error: ", m.as_str()),
            BranchError::NotFound(m) => crate::text::concat2("Branch not found: ", m.as_str()),
            BranchError::InvalidOrganization(m) => crate::text::concat2("Invalid organization: ", m.as_str()),
            BranchError::Database(m) => crate::text::concat2("Database error: ", m.as_str()),
        }
    }
}

/// Validates a branch name: trimmed, 1 to 255 characters.
pub fn validate_name(s: &str) -> (r: Result<String, BranchError>)
    ensures
        match bounded_spec(s@, "Branch name cannot be empty"@, 255, false, "Branch name exceeds maximum length of 255 characters"@) {
            Ok(t) => r matches Ok(x) && x@ == t,
            Err(m) => r matches Err(BranchError::Validation(x)) && x@ == m,
        },
{
    match bounded_text(s, "Branch name cannot be empty", 255, false, "Branch name exceeds maximum length of 255 characters") {
        Ok(t) => Ok(t),
        Err(m) => Err(BranchError::Validation(m)),
    }
}

/// What `validate_currency` decides: a trimmed code of exactly three ASCII capital letters.
pub open spec fn currency_spec(s: Seq<char>) -> Result<Seq<char>, Seq<char>> {
    let t = trim_seq(s);
    if byte_len(t) != 3 || !all_upper(t) {
        Err("Invalid ISO currency code '"@ + t + "'"@)
    } else {
        Ok(t)
    }
}

/// Validates an ISO currency code: three upper-case ASCII letters.
pub fn validate_currency(currency: &str) -> (r: Result<String, BranchError>)
    ensures
        match currency_spec(currency@) {
            Ok(t) => r matches Ok(x) && x@ == t,
            Err(m) => r matches Err(BranchError::Validation(x)) && x@ == m,
        },
{
    let t = trim(currency);
    if utf8_len(t) != 3 || !crate::rules::is_all_upper(t) {
        let mut m = String::from_str("Invalid ISO currency code '");
        push_str(&mut m, t);
        push_str(&mut m, "'");
        return Err(BranchError::Validation(m));
    }
    Ok(owned(t))
}

/// Validates a branch identifier: trimmed, not empty.
pub fn validate_id(s: &str) -> (r: Result<String, BranchError>)
    ensures
        match nonblank_spec(s@, "Branch ID cannot be empty"@) {
            Ok(t) => r matches Ok(x) && x@ == t,
            Err(m) => r matches Err(BranchError::Validation(x)) && x@ == m,
        },
{
    match nonblank_text(s, "Branch ID cannot be empty") {
        Ok(t) => Ok(t),
        Err(m) => Err(BranchError::Validation(m)),
    }
}

/// Validates an organization identifier of a branch: trimmed, not empty.
pub fn validate_organization_ref(s: &str) -> (r: Result<String, BranchError>)
    ensures
        match nonblank_spec(s@, "Organization ID cannot be empty"@) {
            Ok(t) => r matches Ok(x) && x@ == t,
            Err(m) => r matches Err(BranchError::Validation(x)) && x@ == m,
        },
{
    match nonblank_text(s, "Organization ID cannot be empty") {
        Ok(t) => Ok(t),
        Err(m) => Err(BranchError::Validation(m)),
    }
}

/// The error for an organization reference that does not exist.
pub fn missing_organization(organization_id: &str) -> (r: BranchError)
    ensures
        r matches BranchError::InvalidOrganization(m) && m@ == "Organization with ID '"@ + organization_id@
            + "' does not exist"@,
{
    BranchError::InvalidOrganization(
        crate::text::concat3("Organization with ID '", organization_id, "' does not exist"),
    )
}

/// The currency of a new branch: the requested code, checked; without one, the default
/// currency stored for its organization (`org_default`), whose absence means the
/// organization does not exist.
pub fn resolve_branch_currency(organization_id: &str, requested: Option<&str>, org_default: Option<String>) -> (r: Result<String, BranchError>)
    ensures
        match requested {
            Some(c) => match currency_spec(c@) {
                Ok(t) => r matches Ok(x) && x@ == t,
                Err(m) => r matches Err(BranchError::Validation(x)) && x@ == m,
            },
            None => match org_default {
                Some(d) => r == Ok::<String, BranchError>(d),
                None => r matches Err(BranchError::InvalidOrganization(m)) && m@ == "Organization with ID '"@
                    + organization_id@ + "' does not exist"@,
            },
        },
{
    match requested {
        Some(c) => validate_currency(c),
        None => match org_default {
            Some(d) => Ok(d),
            None => Err(missing_organization(organization_id)),
        },
    }
}

} // verus!
