//! Organizations: records and field rules.
use crate::rules::{bounded_spec, bounded_text, nonblank_spec, nonblank_text};
use crate::text::{all_upper, byte_len, chars_of, is_alnum, owned, push_str, trim, trim_seq, utf8_len};
use vstd::prelude::*;

verus! {

#[derive(Debug, Clone, PartialEq, Eq)]
pub struct Organization {
    pub id: String,
    pub name: String,
    pub default_currency: String,
    pub default_language: String,
    pub created_at: String,
}

#[derive(Debug, Clone)]
pub struct CreateOrganizationInput {
    pub name: String,
    pub default_currency: Option<String>,
    pub default_language: Option<String>,
}

#[derive(Debug, Clone)]
pub struct UpdateOrganizationInput {
    pub id: String,
    pub name: String,
    pub default_currency: String,
    pub default_language: String,
}

#[derive(Debug, PartialEq, Eq)]
pub enum OrganizationError {
    Validation(String),
    NotFound(String),
    Database(String),
}


/// The text an organization error is displayed with.
pub open spec fn organization_error_text(e: OrganizationError) -> Seq<char> {
    match e {
        OrganizationError::Validation(m) => "Validation error: "@ + m@,
        OrganizationError::NotFound(m) => "Organization not found: "@ + m@,
        OrganizationError::Database(m) => "Database error: "@ + m@,
    }
}

impl OrganizationError {
    /// The display text of this error.
    pub fn describe(&self) -> (r: String)
        ensures
            r@ == organization_error_text(*self),
    {
        match self {
            OrganizationError::Validation(m) => crate::text::concat2("Validation error: ", m.as_str()),
            OrganizationError::NotFound(m) => crate::text::concat2("Organization not found: ", m.as_str()),
            OrganizationError::Database(m) => crate::text::concat2("Database error: ", m.as_str()),
        }
    }
}

/// Validates an organization name: trimmed, 1 to 255 bytes.
pub fn validate_name(s: &str) -> (r: Result<String, OrganizationError>)
    ensures
        match bounded_spec(s@, "Organization name cannot be empty"@, 255, true, "Organization name exceeds maximum length of 255 characters"@) {
            Ok(t) => r matches Ok(x) && x@ == t,
            Err(m) => r matches Err(OrganizationError::Validation(x)) && x@ == m,
        },
{
    match bounded_text(s, "Organization name cannot be empty", 255, true, "Organization name exceeds maximum length of 255 characters") {
        Ok(t) => Ok(t),
        Err(m) => Err(OrganizationError::Validation(m)),
    }
}

/// What `validate_currency` decides: a trimmed code of exactly three ASCII capital letters.
pub open spec fn currency_spec(s: Seq<char>) -> Result<Seq<char>, Seq<char>> {
    let t = trim_seq(s);
    if byte_len(t) != 3 || !all_upper(t) {
        Err("Invalid ISO currency code '"@ + t + "'. Expected 3 uppercase ASCII letters (e.g. 'USD', 'DZD', 'EUR')"@)
    } else {
        Ok(t)
    }
}

/// Validates an ISO currency code: three upper-case ASCII letters.
pub fn validate_currency(currency: &str) -> (r: Result<String, OrganizationError>)
    ensures
        match currency_spec(currency@) {
            Ok(t) => r matches Ok(x) && x@ == t,
            Err(m) => r matches Err(OrganizationError::Validation(x)) && x@ == m,
        },
{
    let t = trim(currency);
    if utf8_len(t) != 3 || !crate::rules::is_all_upper(t) {
        let mut m = String::from_str("Invalid ISO currency code '");
        push_str(&mut m, t);
        push_str(&mut m, "'. Expected 3 uppercase ASCII letters (e.g. 'USD', 'DZD', 'EUR')");
        return Err(OrganizationError::Validation(m));
    }
    Ok(owned(t))
}

/// Characters of a language code.
pub open spec fn is_language_char(c: char) -> bool {
    is_alnum(c) || c == '-' || c == '_'
}

/// What `validate_language` decides: a trimmed code of 2 to 10 bytes of letters, digits,
/// `-` and `_`.
pub open spec fn language_spec(s: Seq<char>) -> Result<Seq<char>, Seq<char>> {
    let t = trim_seq(s);
    if byte_len(t) < 2 || byte_len(t) > 10 || !(forall|i: int| 0 <= i < t.len() ==> is_language_char(#[trigger] t[i])) {
        Err("Invalid language code '"@ + t + "'. Expected 2-10 alphanumeric characters (e.g. 'en', 'fr', 'ar')"@)
    } else {
        Ok(t)
    }
}

fn all_language_chars(t: &str) -> (r: bool)
    ensures
        r == (forall|i: int| 0 <= i < t@.len() ==> is_language_char(#[trigger] t@[i])),
{
    let v = chars_of(t);
    let mut i: usize = 0;
    while i < v.len()
        invariant
            v@ == t@,
            i <= v@.len(),
            forall|k: int| 0 <= k < i ==> is_language_char(#[trigger] t@[k]),
        decreases v.len() - i,
    {
        let c = v[i];
        if !((c >= 'a' && c <= 'z') || (c >= 'A' && c <= 'Z') || (c >= '0' && c <= '9') || c == '-'
            || c == '_') {
            assert(!is_language_char(t@[i as int]));
            return false;
        }
        i = i + 1;
    }
    true
}

/// Validates a language code.
pub fn validate_language(language: &str) -> (r: Result<String, OrganizationError>)
    ensures
        match language_spec(language@) {
            Ok(t) => r matches Ok(x) && x@ == t,
            Err(m) => r matches Err(OrganizationError::Validation(x)) && x@ == m,
        },
{
    let t = trim(language);
    let n = utf8_len(t);
    let ok = n >= 2 && n <= 10 && all_language_chars(t);
    if !ok {
        let mut m = String::from_str("Invalid language code '");
        push_str(&mut m, t);
        push_str(&mut m, "'. Expected 2-10 alphanumeric characters (e.g. 'en', 'fr', 'ar')");
        return Err(OrganizationError::Validation(m));
    }
    Ok(owned(t))
}

/// Validates an organization identifier: trimmed, not empty.
pub fn validate_id(s: &str) -> (r: Result<String, OrganizationError>)
    ensures
        match nonblank_spec(s@, "Organization ID cannot be empty"@) {
            Ok(t) => r matches Ok(x) && x@ == t,
            Err(m) => r matches Err(OrganizationError::Validation(x)) && x@ == m,
        },
{
    match nonblank_text(s, "Organization ID cannot be empty") {
        Ok(t) => Ok(t),
        Err(m) => Err(OrganizationError::Validation(m)),
    }
}

} // verus!
