//! Brands: records and field rules.
use crate::rules::{bounded_spec, bounded_text, like_escaped, nonblank_spec, nonblank_text, url_spec};
use crate::text::{norm_opt, opt_str_view, owned, push_str, trim, trim_seq};
use vstd::prelude::*;

verus! {

/// Canonical Brand entity.
#[derive(Debug, Clone, PartialEq, Eq)]
pub struct Brand {
    pub id: String,
    pub name: String,
    pub description: Option<String>,
    pub website: Option<String>,
    pub is_active: bool,
    pub created_at: String,
    pub updated_at: String,
}

/// Input payload for creating a brand.
#[derive(Debug, Clone)]
pub struct CreateBrandInput {
    pub name: String,
    pub description: Option<String>,
    pub website: Option<String>,
}

/// Input payload for updating a brand.
#[derive(Debug, Clone)]
pub struct UpdateBrandInput {
    pub id: String,
    pub name: String,
    pub description: Option<String>,
    pub website: Option<String>,
    pub is_active: bool,
}

/// Filter parameters for listing brands.
#[derive(Debug, Clone, Default)]
pub struct BrandFilter {
    pub query: Option<String>,
    pub is_active: Option<bool>,
}

#[derive(Debug, PartialEq, Eq)]
pub enum BrandError {
    Validation(String),
    NotFound(String),
    DuplicateName(String),
    Database(String),
}

/// The text a brand error is displayed with.
pub open spec fn brand_error_text(e: BrandError) -> Seq<char> {
    match e {
        BrandError::Validation(m) => "Validation error: "@ + m@,
        BrandError::NotFound(m) => "Not found: "@ + m@,
        BrandError::DuplicateName(m) => "Duplicate name error: "@ + m@,
        BrandError::Database(m) => "Database error: "@ + m@,
    }
}

impl BrandError {
    /// The display text of this error.
    pub fn describe(&self) -> (r: String)
        ensures
            r@ == brand_error_text(*self),
    {
        match self {
            BrandError::Validation(m) => crate::text::concat2("Validation error: ", m.as_str()),
            BrandError::NotFound(m) => crate::text::concat2("Not found: ", m.as_str()),
            BrandError::DuplicateName(m) => crate::text::concat2("Duplicate name error: ", m.as_str()),
            BrandError::Database(m) => crate::text::concat2("Database error: ", m.as_str()),
        }
    }
}

/// Escapes the LIKE wildcards `%`, `_` and `\` with a backslash.
pub fn escape_like_pattern(input: &str) -> (r: String)
    ensures
        r@ == like_escaped(input@),
{
    crate::rules::escape_like_pattern(input)
}

/// Validates a brand name: trimmed, 1 to 255 characters.
pub fn validate_name(s: &str) -> (r: Result<String, BrandError>)
    ensures
        match bounded_spec(s@, "Brand name cannot be empty"@, 255, false, "Brand name exceeds maximum length of 255 characters"@) {
            Ok(t) => r matches Ok(x) && x@ == t,
            Err(m) => r matches Err(BrandError::Validation(x)) && x@ == m,
        },
{
    match bounded_text(s, "Brand name cannot be empty", 255, false, "Brand name exceeds maximum length of 255 characters") {
        Ok(t) => Ok(t),
        Err(m) => Err(BrandError::Validation(m)),
    }
}

/// Trims a description; blank becomes `None`.
pub fn validate_description(desc: Option<&str>) -> (r: Option<String>)
    ensures
        match r {
            Some(x) => norm_opt(opt_str_view(desc)) == Some(x@),
            None => norm_opt(opt_str_view(desc)) is None,
        },
{
    crate::rules::trimmed_opt(desc)
}

/// Validates an optional website address (see `validate_url_syntax`).
pub fn validate_website(url: Option<&str>) -> (r: Result<Option<String>, BrandError>)
    ensures
        match url_spec(opt_str_view(url)) {
            Ok(None) => r matches Ok(None),
            Ok(Some(s)) => r matches Ok(Some(x)) && x@ == s,
            Err(m) => r matches Err(BrandError::Validation(x)) && x@ == m,
        },
{
    match crate::rules::validate_url_syntax(url) {
        Ok(v) => Ok(v),
        Err(m) => Err(BrandError::Validation(owned(m))),
    }
}

/// What a failed write means, from whether the database reported a constraint violation and
/// from its message: a duplicate active name, or a database error.
pub open spec fn brand_duplicate(is_constraint_violation: bool, msg: Seq<char>) -> bool {
    is_constraint_violation && (crate::text::contains_seq(msg, "idx_brands_name_active"@) || crate::text::contains_seq(msg, "UNIQUE constraint failed: brands.name"@))
}

/// Classifies a failed write into a duplicate-name error or a database error.
pub fn classify_brand_write_error(is_constraint_violation: bool, msg: String) -> (r: BrandError)
    ensures
        brand_duplicate(is_constraint_violation, msg@) ==> (r matches BrandError::DuplicateName(x) && x@
            == "An active brand with this name already exists"@),
        !brand_duplicate(is_constraint_violation, msg@) ==> (r matches BrandError::Database(x) && x@ == msg@),
{
    let m = msg.as_str();
    if is_constraint_violation && (crate::text::contains_str(m, "idx_brands_name_active") || crate::text::contains_str(m, "UNIQUE constraint failed: brands.name")) {
        return BrandError::DuplicateName(String::from_str("An active brand with this name already exists"));
    }
    BrandError::Database(msg)
}

} // verus!
