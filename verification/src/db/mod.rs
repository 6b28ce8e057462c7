//! Storage helpers that carry rules: LIKE escaping and website syntax.
use crate::rules::{like_escaped, url_spec};
use crate::text::opt_str_view;
use vstd::prelude::*;

verus! {

/// Escapes the LIKE wildcards `%`, `_` and `\` with a backslash.
pub fn escape_like_pattern(input: &str) -> (r: String)
    ensures
        r@ == like_escaped(input@),
{
    crate::rules::escape_like_pattern(input)
}

/// Validates website address syntax conservatively: at most 2048 characters, no whitespace,
/// and a host with at least two non-empty dot-separated labels.
pub fn validate_url_syntax(url: Option<&str>) -> (r: Result<Option<String>, &'static str>)
    ensures
        match url_spec(opt_str_view(url)) {
            Ok(None) => r matches Ok(None),
            Ok(Some(s)) => r matches Ok(Some(x)) && x@ == s,
            Err(m) => r matches Err(e) && e@ == m,
        },
{
    crate::rules::validate_url_syntax(url)
}

} // verus!
