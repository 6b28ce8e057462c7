//! Manufacturers: records and field rules.
use crate::rules::{bounded_spec, bounded_text, like_escaped, nonblank_spec, nonblank_text, url_spec};
use crate::text::{norm_opt, opt_str_view, owned, push_str, trim, trim_seq};
use vstd::prelude::*;

verus! {

/// Canonical Manufacturer entity.
#[derive(Debug, Clone, PartialEq, Eq)]
pub struct Manufacturer {
    pub id: String,
    pub name: String,
    pub description: Option<String>,
    pub website: Option<String>,
    pub support_phone: Option<String>,
    pub support_email: Option<String>,
    pub is_active: bool,
    pub created_at: String,
    pub updated_at: String,
}

/// Input payload for creating a manufacturer.
#[derive(Debug, Clone)]
pub struct CreateManufacturerInput {
    pub name: String,
    pub description: Option<String>,
    pub website: Option<String>,
    pub support_phone: Option<String>,
    pub support_email: Option<String>,
}

/// Input payload for updating a manufacturer.
#[derive(Debug, Clone)]
pub struct UpdateManufacturerInput {
    pub id: String,
    pub name: String,
    pub description: Option<String>,
    pub website: Option<String>,
    pub support_phone: Option<String>,
    pub support_email: Option<String>,
    pub is_active: bool,
}

/// Filter parameters for listing manufacturers.
#[derive(Debug, Clone, Default)]
pub struct ManufacturerFilter {
    pub query: Option<String>,
    pub is_active: Option<bool>,
}

#[derive(Debug, PartialEq, Eq)]
pub enum ManufacturerError {
    Validation(String),
    NotFound(String),
    DuplicateName(String),
    Database(String),
}

/// Validates a manufacturer name: trimmed, 1 to 255 characters.
pub fn validate_name(s: &str) -> (r: Result<String, ManufacturerError>)
    ensures
        match bounded_spec(s@, "Manufacturer name cannot be empty"@, 255, false, "Manufacturer name exceeds maximum length of 255 characters"@) {
            Ok(t) => r matches Ok(x) && x@ == t,
            Err(m) => r matches Err(ManufacturerError::Validation(x)) && x@ == m,
        },
{
    match bounded_text(s, "Manufacturer name cannot be empty", 255, false, "Manufacturer name exceeds maximum length of 255 characters") {
        Ok(t) => Ok(t),
        Err(m) => Err(ManufacturerError::Validation(m)),
    }
}

/// Trims a description; blank becomes `None`.
pub fn validate_description(desc: Option<&str>) -> (r: Option<String>)
    ensures
        match r {
            Some(x) => norm_opt(opt_str_view(desc)) == Some(x@),
            None => norm_opt(opt_str_view(desc)) is None,
        },
{
    crate::rules::trimmed_opt(desc)
}

/// Validates an optional website address (see `validate_url_syntax`).
pub fn validate_website(url: Option<&str>) -> (r: Result<Option<String>, ManufacturerError>)
    ensures
        match url_spec(opt_str_view(url)) {
            Ok(None) => r matches Ok(None),
            Ok(Some(s)) => r matches Ok(Some(x)) && x@ == s,
            Err(m) => r matches Err(ManufacturerError::Validation(x)) && x@ == m,
        },
{
    match crate::rules::validate_url_syntax(url) {
        Ok(v) => Ok(v),
        Err(m) => Err(ManufacturerError::Validation(owned(m))),
    }
}

/// The text a manufacturer error is displayed with.
pub open spec fn manufacturer_error_text(e: ManufacturerError) -> Seq<char> {
    match e {
        ManufacturerError::Validation(m) => "Validation error: "@ + m@,
        ManufacturerError::NotFound(m) => "Not found: "@ + m@,
        ManufacturerError::DuplicateName(m) => "Duplicate name error: "@ + m@,
        ManufacturerError::Database(m) => "Database error: "@ + m@,
    }
}

impl ManufacturerError {
    /// The display text of this error.
    pub fn describe(&self) -> (r: String)
        ensures
            r@ == manufacturer_error_text(*self),
    {
        match self {
            ManufacturerError::Validation(m) => crate::text::concat2("Validation error: ", m.as_str()),
            ManufacturerError::NotFound(m) => crate::text::concat2("Not found: ", m.as_str()),
            ManufacturerError::DuplicateName(m) => crate::text::concat2("Duplicate name error: ", m.as_str()),
            ManufacturerError::Database(m) => crate::text::concat2("Database error: ", m.as_str()),
        }
    }
}

/// What a failed write means, from whether the database reported a constraint violation and
/// from its message: a duplicate active name, or a database error.
pub open spec fn manufacturer_duplicate(is_constraint_violation: bool, msg: Seq<char>) -> bool {
    is_constraint_violation && (crate::text::contains_seq(msg, "idx_manufacturers_name_active"@) || crate::text::contains_seq(msg, "UNIQUE constraint failed: manufacturers.name"@))
}

/// Classifies a failed write into a duplicate-name error or a database error.
pub fn classify_manufacturer_write_error(is_constraint_violation: bool, msg: String) -> (r: ManufacturerError)
    ensures
        manufacturer_duplicate(is_constraint_violation, msg@) ==> (r matches ManufacturerError::DuplicateName(x) && x@
            == "An active manufacturer with this name already exists"@),
        !manufacturer_duplicate(is_constraint_violation, msg@) ==> (r matches ManufacturerError::Database(x) && x@ == msg@),
{
    let m = msg.as_str();
    if is_constraint_violation && (crate::text::contains_str(m, "idx_manufacturers_name_active") || crate::text::contains_str(m, "UNIQUE constraint failed: manufacturers.name")) {
        return ManufacturerError::DuplicateName(String::from_str("An active manufacturer with this name already exists"));
    }
    ManufacturerError::Database(msg)
}

/// Characters allowed in a support phone number.
pub open spec fn is_phone_char(c: char) -> bool {
    c == '+' || c == '-' || c == ' ' || c == '(' || c == ')' || c == '.' || crate::text::is_digit(c)
}

/// Number of ASCII digits in `s`.
pub open spec fn digit_count(s: Seq<char>) -> nat
    decreases s.len(),
{
    if s.len() == 0 {
        0
    } else {
        digit_count(s.drop_last()) + if crate::text::is_digit(s.last()) {
            1nat
        } else {
            0nat
        }
    }
}

/// What `validate_phone` decides: blank is no phone; otherwise at most 50 characters, at
/// least 3 digits, and only digits, spaces and `+ - ( ) .`.
pub open spec fn phone_spec(phone: Option<Seq<char>>) -> Result<Option<Seq<char>>, Seq<char>> {
    match norm_opt(phone) {
        None => Ok(None),
        Some(s) => if s.len() > 50 {
            Err("Support phone exceeds maximum length of 50 characters"@)
        } else if digit_count(s) < 3 {
            Err("Support phone must contain at least 3 digits"@)
        } else if !(forall|i: int| 0 <= i < s.len() ==> is_phone_char(#[trigger] s[i])) {
            Err("Support phone contains invalid characters"@)
        } else {
            Ok(Some(s))
        },
    }
}

/// Validates an optional support phone number.
pub fn validate_phone(phone: Option<&str>) -> (r: Result<Option<String>, ManufacturerError>)
    ensures
        match phone_spec(opt_str_view(phone)) {
            Ok(None) => r matches Ok(None),
            Ok(Some(s)) => r matches Ok(Some(x)) && x@ == s,
            Err(m) => r matches Err(ManufacturerError::Validation(x)) && x@ == m,
        },
{
    let s = match crate::rules::trimmed_opt(phone) {
        None => {
            return Ok(None);
        },
        Some(s) => s,
    };
    let v = crate::text::chars_of(s.as_str());
    if v.len() > 50 {
        return Err(
            ManufacturerError::Validation(
                String::from_str("Support phone exceeds maximum length of 50 characters"),
            ),
        );
    }
    let mut digits: usize = 0;
    let mut all_ok = true;
    let mut i: usize = 0;
    while i < v.len()
        invariant
            v@ == s@,
            v@.len() <= 50,
            i <= v@.len(),
            digits == digit_count(s@.take(i as int)),
            digits <= i,
            all_ok == (forall|k: int| 0 <= k < i ==> is_phone_char(#[trigger] s@[k])),
        decreases v.len() - i,
    {
        let c = v[i];
        if c >= '0' && c <= '9' {
            digits = digits + 1;
        }
        if !(c == '+' || c == '-' || c == ' ' || c == '(' || c == ')' || c == '.' || (c >= '0' && c
            <= '9')) {
            all_ok = false;
        }
        proof {
            assert(s@.take(i + 1).drop_last() =~= s@.take(i as int));
        }
        i = i + 1;
    }
    assert(s@.take(v.len() as int) =~= s@);
    if digits < 3 {
        return Err(
            ManufacturerError::Validation(String::from_str("Support phone must contain at least 3 digits")),
        );
    }
    if !all_ok {
        return Err(
            ManufacturerError::Validation(String::from_str("Support phone contains invalid characters")),
        );
    }
    Ok(Some(s))
}

/// Number of occurrences of `c` in `s`.
pub open spec fn count_char(s: Seq<char>, c: char) -> nat
    decreases s.len(),
{
    if s.len() == 0 {
        0
    } else {
        count_char(s.drop_last(), c) + if s.last() == c {
            1nat
        } else {
            0nat
        }
    }
}

/// What `validate_email` decides: blank is no address; otherwise at most 255 characters, no
/// whitespace, exactly one `@` with text on both sides, and a domain of at least two
/// non-empty dot-separated labels.
pub open spec fn email_spec(email: Option<Seq<char>>) -> Result<Option<Seq<char>>, Seq<char>> {
    match norm_opt(email) {
        None => Ok(None),
        Some(s) => if s.len() > 255 {
            Err("Support email exceeds maximum length of 255 characters"@)
        } else if crate::text::has_ws(s) {
            Err("Support email cannot contain whitespace"@)
        } else {
            let at = crate::text::take_until(s, seq!['@']).len() as int;
            if count_char(s, '@') != 1 || at == 0 || at == s.len() - 1 {
                Err("Support email must be a valid email address"@)
            } else if !crate::rules::dotted_labels_ok(s.skip(at + 1)) {
                Err("Support email must be a valid email address"@)
            } else {
                Ok(Some(s))
            }
        },
    }
}

proof fn lemma_count_char_present(s: Seq<char>, c: char)
    requires
        count_char(s, c) > 0,
    ensures
        exists|i: int| 0 <= i < s.len() && s[i] == c,
    decreases s.len(),
{
    if s.last() != c {
        lemma_count_char_present(s.drop_last(), c);
        let i = choose|i: int| 0 <= i < s.drop_last().len() && s.drop_last()[i] == c;
        assert(s[i] == c);
    } else {
        assert(s[s.len() - 1] == c);
    }
}

fn count_at(s: &str) -> (n: usize)
    ensures
        n == count_char(s@, '@'),
{
    let v = crate::text::chars_of(s);
    let mut n: usize = 0;
    let mut i: usize = 0;
    while i < v.len()
        invariant
            v@ == s@,
            i <= v@.len(),
            n == count_char(s@.take(i as int), '@'),
            n <= i,
        decreases v.len() - i,
    {
        if v[i] == '@' {
            n = n + 1;
        }
        proof {
            assert(s@.take(i + 1).drop_last() =~= s@.take(i as int));
        }
        i = i + 1;
    }
    assert(s@.take(v.len() as int) =~= s@);
    n
}

/// Validates an optional support e-mail address.
pub fn validate_email(email: Option<&str>) -> (r: Result<Option<String>, ManufacturerError>)
    ensures
        match email_spec(opt_str_view(email)) {
            Ok(None) => r matches Ok(None),
            Ok(Some(s)) => r matches Ok(Some(x)) && x@ == s,
            Err(m) => r matches Err(ManufacturerError::Validation(x)) && x@ == m,
        },
{
    proof {
        reveal_strlit("@");
    }
    let s = match crate::rules::trimmed_opt(email) {
        None => {
            return Ok(None);
        },
        Some(s) => s,
    };
    let n = crate::text::char_count(s.as_str());
    if n > 255 {
        return Err(
            ManufacturerError::Validation(
                String::from_str("Support email exceeds maximum length of 255 characters"),
            ),
        );
    }
    if crate::text::contains_ws(s.as_str()) {
        return Err(
            ManufacturerError::Validation(String::from_str("Support email cannot contain whitespace")),
        );
    }
    let at = crate::text::index_of_any(s.as_str(), "@");
    assert("@"@ =~= seq!['@']);
    if count_at(s.as_str()) != 1 || at == 0 || at + 1 == n {
        return Err(
            ManufacturerError::Validation(String::from_str("Support email must be a valid email address")),
        );
    }
    proof {
        lemma_count_char_present(s@, '@');
        if at >= n {
            let i = choose|i: int| 0 <= i < s@.len() && s@[i] == '@';
            assert("@"@[0] == s@[i]);
            assert(crate::text::has_char("@"@, s@[i]));
        }
    }
    let domain = s.as_str().substring_char(at + 1, n);
    assert(domain@ =~= s@.skip(at + 1));
    if !crate::rules::is_dotted_host(domain) {
        return Err(
            ManufacturerError::Validation(String::from_str("Support email must be a valid email address")),
        );
    }
    Ok(Some(s))
}

} // verus!
