//! Serialized inventory: lifecycle statuses and their transitions, identifier
//! rules (serial number, Luhn-checked IMEI, asset tag) and record checks.
use crate::text::{
    all_digits, ascii_lower_seq, byte_len, char_count, chars_of, contains_str, digit_value,
    is_all_digits, is_digit, lemma_digits_trimmed, owned, push_str, str_eq, to_ascii_lower, trim, trim_seq, utf8_len,
};
use vstd::prelude::*;

verus! {

/// Lifecycle status of a serialized unit; `Recalled` and `Disposed` are terminal.
#[derive(Debug, Clone, Copy, PartialEq, Eq, Hash, Structural)]
pub enum SerialStatus {
    InStock,
    Reserved,
    Sold,
    Transferred,
    Defective,
    Recalled,
    Disposed,
}

/// The stored code of a status.
pub open spec fn status_code(s: SerialStatus) -> Seq<char> {
    match s {
        SerialStatus::InStock => "in_stock"@,
        SerialStatus::Reserved => "reserved"@,
        SerialStatus::Sold => "sold"@,
        SerialStatus::Transferred => "transferred"@,
        SerialStatus::Defective => "defective"@,
        SerialStatus::Recalled => "recalled"@,
        SerialStatus::Disposed => "disposed"@,
    }
}

/// The status an exact lower-case code names.
pub open spec fn status_from_code(s: Seq<char>) -> Option<SerialStatus> {
    if s == "in_stock"@ {
        Some(SerialStatus::InStock)
    } else if s == "reserved"@ {
        Some(SerialStatus::Reserved)
    } else if s == "sold"@ {
        Some(SerialStatus::Sold)
    } else if s == "transferred"@ {
        Some(SerialStatus::Transferred)
    } else if s == "defective"@ {
        Some(SerialStatus::Defective)
    } else if s == "recalled"@ {
        Some(SerialStatus::Recalled)
    } else if s == "disposed"@ {
        Some(SerialStatus::Disposed)
    } else {
        None
    }
}

/// Whether the lifecycle allows moving from `from` to a different status `to`.
pub open spec fn transition_allowed(from: SerialStatus, to: SerialStatus) -> bool {
    match from {
        SerialStatus::InStock => to == SerialStatus::Reserved || to == SerialStatus::Sold || to == SerialStatus::Transferred || to == SerialStatus::Defective || to == SerialStatus::Recalled || to == SerialStatus::Disposed,
        SerialStatus::Reserved => to == SerialStatus::InStock || to == SerialStatus::Sold || to == SerialStatus::Defective || to == SerialStatus::Recalled || to == SerialStatus::Disposed,
        SerialStatus::Sold => to == SerialStatus::InStock || to == SerialStatus::Defective || to == SerialStatus::Recalled || to == SerialStatus::Disposed,
        SerialStatus::Transferred => to == SerialStatus::InStock || to == SerialStatus::Defective || to == SerialStatus::Recalled || to == SerialStatus::Disposed,
        SerialStatus::Defective => to == SerialStatus::InStock || to == SerialStatus::Recalled || to == SerialStatus::Disposed,
        SerialStatus::Recalled => false,
        SerialStatus::Disposed => false,
    }
}

pub open spec fn is_terminal_status(s: SerialStatus) -> bool {
    s == SerialStatus::Recalled || s == SerialStatus::Disposed
}

impl SerialStatus {
    /// The stored lower-case code of this status.
    pub fn as_str(&self) -> (r: &'static str)
        ensures
            r@ == status_code(*self),
    {
        match self {
            SerialStatus::InStock => "in_stock",
            SerialStatus::Reserved => "reserved",
            SerialStatus::Sold => "sold",
            SerialStatus::Transferred => "transferred",
            SerialStatus::Defective => "defective",
            SerialStatus::Recalled => "recalled",
            SerialStatus::Disposed => "disposed",
        }
    }

    /// Whether this status is permanent (`Recalled`, `Disposed`).
    pub fn is_terminal(&self) -> (r: bool)
        ensures
            r == is_terminal_status(*self),
    {
        match self {
            SerialStatus::Recalled | SerialStatus::Disposed => true,
            _ => false,
        }
    }

    /// Parses a status code, ignoring surrounding whitespace and ASCII letter case.
    pub fn from_str(s: &str) -> (r: Result<Self, SerialError>)
        ensures
            match status_from_code(ascii_lower_seq(trim_seq(s@))) {
                Some(st) => r == Ok::<SerialStatus, SerialError>(st),
                None => r matches Err(e) && e@ == SerialFault::Validation(
                    "Invalid serial status '"@ + ascii_lower_seq(trim_seq(s@))
                        + "'. Allowed: in_stock, reserved, sold, transferred, defective, recalled, disposed"@,
                ),
            },
    {
        let lower = to_ascii_lower(trim(s));
        let l = lower.as_str();
        if str_eq(l, "in_stock") {
            Ok(SerialStatus::InStock)
        } else if str_eq(l, "reserved") {
            Ok(SerialStatus::Reserved)
        } else if str_eq(l, "sold") {
            Ok(SerialStatus::Sold)
        } else if str_eq(l, "transferred") {
            Ok(SerialStatus::Transferred)
        } else if str_eq(l, "defective") {
            Ok(SerialStatus::Defective)
        } else if str_eq(l, "recalled") {
            Ok(SerialStatus::Recalled)
        } else if str_eq(l, "disposed") {
            Ok(SerialStatus::Disposed)
        } else {
            let mut m = String::from_str("Invalid serial status '");
            push_str(&mut m, l);
            push_str(
                &mut m,
                "'. Allowed: in_stock, reserved, sold, transferred, defective, recalled, disposed",
            );
            Err(SerialError::Validation(m))
        }
    }
}

/// Every status code parses back to its status.
pub proof fn lemma_status_code_round_trip(s: SerialStatus)
    ensures
        status_from_code(status_code(s)) == Some(s),
{
    reveal_strlit("in_stock");
    reveal_strlit("reserved");
    reveal_strlit("sold");
    reveal_strlit("transferred");
    reveal_strlit("defective");
    reveal_strlit("recalled");
    reveal_strlit("disposed");
    assert("in_stock"@.len() == 8);
    assert("reserved"@.len() == 8);
    assert("sold"@.len() == 4);
    assert("transferred"@.len() == 11);
    assert("defective"@.len() == 9);
    assert("recalled"@.len() == 8);
    assert("disposed"@.len() == 8);
    match s {
        SerialStatus::InStock => {},
        SerialStatus::Reserved => {
            assert("reserved"@[0] != "in_stock"@[0]);
        },
        SerialStatus::Sold => {},
        SerialStatus::Transferred => {},
        SerialStatus::Defective => {},
        SerialStatus::Recalled => {
            assert("recalled"@[0] != "in_stock"@[0]);
            assert("recalled"@[2] != "reserved"@[2]);
        },
        SerialStatus::Disposed => {
            assert("disposed"@[0] != "in_stock"@[0]);
            assert("disposed"@[0] != "reserved"@[0]);
            assert("disposed"@[0] != "recalled"@[0]);
        },
    }
}

/// A serialized unit of stock.
#[derive(Debug, Clone, PartialEq, Eq)]
pub struct SerializedInstance {
    pub id: String,
    pub product_id: String,
    pub branch_id: String,
    pub variant_id: Option<String>,
    pub serial_number: Option<String>,
    pub imei: Option<String>,
    pub asset_tag: Option<String>,
    pub cost_price_minor: Option<i64>,
    pub status: SerialStatus,
    pub sold_in_sale_id: Option<String>,
    pub warranty_expires_at: Option<String>,
    pub created_at: String,
    pub updated_at: String,
}

/// Registration of a new serialized unit.
#[derive(Debug, Clone, PartialEq, Eq)]
pub struct CreateSerialInput {
    pub product_id: String,
    pub branch_id: String,
    pub variant_id: Option<String>,
    pub serial_number: Option<String>,
    pub imei: Option<String>,
    pub asset_tag: Option<String>,
    pub cost_price_minor: Option<i64>,
}

/// Status change of a serialized unit.
#[derive(Debug, Clone, PartialEq, Eq)]
pub struct UpdateSerialStatusInput {
    pub id: String,
    pub branch_id: String,
    pub status: SerialStatus,
}

/// Filter of serialized units within a branch.
#[derive(Debug, Clone, PartialEq, Eq)]
pub struct SerialFilter {
    pub branch_id: String,
    pub product_id: Option<String>,
    pub variant_id: Option<String>,
    pub status: Option<SerialStatus>,
}

/// Typed errors of serialized inventory.
#[derive(Debug, PartialEq, Eq)]
pub enum SerialError {
    Validation(String),
    DuplicateSerial(String),
    DuplicateImei(String),
    DuplicateAssetTag(String),
    NotFound(String),
    ProductNotSerialized(String),
    InvalidVariant(String),
    InvalidStatusTransition { from: String, to: String },
    TerminalStatus(String),
    Database(String),
}

/// Mathematical image of a `SerialError`.
pub enum SerialFault {
    Validation(Seq<char>),
    DuplicateSerial(Seq<char>),
    DuplicateImei(Seq<char>),
    DuplicateAssetTag(Seq<char>),
    NotFound(Seq<char>),
    ProductNotSerialized(Seq<char>),
    InvalidVariant(Seq<char>),
    InvalidStatusTransition { from: Seq<char>, to: Seq<char> },
    TerminalStatus(Seq<char>),
    Database(Seq<char>),
}

impl View for SerialError {
    type V = SerialFault;

    open spec fn view(&self) -> SerialFault {
        match self {
            SerialError::Validation(m) => SerialFault::Validation(m@),
            SerialError::DuplicateSerial(m) => SerialFault::DuplicateSerial(m@),
            SerialError::DuplicateImei(m) => SerialFault::DuplicateImei(m@),
            SerialError::DuplicateAssetTag(m) => SerialFault::DuplicateAssetTag(m@),
            SerialError::NotFound(m) => SerialFault::NotFound(m@),
            SerialError::ProductNotSerialized(m) => SerialFault::ProductNotSerialized(m@),
            SerialError::InvalidVariant(m) => SerialFault::InvalidVariant(m@),
            SerialError::InvalidStatusTransition { from, to } => {
                SerialFault::InvalidStatusTransition { from: from@, to: to@ }
            },
            SerialError::TerminalStatus(m) => SerialFault::TerminalStatus(m@),
            SerialError::Database(m) => SerialFault::Database(m@),
        }
    }
}

/// The text a serialized-inventory error is displayed with.
pub open spec fn serial_error_text(f: SerialFault) -> Seq<char> {
    match f {
        SerialFault::Validation(m) => "Validation error: "@ + m,
        SerialFault::DuplicateSerial(m) => "Duplicate serial number: "@ + m,
        SerialFault::DuplicateImei(m) => "Duplicate IMEI: "@ + m,
        SerialFault::DuplicateAssetTag(m) => "Duplicate asset tag: "@ + m,
        SerialFault::NotFound(m) => "Serial instance not found: "@ + m,
        SerialFault::ProductNotSerialized(m) => "Product '"@ + m + "' is not tracked by serial or IMEI"@,
        SerialFault::InvalidVariant(m) => "Invalid variant: "@ + m,
        SerialFault::InvalidStatusTransition { from, to } => "Invalid status transition from '"@ + from
            + "' to '"@ + to + "'"@,
        SerialFault::TerminalStatus(m) => "Cannot update status of "@ + m + ": terminal state"@,
        SerialFault::Database(m) => "Database error: "@ + m,
    }
}

impl SerialError {
    /// The display text of this error.
    pub fn describe(&self) -> (r: String)
        ensures
            r@ == serial_error_text(self@),
    {
        match self {
            SerialError::Validation(m) => crate::text::concat2("Validation error: ", m.as_str()),
            SerialError::DuplicateSerial(m) => crate::text::concat2("Duplicate serial number: ", m.as_str()),
            SerialError::DuplicateImei(m) => crate::text::concat2("Duplicate IMEI: ", m.as_str()),
            SerialError::DuplicateAssetTag(m) => crate::text::concat2("Duplicate asset tag: ", m.as_str()),
            SerialError::NotFound(m) => crate::text::concat2("Serial instance not found: ", m.as_str()),
            SerialError::ProductNotSerialized(m) => crate::text::concat3(
                "Product '",
                m.as_str(),
                "' is not tracked by serial or IMEI",
            ),
            SerialError::InvalidVariant(m) => crate::text::concat2("Invalid variant: ", m.as_str()),
            SerialError::InvalidStatusTransition { from, to } => crate::text::concat5(
                "Invalid status transition from '",
                from.as_str(),
                "' to '",
                to.as_str(),
                "'",
            ),
            SerialError::TerminalStatus(m) => crate::text::concat3(
                "Cannot update status of ",
                m.as_str(),
                ": terminal state",
            ),
            SerialError::Database(m) => crate::text::concat2("Database error: ", m.as_str()),
        }
    }
}

/// Whether a result agrees with a specified outcome (success values compared by view).
pub open spec fn serial_agrees<T: View>(r: Result<T, SerialError>, s: Result<T::V, SerialFault>) -> bool {
    match s {
        Ok(v) => r matches Ok(x) && x@ == v,
        Err(f) => r matches Err(e) && e@ == f,
    }
}

// ---------------------------------------------------------------- Luhn

/// Luhn contribution of the digit `c` at position `k` from the right (0 = rightmost):
/// every second digit is doubled, minus 9 when that exceeds 9.
pub open spec fn luhn_term(c: char, k: nat) -> nat {
    if k % 2 == 1 {
        if digit_value(c) * 2 > 9 {
            (digit_value(c) * 2 - 9) as nat
        } else {
            digit_value(c) * 2
        }
    } else {
        digit_value(c)
    }
}

/// Luhn sum of the last `k` characters of `d`.
pub open spec fn luhn_tail_sum(d: Seq<char>, k: nat) -> nat
    decreases k,
{
    if k == 0 || k > d.len() {
        0
    } else {
        luhn_tail_sum(d, (k - 1) as nat) + luhn_term(d[d.len() - k], (k - 1) as nat)
    }
}

/// Whether `d` is a digit string whose Luhn sum is a multiple of 10.
pub open spec fn luhn_valid(d: Seq<char>) -> bool {
    all_digits(d) && luhn_tail_sum(d, d.len()) % 10 == 0
}

proof fn lemma_luhn_mod(a: int, s: int, x: int)
    by (nonlinear_arith)
    requires
        a == s % 10,
        s >= 0,
        x >= 0,
    ensures
        (a + x) % 10 == (s + x) % 10,
{
}

/// Whether `digits` passes the Luhn Mod-10 checksum (false on any non-digit).
pub fn validate_luhn_checksum(digits: &str) -> (r: bool)
    ensures
        r == luhn_valid(digits@),
{
    let v = chars_of(digits);
    let n = v.len();
    let mut sum_mod: u32 = 0;
    let mut k: usize = 0;
    while k < n
        invariant
            v@ == digits@,
            n == v@.len(),
            k <= n,
            sum_mod < 10,
            sum_mod == luhn_tail_sum(digits@, k as nat) % 10,
            forall|j: int| n - k <= j < n ==> is_digit(#[trigger] digits@[j]),
        decreases n - k,
    {
        let ch = v[n - 1 - k];
        if !(ch >= '0' && ch <= '9') {
            assert(!is_digit(digits@[n - 1 - k]));
            return false;
        }
        let mut d: u32 = (ch as u32) - ('0' as u32);
        if k % 2 == 1 {
            d = d * 2;
            if d > 9 {
                d = d - 9;
            }
        }
        proof {
            assert(d == luhn_term(digits@[n - (k + 1)], k as nat));
            assert(luhn_tail_sum(digits@, (k + 1) as nat) == luhn_tail_sum(digits@, k as nat) + d);
            lemma_luhn_mod(sum_mod as int, luhn_tail_sum(digits@, k as nat) as int, d as int);
        }
        sum_mod = (sum_mod + d) % 10;
        k = k + 1;
    }
    sum_mod == 0
}

// ---------------------------------------------------------------- identifiers

/// A trimmed free-text identifier of at most 100 characters.
pub open spec fn text_identifier_spec(s: Seq<char>, empty_msg: Seq<char>, long_msg: Seq<char>) -> Result<Seq<char>, SerialFault> {
    let t = trim_seq(s);
    if t.len() == 0 {
        Err(SerialFault::Validation(empty_msg))
    } else if t.len() > 100 {
        Err(SerialFault::Validation(long_msg))
    } else {
        Ok(t)
    }
}

pub open spec fn serial_number_spec(s: Seq<char>) -> Result<Seq<char>, SerialFault> {
    text_identifier_spec(
        s,
        "Serial number cannot be empty or whitespace-only"@,
        "Serial number exceeds maximum length of 100 characters"@,
    )
}

pub open spec fn asset_tag_spec(s: Seq<char>) -> Result<Seq<char>, SerialFault> {
    text_identifier_spec(
        s,
        "Asset tag cannot be empty or whitespace-only"@,
        "Asset tag exceeds maximum length of 100 characters"@,
    )
}

/// A trimmed IMEI: exactly 15 decimal digits passing the Luhn check.
pub open spec fn imei_spec(s: Seq<char>) -> Result<Seq<char>, SerialFault> {
    let t = trim_seq(s);
    if byte_len(t) != 15 || !all_digits(t) {
        Err(SerialFault::Validation("IMEI must be exactly 15 decimal digits"@))
    } else if !luhn_valid(t) {
        Err(SerialFault::Validation("IMEI failed Luhn check digit validation"@))
    } else {
        Ok(t)
    }
}

fn validate_text_identifier(s: &str, empty_msg: &str, long_msg: &str) -> (r: Result<String, SerialError>)
    ensures
        serial_agrees(r, text_identifier_spec(s@, empty_msg@, long_msg@)),
{
    let t = trim(s);
    let n = char_count(t);
    if n == 0 {
        return Err(SerialError::Validation(owned(empty_msg)));
    }
    if n > 100 {
        return Err(SerialError::Validation(owned(long_msg)));
    }
    Ok(owned(t))
}

/// Trims and validates a serial number (1 to 100 characters).
pub fn validate_serial_number(s: &str) -> (r: Result<String, SerialError>)
    ensures
        serial_agrees(r, serial_number_spec(s@)),
{
    validate_text_identifier(
        s,
        "Serial number cannot be empty or whitespace-only",
        "Serial number exceeds maximum length of 100 characters",
    )
}

/// Trims and validates an asset tag (1 to 100 characters).
pub fn validate_asset_tag(tag: &str) -> (r: Result<String, SerialError>)
    ensures
        serial_agrees(r, asset_tag_spec(tag@)),
{
    validate_text_identifier(
        tag,
        "Asset tag cannot be empty or whitespace-only",
        "Asset tag exceeds maximum length of 100 characters",
    )
}

/// Trims and validates a 15-digit IMEI with its Luhn check digit.
pub fn validate_imei(imei: &str) -> (r: Result<String, SerialError>)
    ensures
        serial_agrees(r, imei_spec(imei@)),
{
    let t = trim(imei);
    if utf8_len(t) != 15 || !is_all_digits(t) {
        return Err(SerialError::Validation(String::from_str("IMEI must be exactly 15 decimal digits")));
    }
    if !validate_luhn_checksum(t) {
        return Err(
            SerialError::Validation(String::from_str("IMEI failed Luhn check digit validation")),
        );
    }
    Ok(owned(t))
}

/// One optional identifier: absent or blank means none, otherwise it must validate.
pub open spec fn optional_identifier(
    s: Option<Seq<char>>,
    rule: spec_fn(Seq<char>) -> Result<Seq<char>, SerialFault>,
) -> Result<Option<Seq<char>>, SerialFault> {
    match s {
        Some(x) => if trim_seq(x).len() != 0 {
            match rule(x) {
                Ok(v) => Ok(Some(v)),
                Err(f) => Err(f),
            }
        } else {
            Ok(None)
        },
        None => Ok(None),
    }
}

pub open spec fn opt_view(o: Option<&str>) -> Option<Seq<char>> {
    match o {
        Some(s) => Some(s@),
        None => None,
    }
}

pub open spec fn opt_string_view(o: Option<String>) -> Option<Seq<char>> {
    match o {
        Some(s) => Some(s@),
        None => None,
    }
}

/// What `validate_identifiers` decides: each provided identifier normalized, and at least one.
pub open spec fn identifiers_spec(
    serial: Option<Seq<char>>,
    imei: Option<Seq<char>>,
    asset_tag: Option<Seq<char>>,
) -> Result<(Option<Seq<char>>, Option<Seq<char>>, Option<Seq<char>>), SerialFault> {
    match optional_identifier(serial, |x: Seq<char>| serial_number_spec(x)) {
        Err(f) => Err(f),
        Ok(s) => match optional_identifier(imei, |x: Seq<char>| imei_spec(x)) {
            Err(f) => Err(f),
            Ok(i) => match optional_identifier(asset_tag, |x: Seq<char>| asset_tag_spec(x)) {
                Err(f) => Err(f),
                Ok(a) => if s is None && i is None && a is None {
                    Err(
                        SerialFault::Validation(
                            "At least one valid identifier (serial_number, imei, or asset_tag) must be provided"@,
                        ),
                    )
                } else {
                    Ok((s, i, a))
                },
            },
        },
    }
}

/// Validates the identifier triple: at least one of serial number, IMEI and asset tag, each
/// provided one normalized and well-formed.
pub fn validate_identifiers(serial: Option<&str>, imei: Option<&str>, asset_tag: Option<&str>) -> (r:
    Result<(Option<String>, Option<String>, Option<String>), SerialError>)
    ensures
        match identifiers_spec(opt_view(serial), opt_view(imei), opt_view(asset_tag)) {
            Ok((s, i, a)) => r matches Ok((rs, ri, ra)) && opt_string_view(rs) == s
                && opt_string_view(ri) == i && opt_string_view(ra) == a,
            Err(f) => r matches Err(e) && e@ == f,
        },
{
    let norm_serial = match serial {
        Some(s) => {
            if char_count(trim(s)) != 0 {
                match validate_serial_number(s) {
                    Ok(v) => Some(v),
                    Err(e) => {
                        return Err(e);
                    },
                }
            } else {
                None
            }
        },
        None => None,
    };
    let norm_imei = match imei {
        Some(s) => {
            if char_count(trim(s)) != 0 {
                match validate_imei(s) {
                    Ok(v) => Some(v),
                    Err(e) => {
                        return Err(e);
                    },
                }
            } else {
                None
            }
        },
        None => None,
    };
    let norm_tag = match asset_tag {
        Some(s) => {
            if char_count(trim(s)) != 0 {
                match validate_asset_tag(s) {
                    Ok(v) => Some(v),
                    Err(e) => {
                        return Err(e);
                    },
                }
            } else {
                None
            }
        },
        None => None,
    };
    if norm_serial.is_none() && norm_imei.is_none() && norm_tag.is_none() {
        return Err(
            SerialError::Validation(
                String::from_str(
                    "At least one valid identifier (serial_number, imei, or asset_tag) must be provided",
                ),
            ),
        );
    }
    Ok((norm_serial, norm_imei, norm_tag))
}

/// A unit cost, when given, may not be negative.
pub fn validate_cost_price(cost: Option<i64>) -> (r: Result<(), SerialError>)
    ensures
        (cost matches Some(c) && c < 0) ==> (r matches Err(e) && e@ == SerialFault::Validation(
            "Cost price cannot be negative"@,
        )),
        !(cost matches Some(c) && c < 0) ==> r is Ok,
{
    if let Some(c) = cost {
        if c < 0 {
            return Err(SerialError::Validation(String::from_str("Cost price cannot be negative")));
        }
    }
    Ok(())
}

/// An accepted IMEI is the trimmed input, fifteen decimal digits whose Luhn sum is a multiple
/// of ten; an accepted serial number or asset tag is the trimmed input, one to a hundred
/// characters.
pub proof fn lemma_accepted_identifiers_shape(s: Seq<char>)
    ensures
        imei_spec(s) is Ok ==> {
            let t = imei_spec(s)->Ok_0;
            &&& t == trim_seq(s)
            &&& t.len() == 15
            &&& all_digits(t)
            &&& luhn_tail_sum(t, 15) % 10 == 0
        },
        serial_number_spec(s) is Ok ==> serial_number_spec(s)->Ok_0 == trim_seq(s) && 1 <= trim_seq(
            s,
        ).len() <= 100,
        asset_tag_spec(s) is Ok ==> asset_tag_spec(s)->Ok_0 == trim_seq(s) && 1 <= trim_seq(s).len()
            <= 100,
{
    let t = trim_seq(s);
    if imei_spec(s) is Ok {
        lemma_digits_trimmed(t);
    }
}

/// Accepted identifiers name the unit by at least one of serial number, IMEI and asset tag,
/// and each one given is kept exactly as its own rule accepts it.
pub proof fn lemma_identifiers_accepted(
    serial: Option<Seq<char>>,
    imei: Option<Seq<char>>,
    asset_tag: Option<Seq<char>>,
)
    requires
        identifiers_spec(serial, imei, asset_tag) is Ok,
    ensures
        ({
            let (s, i, a) = identifiers_spec(serial, imei, asset_tag)->Ok_0;
            &&& s is Some || i is Some || a is Some
            &&& s matches Some(x) ==> serial matches Some(raw) && serial_number_spec(raw) == Ok::<
                Seq<char>,
                SerialFault,
            >(x)
            &&& i matches Some(x) ==> imei matches Some(raw) && imei_spec(raw) == Ok::<
                Seq<char>,
                SerialFault,
            >(x)
            &&& a matches Some(x) ==> asset_tag matches Some(raw) && asset_tag_spec(raw) == Ok::<
                Seq<char>,
                SerialFault,
            >(x)
        }),
{
}

// ---------------------------------------------------------------- lifecycle

/// What `validate_status_transition` decides.
pub open spec fn transition_spec(current: SerialStatus, target: SerialStatus) -> Result<(), SerialFault> {
    if is_terminal_status(current) {
        Err(SerialFault::TerminalStatus(status_code(current)))
    } else if current == target {
        Ok(())
    } else if !transition_allowed(current, target) {
        Err(
            SerialFault::InvalidStatusTransition {
                from: status_code(current),
                to: status_code(target),
            },
        )
    } else {
        Ok(())
    }
}

/// Validates a lifecycle status change: nothing leaves a terminal status, staying put is
/// allowed, and otherwise the lifecycle's transition table decides.
pub fn validate_status_transition(current: SerialStatus, target: SerialStatus) -> (r: Result<
    (),
    SerialError,
>)
    ensures
        serial_agrees(r, transition_spec(current, target)),
{
    if current.is_terminal() {
        return Err(SerialError::TerminalStatus(owned(current.as_str())));
    }
    if current == target {
        return Ok(());
    }
    let valid = match current {
        SerialStatus::InStock => match target {
            SerialStatus::Reserved | SerialStatus::Sold | SerialStatus::Transferred
            | SerialStatus::Defective | SerialStatus::Recalled | SerialStatus::Disposed => true,
            _ => false,
        },
        SerialStatus::Reserved => match target {
            SerialStatus::InStock | SerialStatus::Sold | SerialStatus::Defective
            | SerialStatus::Recalled | SerialStatus::Disposed => true,
            _ => false,
        },
        SerialStatus::Sold => match target {
            SerialStatus::InStock | SerialStatus::Defective | SerialStatus::Recalled
            | SerialStatus::Disposed => true,
            _ => false,
        },
        SerialStatus::Transferred => match target {
            SerialStatus::InStock | SerialStatus::Defective | SerialStatus::Recalled
            | SerialStatus::Disposed => true,
            _ => false,
        },
        SerialStatus::Defective => match target {
            SerialStatus::InStock | SerialStatus::Recalled | SerialStatus::Disposed => true,
            _ => false,
        },
        SerialStatus::Recalled | SerialStatus::Disposed => false,
    };
    if !valid {
        return Err(
            SerialError::InvalidStatusTransition {
                from: owned(current.as_str()),
                to: owned(target.as_str()),
            },
        );
    }
    Ok(())
}

/// A terminal status admits no change at all, not even to itself.
pub proof fn lemma_terminal_is_permanent(current: SerialStatus, target: SerialStatus)
    requires
        is_terminal_status(current),
    ensures
        transition_spec(current, target) matches Err(SerialFault::TerminalStatus(_)),
{
}

/// Every non-terminal status may be recalled or disposed of, and may stay as it is.
pub proof fn lemma_recall_and_disposal_always_reachable(current: SerialStatus)
    requires
        !is_terminal_status(current),
    ensures
        transition_spec(current, SerialStatus::Recalled) is Ok,
        transition_spec(current, SerialStatus::Disposed) is Ok,
        transition_spec(current, current) is Ok,
{
}

/// Nothing moves into `Transferred` except from `InStock`, and a sold unit can only come back
/// into stock, turn out defective, be recalled or be disposed of.
pub proof fn lemma_transfer_only_from_stock(current: SerialStatus)
    requires
        current != SerialStatus::InStock,
        current != SerialStatus::Transferred,
    ensures
        transition_spec(current, SerialStatus::Transferred) is Err,
{
}

/// A unit can be sold while it is in stock or reserved for a customer (or stay sold), and
/// from no other status.
pub proof fn lemma_sale_from_stock_or_reservation(current: SerialStatus)
    ensures
        transition_spec(current, SerialStatus::Sold) is Ok <==> (current == SerialStatus::InStock
            || current == SerialStatus::Reserved || current == SerialStatus::Sold),
{
}

/// Only a unit in stock can be reserved (a reserved unit may stay reserved).
pub proof fn lemma_reservation_from_stock(current: SerialStatus)
    ensures
        transition_spec(current, SerialStatus::Reserved) is Ok <==> (current == SerialStatus::InStock
            || current == SerialStatus::Reserved),
{
}

/// Every unit that is not recalled or disposed of can come back into stock or be found
/// defective.
pub proof fn lemma_return_and_defect_always_reachable(current: SerialStatus)
    ensures
        transition_spec(current, SerialStatus::InStock) is Ok <==> !is_terminal_status(current),
        transition_spec(current, SerialStatus::Defective) is Ok <==> !is_terminal_status(current),
{
}

/// Only a unit in stock can be transferred (a transferred unit may stay transferred).
pub proof fn lemma_transfer_exactly_from_stock(current: SerialStatus)
    ensures
        transition_spec(current, SerialStatus::Transferred) is Ok <==> (current
            == SerialStatus::InStock || current == SerialStatus::Transferred),
{
}

// ---------------------------------------------------------------- record checks

/// What `check_variant_row` decides from the variant's stored row, if any:
/// its parent product, whether it is active, and whether it is soft-deleted.
pub open spec fn variant_row_spec(
    product_id: Seq<char>,
    variant_id: Seq<char>,
    row: Option<(Seq<char>, bool, bool)>,
) -> Result<(), SerialFault> {
    match row {
        None => Err(SerialFault::InvalidVariant("Variant '"@ + variant_id + "' not found"@)),
        Some((parent, active, deleted)) => if parent != product_id {
            Err(
                SerialFault::InvalidVariant(
                    "Variant '"@ + variant_id + "' belongs to product '"@ + parent + "', not '"@
                        + product_id + "'"@,
                ),
            )
        } else if !active || deleted {
            Err(SerialFault::InvalidVariant("Variant '"@ + variant_id + "' is inactive or soft-deleted"@))
        } else {
            Ok(())
        },
    }
}

/// Checks that a variant exists, is active and not deleted, and belongs to the product.
pub fn check_variant_row(
    product_id: &str,
    variant_id: &str,
    row: Option<(String, bool, bool)>,
) -> (r: Result<(), SerialError>)
    ensures
        serial_agrees(
            r,
            variant_row_spec(
                product_id@,
                variant_id@,
                match row {
                    Some((p, a, d)) => Some((p@, a, d)),
                    None => None,
                },
            ),
        ),
{
    match row {
        None => {
            let mut m = String::from_str("Variant '");
            push_str(&mut m, variant_id);
            push_str(&mut m, "' not found");
            Err(SerialError::InvalidVariant(m))
        },
        Some((parent, active, deleted)) => {
            if !str_eq(parent.as_str(), product_id) {
                let mut m = String::from_str("Variant '");
                push_str(&mut m, variant_id);
                push_str(&mut m, "' belongs to product '");
                push_str(&mut m, parent.as_str());
                push_str(&mut m, "', not '");
                push_str(&mut m, product_id);
                push_str(&mut m, "'");
                return Err(SerialError::InvalidVariant(m));
            }
            if !active || deleted {
                let mut m = String::from_str("Variant '");
                push_str(&mut m, variant_id);
                push_str(&mut m, "' is inactive or soft-deleted");
                return Err(SerialError::InvalidVariant(m));
            }
            Ok(())
        },
    }
}

/// What a failed insert of a serialized unit means, from whether the database reported a
/// uniqueness violation and from its message.
pub open spec fn collision_spec(is_unique_constraint: bool, msg: Seq<char>) -> SerialFault {
    if is_unique_constraint || crate::text::contains_seq(msg, "UNIQUE constraint failed"@) {
        if crate::text::contains_seq(msg, "idx_serial_numbers_serial_active"@)
            || crate::text::contains_seq(msg, "serial_numbers.serial_number"@) {
            SerialFault::DuplicateSerial("Serial number already exists"@)
        } else if crate::text::contains_seq(msg, "idx_serial_numbers_imei_active"@)
            || crate::text::contains_seq(msg, "serial_numbers.imei"@) {
            SerialFault::DuplicateImei("IMEI already exists"@)
        } else if crate::text::contains_seq(msg, "idx_serial_numbers_asset_tag_branch"@)
            || crate::text::contains_seq(msg, "serial_numbers.branch_id, serial_numbers.asset_tag"@)
            || crate::text::contains_seq(msg, "serial_numbers.asset_tag"@) {
            SerialFault::DuplicateAssetTag("Asset tag already exists in this branch"@)
        } else {
            SerialFault::Database(msg)
        }
    } else {
        SerialFault::Database(msg)
    }
}

/// Classifies a failed insert of a serialized unit into a duplicate-identifier error.
pub fn classify_collision(is_unique_constraint: bool, msg: String) -> (r: SerialError)
    ensures
        r@ == collision_spec(is_unique_constraint, msg@),
{
    let m = msg.as_str();
    if is_unique_constraint || contains_str(m, "UNIQUE constraint failed") {
        if contains_str(m, "idx_serial_numbers_serial_active") || contains_str(
            m,
            "serial_numbers.serial_number",
        ) {
            return SerialError::DuplicateSerial(String::from_str("Serial number already exists"));
        }
        if contains_str(m, "idx_serial_numbers_imei_active") || contains_str(m, "serial_numbers.imei") {
            return SerialError::DuplicateImei(String::from_str("IMEI already exists"));
        }
        if contains_str(m, "idx_serial_numbers_asset_tag_branch") || contains_str(
            m,
            "serial_numbers.branch_id, serial_numbers.asset_tag",
        ) || contains_str(m, "serial_numbers.asset_tag") {
            return SerialError::DuplicateAssetTag(
                String::from_str("Asset tag already exists in this branch"),
            );
        }
    }
    SerialError::Database(msg)
}

/// What `check_status_update` decides for the unit found under the requested ID (if any).
pub open spec fn status_update_spec(
    current: Option<(Seq<char>, SerialStatus)>,
    id: Seq<char>,
    branch_id: Seq<char>,
    target: SerialStatus,
) -> Result<(), SerialFault> {
    match current {
        None => Err(SerialFault::NotFound(id)),
        Some((b, st)) => if b != branch_id {
            Err(SerialFault::NotFound(id))
        } else {
            transition_spec(st, target)
        },
    }
}

/// Checks a status update against the stored unit: it must exist in the requested branch and
/// the lifecycle must allow the change.
pub fn check_status_update(current: Option<&SerializedInstance>, input: &UpdateSerialStatusInput) -> (r:
    Result<(), SerialError>)
    ensures
        serial_agrees(
            r,
            status_update_spec(
                match current {
                    Some(c) => Some((c.branch_id@, c.status)),
                    None => None,
                },
                input.id@,
                input.branch_id@,
                input.status,
            ),
        ),
{
    match current {
        None => Err(SerialError::NotFound(owned(input.id.as_str()))),
        Some(c) => {
            if !str_eq(c.branch_id.as_str(), input.branch_id.as_str()) {
                return Err(SerialError::NotFound(owned(input.id.as_str())));
            }
            validate_status_transition(c.status, input.status)
        },
    }
}

} // verus!
