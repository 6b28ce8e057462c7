//! Barcode symbologies and their format validators.
use super::check_digit::{verify_gs1_check_digit, verify_spec};
use super::{agrees, BarcodeError, BarcodeFault};
use crate::text::{
    all_digits, all_printable_ascii, byte_len, char_count, chars_of, is_all_digits, is_digit,
    is_printable_ascii, is_upper, nat_digits, owned, push_decimal, push_str, str_eq, to_uppercase,
    trim, trim_seq, unicode_upper, utf8_len, lemma_digits_trimmed,
};
use vstd::prelude::*;
use vstd::utf8::{encode_utf8, is_ascii_chars, is_ascii_chars_encode_utf8};

verus! {

/// Supported barcode symbologies.
#[derive(Debug, Clone, Copy, PartialEq, Eq, Structural)]
pub enum BarcodeSymbology {
    Ean13,
    Ean8,
    UpcA,
    UpcE,
    Code128,
    Code39,
    Custom,
    Unknown,
}

/// The canonical upper-case name of a symbology.
pub open spec fn symbology_name(s: BarcodeSymbology) -> Seq<char> {
    match s {
        BarcodeSymbology::Ean13 => "EAN13"@,
        BarcodeSymbology::Ean8 => "EAN8"@,
        BarcodeSymbology::UpcA => "UPCA"@,
        BarcodeSymbology::UpcE => "UPCE"@,
        BarcodeSymbology::Code128 => "CODE128"@,
        BarcodeSymbology::Code39 => "CODE39"@,
        BarcodeSymbology::Custom => "CUSTOM"@,
        BarcodeSymbology::Unknown => "UNKNOWN"@,
    }
}

/// The symbology an upper-cased name denotes (hyphenated spellings accepted).
pub open spec fn symbology_from_upper(u: Seq<char>) -> Option<BarcodeSymbology> {
    if u == "EAN13"@ || u == "EAN-13"@ {
        Some(BarcodeSymbology::Ean13)
    } else if u == "EAN8"@ || u == "EAN-8"@ {
        Some(BarcodeSymbology::Ean8)
    } else if u == "UPCA"@ || u == "UPC-A"@ {
        Some(BarcodeSymbology::UpcA)
    } else if u == "UPCE"@ || u == "UPC-E"@ {
        Some(BarcodeSymbology::UpcE)
    } else if u == "CODE128"@ || u == "CODE-128"@ {
        Some(BarcodeSymbology::Code128)
    } else if u == "CODE39"@ || u == "CODE-39"@ {
        Some(BarcodeSymbology::Code39)
    } else if u == "CUSTOM"@ {
        Some(BarcodeSymbology::Custom)
    } else if u == "UNKNOWN"@ {
        Some(BarcodeSymbology::Unknown)
    } else {
        None
    }
}

impl BarcodeSymbology {
    /// The canonical upper-case name of this symbology.
    pub fn as_str(&self) -> (r: &'static str)
        ensures
            r@ == symbology_name(*self),
    {
        match self {
            BarcodeSymbology::Ean13 => "EAN13",
            BarcodeSymbology::Ean8 => "EAN8",
            BarcodeSymbology::UpcA => "UPCA",
            BarcodeSymbology::UpcE => "UPCE",
            BarcodeSymbology::Code128 => "CODE128",
            BarcodeSymbology::Code39 => "CODE39",
            BarcodeSymbology::Custom => "CUSTOM",
            BarcodeSymbology::Unknown => "UNKNOWN",
        }
    }

    /// Parses a symbology name, ignoring surrounding whitespace and letter case.
    pub fn parse(s: &str) -> (r: Option<Self>)
        ensures
            r == symbology_from_upper(unicode_upper(trim_seq(s@))),
    {
        let upper = to_uppercase(trim(s));
        Self::parse_upper(upper.as_str())
    }

    /// Resolves an already upper-cased symbology name.
    pub fn parse_upper(u: &str) -> (r: Option<Self>)
        ensures
            r == symbology_from_upper(u@),
    {
        if str_eq(u, "EAN13") || str_eq(u, "EAN-13") {
            Some(BarcodeSymbology::Ean13)
        } else if str_eq(u, "EAN8") || str_eq(u, "EAN-8") {
            Some(BarcodeSymbology::Ean8)
        } else if str_eq(u, "UPCA") || str_eq(u, "UPC-A") {
            Some(BarcodeSymbology::UpcA)
        } else if str_eq(u, "UPCE") || str_eq(u, "UPC-E") {
            Some(BarcodeSymbology::UpcE)
        } else if str_eq(u, "CODE128") || str_eq(u, "CODE-128") {
            Some(BarcodeSymbology::Code128)
        } else if str_eq(u, "CODE39") || str_eq(u, "CODE-39") {
            Some(BarcodeSymbology::Code39)
        } else if str_eq(u, "CUSTOM") {
            Some(BarcodeSymbology::Custom)
        } else if str_eq(u, "UNKNOWN") {
            Some(BarcodeSymbology::Unknown)
        } else {
            None
        }
    }
}

/// Every symbology name resolves back to its symbology.
pub proof fn lemma_symbology_name_round_trip(s: BarcodeSymbology)
    ensures
        symbology_from_upper(symbology_name(s)) == Some(s),
{
    reveal_strlit("EAN13");
    reveal_strlit("EAN-13");
    reveal_strlit("EAN8");
    reveal_strlit("EAN-8");
    reveal_strlit("UPCA");
    reveal_strlit("UPC-A");
    reveal_strlit("UPCE");
    reveal_strlit("UPC-E");
    reveal_strlit("CODE128");
    reveal_strlit("CODE-128");
    reveal_strlit("CODE39");
    reveal_strlit("CODE-39");
    reveal_strlit("CUSTOM");
    reveal_strlit("UNKNOWN");
    assert("EAN13"@.len() == 5 && "EAN-13"@.len() == 6 && "EAN8"@.len() == 4 && "EAN-8"@.len() == 5);
    assert("UPCA"@.len() == 4 && "UPC-A"@.len() == 5 && "UPCE"@.len() == 4 && "UPC-E"@.len() == 5);
    assert("CODE128"@.len() == 7 && "CODE-128"@.len() == 8 && "CODE39"@.len() == 6);
    assert("CODE-39"@.len() == 7 && "CUSTOM"@.len() == 6 && "UNKNOWN"@.len() == 7);
    match s {
        BarcodeSymbology::Ean13 => {},
        BarcodeSymbology::Ean8 => {
            assert("EAN8"@[3] != "EAN-13"@[3]);
        },
        BarcodeSymbology::UpcA => {
            assert("UPCA"@[0] != "EAN13"@[0]);
            assert("UPCA"@[0] != "EAN-13"@[0]);
            assert("UPCA"@[0] != "EAN8"@[0]);
            assert("UPCA"@[0] != "EAN-8"@[0]);
        },
        BarcodeSymbology::UpcE => {
            assert("UPCE"@[0] != "EAN13"@[0]);
            assert("UPCE"@[0] != "EAN-13"@[0]);
            assert("UPCE"@[0] != "EAN8"@[0]);
            assert("UPCE"@[0] != "EAN-8"@[0]);
            assert("UPCE"@[3] != "UPCA"@[3]);
            assert("UPCE"@[3] != "UPC-A"@[3]);
        },
        BarcodeSymbology::Code128 => {
            assert("CODE128"@[0] != "EAN13"@[0]);
            assert("CODE128"@[0] != "EAN-13"@[0]);
            assert("CODE128"@[0] != "EAN8"@[0]);
            assert("CODE128"@[0] != "EAN-8"@[0]);
            assert("CODE128"@[0] != "UPCA"@[0]);
            assert("CODE128"@[0] != "UPC-A"@[0]);
            assert("CODE128"@[0] != "UPCE"@[0]);
            assert("CODE128"@[0] != "UPC-E"@[0]);
        },
        BarcodeSymbology::Code39 => {
            assert("CODE39"@[0] != "EAN13"@[0]);
            assert("CODE39"@[0] != "EAN-13"@[0]);
            assert("CODE39"@[0] != "EAN8"@[0]);
            assert("CODE39"@[0] != "EAN-8"@[0]);
            assert("CODE39"@[0] != "UPCA"@[0]);
            assert("CODE39"@[0] != "UPC-A"@[0]);
            assert("CODE39"@[0] != "UPCE"@[0]);
            assert("CODE39"@[0] != "UPC-E"@[0]);
            assert("CODE39"@[4] != "CODE128"@[4]);
            assert("CODE39"@[4] != "CODE-128"@[4]);
        },
        BarcodeSymbology::Custom => {
            assert("CUSTOM"@[0] != "EAN13"@[0]);
            assert("CUSTOM"@[0] != "EAN-13"@[0]);
            assert("CUSTOM"@[0] != "EAN8"@[0]);
            assert("CUSTOM"@[0] != "EAN-8"@[0]);
            assert("CUSTOM"@[0] != "UPCA"@[0]);
            assert("CUSTOM"@[0] != "UPC-A"@[0]);
            assert("CUSTOM"@[0] != "UPCE"@[0]);
            assert("CUSTOM"@[0] != "UPC-E"@[0]);
            assert("CUSTOM"@[1] != "CODE128"@[1]);
            assert("CUSTOM"@[1] != "CODE-128"@[1]);
            assert("CUSTOM"@[1] != "CODE39"@[1]);
            assert("CUSTOM"@[1] != "CODE-39"@[1]);
        },
        BarcodeSymbology::Unknown => {
            assert("UNKNOWN"@[1] != "EAN13"@[1]);
            assert("UNKNOWN"@[1] != "EAN-13"@[1]);
            assert("UNKNOWN"@[1] != "EAN8"@[1]);
            assert("UNKNOWN"@[1] != "EAN-8"@[1]);
            assert("UNKNOWN"@[1] != "UPCA"@[1]);
            assert("UNKNOWN"@[1] != "UPC-A"@[1]);
            assert("UNKNOWN"@[1] != "UPCE"@[1]);
            assert("UNKNOWN"@[1] != "UPC-E"@[1]);
            assert("UNKNOWN"@[0] != "CODE128"@[0]);
            assert("UNKNOWN"@[0] != "CODE-128"@[0]);
            assert("UNKNOWN"@[0] != "CODE39"@[0]);
            assert("UNKNOWN"@[0] != "CODE-39"@[0]);
            assert("UNKNOWN"@[0] != "CUSTOM"@[0]);
        },
    }
}


/// Sequencing of two validation steps: the first failure wins.
pub open spec fn and_then(a: Result<(), BarcodeFault>, b: Result<(), BarcodeFault>) -> Result<(), BarcodeFault> {
    match a {
        Err(e) => Err(e),
        Ok(_) => b,
    }
}

/// Fixed-length all-digit rule shared by the numeric symbologies.
pub open spec fn numeric_length_spec(s: Seq<char>, n: nat, name: Seq<char>) -> Result<(), BarcodeFault> {
    if byte_len(s) != n {
        Err(
            BarcodeFault::Validation(
                name + " barcode must be exactly "@ + nat_digits(n) + " numeric digits, got "@
                    + nat_digits(byte_len(s) as nat),
            ),
        )
    } else if !all_digits(s) {
        Err(BarcodeFault::Validation(name + " barcode must contain only numeric digits (0-9)"@))
    } else {
        Ok(())
    }
}

pub open spec fn ean13_spec(s: Seq<char>) -> Result<(), BarcodeFault> {
    and_then(numeric_length_spec(s, 13, "EAN-13"@), verify_spec(s))
}

pub open spec fn ean8_spec(s: Seq<char>) -> Result<(), BarcodeFault> {
    and_then(numeric_length_spec(s, 8, "EAN-8"@), verify_spec(s))
}

pub open spec fn upc_a_spec(s: Seq<char>) -> Result<(), BarcodeFault> {
    and_then(numeric_length_spec(s, 12, "UPC-A"@), verify_spec(s))
}

pub open spec fn upc_e_spec(s: Seq<char>) -> Result<(), BarcodeFault> {
    numeric_length_spec(s, 8, "UPC-E"@)
}

/// Length between 1 and `max` bytes, then every character printable ASCII.
pub open spec fn printable_spec(s: Seq<char>, max: nat, name: Seq<char>, bad_chars: Seq<char>) -> Result<(), BarcodeFault> {
    if byte_len(s) < 1 || byte_len(s) > max {
        Err(
            BarcodeFault::Validation(
                name + " barcode length must be between 1 and "@ + nat_digits(max) + " characters, got "@
                    + nat_digits(byte_len(s) as nat),
            ),
        )
    } else if !all_printable_ascii(s) {
        Err(BarcodeFault::Validation(bad_chars))
    } else {
        Ok(())
    }
}

pub open spec fn code128_spec(s: Seq<char>) -> Result<(), BarcodeFault> {
    printable_spec(
        s,
        128,
        "Code 128"@,
        "Code 128 barcode contains invalid non-printable or non-ASCII characters"@,
    )
}

pub open spec fn custom_spec(s: Seq<char>) -> Result<(), BarcodeFault> {
    printable_spec(s, 128, "Custom"@, "Custom barcode contains invalid non-printable characters"@)
}

/// Characters of the Code 39 alphabet.
pub open spec fn is_code39_char(c: char) -> bool {
    is_upper(c) || is_digit(c) || c == '-' || c == '.' || c == ' ' || c == '$' || c == '/' || c == '+'
        || c == '%'
}

pub open spec fn code39_spec(s: Seq<char>) -> Result<(), BarcodeFault> {
    if byte_len(s) < 1 || byte_len(s) > 64 {
        Err(
            BarcodeFault::Validation(
                "Code 39 barcode length must be between 1 and 64 characters, got "@ + nat_digits(
                    byte_len(s) as nat,
                ),
            ),
        )
    } else if !(forall|i: int| 0 <= i < s.len() ==> is_code39_char(#[trigger] s[i])) {
        Err(
            BarcodeFault::Validation(
                "Code 39 barcode contains invalid characters. Allowed: A-Z, 0-9, -, ., $, /, +, %, space"@,
            ),
        )
    } else {
        Ok(())
    }
}

/// What `validate_barcode_symbology` decides (the trimmed barcode on success).
pub open spec fn symbology_spec(s: Seq<char>, sym: BarcodeSymbology) -> Result<Seq<char>, BarcodeFault> {
    let t = trim_seq(s);
    if t.len() == 0 {
        Err(BarcodeFault::Validation("Barcode cannot be empty"@))
    } else {
        let r = match sym {
            BarcodeSymbology::Ean13 => ean13_spec(t),
            BarcodeSymbology::Ean8 => ean8_spec(t),
            BarcodeSymbology::UpcA => upc_a_spec(t),
            BarcodeSymbology::UpcE => upc_e_spec(t),
            BarcodeSymbology::Code128 => code128_spec(t),
            BarcodeSymbology::Code39 => code39_spec(t),
            BarcodeSymbology::Custom => custom_spec(t),
            BarcodeSymbology::Unknown => custom_spec(t),
        };
        match r {
            Err(e) => Err(e),
            Ok(_) => Ok(t),
        }
    }
}

/// The most specific symbology that a barcode validates under.
pub open spec fn detect_spec(s: Seq<char>) -> BarcodeSymbology {
    let t = trim_seq(s);
    if byte_len(t) == 13 && all_digits(t) && ean13_spec(t) is Ok {
        BarcodeSymbology::Ean13
    } else if byte_len(t) == 12 && all_digits(t) && upc_a_spec(t) is Ok {
        BarcodeSymbology::UpcA
    } else if byte_len(t) == 8 && all_digits(t) && ean8_spec(t) is Ok {
        BarcodeSymbology::Ean8
    } else if byte_len(t) == 8 && all_digits(t) {
        BarcodeSymbology::UpcE
    } else if code39_spec(t) is Ok {
        BarcodeSymbology::Code39
    } else if code128_spec(t) is Ok {
        BarcodeSymbology::Code128
    } else {
        BarcodeSymbology::Custom
    }
}

fn validate_numeric_length(s: &str, exact_len: usize, name: &str) -> (r: Result<(), BarcodeError>)
    requires
        exact_len < 100,
    ensures
        agrees(r, numeric_length_spec(s@, exact_len as nat, name@)),
{
    let n = utf8_len(s);
    if n != exact_len {
        let mut msg = owned(name);
        push_str(&mut msg, " barcode must be exactly ");
        push_decimal(&mut msg, exact_len as u64);
        push_str(&mut msg, " numeric digits, got ");
        push_decimal(&mut msg, n as u64);
        assert(msg@ =~= name@ + " barcode must be exactly "@ + nat_digits(exact_len as nat)
            + " numeric digits, got "@ + nat_digits(byte_len(s@) as nat));
        return Err(BarcodeError::Validation(msg));
    }
    if !is_all_digits(s) {
        let mut msg = owned(name);
        push_str(&mut msg, " barcode must contain only numeric digits (0-9)");
        return Err(BarcodeError::Validation(msg));
    }
    Ok(())
}

fn validate_gs1_numeric(barcode: &str, exact_len: usize, name: &str) -> (r: Result<(), BarcodeError>)
    requires
        exact_len < 100,
    ensures
        agrees(r, and_then(numeric_length_spec(barcode@, exact_len as nat, name@), verify_spec(barcode@))),
{
    match validate_numeric_length(barcode, exact_len, name) {
        Err(e) => Err(e),
        Ok(()) => {
            proof {
                lemma_digits_trimmed(barcode@);
                if barcode@.len() > 0 {
                    assert(is_digit(barcode@.last()));
                }
            }
            verify_gs1_check_digit(barcode)
        },
    }
}

/// Validates an EAN-13 barcode (13 numeric digits + GS1 Modulo-10 check digit).
pub fn validate_ean13(barcode: &str) -> (r: Result<(), BarcodeError>)
    ensures
        agrees(r, ean13_spec(barcode@)),
{
    validate_gs1_numeric(barcode, 13, "EAN-13")
}

/// Validates an EAN-8 barcode (8 numeric digits + GS1 Modulo-10 check digit).
pub fn validate_ean8(barcode: &str) -> (r: Result<(), BarcodeError>)
    ensures
        agrees(r, ean8_spec(barcode@)),
{
    validate_gs1_numeric(barcode, 8, "EAN-8")
}

/// Validates a UPC-A barcode (12 numeric digits + GS1 Modulo-10 check digit).
pub fn validate_upc_a(barcode: &str) -> (r: Result<(), BarcodeError>)
    ensures
        agrees(r, upc_a_spec(barcode@)),
{
    validate_gs1_numeric(barcode, 12, "UPC-A")
}

/// Validates a UPC-E barcode (8 numeric digits).
pub fn validate_upc_e(barcode: &str) -> (r: Result<(), BarcodeError>)
    ensures
        agrees(r, upc_e_spec(barcode@)),
{
    validate_numeric_length(barcode, 8, "UPC-E")
}

/// Whether every character of `s` is printable ASCII.
pub fn is_all_printable_ascii(s: &str) -> (r: bool)
    ensures
        r == all_printable_ascii(s@),
{
    let v = chars_of(s);
    let mut i: usize = 0;
    while i < v.len()
        invariant
            v@ == s@,
            i <= v@.len(),
            forall|k: int| 0 <= k < i ==> is_printable_ascii(#[trigger] v@[k]),
        decreases v.len() - i,
    {
        if !(v[i] >= ' ' && v[i] <= '~') {
            return false;
        }
        i = i + 1;
    }
    true
}

fn validate_printable(s: &str, max: usize, name: &str, bad_chars: &str) -> (r: Result<(), BarcodeError>)
    requires
        max < 1000,
    ensures
        agrees(r, printable_spec(s@, max as nat, name@, bad_chars@)),
{
    let n = utf8_len(s);
    if n < 1 || n > max {
        let mut msg = owned(name);
        push_str(&mut msg, " barcode length must be between 1 and ");
        push_decimal(&mut msg, max as u64);
        push_str(&mut msg, " characters, got ");
        push_decimal(&mut msg, n as u64);
        assert(msg@ =~= name@ + " barcode length must be between 1 and "@ + nat_digits(max as nat)
            + " characters, got "@ + nat_digits(byte_len(s@) as nat));
        return Err(BarcodeError::Validation(msg));
    }
    if !is_all_printable_ascii(s) {
        return Err(BarcodeError::Validation(owned(bad_chars)));
    }
    Ok(())
}

/// Validates a Code 128 barcode (1 to 128 printable ASCII characters).
pub fn validate_code128(barcode: &str) -> (r: Result<(), BarcodeError>)
    ensures
        agrees(r, code128_spec(barcode@)),
{
    validate_printable(
        barcode,
        128,
        "Code 128",
        "Code 128 barcode contains invalid non-printable or non-ASCII characters",
    )
}

/// Validates a custom or arbitrary barcode string (1 to 128 printable ASCII characters).
pub fn validate_custom_barcode(barcode: &str) -> (r: Result<(), BarcodeError>)
    ensures
        agrees(r, custom_spec(barcode@)),
{
    validate_printable(barcode, 128, "Custom", "Custom barcode contains invalid non-printable characters")
}

/// Validates a Code 39 barcode (1 to 64 characters of A-Z, 0-9, -, ., $, /, +, %, space).
pub fn validate_code39(barcode: &str) -> (r: Result<(), BarcodeError>)
    ensures
        agrees(r, code39_spec(barcode@)),
{
    let n = utf8_len(barcode);
    if n < 1 || n > 64 {
        let mut msg = String::from_str("Code 39 barcode length must be between 1 and 64 characters, got ");
        push_decimal(&mut msg, n as u64);
        return Err(BarcodeError::Validation(msg));
    }
    let v = chars_of(barcode);
    let mut i: usize = 0;
    while i < v.len()
        invariant
            v@ == barcode@,
            1 <= byte_len(barcode@) <= 64,
            i <= v@.len(),
            forall|k: int| 0 <= k < i ==> is_code39_char(#[trigger] v@[k]),
        decreases v.len() - i,
    {
        let c = v[i];
        let ok = (c >= 'A' && c <= 'Z') || (c >= '0' && c <= '9') || c == '-' || c == '.' || c == ' '
            || c == '$' || c == '/' || c == '+' || c == '%';
        if !ok {
            assert(!is_code39_char(barcode@[i as int]));
            return Err(
                BarcodeError::Validation(
                    String::from_str(
                        "Code 39 barcode contains invalid characters. Allowed: A-Z, 0-9, -, ., $, /, +, %, space",
                    ),
                ),
            );
        }
        i = i + 1;
    }
    Ok(())
}

/// Validates a barcode against its explicit symbology; returns the trimmed barcode.
pub fn validate_barcode_symbology(barcode: &str, symbology: BarcodeSymbology) -> (r: Result<
    String,
    BarcodeError,
>)
    ensures
        agrees(r, symbology_spec(barcode@, symbology)),
{
    let trimmed = trim(barcode);
    if char_count(trimmed) == 0 {
        return Err(BarcodeError::Validation(String::from_str("Barcode cannot be empty")));
    }
    let checked = match symbology {
        BarcodeSymbology::Ean13 => validate_ean13(trimmed),
        BarcodeSymbology::Ean8 => validate_ean8(trimmed),
        BarcodeSymbology::UpcA => validate_upc_a(trimmed),
        BarcodeSymbology::UpcE => validate_upc_e(trimmed),
        BarcodeSymbology::Code128 => validate_code128(trimmed),
        BarcodeSymbology::Code39 => validate_code39(trimmed),
        BarcodeSymbology::Custom => validate_custom_barcode(trimmed),
        BarcodeSymbology::Unknown => validate_custom_barcode(trimmed),
    };
    match checked {
        Err(e) => Err(e),
        Ok(()) => Ok(owned(trimmed)),
    }
}

/// Auto-detects the most specific valid symbology for a barcode string.
pub fn detect_symbology(barcode: &str) -> (r: BarcodeSymbology)
    ensures
        r == detect_spec(barcode@),
{
    let trimmed = trim(barcode);
    let n = utf8_len(trimmed);
    let digits = is_all_digits(trimmed);
    if n == 13 && digits && validate_ean13(trimmed).is_ok() {
        return BarcodeSymbology::Ean13;
    }
    if n == 12 && digits && validate_upc_a(trimmed).is_ok() {
        return BarcodeSymbology::UpcA;
    }
    if n == 8 && digits && validate_ean8(trimmed).is_ok() {
        return BarcodeSymbology::Ean8;
    }
    if n == 8 && digits {
        return BarcodeSymbology::UpcE;
    }
    if validate_code39(trimmed).is_ok() {
        return BarcodeSymbology::Code39;
    }
    if validate_code128(trimmed).is_ok() {
        return BarcodeSymbology::Code128;
    }
    BarcodeSymbology::Custom
}

/// A detected symbology other than `Custom` is one the barcode validates under.
pub proof fn lemma_detected_symbology_validates(s: Seq<char>)
    requires
        detect_spec(s) != BarcodeSymbology::Custom,
    ensures
        symbology_spec(s, detect_spec(s)) is Ok,
{
    let t = trim_seq(s);
    if t.len() == 0 {
        assert(encode_utf8(t) =~= Seq::<u8>::empty());
    }
}

/// Every barcode whose trimmed text is 1 to 128 printable ASCII characters is detected as a
/// symbology other than `Custom`, and validates under the symbology detected.
pub proof fn lemma_printable_barcode_detected_validates(s: Seq<char>)
    requires
        1 <= trim_seq(s).len() <= 128,
        all_printable_ascii(trim_seq(s)),
    ensures
        detect_spec(s) != BarcodeSymbology::Custom,
        symbology_spec(s, detect_spec(s)) is Ok,
{
    let t = trim_seq(s);
    assert(is_ascii_chars(t)) by {
        assert forall|i: int| 0 <= i < t.len() implies '\0' <= #[trigger] t[i] <= '\u{7f}' by {
            assert(is_printable_ascii(t[i]));
        }
    }
    is_ascii_chars_encode_utf8(t);
    assert(code128_spec(t) is Ok);
    lemma_detected_symbology_validates(s);
}

} // verus!
