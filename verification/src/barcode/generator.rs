//! SKU rules and the internal in-store EAN-13 numbering scheme.
use super::check_digit::{
    calculate_gs1_check_digit, calculate_spec, digit_to_char, gs1_check_digit,
    lemma_appended_check_digit_verifies,
};
use super::symbology::{ean13_spec, numeric_length_spec};
use super::{agrees, BarcodeError, BarcodeFault};
use crate::text::{
    all_digits, ascii_upper, ascii_upper_seq, byte_len, char_count, chars_of, decimal_value,
    digit_value, is_alnum, is_digit, is_all_digits, is_upper, is_ws, lemma_trim_padded, lemma_digits_trimmed, nat_digits, owned,
    parse_decimal, push_char, push_decimal, push_str, push_zero_padded, to_ascii_upper, trim,
    trim_seq, utf8_len, zero_pad, repeat_char,
};
use vstd::prelude::*;

verus! {

/// Characters allowed in an SKU.
pub open spec fn is_sku_char(c: char) -> bool {
    is_alnum(c) || c == '-' || c == '_' || c == '.'
}

/// What `validate_sku` decides: the upper-cased trimmed SKU, or the validation message.
pub open spec fn sku_spec(s: Seq<char>) -> Result<Seq<char>, BarcodeFault> {
    let t = trim_seq(s);
    if t.len() == 0 {
        Err(BarcodeFault::Validation("SKU cannot be empty"@))
    } else if byte_len(t) < 3 || byte_len(t) > 64 {
        Err(
            BarcodeFault::Validation(
                "SKU length must be between 3 and 64 characters, got "@ + nat_digits(byte_len(t)),
            ),
        )
    } else if !(forall|i: int| 0 <= i < t.len() ==> is_sku_char(#[trigger] t[i])) {
        Err(
            BarcodeFault::Validation(
                "SKU contains invalid characters. Allowed: A-Z, 0-9, hyphens (-), underscores (_), dots (.)"@,
            ),
        )
    } else {
        Ok(ascii_upper_seq(t))
    }
}

/// Validates an SKU (3 to 64 characters of A-Z, a-z, 0-9, `-`, `_`, `.`, surrounding
/// whitespace ignored) and returns it upper-cased.
pub fn validate_sku(sku: &str) -> (r: Result<String, BarcodeError>)
    ensures
        agrees(r, sku_spec(sku@)),
{
    let trimmed = trim(sku);
    if char_count(trimmed) == 0 {
        return Err(BarcodeError::Validation(String::from_str("SKU cannot be empty")));
    }
    let n = utf8_len(trimmed);
    if n < 3 || n > 64 {
        let mut msg = String::from_str("SKU length must be between 3 and 64 characters, got ");
        push_decimal(&mut msg, n as u64);
        return Err(BarcodeError::Validation(msg));
    }
    let v = chars_of(trimmed);
    let mut i: usize = 0;
    while i < v.len()
        invariant
            v@ == trimmed@,
            trimmed@ == trim_seq(sku@),
            trimmed@.len() > 0,
            3 <= byte_len(trimmed@) <= 64,
            i <= v@.len(),
            forall|k: int| 0 <= k < i ==> is_sku_char(#[trigger] v@[k]),
        decreases v.len() - i,
    {
        let c = v[i];
        let ok = (c >= 'a' && c <= 'z') || (c >= 'A' && c <= 'Z') || (c >= '0' && c <= '9') || c
            == '-' || c == '_' || c == '.';
        if !ok {
            assert(!is_sku_char(trimmed@[i as int]));
            return Err(
                BarcodeError::Validation(
                    String::from_str(
                        "SKU contains invalid characters. Allowed: A-Z, 0-9, hyphens (-), underscores (_), dots (.)",
                    ),
                ),
            );
        }
        i = i + 1;
    }
    Ok(to_ascii_upper(trimmed))
}

/// Characters kept in an SKU prefix.
pub open spec fn is_prefix_char(c: char) -> bool {
    is_alnum(c) || c == '_' || c == '-'
}

/// The characters of `s` that may stand in an SKU prefix, in order.
pub open spec fn prefix_chars(s: Seq<char>) -> Seq<char>
    decreases s.len(),
{
    if s.len() == 0 {
        Seq::empty()
    } else if is_prefix_char(s.last()) {
        prefix_chars(s.drop_last()).push(s.last())
    } else {
        prefix_chars(s.drop_last())
    }
}

/// At most the first eight characters of `s`.
pub open spec fn first8(s: Seq<char>) -> Seq<char> {
    if s.len() <= 8 {
        s
    } else {
        s.take(8)
    }
}

/// What `sanitize_sku_prefix` returns: the first eight prefix characters of the trimmed
/// input (default `SKU`), upper-cased; `SKU` when none is left.
pub open spec fn sku_prefix_spec(prefix: Option<Seq<char>>) -> Seq<char> {
    let p = match prefix {
        Some(p) => p,
        None => "SKU"@,
    };
    let cleaned = ascii_upper_seq(first8(prefix_chars(trim_seq(p))));
    if cleaned.len() == 0 {
        "SKU"@
    } else {
        cleaned
    }
}

/// Sanitizes an SKU prefix: keeps ASCII letters, digits, `_` and `-`, at most eight of them,
/// upper-cased; falls back to `SKU`.
pub fn sanitize_sku_prefix(prefix: Option<&str>) -> (r: String)
    ensures
        r@ == sku_prefix_spec(
            match prefix {
                Some(p) => Some(p@),
                None => None,
            },
        ),
{
    let raw: &str = match prefix {
        Some(p) => p,
        None => "SKU",
    };
    let trimmed = trim(raw);
    let v = chars_of(trimmed);
    let mut kept = String::new();
    let mut count: usize = 0;
    let mut i: usize = 0;
    while i < v.len()
        invariant
            v@ == trimmed@,
            i <= v@.len(),
            count <= 8,
            count == kept@.len(),
            kept@ == first8(prefix_chars(trimmed@.take(i as int))),
        decreases v.len() - i,
    {
        let c = v[i];
        let keep = (c >= 'a' && c <= 'z') || (c >= 'A' && c <= 'Z') || (c >= '0' && c <= '9') || c
            == '_' || c == '-';
        let ghost before = prefix_chars(trimmed@.take(i as int));
        assert(trimmed@.take(i + 1).drop_last() =~= trimmed@.take(i as int));
        if keep {
            if count < 8 {
                push_char(&mut kept, c);
                count = count + 1;
            }
            assert(prefix_chars(trimmed@.take(i + 1)) == before.push(c));
            assert(first8(before.push(c)) =~= kept@);
        } else {
            assert(prefix_chars(trimmed@.take(i + 1)) == before);
        }
        i = i + 1;
    }
    assert(trimmed@.take(v.len() as int) =~= trimmed@);
    let upper = to_ascii_upper(kept.as_str());
    if char_count(upper.as_str()) == 0 {
        String::from_str("SKU")
    } else {
        upper
    }
}

/// What `sanitize_ean13_prefix` decides for the trimmed prefix (default `200`).
pub open spec fn ean13_prefix_spec(prefix: Option<Seq<char>>) -> Result<Seq<char>, BarcodeFault> {
    let p = trim_seq(
        match prefix {
            Some(p) => p,
            None => "200"@,
        },
    );
    if byte_len(p) != 3 || !all_digits(p) {
        Err(
            BarcodeFault::Validation(
                "Internal EAN-13 prefix must be a 3-digit numeric string (200-299)"@,
            ),
        )
    } else if decimal_value(p) < 200 || decimal_value(p) > 299 {
        Err(
            BarcodeFault::Validation(
                "Internal EAN-13 prefix '"@ + p + "' is outside restricted store range 200-299"@,
            ),
        )
    } else {
        Ok(p)
    }
}

/// Sanitizes the internal EAN-13 prefix: a 3-digit number in the store range 200..=299.
pub fn sanitize_ean13_prefix(prefix: Option<&str>) -> (r: Result<String, BarcodeError>)
    ensures
        agrees(
            r,
            ean13_prefix_spec(
                match prefix {
                    Some(p) => Some(p@),
                    None => None,
                },
            ),
        ),
{
    let raw: &str = match prefix {
        Some(p) => p,
        None => "200",
    };
    let p = trim(raw);
    if utf8_len(p) != 3 || !is_all_digits(p) {
        return Err(
            BarcodeError::Validation(
                String::from_str("Internal EAN-13 prefix must be a 3-digit numeric string (200-299)"),
            ),
        );
    }
    proof {
        lemma_digits_trimmed(p@);
    }
    let num = parse_decimal(p);
    if num < 200 || num > 299 {
        let mut msg = String::from_str("Internal EAN-13 prefix '");
        push_str(&mut msg, p);
        push_str(&mut msg, "' is outside restricted store range 200-299");
        return Err(BarcodeError::Validation(msg));
    }
    Ok(owned(p))
}

/// The SKU candidate for a prefix and an allocated sequence number: `{PREFIX}-{SEQUENCE:06}`.
pub open spec fn sku_candidate_spec(prefix: Seq<char>, seq: nat) -> Seq<char> {
    prefix + "-"@ + zero_pad(nat_digits(seq), 6)
}

/// Formats the SKU candidate `{PREFIX}-{SEQUENCE:06}` (e.g. `SKU-000001`).
pub fn sku_candidate(prefix: &str, seq: u64) -> (r: String)
    ensures
        r@ == sku_candidate_spec(prefix@, seq as nat),
{
    let mut out = owned(prefix);
    push_char(&mut out, '-');
    push_zero_padded(&mut out, seq, 6);
    proof {
        reveal_strlit("-");
    }
    assert(out@ =~= sku_candidate_spec(prefix@, seq as nat));
    out
}

/// Body of an internal EAN-13: the prefix then the sequence modulo 10^9 on nine digits.
pub open spec fn ean13_body_spec(prefix: Seq<char>, seq: nat) -> Seq<char> {
    prefix + zero_pad(nat_digits(seq % 1_000_000_000), 9)
}

/// An internal EAN-13: its body followed by the body's GS1 check digit.
pub open spec fn internal_ean13_spec(prefix: Seq<char>, seq: nat) -> Seq<char> {
    let body = ean13_body_spec(prefix, seq);
    body.push(digit_to_char(gs1_check_digit(body)))
}

/// Formats the internal EAN-13 candidate for a sanitized 3-digit prefix and an allocated
/// sequence number.
pub fn internal_ean13_candidate(prefix: &str, seq: u64) -> (r: String)
    requires
        prefix@.len() == 3,
        all_digits(prefix@),
    ensures
        r@ == internal_ean13_spec(prefix@, seq as nat),
{
    let mut body = owned(prefix);
    push_zero_padded(&mut body, seq % 1_000_000_000, 9);
    assert(body@ =~= ean13_body_spec(prefix@, seq as nat));
    proof {
        lemma_ean13_body_digits(prefix@, seq as nat);
        lemma_digits_trimmed(body@);
    }
    let check = match calculate_gs1_check_digit(body.as_str()) {
        Ok(d) => d,
        Err(_) => 0,
    };
    let mut out = body;
    push_decimal(&mut out, check as u64);
    assert(out@ =~= internal_ean13_spec(prefix@, seq as nat));
    out
}

proof fn lemma_nat_digits_all_digits(n: nat)
    ensures
        all_digits(nat_digits(n)),
    decreases n,
{
    if n >= 10 {
        lemma_nat_digits_all_digits(n / 10);
        let d = nat_digits(n / 10);
        let c = (('0' as u32) + (n % 10)) as char;
        assert forall|i: int| 0 <= i < d.push(c).len() implies is_digit(#[trigger] d.push(c)[i]) by {
            if i < d.len() {
                assert(d.push(c)[i] == d[i]);
            }
        }
    }
}

proof fn lemma_nat_digits_len_bound(n: nat)
    requires
        n < 1_000_000_000,
    ensures
        nat_digits(n).len() <= 9,
    decreases n,
{
    if n >= 10 {
        lemma_nat_digits_len_bound(n / 10);
        assert(n / 10 < 100_000_000);
        lemma_nat_digits_len_bound8(n / 10);
    }
}

proof fn lemma_nat_digits_len_bound8(n: nat)
    requires
        n < 100_000_000,
    ensures
        nat_digits(n).len() <= 8,
    decreases n,
{
    reveal_with_fuel(nat_digits, 9);
}

/// The body of an internal EAN-13 is twelve digits.
proof fn lemma_ean13_body_digits(prefix: Seq<char>, seq: nat)
    requires
        prefix.len() == 3,
        all_digits(prefix),
    ensures
        all_digits(ean13_body_spec(prefix, seq)),
        ean13_body_spec(prefix, seq).len() == 12,
{
    let m = seq % 1_000_000_000;
    let d = nat_digits(m);
    lemma_nat_digits_all_digits(m);
    lemma_nat_digits_len_bound(m);
    let z = zero_pad(d, 9);
    assert(z.len() == 9);
    assert(all_digits(z)) by {
        assert forall|i: int| 0 <= i < z.len() implies is_digit(#[trigger] z[i]) by {
            if d.len() < 9 {
                let pad = repeat_char('0', (9 - d.len()) as nat);
                if i >= pad.len() {
                    assert(z[i] == d[i - pad.len()]);
                }
            }
        }
    }
    let b = prefix + z;
    assert forall|i: int| 0 <= i < b.len() implies is_digit(#[trigger] b[i]) by {
        if i < 3 {
            assert(b[i] == prefix[i]);
        } else {
            assert(b[i] == z[i - 3]);
        }
    }
}

/// Every internal EAN-13 is a valid EAN-13.
pub proof fn lemma_internal_ean13_is_valid(prefix: Seq<char>, seq: nat)
    requires
        prefix.len() == 3,
        all_digits(prefix),
    ensures
        ean13_spec(internal_ean13_spec(prefix, seq)) is Ok,
{
    let body = ean13_body_spec(prefix, seq);
    lemma_ean13_body_digits(prefix, seq);
    lemma_digits_trimmed(body);
    lemma_appended_check_digit_verifies(body);
    let full = internal_ean13_spec(prefix, seq);
    let c = digit_to_char(gs1_check_digit(body));
    assert(full == body.push(c));
    assert(all_digits(full)) by {
        assert forall|i: int| 0 <= i < full.len() implies is_digit(#[trigger] full[i]) by {
            if i < body.len() {
                assert(full[i] == body[i]);
            }
        }
    }
    lemma_digits_trimmed(full);
}


/// A character that can stand in a sanitized SKU prefix: an ASCII upper-case letter, a digit,
/// `_` or `-`.
pub open spec fn is_clean_prefix_char(c: char) -> bool {
    is_upper(c) || is_digit(c) || c == '_' || c == '-'
}

proof fn lemma_prefix_chars_kept(s: Seq<char>)
    ensures
        forall|i: int|
            0 <= i < prefix_chars(s).len() ==> is_prefix_char(#[trigger] prefix_chars(s)[i]),
    decreases s.len(),
{
    if s.len() > 0 {
        let d = prefix_chars(s.drop_last());
        lemma_prefix_chars_kept(s.drop_last());
        if is_prefix_char(s.last()) {
            assert forall|i: int| 0 <= i < d.push(s.last()).len() implies is_prefix_char(
                #[trigger] d.push(s.last())[i],
            ) by {
                if i < d.len() {
                    assert(d.push(s.last())[i] == d[i]);
                }
            }
        }
    }
}

proof fn lemma_prefix_chars_fixed(s: Seq<char>)
    requires
        forall|i: int| 0 <= i < s.len() ==> is_prefix_char(#[trigger] s[i]),
    ensures
        prefix_chars(s) == s,
    decreases s.len(),
{
    if s.len() > 0 {
        assert(is_prefix_char(s[s.len() - 1]));
        lemma_prefix_chars_fixed(s.drop_last());
        assert(s.drop_last().push(s.last()) =~= s);
    }
}

/// A clean prefix of one to eight characters is left as it is.
proof fn lemma_clean_prefix_fixed(r: Seq<char>)
    requires
        1 <= r.len() <= 8,
        forall|i: int| 0 <= i < r.len() ==> is_clean_prefix_char(#[trigger] r[i]),
    ensures
        sku_prefix_spec(Some(r)) == r,
{
    assert forall|i: int| 0 <= i < r.len() implies !is_ws(#[trigger] r[i])
        && is_prefix_char(r[i]) && ascii_upper(r[i]) == r[i] by {
        assert(is_clean_prefix_char(r[i]));
    }
    let e = Seq::<char>::empty();
    assert(e + r + e =~= r);
    lemma_trim_padded(e, r, e);
    lemma_prefix_chars_fixed(r);
    assert(ascii_upper_seq(r) =~= r);
}

/// A sanitized SKU prefix has one to eight characters, each an ASCII upper-case letter, a
/// digit, `_` or `-`, and sanitizing it again leaves it unchanged.
pub proof fn lemma_sku_prefix_shape(prefix: Option<Seq<char>>)
    ensures
        1 <= sku_prefix_spec(prefix).len() <= 8,
        forall|i: int|
            0 <= i < sku_prefix_spec(prefix).len() ==> is_clean_prefix_char(
                #[trigger] sku_prefix_spec(prefix)[i],
            ),
        sku_prefix_spec(Some(sku_prefix_spec(prefix))) == sku_prefix_spec(prefix),
{
    let p = match prefix {
        Some(p) => p,
        None => "SKU"@,
    };
    let kept = prefix_chars(trim_seq(p));
    lemma_prefix_chars_kept(trim_seq(p));
    let c8 = first8(kept);
    assert forall|i: int| 0 <= i < c8.len() implies is_prefix_char(#[trigger] c8[i]) by {
        assert(c8[i] == kept[i]);
    }
    let cleaned = ascii_upper_seq(c8);
    assert forall|i: int| 0 <= i < cleaned.len() implies is_clean_prefix_char(#[trigger] cleaned[i]) by {
        assert(is_prefix_char(c8[i]));
    }
    let r = sku_prefix_spec(prefix);
    if cleaned.len() == 0 {
        reveal_strlit("SKU");
        assert(r == "SKU"@);
    } else {
        assert(r == cleaned);
    }
    lemma_clean_prefix_fixed(r);
}

} // verus!
