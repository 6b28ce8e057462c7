//! GS1 Modulo-10 check digit calculation and verification.
use super::{agrees, BarcodeError, BarcodeFault};
use vstd::utf8::encode_utf8;
use crate::text::{lemma_digits_trimmed, all_digits, byte_len, char_count, utf8_len, chars_of, digit_value, is_digit, push_char, push_str, trim, trim_seq};
use vstd::prelude::*;

verus! {

/// Weight of the digit at position `k` counted from the right (0 = rightmost): 3, 1, 3, 1, ...
pub open spec fn gs1_weight(k: nat) -> nat {
    if k % 2 == 0 { 3 } else { 1 }
}

/// Weighted sum of the last `k` digits of `d`, each weighted by its position from the right.
pub open spec fn gs1_tail_sum(d: Seq<char>, k: nat) -> nat
    decreases k,
{
    if k == 0 || k > d.len() {
        0
    } else {
        gs1_tail_sum(d, (k - 1) as nat) + digit_value(d[d.len() - k]) * gs1_weight((k - 1) as nat)
    }
}

/// The GS1 check digit of a digit string: the smallest number that brings the weighted sum to a multiple of 10.
pub open spec fn gs1_check_digit(d: Seq<char>) -> nat {
    ((10 - (gs1_tail_sum(d, d.len()) % 10)) % 10) as nat
}

/// Index of the rightmost non-digit of `d` (meaningful when `d` is not all digits).
pub open spec fn rightmost_non_digit(d: Seq<char>) -> int {
    choose|i: int|
        0 <= i < d.len() && !is_digit(d[i]) && forall|j: int| i < j < d.len() ==> is_digit(
            #[trigger] d[j],
        )
}

pub open spec fn non_numeric_msg(c: char) -> Seq<char> {
    "Non-numeric character '"@ + seq![c] + "' in barcode check digit input"@
}

/// What `calculate_gs1_check_digit` returns for the input characters `s`.
pub open spec fn calculate_spec(s: Seq<char>) -> Result<u8, Seq<char>> {
    let t = trim_seq(s);
    if t.len() == 0 {
        Err("Cannot calculate check digit for empty string"@)
    } else if !all_digits(t) {
        Err(non_numeric_msg(t[rightmost_non_digit(t)]))
    } else {
        Ok(gs1_check_digit(t) as u8)
    }
}

/// Whether a result matches the specification value `spec` (validation message on error).
pub open spec fn matches_calc(r: Result<u8, BarcodeError>, spec: Result<u8, Seq<char>>) -> bool {
    match spec {
        Ok(d) => r == Ok::<u8, BarcodeError>(d),
        Err(m) => r matches Err(BarcodeError::Validation(rm)) && rm@ == m,
    }
}

proof fn lemma_mod_add(a: int, s: int, x: int)
    by (nonlinear_arith)
    requires
        a == s % 10,
        s >= 0,
        x >= 0,
    ensures
        (a + x) % 10 == (s + x) % 10,
{
}

proof fn lemma_rightmost(t: Seq<char>, i: int)
    requires
        0 <= i < t.len(),
        !is_digit(t[i]),
        forall|j: int| i < j < t.len() ==> is_digit(#[trigger] t[j]),
    ensures
        rightmost_non_digit(t) == i,
        !all_digits(t),
{
    let w = rightmost_non_digit(t);
    assert(exists|x: int| 0 <= x < t.len() && !is_digit(t[x]) && forall|j: int|
        x < j < t.len() ==> is_digit(#[trigger] t[j]));
    if w < i {
        assert(is_digit(t[i]));
    }
    if w > i {
        assert(is_digit(t[w]));
    }
}

/// Calculates the GS1 standard Modulo-10 check digit for a string of numeric digits
/// (surrounding whitespace ignored). Digits are weighted 3, 1, 3, ... from the right;
/// the check digit is `(10 - sum % 10) % 10`.
pub fn calculate_gs1_check_digit(digits_without_check: &str) -> (r: Result<u8, BarcodeError>)
    ensures
        matches_calc(r, calculate_spec(digits_without_check@)),
        r is Ok ==> r->Ok_0 < 10,
{
    let trimmed = trim(digits_without_check);
    let v = chars_of(trimmed);
    let n = v.len();
    if n == 0 {
        return Err(
            BarcodeError::Validation(String::from_str("Cannot calculate check digit for empty string")),
        );
    }
    let ghost t = trimmed@;
    let mut sum_mod: u32 = 0;
    let mut k: usize = 0;
    while k < n
        invariant
            v@ == t,
            t == trim_seq(digits_without_check@),
            n == t.len(),
            k <= n,
            sum_mod < 10,
            sum_mod == gs1_tail_sum(t, k as nat) % 10,
            forall|j: int| n - k <= j < n ==> is_digit(#[trigger] t[j]),
        decreases n - k,
    {
        let ch = v[n - 1 - k];
        if !(ch >= '0' && ch <= '9') {
            let mut msg = String::from_str("Non-numeric character '");
            push_char(&mut msg, ch);
            push_str(&mut msg, "' in barcode check digit input");
            proof {
                lemma_rightmost(t, (n - 1 - k) as int);
                assert(msg@ =~= non_numeric_msg(ch));
            }
            return Err(BarcodeError::Validation(msg));
        }
        let digit: u32 = (ch as u32) - ('0' as u32);
        let weight: u32 = if k % 2 == 0 { 3 } else { 1 };
        let add: u32 = if weight == 3 { digit * 3 } else { digit };
        proof {
            assert(digit == digit_value(t[n - (k + 1)]));
            assert(add == digit_value(t[n - (k + 1)]) * gs1_weight(k as nat));
            assert(gs1_tail_sum(t, (k + 1) as nat) == gs1_tail_sum(t, k as nat) + add);
            lemma_mod_add(sum_mod as int, gs1_tail_sum(t, k as nat) as int, add as int);
        }
        sum_mod = (sum_mod + add) % 10;
        k = k + 1;
    }
    assert(all_digits(t));
    let check_digit = ((10 - sum_mod) % 10) as u8;
    Ok(check_digit)
}

} // verus!

verus! {

/// What `verify_gs1_check_digit` decides for the input characters `s`.
pub open spec fn verify_spec(s: Seq<char>) -> Result<(), BarcodeFault> {
    let t = trim_seq(s);
    if byte_len(t) < 2 {
        Err(BarcodeFault::Validation("Barcode must be at least 2 characters to verify check digit"@))
    } else {
        match calculate_spec(t.drop_last()) {
            Err(m) => Err(BarcodeFault::Validation(m)),
            Ok(expected) => if !is_digit(t.last()) {
                Err(
                    BarcodeFault::Validation(
                        "Check digit character '"@ + seq![t.last()] + "' is not numeric"@,
                    ),
                )
            } else if digit_value(t.last()) != expected {
                Err(
                    BarcodeFault::InvalidCheckDigit {
                        expected,
                        actual: digit_value(t.last()) as u8,
                    },
                )
            } else {
                Ok(())
            },
        }
    }
}

/// Inputs on which slicing off the check digit stays on a character boundary.
pub open spec fn verify_input_ok(s: Seq<char>) -> bool {
    let t = trim_seq(s);
    byte_len(t) >= 2 ==> (t.last() as u32) < 0x80
}

proof fn lemma_byte_len_empty(t: Seq<char>)
    requires
        t.len() == 0,
    ensures
        byte_len(t) == 0,
{
    assert(encode_utf8(t) =~= Seq::<u8>::empty());
}

/// Verifies that a full barcode (check digit last, surrounding whitespace ignored)
/// satisfies the GS1 Modulo-10 check.
pub fn verify_gs1_check_digit(full_code: &str) -> (r: Result<(), BarcodeError>)
    requires
        verify_input_ok(full_code@),
    ensures
        agrees(r, verify_spec(full_code@)),
{
    let trimmed = trim(full_code);
    if utf8_len(trimmed) < 2 {
        return Err(
            BarcodeError::Validation(
                String::from_str("Barcode must be at least 2 characters to verify check digit"),
            ),
        );
    }
    let ghost t = trimmed@;
    proof {
        if t.len() == 0 {
            lemma_byte_len_empty(t);
        }
    }
    let n = char_count(trimmed);
    let body = trimmed.substring_char(0, n - 1);
    assert(body@ =~= t.drop_last());
    let expected_check = match calculate_gs1_check_digit(body) {
        Ok(d) => d,
        Err(e) => {
            return Err(e);
        },
    };
    let actual_char = trimmed.get_char(n - 1);
    if !(actual_char >= '0' && actual_char <= '9') {
        let mut msg = String::from_str("Check digit character '");
        push_char(&mut msg, actual_char);
        push_str(&mut msg, "' is not numeric");
        assert(msg@ =~= "Check digit character '"@ + seq![t.last()] + "' is not numeric"@);
        return Err(BarcodeError::Validation(msg));
    }
    let actual_check = ((actual_char as u32) - ('0' as u32)) as u8;
    if actual_check != expected_check {
        return Err(BarcodeError::InvalidCheckDigit { expected: expected_check, actual: actual_check });
    }
    Ok(())
}


/// The character of the decimal digit `d`.
pub open spec fn digit_to_char(d: nat) -> char {
    (('0' as u32) + d) as char
}

/// Appending the calculated check digit to a non-empty digit string yields a
/// barcode whose check digit verifies.
pub proof fn lemma_appended_check_digit_verifies(d: Seq<char>)
    requires
        d.len() > 0,
        all_digits(d),
    ensures
        calculate_spec(d) is Ok,
        verify_spec(d.push(digit_to_char(calculate_spec(d)->Ok_0 as nat))) == Ok::<(), BarcodeFault>(()),
{
    lemma_digits_trimmed(d);
    let c = gs1_check_digit(d);
    assert(c < 10);
    let x = digit_to_char(c);
    let t = d.push(x);
    assert(is_digit(x));
    assert(all_digits(t)) by {
        assert forall|i: int| 0 <= i < t.len() implies is_digit(#[trigger] t[i]) by {
            if i < d.len() {
                assert(t[i] == d[i]);
            }
        }
    }
    lemma_digits_trimmed(t);
    assert(t.drop_last() =~= d);
    assert(digit_value(x) == c);
}

} // verus!
