//! Canonical request text of a stock movement and its SHA-256 fingerprint, which
//! identifies a request under an idempotency key.
use super::{reason_code, PostMovementInput};
use crate::text::{char_from_ascii, int_decimal, push_char, push_i64_decimal, push_str, trim, trim_seq};
use sha2::Digest;
use vstd::prelude::*;
use vstd::utf8::encode_utf8;

verus! {

/// Names the SHA-256 digest of a byte string.
pub uninterp spec fn sha256_digest(data: Seq<u8>) -> Seq<u8>;

/// Calls `sha2::Sha256::digest`. The contract ties the result to the input through the name
/// `sha256_digest` and states the 32-byte output size (`OutputSize = U32` in the crate); the
/// compression function is not stated.
#[verifier::external_body]
pub(crate) fn sha256(data: &[u8]) -> (r: Vec<u8>)
    ensures
        r@ == sha256_digest(data@),
        r@.len() == 32,
{
    sha2::Sha256::digest(data).to_vec()
}

/// Lower-case hexadecimal digit of a value below 16.
pub open spec fn hex_digit(v: nat) -> char {
    if v < 10 {
        (('0' as u32) + v) as char
    } else {
        (('a' as u32) + v - 10) as char
    }
}

/// Lower-case hexadecimal rendering of bytes, two digits per byte (what `{:x}` writes for a
/// digest).
pub open spec fn hex_lower(b: Seq<u8>) -> Seq<char>
    decreases b.len(),
{
    if b.len() == 0 {
        Seq::empty()
    } else {
        hex_lower(b.drop_last()) + seq![hex_digit((b.last() / 16) as nat), hex_digit((b.last() % 16) as nat)]
    }
}

fn hex_digit_char(v: u8) -> (c: char)
    requires
        v < 16,
    ensures
        c == hex_digit(v as nat),
{
    if v < 10 {
        char_from_ascii(('0' as u32) + (v as u32))
    } else {
        char_from_ascii(('a' as u32) + (v as u32) - 10)
    }
}

/// Lower-case hexadecimal rendering of bytes.
pub fn to_hex_lower(b: &[u8]) -> (r: String)
    ensures
        r@ == hex_lower(b@),
{
    let mut out = String::new();
    let mut i: usize = 0;
    while i < b.len()
        invariant
            i <= b@.len(),
            out@ == hex_lower(b@.take(i as int)),
        decreases b.len() - i,
    {
        let x = b[i];
        push_char(&mut out, hex_digit_char(x / 16));
        push_char(&mut out, hex_digit_char(x % 16));
        proof {
            assert(b@.take(i + 1).drop_last() =~= b@.take(i as int));
        }
        i = i + 1;
    }
    assert(b@.take(b@.len() as int) =~= b@);
    out
}

/// An optional field as it stands in the canonical text: trimmed, empty when absent.
pub open spec fn canon_opt(o: Option<String>) -> Seq<char> {
    match o {
        Some(s) => trim_seq(s@),
        None => Seq::empty(),
    }
}

/// The canonical text of every field that determines the outcome of a movement.
pub open spec fn canonical_request(input: PostMovementInput) -> Seq<char> {
    "branch_id="@ + trim_seq(input.branch_id@) + "|product_id="@ + trim_seq(input.product_id@)
        + "|variant_id="@ + canon_opt(input.variant_id) + "|location_id="@ + trim_seq(
        input.location_id@,
    ) + "|bin_id="@ + canon_opt(input.bin_id) + "|batch_id="@ + canon_opt(input.batch_id)
        + "|serial_id="@ + canon_opt(input.serial_id) + "|quantity_delta_milli="@ + int_decimal(
        input.quantity_delta_milli as int,
    ) + "|reason="@ + reason_code(input.reason@) + "|source_type="@ + canon_opt(input.source_type)
        + "|source_id="@ + canon_opt(input.source_id) + "|user_id="@ + canon_opt(input.user_id)
}

fn push_canon_opt(out: &mut String, o: &Option<String>)
    ensures
        final(out)@ == old(out)@ + canon_opt(*o),
{
    match o {
        Some(s) => push_str(out, trim(s.as_str())),
        None => {
            assert(old(out)@ + Seq::<char>::empty() =~= old(out)@);
        },
    }
}

/// The canonical text of a movement request.
pub fn canonical_request_text(input: &PostMovementInput) -> (r: String)
    ensures
        r@ == canonical_request(*input),
{
    let mut s = String::from_str("branch_id=");
    push_str(&mut s, trim(input.branch_id.as_str()));
    push_str(&mut s, "|product_id=");
    push_str(&mut s, trim(input.product_id.as_str()));
    push_str(&mut s, "|variant_id=");
    push_canon_opt(&mut s, &input.variant_id);
    push_str(&mut s, "|location_id=");
    push_str(&mut s, trim(input.location_id.as_str()));
    push_str(&mut s, "|bin_id=");
    push_canon_opt(&mut s, &input.bin_id);
    push_str(&mut s, "|batch_id=");
    push_canon_opt(&mut s, &input.batch_id);
    push_str(&mut s, "|serial_id=");
    push_canon_opt(&mut s, &input.serial_id);
    push_str(&mut s, "|quantity_delta_milli=");
    push_i64_decimal(&mut s, input.quantity_delta_milli);
    push_str(&mut s, "|reason=");
    push_str(&mut s, input.reason.as_str());
    push_str(&mut s, "|source_type=");
    push_canon_opt(&mut s, &input.source_type);
    push_str(&mut s, "|source_id=");
    push_canon_opt(&mut s, &input.source_id);
    push_str(&mut s, "|user_id=");
    push_canon_opt(&mut s, &input.user_id);
    s
}

/// The request fingerprint: lower-case hex SHA-256 of the canonical text's UTF-8 bytes.
pub open spec fn request_hash_spec(input: PostMovementInput) -> Seq<char> {
    hex_lower(sha256_digest(encode_utf8(canonical_request(input))))
}

/// Computes the canonical SHA-256 fingerprint of a movement request.
pub fn compute_request_hash(input: &PostMovementInput) -> (r: String)
    ensures
        r@ == request_hash_spec(*input),
        r@.len() == 64,
{
    let canonical = canonical_request_text(input);
    let digest = sha256(canonical.as_str().as_bytes());
    proof {
        lemma_hex_len(digest@);
    }
    to_hex_lower(digest.as_slice())
}

proof fn lemma_hex_len(b: Seq<u8>)
    ensures
        hex_lower(b).len() == 2 * b.len(),
    decreases b.len(),
{
    if b.len() > 0 {
        lemma_hex_len(b.drop_last());
    }
}

/// Requests that agree on every canonical field share one fingerprint, so a replay under the
/// same idempotency key is recognized.
pub proof fn lemma_same_canonical_same_hash(a: PostMovementInput, b: PostMovementInput)
    requires
        canonical_request(a) == canonical_request(b),
    ensures
        request_hash_spec(a) == request_hash_spec(b),
{
}

} // verus!
