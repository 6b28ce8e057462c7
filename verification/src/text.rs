//! Character-level text primitives shared by every validator of the library:
//! Unicode whitespace trimming, ASCII character classes, exact string
//! comparison and decimal rendering of integers.
use vstd::prelude::*;
use vstd::utf8::{encode_utf8, is_ascii_chars, is_ascii_chars_encode_utf8};

verus! {

/// The Unicode `White_Space` property, the set that `char::is_whitespace` tests.
pub open spec fn is_ws(c: char) -> bool {
    let u = c as u32;
    ||| (0x09 <= u && u <= 0x0D)
    ||| u == 0x20
    ||| u == 0x85
    ||| u == 0xA0
    ||| u == 0x1680
    ||| (0x2000 <= u && u <= 0x200A)
    ||| u == 0x2028
    ||| u == 0x2029
    ||| u == 0x202F
    ||| u == 0x205F
    ||| u == 0x3000
}

/// `s` without its leading whitespace.
pub open spec fn trim_start_seq(s: Seq<char>) -> Seq<char>
    decreases s.len(),
{
    if s.len() > 0 && is_ws(s[0]) {
        trim_start_seq(s.skip(1))
    } else {
        s
    }
}

/// `s` without its trailing whitespace.
pub open spec fn trim_end_seq(s: Seq<char>) -> Seq<char>
    decreases s.len(),
{
    if s.len() > 0 && is_ws(s.last()) {
        trim_end_seq(s.drop_last())
    } else {
        s
    }
}

/// `s` without leading and trailing whitespace (what `str::trim` returns).
pub open spec fn trim_seq(s: Seq<char>) -> Seq<char> {
    trim_end_seq(trim_start_seq(s))
}

/// Number of bytes of the UTF-8 encoding of `s` (what `str::len` returns).
pub open spec fn byte_len(s: Seq<char>) -> nat {
    encode_utf8(s).len()
}

pub open spec fn is_digit(c: char) -> bool {
    '0' <= c && c <= '9'
}

pub open spec fn is_upper(c: char) -> bool {
    'A' <= c && c <= 'Z'
}

pub open spec fn is_lower(c: char) -> bool {
    'a' <= c && c <= 'z'
}

pub open spec fn is_alnum(c: char) -> bool {
    is_digit(c) || is_upper(c) || is_lower(c)
}

/// ASCII and not an ASCII control character (0x00-0x1F, 0x7F).
pub open spec fn is_printable_ascii(c: char) -> bool {
    ' ' <= c && c <= '~'
}

pub open spec fn all_digits(s: Seq<char>) -> bool {
    forall|i: int| 0 <= i < s.len() ==> is_digit(#[trigger] s[i])
}

pub open spec fn all_upper(s: Seq<char>) -> bool {
    forall|i: int| 0 <= i < s.len() ==> is_upper(#[trigger] s[i])
}

pub open spec fn all_printable_ascii(s: Seq<char>) -> bool {
    forall|i: int| 0 <= i < s.len() ==> is_printable_ascii(#[trigger] s[i])
}

pub open spec fn has_char(s: Seq<char>, c: char) -> bool {
    exists|i: int| 0 <= i < s.len() && s[i] == c
}

pub open spec fn has_ws(s: Seq<char>) -> bool {
    exists|i: int| 0 <= i < s.len() && is_ws(#[trigger] s[i])
}

/// Numeric value of a decimal digit character.
pub open spec fn digit_value(c: char) -> nat {
    ((c as u32) - ('0' as u32)) as nat
}

/// ASCII lower-casing of one character (what `char::to_ascii_lowercase` returns).
pub open spec fn ascii_lower(c: char) -> char {
    if is_upper(c) {
        ((c as u32) + 32) as char
    } else {
        c
    }
}

/// ASCII upper-casing of one character (what `char::to_ascii_uppercase` returns).
pub open spec fn ascii_upper(c: char) -> char {
    if is_lower(c) {
        ((c as u32) - 32) as char
    } else {
        c
    }
}

pub open spec fn ascii_lower_seq(s: Seq<char>) -> Seq<char> {
    s.map_values(|c: char| ascii_lower(c))
}

pub open spec fn ascii_upper_seq(s: Seq<char>) -> Seq<char> {
    s.map_values(|c: char| ascii_upper(c))
}

/// Decimal digits of a natural number, most significant first, no leading zeros ("0" for 0).
pub open spec fn nat_digits(n: nat) -> Seq<char>
    decreases n,
{
    if n < 10 {
        seq![(('0' as u32) + n) as char]
    } else {
        nat_digits(n / 10).push((('0' as u32) + (n % 10)) as char)
    }
}

/// Decimal rendering of an integer as `i64::to_string` writes it.
pub open spec fn int_decimal(i: int) -> Seq<char> {
    if i < 0 {
        seq!['-'] + nat_digits((-i) as nat)
    } else {
        nat_digits(i as nat)
    }
}

/// A digit string is its own trim, and is ASCII.
pub proof fn lemma_digits_trimmed(s: Seq<char>)
    requires
        all_digits(s),
    ensures
        trim_seq(s) == s,
        is_ascii_chars(s),
        byte_len(s) == s.len(),
{
    if s.len() > 0 {
        assert(is_digit(s[0]));
        assert(is_digit(s.last()));
    }
    assert(trim_start_seq(s) == s);
    assert(is_ascii_chars(s)) by {
        assert forall|i: int| 0 <= i < s.len() implies '\0' <= #[trigger] s[i] <= '\u{7f}' by {
            assert(is_digit(s[i]));
        }
    }
    is_ascii_chars_encode_utf8(s);
}

/// The characters of `s`, collected into a vector.
pub fn chars_of(s: &str) -> (v: Vec<char>)
    ensures
        v@ == s@,
{
    let mut v: Vec<char> = Vec::new();
    for c in it: s.chars()
        invariant
            v@ == it.seq().take(it.index() as int),
    {
        v.push(c);
    }
    v
}

pub fn is_ws_char(c: char) -> (r: bool)
    ensures
        r == is_ws(c),
{
    let u = c as u32;
    (0x09 <= u && u <= 0x0D) || u == 0x20 || u == 0x85 || u == 0xA0 || u == 0x1680 || (0x2000
        <= u && u <= 0x200A) || u == 0x2028 || u == 0x2029 || u == 0x202F || u == 0x205F || u
        == 0x3000
}

proof fn lemma_trim_start_step(s: Seq<char>, i: int)
    requires
        0 <= i < s.len(),
        is_ws(s[i]),
    ensures
        trim_start_seq(s.skip(i)) == trim_start_seq(s.skip(i + 1)),
{
    assert(s.skip(i).skip(1) =~= s.skip(i + 1));
}

proof fn lemma_trim_end_step(s: Seq<char>, j: int)
    requires
        0 < j <= s.len(),
        is_ws(s[j - 1]),
    ensures
        trim_end_seq(s.take(j)) == trim_end_seq(s.take(j - 1)),
{
    assert(s.take(j).drop_last() =~= s.take(j - 1));
}

/// `s` without leading and trailing Unicode whitespace.
pub fn trim(s: &str) -> (r: &str)
    ensures
        r@ == trim_seq(s@),
{
    let v = chars_of(s);
    let n = v.len();
    let mut i: usize = 0;
    assert(s@.skip(0) =~= s@);
    while i < n && is_ws_char(v[i])
        invariant
            v@ == s@,
            n == v@.len(),
            i <= n,
            trim_start_seq(s@) == trim_start_seq(s@.skip(i as int)),
        decreases n - i,
    {
        proof {
            lemma_trim_start_step(s@, i as int);
        }
        i = i + 1;
    }
    let ghost t = s@.skip(i as int);
    assert(trim_start_seq(s@) == t) by {
        if i == n {
            assert(t.len() == 0);
        }
    }
    let mut j: usize = n;
    assert(t.take(n - i) =~= t);
    while j > i && is_ws_char(v[j - 1])
        invariant
            v@ == s@,
            n == v@.len(),
            i <= j <= n,
            t == s@.skip(i as int),
            trim_end_seq(t) == trim_end_seq(t.take(j - i)),
        decreases j,
    {
        proof {
            lemma_trim_end_step(t, (j - i) as int);
        }
        j = j - 1;
    }
    assert(trim_end_seq(t) == t.take(j - i));
    assert(t.take(j - i) =~= s@.subrange(i as int, j as int));
    s.substring_char(i, j)
}

/// Exact equality of two strings, character by character.
pub fn str_eq(a: &str, b: &str) -> (r: bool)
    ensures
        r == (a@ == b@),
{
    let va = chars_of(a);
    let vb = chars_of(b);
    if va.len() != vb.len() {
        return false;
    }
    let mut i: usize = 0;
    while i < va.len()
        invariant
            va@ == a@,
            vb@ == b@,
            va@.len() == vb@.len(),
            i <= va@.len(),
            forall|k: int| 0 <= k < i ==> va@[k] == vb@[k],
        decreases va.len() - i,
    {
        if va[i] != vb[i] {
            return false;
        }
        i = i + 1;
    }
    assert(va@ =~= vb@);
    true
}

/// Whether `s` begins with `prefix`.
pub fn starts_with(s: &str, prefix: &str) -> (r: bool)
    ensures
        r == (prefix@.len() <= s@.len() && s@.take(prefix@.len() as int) == prefix@),
{
    let vs = chars_of(s);
    let vp = chars_of(prefix);
    if vp.len() > vs.len() {
        return false;
    }
    let mut i: usize = 0;
    while i < vp.len()
        invariant
            vs@ == s@,
            vp@ == prefix@,
            vp@.len() <= vs@.len(),
            i <= vp@.len(),
            forall|k: int| 0 <= k < i ==> vs@[k] == vp@[k],
        decreases vp.len() - i,
    {
        if vs[i] != vp[i] {
            assert(s@.take(prefix@.len() as int)[i as int] != prefix@[i as int]);
            return false;
        }
        i = i + 1;
    }
    assert(s@.take(prefix@.len() as int) =~= prefix@);
    true
}

/// Whether the character `c` occurs in `s`.
pub fn contains_char(s: &str, c: char) -> (r: bool)
    ensures
        r == has_char(s@, c),
{
    let v = chars_of(s);
    let mut i: usize = 0;
    while i < v.len()
        invariant
            v@ == s@,
            i <= v@.len(),
            forall|k: int| 0 <= k < i ==> v@[k] != c,
        decreases v.len() - i,
    {
        if v[i] == c {
            return true;
        }
        i = i + 1;
    }
    false
}

/// Whether `s` contains a Unicode whitespace character.
pub fn contains_ws(s: &str) -> (r: bool)
    ensures
        r == has_ws(s@),
{
    let v = chars_of(s);
    let mut i: usize = 0;
    while i < v.len()
        invariant
            v@ == s@,
            i <= v@.len(),
            forall|k: int| 0 <= k < i ==> !is_ws(v@[k]),
        decreases v.len() - i,
    {
        if is_ws_char(v[i]) {
            return true;
        }
        i = i + 1;
    }
    false
}

/// Whether every character of `s` is a decimal digit.
pub fn is_all_digits(s: &str) -> (r: bool)
    ensures
        r == all_digits(s@),
{
    let v = chars_of(s);
    let mut i: usize = 0;
    while i < v.len()
        invariant
            v@ == s@,
            i <= v@.len(),
            forall|k: int| 0 <= k < i ==> is_digit(v@[k]),
        decreases v.len() - i,
    {
        if !(v[i] >= '0' && v[i] <= '9') {
            return false;
        }
        i = i + 1;
    }
    true
}

/// Number of characters (Unicode scalar values) of `s`.
pub fn char_count(s: &str) -> (n: usize)
    ensures
        n == s@.len(),
{
    s.unicode_len()
}

/// Number of bytes of the UTF-8 encoding of `s`.
pub fn utf8_len(s: &str) -> (n: usize)
    ensures
        n == byte_len(s@),
{
    s.as_bytes().len()
}

/// An owned copy of `s`.
pub fn owned(s: &str) -> (r: String)
    ensures
        r@ == s@,
{
    String::from_str(s)
}

/// Calls `String::push`, which appends the character `c` at the end of `s`.
#[verifier::external_body]
pub(crate) fn push_char(s: &mut String, c: char)
    ensures
        final(s)@ == old(s)@.push(c),
{
    s.push(c);
}

/// Appends a string slice to `s`.
pub fn push_str(s: &mut String, t: &str)
    ensures
        final(s)@ == old(s)@ + t@,
{
    s.append(t);
}

} // verus!

verus! {

/// Names the full Unicode upper-casing that `str::to_uppercase` performs.
pub uninterp spec fn unicode_upper(s: Seq<char>) -> Seq<char>;

/// Names the full Unicode lower-casing that `str::to_lowercase` performs.
pub uninterp spec fn unicode_lower(s: Seq<char>) -> Seq<char>;

/// Calls `str::to_uppercase`. The contract only ties the result to the input
/// through the name `unicode_upper`; what the Unicode case tables map each
/// character to is not stated.
#[verifier::external_body]
pub(crate) fn to_uppercase(s: &str) -> (r: String)
    ensures
        r@ == unicode_upper(s@),
{
    s.to_uppercase()
}

/// Calls `str::to_lowercase`. The contract only ties the result to the input
/// through the name `unicode_lower`; what the Unicode case tables map each
/// character to is not stated.
#[verifier::external_body]
pub(crate) fn to_lowercase(s: &str) -> (r: String)
    ensures
        r@ == unicode_lower(s@),
{
    s.to_lowercase()
}

} // verus!

verus! {

proof fn lemma_nat_digits_step(n: nat)
    requires
        n >= 10,
    ensures
        nat_digits(n) == nat_digits(n / 10).push((('0' as u32) + (n % 10)) as char),
{
}

/// The decimal digit character of `d` (`d < 10`).
pub fn digit_char(d: u64) -> (c: char)
    requires
        d < 10,
    ensures
        c == (('0' as u32) + d) as char,
        is_digit(c),
{
    let u: u32 = ('0' as u32) + (d as u32);
    proof {
        assert(0x30 <= u <= 0x39);
    }
    char_from_ascii(u)
}

/// The character of an ASCII code point.
pub fn char_from_ascii(u: u32) -> (c: char)
    requires
        u < 0x80,
    ensures
        c == u as char,
        c as u32 == u,
{
    let b: u8 = u as u8;
    b as char
}

/// Appends the decimal digits of `n` to `out`.
pub fn push_decimal(out: &mut String, n: u64)
    ensures
        final(out)@ == old(out)@ + nat_digits(n as nat),
    decreases n,
{
    if n >= 10 {
        push_decimal(out, n / 10);
    }
    let c = digit_char(n % 10);
    push_char(out, c);
    proof {
        if n >= 10 {
            lemma_nat_digits_step(n as nat);
        }
    }
    assert(out@ =~= old(out)@ + nat_digits(n as nat));
}

/// Decimal rendering of a signed value (what `i64::to_string` returns).
pub fn push_i64_decimal(out: &mut String, v: i64)
    ensures
        final(out)@ == old(out)@ + int_decimal(v as int),
{
    if v < 0 {
        push_char(out, '-');
        let m: u64 = if v == i64::MIN { 9223372036854775808u64 } else { (-v) as u64 };
        push_decimal(out, m);
    } else {
        push_decimal(out, v as u64);
    }
    assert(out@ =~= old(out)@ + int_decimal(v as int));
}


/// Value of a string of decimal digits, most significant first (0 for the empty string).
pub open spec fn decimal_value(s: Seq<char>) -> nat
    decreases s.len(),
{
    if s.len() == 0 {
        0
    } else {
        decimal_value(s.drop_last()) * 10 + digit_value(s.last())
    }
}

/// `n` copies of the character `c`.
pub open spec fn repeat_char(c: char, n: nat) -> Seq<char> {
    Seq::new(n, |i: int| c)
}

/// `digits` left-padded with zeros to `width` characters (unchanged when already as wide).
pub open spec fn zero_pad(digits: Seq<char>, width: nat) -> Seq<char> {
    if digits.len() < width {
        repeat_char('0', (width - digits.len()) as nat) + digits
    } else {
        digits
    }
}

/// Number of decimal digits of `n` (1 for 0).
pub fn decimal_width(n: u64) -> (w: usize)
    ensures
        w == nat_digits(n as nat).len(),
        1 <= w <= 20,
    decreases n,
{
    proof {
        lemma_pow10_values();
        lemma_nat_digits_len(n as nat, 20);
    }
    if n < 10 {
        1
    } else {
        decimal_width(n / 10) + 1
    }
}

proof fn lemma_nat_digits_len(n: nat, k: nat)
    requires
        1 <= k,
        n < pow10(k),
    ensures
        1 <= nat_digits(n).len() <= k,
    decreases n,
{
    if n >= 10 {
        assert(pow10(0) == 1);
        assert(k >= 2);
        lemma_nat_digits_len(n / 10, (k - 1) as nat);
    }
}

/// Appends `n` in decimal, left-padded with zeros to `width` characters.
pub fn push_zero_padded(out: &mut String, n: u64, width: usize)
    requires
        width <= 64,
    ensures
        final(out)@ == old(out)@ + zero_pad(nat_digits(n as nat), width as nat),
{
    let w = decimal_width(n);
    let ghost start = out@;
    if w < width {
        let mut k: usize = 0;
        while k < width - w
            invariant
                w < width,
                k <= width - w,
                out@ == start + repeat_char('0', k as nat),
            decreases width - w - k,
        {
            push_char(out, '0');
            k = k + 1;
            assert(out@ =~= start + repeat_char('0', k as nat));
        }
    }
    let ghost mid = out@;
    push_decimal(out, n);
    assert(out@ =~= start + zero_pad(nat_digits(n as nat), width as nat));
}

/// ASCII upper-casing of every character of `s`.
pub fn to_ascii_upper(s: &str) -> (r: String)
    ensures
        r@ == ascii_upper_seq(s@),
{
    let v = chars_of(s);
    let mut out = String::new();
    let mut i: usize = 0;
    while i < v.len()
        invariant
            v@ == s@,
            i <= v@.len(),
            out@ == ascii_upper_seq(s@.take(i as int)),
        decreases v.len() - i,
    {
        let c = v[i];
        let u = if c >= 'a' && c <= 'z' { char_from_ascii((c as u32) - 32) } else { c };
        push_char(&mut out, u);
        assert(s@.take(i + 1) =~= s@.take(i as int).push(c));
        assert(ascii_upper_seq(s@.take(i + 1)) =~= ascii_upper_seq(s@.take(i as int)).push(u));
        i = i + 1;
    }
    assert(s@.take(v.len() as int) =~= s@);
    out
}

/// ASCII lower-casing of every character of `s`.
pub fn to_ascii_lower(s: &str) -> (r: String)
    ensures
        r@ == ascii_lower_seq(s@),
{
    let v = chars_of(s);
    let mut out = String::new();
    let mut i: usize = 0;
    while i < v.len()
        invariant
            v@ == s@,
            i <= v@.len(),
            out@ == ascii_lower_seq(s@.take(i as int)),
        decreases v.len() - i,
    {
        let c = v[i];
        let u = if c >= 'A' && c <= 'Z' { char_from_ascii((c as u32) + 32) } else { c };
        push_char(&mut out, u);
        assert(s@.take(i + 1) =~= s@.take(i as int).push(c));
        assert(ascii_lower_seq(s@.take(i + 1)) =~= ascii_lower_seq(s@.take(i as int)).push(u));
        i = i + 1;
    }
    assert(s@.take(v.len() as int) =~= s@);
    out
}

/// Value of a string of at most 18 decimal digits.
pub fn parse_decimal(s: &str) -> (n: u64)
    requires
        all_digits(s@),
        s@.len() <= 18,
    ensures
        n == decimal_value(s@),
{
    let v = chars_of(s);
    let mut acc: u64 = 0;
    let mut i: usize = 0;
    while i < v.len()
        invariant
            v@ == s@,
            all_digits(s@),
            s@.len() <= 18,
            i <= v@.len(),
            acc == decimal_value(s@.take(i as int)),
            acc < pow10(i as nat),
        decreases v.len() - i,
    {
        let d: u64 = ((v[i] as u32) - ('0' as u32)) as u64;
        assert(is_digit(s@[i as int]));
        proof {
            lemma_pow10_le(i as nat + 1, 18);
            lemma_pow10_values();
            lemma_pow10_step(i as nat);
            assert(acc * 10 + d < pow10(i as nat + 1)) by (nonlinear_arith)
                requires
                    acc < pow10(i as nat),
                    d < 10,
                    pow10(i as nat + 1) == pow10(i as nat) * 10,
            ;
            assert(s@.take(i + 1).drop_last() =~= s@.take(i as int));
        }
        acc = acc * 10 + d;
        i = i + 1;
    }
    assert(s@.take(v.len() as int) =~= s@);
    acc
}

/// Ten to the power `k`.
pub open spec fn pow10(k: nat) -> nat
    decreases k,
{
    if k == 0 {
        1
    } else {
        10 * pow10((k - 1) as nat)
    }
}

proof fn lemma_pow10_values()
    ensures
        pow10(18) == 1_000_000_000_000_000_000,
        pow10(20) == 100_000_000_000_000_000_000,
{
    reveal_with_fuel(pow10, 21);
}

proof fn lemma_pow10_step(k: nat)
    ensures
        pow10(k + 1) == pow10(k) * 10,
{
}

proof fn lemma_pow10_le(a: nat, b: nat)
    requires
        a <= b,
        b <= 18,
    ensures
        pow10(a) <= pow10(b),
    decreases b,
{
    if b > 0 {
        if a <= b - 1 {
            lemma_pow10_le(a, (b - 1) as nat);
        } else {
            lemma_pow10_le((b - 1) as nat, (b - 1) as nat);
        }
    }
}


/// Whether `needle` occurs in `hay` as a contiguous run of characters.
pub open spec fn contains_seq(hay: Seq<char>, needle: Seq<char>) -> bool {
    exists|i: int| 0 <= i && i + needle.len() <= hay.len() && #[trigger] hay.subrange(i, i + needle.len()) == needle
}

/// Whether `needle` occurs in `hay` (what `str::contains` with a string pattern returns).
pub fn contains_str(hay: &str, needle: &str) -> (r: bool)
    ensures
        r == contains_seq(hay@, needle@),
{
    let h = chars_of(hay);
    let n = chars_of(needle);
    if n.len() > h.len() {
        return false;
    }
    let hl: usize = h.len();
    let last: usize = hl - n.len();
    let mut i: usize = 0;
    while i <= last
        invariant
            h@ == hay@,
            n@ == needle@,
            n@.len() <= h@.len(),
            last == h@.len() - n@.len(),
            hl == h@.len(),
            i <= last + 1,
            forall|k: int| 0 <= k < i ==> #[trigger] hay@.subrange(k, k + needle@.len()) != needle@,
        decreases last + 1 - i,
    {
        let mut j: usize = 0;
        let mut same = true;
        while j < n.len()
            invariant
                h@ == hay@,
                n@ == needle@,
                i + n@.len() <= h@.len(),
                hl == h@.len(),
                j <= n@.len(),
                same == (forall|k: int| 0 <= k < j ==> h@[i + k] == n@[k]),
            decreases n.len() - j,
        {
            if h[i + j] != n[j] {
                same = false;
            }
            j = j + 1;
        }
        if same {
            assert(hay@.subrange(i as int, i + needle@.len()) =~= needle@);
            return true;
        }
        proof {
            let k0 = choose|k: int| 0 <= k < n@.len() && h@[i + k] != n@[k];
            assert(hay@.subrange(i as int, i + needle@.len())[k0] != needle@[k0]);
        }
        i = i + 1;
    }
    proof {
        assert forall|k: int| 0 <= k && k + needle@.len() <= hay@.len() implies #[trigger] hay@.subrange(k, k + needle@.len()) != needle@ by {
            assert(k < i);
        }
    }
    false
}

/// The longest prefix of `s` without a character of `stop`.
pub open spec fn take_until(s: Seq<char>, stop: Seq<char>) -> Seq<char>
    decreases s.len(),
{
    if s.len() == 0 {
        s
    } else if has_char(stop, s[0]) {
        Seq::empty()
    } else {
        seq![s[0]] + take_until(s.skip(1), stop)
    }
}

proof fn lemma_take_until_step(s: Seq<char>, stop: Seq<char>, i: int)
    requires
        0 <= i < s.len(),
        forall|k: int| 0 <= k < i ==> !has_char(stop, #[trigger] s[k]),
    ensures
        has_char(stop, s[i]) ==> take_until(s, stop) == s.take(i),
        !has_char(stop, s[i]) ==> (forall|k: int| 0 <= k < i + 1 ==> !has_char(stop, #[trigger] s[k])),
    decreases i,
{
    if i > 0 {
        lemma_take_until_step(s.skip(1), stop, i - 1);
        assert(s.skip(1).take(i - 1) =~= s.take(i).skip(1));
        assert(seq![s[0]] + s.take(i).skip(1) =~= s.take(i));
    } else {
        if has_char(stop, s[0]) {
            assert(s.take(0) =~= Seq::<char>::empty());
        }
    }
}

proof fn lemma_take_until_all(s: Seq<char>, stop: Seq<char>)
    requires
        forall|k: int| 0 <= k < s.len() ==> !has_char(stop, #[trigger] s[k]),
    ensures
        take_until(s, stop) == s,
    decreases s.len(),
{
    if s.len() > 0 {
        assert forall|k: int| 0 <= k < s.skip(1).len() implies !has_char(stop, #[trigger] s.skip(1)[k]) by {
            assert(s.skip(1)[k] == s[k + 1]);
        }
        lemma_take_until_all(s.skip(1), stop);
        assert(seq![s[0]] + s.skip(1) =~= s);
    }
}

/// Index of the first character of `s` that occurs in `set` (the length of `s` when none does).
pub fn index_of_any(s: &str, set: &str) -> (i: usize)
    ensures
        i <= s@.len(),
        s@.take(i as int) == take_until(s@, set@),
        i < s@.len() ==> has_char(set@, s@[i as int]),
        forall|k: int| 0 <= k < i ==> !has_char(set@, #[trigger] s@[k]),
{
    let v = chars_of(s);
    let mut i: usize = 0;
    while i < v.len()
        invariant
            v@ == s@,
            i <= v@.len(),
            forall|k: int| 0 <= k < i ==> !has_char(set@, #[trigger] s@[k]),
        decreases v.len() - i,
    {
        if contains_char(set, v[i]) {
            proof {
                lemma_take_until_step(s@, set@, i as int);
            }
            return i;
        }
        proof {
            lemma_take_until_step(s@, set@, i as int);
        }
        i = i + 1;
    }
    proof {
        lemma_take_until_all(s@, set@);
        assert(s@.take(i as int) =~= s@);
    }
    i
}


/// The concatenation of two strings.
pub fn concat2(a: &str, b: &str) -> (r: String)
    ensures
        r@ == a@ + b@,
{
    let mut r = owned(a);
    push_str(&mut r, b);
    r
}

/// The concatenation of three strings.
pub fn concat3(a: &str, b: &str, c: &str) -> (r: String)
    ensures
        r@ == a@ + b@ + c@,
{
    let mut r = owned(a);
    push_str(&mut r, b);
    push_str(&mut r, c);
    r
}

/// The concatenation of five strings.
pub fn concat5(a: &str, b: &str, c: &str, d: &str, e: &str) -> (r: String)
    ensures
        r@ == a@ + b@ + c@ + d@ + e@,
{
    let mut r = owned(a);
    push_str(&mut r, b);
    push_str(&mut r, c);
    push_str(&mut r, d);
    push_str(&mut r, e);
    r
}

/// The concatenation of seven strings.
pub fn concat7(a: &str, b: &str, c: &str, d: &str, e: &str, f: &str, g: &str) -> (r: String)
    ensures
        r@ == a@ + b@ + c@ + d@ + e@ + f@ + g@,
{
    let mut r = owned(a);
    push_str(&mut r, b);
    push_str(&mut r, c);
    push_str(&mut r, d);
    push_str(&mut r, e);
    push_str(&mut r, f);
    push_str(&mut r, g);
    r
}

/// `s` trimmed, or `None` when absent or blank.
pub open spec fn norm_opt(o: Option<Seq<char>>) -> Option<Seq<char>> {
    match o {
        Some(s) => if trim_seq(s).len() == 0 {
            None
        } else {
            Some(trim_seq(s))
        },
        None => None,
    }
}

pub open spec fn opt_str_view(o: Option<&str>) -> Option<Seq<char>> {
    match o {
        Some(s) => Some(s@),
        None => None,
    }
}

pub open spec fn opt_string_view(o: Option<String>) -> Option<Seq<char>> {
    match o {
        Some(s) => Some(s@),
        None => None,
    }
}

/// An optional identifier trimmed, absent when blank.
pub fn normalize_optional(o: &Option<String>) -> (r: Option<String>)
    ensures
        opt_string_view(r) == norm_opt(opt_string_view(*o)),
{
    match o {
        Some(s) => {
            let t = trim(s.as_str());
            if char_count(t) == 0 {
                None
            } else {
                Some(owned(t))
            }
        },
        None => None,
    }
}

/// A borrowed view of an optional string.
pub fn as_opt_str(o: &Option<String>) -> (r: Option<&str>)
    ensures
        opt_str_view(r) == opt_string_view(*o),
{
    match o {
        Some(s) => Some(s.as_str()),
        None => None,
    }
}

/// Equality of optional strings.
pub fn opt_str_eq(a: Option<&str>, b: Option<&str>) -> (r: bool)
    ensures
        r == (opt_str_view(a) == opt_str_view(b)),
{
    match (a, b) {
        (Some(x), Some(y)) => str_eq(x, y),
        (None, None) => true,
        _ => false,
    }
}

/// Names what `{:?}` renders for an optional string: `None`, or `Some("...")` with the
/// string's escapes.
pub uninterp spec fn debug_option_str(o: Option<Seq<char>>) -> Seq<char>;

/// Calls `format!("{:?}", o)`. The contract only ties the result to `o` through the name
/// `debug_option_str`; the escaping rules of `Debug` are not stated.
#[verifier::external_body]
pub(crate) fn debug_option(o: Option<&str>) -> (r: String)
    ensures
        r@ == debug_option_str(opt_str_view(o)),
{
    format!("{:?}", o)
}


proof fn lemma_trim_start_shape(s: Seq<char>)
    ensures
        trim_start_seq(s).len() == 0 || !is_ws(trim_start_seq(s)[0]),
    decreases s.len(),
{
    if s.len() > 0 && is_ws(s[0]) {
        lemma_trim_start_shape(s.skip(1));
    }
}

proof fn lemma_trim_end_shape(s: Seq<char>)
    ensures
        trim_end_seq(s).len() <= s.len(),
        trim_end_seq(s) == s.take(trim_end_seq(s).len() as int),
        trim_end_seq(s).len() == 0 || !is_ws(trim_end_seq(s).last()),
    decreases s.len(),
{
    if s.len() > 0 && is_ws(s.last()) {
        lemma_trim_end_shape(s.drop_last());
        assert(s.drop_last().take(trim_end_seq(s).len() as int) =~= s.take(trim_end_seq(s).len() as int));
    } else {
        assert(s.take(s.len() as int) =~= s);
    }
}

/// Trimming is idempotent.
pub proof fn lemma_trim_idempotent(s: Seq<char>)
    ensures
        trim_seq(trim_seq(s)) == trim_seq(s),
{
    let r = trim_start_seq(s);
    lemma_trim_start_shape(s);
    lemma_trim_end_shape(r);
    let t = trim_end_seq(r);
    if t.len() > 0 {
        assert(t[0] == r[0]);
        assert(trim_start_seq(t) == t);
        assert(trim_end_seq(t) == t);
    } else {
        assert(trim_start_seq(t) == t);
    }
}

/// A character of a lower-case code: an ASCII lower-case letter or `_`.
pub open spec fn is_code_char(c: char) -> bool {
    is_lower(c) || c == '_'
}

/// A lower-case code: one or more ASCII lower-case letters and underscores.
pub open spec fn is_lower_code(s: Seq<char>) -> bool {
    s.len() > 0 && forall|i: int| 0 <= i < s.len() ==> is_code_char(#[trigger] s[i])
}

proof fn lemma_trim_start_pad(pre: Seq<char>, rest: Seq<char>)
    requires
        forall|i: int| 0 <= i < pre.len() ==> is_ws(#[trigger] pre[i]),
        rest.len() > 0,
        !is_ws(rest[0]),
    ensures
        trim_start_seq(pre + rest) == rest,
    decreases pre.len(),
{
    if pre.len() == 0 {
        assert(pre + rest =~= rest);
    } else {
        assert((pre + rest)[0] == pre[0]);
        assert((pre + rest).skip(1) =~= pre.skip(1) + rest);
        assert forall|i: int| 0 <= i < pre.skip(1).len() implies is_ws(#[trigger] pre.skip(1)[i]) by {
            assert(pre.skip(1)[i] == pre[i + 1]);
        }
        lemma_trim_start_pad(pre.skip(1), rest);
    }
}

proof fn lemma_trim_end_pad(x: Seq<char>, post: Seq<char>)
    requires
        forall|i: int| 0 <= i < post.len() ==> is_ws(#[trigger] post[i]),
        x.len() > 0,
        !is_ws(x.last()),
    ensures
        trim_end_seq(x + post) == x,
    decreases post.len(),
{
    if post.len() == 0 {
        assert(x + post =~= x);
    } else {
        assert((x + post).last() == post.last());
        assert((x + post).drop_last() =~= x + post.drop_last());
        assert forall|i: int| 0 <= i < post.drop_last().len() implies is_ws(#[trigger] post.drop_last()[i]) by {
            assert(post.drop_last()[i] == post[i]);
        }
        lemma_trim_end_pad(x, post.drop_last());
    }
}

/// Trimming removes exactly the whitespace padding around a text that neither starts nor
/// ends with whitespace.
pub proof fn lemma_trim_padded(pre: Seq<char>, x: Seq<char>, post: Seq<char>)
    requires
        forall|i: int| 0 <= i < pre.len() ==> is_ws(#[trigger] pre[i]),
        forall|i: int| 0 <= i < post.len() ==> is_ws(#[trigger] post[i]),
        x.len() > 0,
        !is_ws(x[0]),
        !is_ws(x.last()),
    ensures
        trim_seq(pre + x + post) == x,
{
    assert(pre + x + post =~= pre + (x + post));
    assert((x + post)[0] == x[0]);
    lemma_trim_start_pad(pre, x + post);
    lemma_trim_end_pad(x, post);
}

/// A lower-case code read back from its padded, ASCII upper-cased form, as the parsers of
/// stored codes read it (trimmed, then ASCII lower-cased), is the code itself; so is the
/// code read back as it is.
pub proof fn lemma_lower_code_read_back(pre: Seq<char>, code: Seq<char>, post: Seq<char>)
    requires
        is_lower_code(code),
        forall|i: int| 0 <= i < pre.len() ==> is_ws(#[trigger] pre[i]),
        forall|i: int| 0 <= i < post.len() ==> is_ws(#[trigger] post[i]),
    ensures
        ascii_lower_seq(trim_seq(pre + ascii_upper_seq(code) + post)) == code,
        ascii_lower_seq(trim_seq(pre + code + post)) == code,
{
    let up = ascii_upper_seq(code);
    assert forall|i: int| 0 <= i < code.len() implies !is_ws(#[trigger] code[i]) && !is_ws(up[i])
        && ascii_lower(up[i]) == code[i] && ascii_lower(code[i]) == code[i] by {
        assert(is_code_char(code[i]));
    }
    assert(!is_ws(up[0]) && !is_ws(up.last()));
    assert(!is_ws(code[0]) && !is_ws(code.last()));
    lemma_trim_padded(pre, up, post);
    lemma_trim_padded(pre, code, post);
    assert(ascii_lower_seq(up) =~= code);
    assert(ascii_lower_seq(code) =~= code);
}

} // verus!
