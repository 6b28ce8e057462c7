//! Batches and lots: lifecycle statuses, calendar-date rules, input checks and the
//! first-expire-first-out (FEFO) allocation plan.
use crate::text::{
    ascii_lower_seq, ascii_upper_seq, byte_len, char_count, chars_of, is_lower_code, is_ws,
    lemma_lower_code_read_back, lemma_trim_idempotent, nat_digits, owned, push_decimal, push_str, str_eq, to_ascii_lower,
    trim, trim_seq, utf8_len,
};
use vstd::prelude::*;
use vstd::utf8::encode_utf8;

verus! {

/// Lifecycle status of a batch; `Recalled` and `Depleted` are terminal.
#[derive(Debug, Clone, Copy, PartialEq, Eq, Hash, Structural)]
pub enum BatchStatus {
    Active,
    Quarantined,
    Recalled,
    Depleted,
}

/// The stored code of a batch status.
pub open spec fn batch_status_code(s: BatchStatus) -> Seq<char> {
    match s {
        BatchStatus::Active => "active"@,
        BatchStatus::Quarantined => "quarantined"@,
        BatchStatus::Recalled => "recalled"@,
        BatchStatus::Depleted => "depleted"@,
    }
}

/// The batch status an exact lower-case code names.
pub open spec fn batch_status_from_code(s: Seq<char>) -> Option<BatchStatus> {
    if s == "active"@ {
        Some(BatchStatus::Active)
    } else if s == "quarantined"@ {
        Some(BatchStatus::Quarantined)
    } else if s == "recalled"@ {
        Some(BatchStatus::Recalled)
    } else if s == "depleted"@ {
        Some(BatchStatus::Depleted)
    } else {
        None
    }
}

/// A batch of a product held at a branch.
#[derive(Debug, Clone, PartialEq, Eq)]
pub struct ProductBatch {
    pub id: String,
    pub product_id: String,
    pub branch_id: String,
    pub variant_id: Option<String>,
    pub batch_number: Option<String>,
    pub quantity_milli: i64,
    pub cost_price_minor: Option<i64>,
    pub status: BatchStatus,
    pub manufactured_date: Option<String>,
    pub expiry_date: Option<String>,
    pub received_at: String,
    pub created_at: String,
    pub updated_at: String,
}

/// Creation of a batch.
#[derive(Debug, Clone)]
pub struct CreateBatchInput {
    pub product_id: String,
    pub branch_id: String,
    pub variant_id: Option<String>,
    pub batch_number: String,
    pub quantity_milli: i64,
    pub cost_price_minor: Option<i64>,
    pub manufactured_date: Option<String>,
    pub expiry_date: Option<String>,
}

/// Status change of a batch.
#[derive(Debug, Clone)]
pub struct UpdateBatchStatusInput {
    pub batch_id: String,
    pub status: BatchStatus,
}

/// One batch of a FEFO allocation plan.
#[derive(Debug, Clone, PartialEq, Eq)]
pub struct FefoAllocationLine {
    pub batch_id: String,
    pub batch_number: Option<String>,
    pub expiry_date: String,
    pub allocated_quantity_milli: i64,
    pub remaining_batch_quantity_milli: i64,
}

/// A FEFO allocation plan for a requested quantity.
#[derive(Debug, Clone, PartialEq, Eq)]
pub struct FefoAllocationPlan {
    pub product_id: String,
    pub branch_id: String,
    pub variant_id: Option<String>,
    pub requested_quantity_milli: i64,
    pub allocated_quantity_milli: i64,
    pub shortfall_quantity_milli: i64,
    pub allocations: Vec<FefoAllocationLine>,
}

/// An allocatable batch, as the repository lists them in FEFO order (earliest expiry first).
#[derive(Debug, Clone, PartialEq, Eq)]
pub struct FefoCandidate {
    pub batch_id: String,
    pub batch_number: Option<String>,
    pub expiry_date: String,
    pub quantity_milli: i64,
}

/// Typed errors of batch operations.
#[derive(Debug, PartialEq, Eq)]
pub enum BatchError {
    Validation(String),
    IneligibleProduct(String),
    NotFound(String),
    DuplicateBatchNumber(String),
    InvalidStatusTransition(String),
    Database(String),
}

/// Mathematical image of a `BatchError`.
pub enum BatchFault {
    Validation(Seq<char>),
    IneligibleProduct(Seq<char>),
    NotFound(Seq<char>),
    DuplicateBatchNumber(Seq<char>),
    InvalidStatusTransition(Seq<char>),
    Database(Seq<char>),
}

impl View for BatchError {
    type V = BatchFault;

    open spec fn view(&self) -> BatchFault {
        match self {
            BatchError::Validation(m) => BatchFault::Validation(m@),
            BatchError::IneligibleProduct(m) => BatchFault::IneligibleProduct(m@),
            BatchError::NotFound(m) => BatchFault::NotFound(m@),
            BatchError::DuplicateBatchNumber(m) => BatchFault::DuplicateBatchNumber(m@),
            BatchError::InvalidStatusTransition(m) => BatchFault::InvalidStatusTransition(m@),
            BatchError::Database(m) => BatchFault::Database(m@),
        }
    }
}

/// The text a batch error is displayed with.
pub open spec fn batch_error_text(f: BatchFault) -> Seq<char> {
    match f {
        BatchFault::Validation(m) => "Validation error: "@ + m,
        BatchFault::IneligibleProduct(m) => "Ineligible product error: "@ + m,
        BatchFault::NotFound(m) => "Not found: "@ + m,
        BatchFault::DuplicateBatchNumber(m) => "Duplicate batch number: "@ + m,
        BatchFault::InvalidStatusTransition(m) => "Invalid status transition: "@ + m,
        BatchFault::Database(m) => "Database error: "@ + m,
    }
}

impl BatchError {
    /// The display text of this error.
    pub fn describe(&self) -> (r: String)
        ensures
            r@ == batch_error_text(self@),
    {
        match self {
            BatchError::Validation(m) => crate::text::concat2("Validation error: ", m.as_str()),
            BatchError::IneligibleProduct(m) => crate::text::concat2("Ineligible product error: ", m.as_str()),
            BatchError::NotFound(m) => crate::text::concat2("Not found: ", m.as_str()),
            BatchError::DuplicateBatchNumber(m) => crate::text::concat2("Duplicate batch number: ", m.as_str()),
            BatchError::InvalidStatusTransition(m) => crate::text::concat2("Invalid status transition: ", m.as_str()),
            BatchError::Database(m) => crate::text::concat2("Database error: ", m.as_str()),
        }
    }
}

/// Whether a result agrees with a specified outcome (success values compared by view).
pub open spec fn batch_agrees<T: View>(r: Result<T, BatchError>, s: Result<T::V, BatchFault>) -> bool {
    match s {
        Ok(v) => r matches Ok(x) && x@ == v,
        Err(f) => r matches Err(e) && e@ == f,
    }
}

impl BatchStatus {
    /// The stored lower-case code of this status.
    pub fn as_str(&self) -> (r: &'static str)
        ensures
            r@ == batch_status_code(*self),
    {
        match self {
            BatchStatus::Active => "active",
            BatchStatus::Quarantined => "quarantined",
            BatchStatus::Recalled => "recalled",
            BatchStatus::Depleted => "depleted",
        }
    }

    /// Parses a batch status code, ignoring surrounding whitespace and ASCII letter case.
    pub fn from_str(s: &str) -> (r: Result<Self, BatchError>)
        ensures
            match batch_status_from_code(ascii_lower_seq(trim_seq(s@))) {
                Some(st) => r == Ok::<BatchStatus, BatchError>(st),
                None => r matches Err(e) && e@ == BatchFault::Validation(
                    "Invalid batch status '"@ + ascii_lower_seq(trim_seq(s@))
                        + "'. Allowed: active, quarantined, recalled, depleted"@,
                ),
            },
    {
        let lower = to_ascii_lower(trim(s));
        let l = lower.as_str();
        if str_eq(l, "active") {
            Ok(BatchStatus::Active)
        } else if str_eq(l, "quarantined") {
            Ok(BatchStatus::Quarantined)
        } else if str_eq(l, "recalled") {
            Ok(BatchStatus::Recalled)
        } else if str_eq(l, "depleted") {
            Ok(BatchStatus::Depleted)
        } else {
            let mut m = String::from_str("Invalid batch status '");
            push_str(&mut m, l);
            push_str(&mut m, "'. Allowed: active, quarantined, recalled, depleted");
            Err(BatchError::Validation(m))
        }
    }
}

/// Every batch status code parses back to its status.
pub proof fn lemma_batch_status_code_round_trip(s: BatchStatus)
    ensures
        batch_status_from_code(batch_status_code(s)) == Some(s),
{
    reveal_strlit("active");
    reveal_strlit("quarantined");
    reveal_strlit("recalled");
    reveal_strlit("depleted");
    assert("active"@.len() == 6 && "quarantined"@.len() == 11);
    assert("recalled"@.len() == 8 && "depleted"@.len() == 8);
    if s == BatchStatus::Depleted {
        assert("depleted"@[0] != "recalled"@[0]);
    }
}

/// A status code is read back as its status also when padded with whitespace or written
/// in ASCII upper case, as `BatchStatus::from_str` reads it.
pub proof fn lemma_batch_status_read_back(s: BatchStatus, pre: Seq<char>, post: Seq<char>)
    requires
        forall|i: int| 0 <= i < pre.len() ==> is_ws(#[trigger] pre[i]),
        forall|i: int| 0 <= i < post.len() ==> is_ws(#[trigger] post[i]),
    ensures
        batch_status_from_code(ascii_lower_seq(trim_seq(pre + batch_status_code(s) + post))) == Some(s),
        batch_status_from_code(ascii_lower_seq(trim_seq(pre + ascii_upper_seq(batch_status_code(s)) + post)))
            == Some(s),
{
    reveal_strlit("active");
    reveal_strlit("quarantined");
    reveal_strlit("recalled");
    reveal_strlit("depleted");
    assert(is_lower_code(batch_status_code(s)));
    lemma_lower_code_read_back(pre, batch_status_code(s), post);
    lemma_batch_status_code_round_trip(s);
}

// ---------------------------------------------------------------- calendar dates

/// Value of a string of ASCII decimal digit bytes.
pub open spec fn byte_decimal(d: Seq<u8>) -> nat
    decreases d.len(),
{
    if d.len() == 0 {
        0
    } else {
        byte_decimal(d.drop_last()) * 10 + (d.last() - 48) as nat
    }
}

pub open spec fn is_digit_byte(b: u8) -> bool {
    48 <= b && b <= 57
}

/// A date field read as a number: one or more ASCII digits and nothing else (no sign).
pub open spec fn parse_unsigned(b: Seq<u8>) -> Option<nat> {
    if b.len() == 0 || !all_digit_bytes(b) {
        None
    } else {
        Some(byte_decimal(b))
    }
}

pub open spec fn all_digit_bytes(d: Seq<u8>) -> bool {
    forall|i: int| 0 <= i < d.len() ==> is_digit_byte(#[trigger] d[i])
}

/// Gregorian leap year.
pub open spec fn is_leap_year(y: nat) -> bool {
    (y % 4 == 0 && y % 100 != 0) || y % 400 == 0
}

/// Number of days of month `m` (1-12) in year `y`.
pub open spec fn days_in_month(y: nat, m: nat) -> nat {
    if m == 1 || m == 3 || m == 5 || m == 7 || m == 8 || m == 10 || m == 12 {
        31
    } else if m == 2 {
        if is_leap_year(y) {
            29
        } else {
            28
        }
    } else {
        30
    }
}

pub open spec fn quoted_date(t: Seq<char>) -> Seq<char> {
    "date '"@ + t + "'"@
}

/// What `validate_iso_calendar_date` decides: a trimmed `YYYY-MM-DD` date, year in
/// 1900..=2999, month in 1..=12 and a day that exists in that month.
pub open spec fn iso_date_spec(s: Seq<char>) -> Result<(), BatchFault> {
    let t = trim_seq(s);
    let b = encode_utf8(t);
    if b.len() != 10 {
        Err(BatchFault::Validation("Date '"@ + t + "' must be exactly 10 characters in YYYY-MM-DD format"@))
    } else if b[4] != 45 || b[7] != 45 {
        Err(BatchFault::Validation("Date '"@ + t + "' must have hyphens at positions 5 and 8 (YYYY-MM-DD)"@))
    } else {
        match parse_unsigned(b.subrange(0, 4)) {
            None => Err(BatchFault::Validation("Invalid year in "@ + quoted_date(t))),
            Some(y) => match parse_unsigned(b.subrange(5, 7)) {
                None => Err(BatchFault::Validation("Invalid month in "@ + quoted_date(t))),
                Some(m) => match parse_unsigned(b.subrange(8, 10)) {
                    None => Err(BatchFault::Validation("Invalid day in "@ + quoted_date(t))),
                    Some(d) => if y < 1900 || y > 2999 {
                        Err(
                            BatchFault::Validation(
                                "Year "@ + nat_digits(y) + " in "@ + quoted_date(t)
                                    + " is outside permitted range [1900, 2999]"@,
                            ),
                        )
                    } else if m < 1 || m > 12 {
                        Err(
                            BatchFault::Validation(
                                "Month "@ + nat_digits(m) + " in "@ + quoted_date(t)
                                    + " must be between 1 and 12"@,
                            ),
                        )
                    } else if d < 1 || d > days_in_month(y, m) {
                        Err(
                            BatchFault::Validation(
                                "Day "@ + nat_digits(d) + " is invalid for month "@ + nat_digits(m)
                                    + " in year "@ + nat_digits(y) + " in "@ + quoted_date(t),
                            ),
                        )
                    } else {
                        Ok(())
                    },
                },
            },
        }
    }
}

proof fn lemma_byte_decimal_bound(d: Seq<u8>)
    requires
        forall|i: int| 0 <= i < d.len() ==> is_digit_byte(#[trigger] d[i]),
        d.len() <= 4,
    ensures
        byte_decimal(d) < 10000,
        d.len() <= 3 ==> byte_decimal(d) < 1000,
        d.len() <= 2 ==> byte_decimal(d) < 100,
        d.len() <= 1 ==> byte_decimal(d) < 10,
    decreases d.len(),
{
    if d.len() > 0 {
        assert(is_digit_byte(d[d.len() - 1]));
        lemma_byte_decimal_bound(d.drop_last());
    }
}

/// Reads bytes `b[from..to]` (at most four) as a number made of digits only.
fn parse_unsigned_bytes(b: &[u8], from: usize, to: usize) -> (r: Option<u32>)
    requires
        from <= to <= b@.len(),
        to - from <= 4,
    ensures
        match parse_unsigned(b@.subrange(from as int, to as int)) {
            Some(v) => r == Some(v as u32) && v < 10000,
            None => r is None,
        },
{
    let ghost whole = b@.subrange(from as int, to as int);
    let start = from;
    let ghost d = b@.subrange(start as int, to as int);
    assert(d =~= whole);
    if start == to {
        return None;
    }
    let mut acc: u32 = 0;
    let mut i = start;
    while i < to
        invariant
            from <= start <= i <= to <= b@.len(),
            to - start <= 4,
            d == b@.subrange(start as int, to as int),
            whole == b@.subrange(from as int, to as int),
            d == whole,
            forall|k: int| start <= k < i ==> is_digit_byte(#[trigger] b@[k]),
            acc == byte_decimal(b@.subrange(start as int, i as int)),
            acc < 10000,
        decreases to - i,
    {
        let c = b[i];
        if !(c >= 48u8 && c <= 57u8) {
            assert(!is_digit_byte(d[i - start]));
            return None;
        }
        proof {
            assert(b@.subrange(start as int, i + 1).drop_last() =~= b@.subrange(start as int, i as int));
            assert forall|k: int| 0 <= k < i + 1 - start implies is_digit_byte(
                #[trigger] b@.subrange(start as int, i + 1)[k],
            ) by {
                assert(b@.subrange(start as int, i + 1)[k] == b@[start + k]);
            }
            lemma_byte_decimal_bound(b@.subrange(start as int, i + 1));
        }
        acc = acc * 10 + ((c - 48u8) as u32);
        i = i + 1;
    }
    assert(d =~= b@.subrange(start as int, i as int));
    assert forall|k: int| 0 <= k < d.len() implies is_digit_byte(#[trigger] d[k]) by {
        assert(d[k] == b@[start + k]);
    }
    Some(acc)
}

fn push_quoted_date(m: &mut String, t: &str)
    ensures
        final(m)@ == old(m)@ + quoted_date(t@),
{
    push_str(m, "date '");
    push_str(m, t);
    push_str(m, "'");
    assert(m@ =~= old(m)@ + quoted_date(t@));
}

/// Validates a strict ISO-8601 calendar date `YYYY-MM-DD` (surrounding whitespace ignored),
/// leap years included.
pub fn validate_iso_calendar_date(s: &str) -> (r: Result<(), BatchError>)
    ensures
        batch_agrees(r, iso_date_spec(s@)),
{
    let t = trim(s);
    let b = t.as_bytes();
    if b.len() != 10 {
        let mut m = String::from_str("Date '");
        push_str(&mut m, t);
        push_str(&mut m, "' must be exactly 10 characters in YYYY-MM-DD format");
        return Err(BatchError::Validation(m));
    }
    if b[4] != 45u8 || b[7] != 45u8 {
        let mut m = String::from_str("Date '");
        push_str(&mut m, t);
        push_str(&mut m, "' must have hyphens at positions 5 and 8 (YYYY-MM-DD)");
        return Err(BatchError::Validation(m));
    }
    let year = match parse_unsigned_bytes(b, 0, 4) {
        Some(v) => v,
        None => {
            let mut m = String::from_str("Invalid year in ");
            push_quoted_date(&mut m, t);
            return Err(BatchError::Validation(m));
        },
    };
    let month = match parse_unsigned_bytes(b, 5, 7) {
        Some(v) => v,
        None => {
            let mut m = String::from_str("Invalid month in ");
            push_quoted_date(&mut m, t);
            return Err(BatchError::Validation(m));
        },
    };
    let day = match parse_unsigned_bytes(b, 8, 10) {
        Some(v) => v,
        None => {
            let mut m = String::from_str("Invalid day in ");
            push_quoted_date(&mut m, t);
            return Err(BatchError::Validation(m));
        },
    };
    if year < 1900 || year > 2999 {
        let mut m = String::from_str("Year ");
        push_decimal(&mut m, year as u64);
        push_str(&mut m, " in ");
        push_quoted_date(&mut m, t);
        push_str(&mut m, " is outside permitted range [1900, 2999]");
        return Err(BatchError::Validation(m));
    }
    if month < 1 || month > 12 {
        let mut m = String::from_str("Month ");
        push_decimal(&mut m, month as u64);
        push_str(&mut m, " in ");
        push_quoted_date(&mut m, t);
        push_str(&mut m, " must be between 1 and 12");
        return Err(BatchError::Validation(m));
    }
    let leap = (year % 4 == 0 && year % 100 != 0) || year % 400 == 0;
    let max_days: u32 = if month == 1 || month == 3 || month == 5 || month == 7 || month == 8
        || month == 10 || month == 12 {
        31
    } else if month == 2 {
        if leap {
            29
        } else {
            28
        }
    } else {
        30
    };
    if day < 1 || day > max_days {
        let mut m = String::from_str("Day ");
        push_decimal(&mut m, day as u64);
        push_str(&mut m, " is invalid for month ");
        push_decimal(&mut m, month as u64);
        push_str(&mut m, " in year ");
        push_decimal(&mut m, year as u64);
        push_str(&mut m, " in ");
        push_quoted_date(&mut m, t);
        return Err(BatchError::Validation(m));
    }
    Ok(())
}


// ---------------------------------------------------------------- batch input

/// What `validate_batch_number` decides: the trimmed number, 1 to 100 bytes.
pub open spec fn batch_number_spec(raw: Seq<char>) -> Result<Seq<char>, BatchFault> {
    let t = trim_seq(raw);
    if t.len() == 0 {
        Err(BatchFault::Validation("Batch number cannot be empty or whitespace"@))
    } else if byte_len(t) > 100 {
        Err(BatchFault::Validation("Batch number exceeds maximum length of 100 characters"@))
    } else {
        Ok(t)
    }
}

/// Trims and validates a batch or lot number.
pub fn validate_batch_number(raw: &str) -> (r: Result<String, BatchError>)
    ensures
        batch_agrees(r, batch_number_spec(raw@)),
{
    let t = trim(raw);
    if char_count(t) == 0 {
        return Err(
            BatchError::Validation(String::from_str("Batch number cannot be empty or whitespace")),
        );
    }
    if utf8_len(t) > 100 {
        return Err(
            BatchError::Validation(
                String::from_str("Batch number exceeds maximum length of 100 characters"),
            ),
        );
    }
    Ok(owned(t))
}

/// What `validate_batch_quantities` decides.
pub open spec fn batch_quantities_spec(quantity_milli: i64, cost_price_minor: Option<i64>) -> Result<(), BatchFault> {
    if quantity_milli < 0 {
        Err(BatchFault::Validation("Batch quantity cannot be negative"@))
    } else if cost_price_minor matches Some(c) && c < 0 {
        Err(BatchFault::Validation("Batch cost price cannot be negative"@))
    } else {
        Ok(())
    }
}

/// A batch quantity and its optional unit cost may not be negative.
pub fn validate_batch_quantities(quantity_milli: i64, cost_price_minor: Option<i64>) -> (r: Result<
    (),
    BatchError,
>)
    ensures
        batch_agrees(r, batch_quantities_spec(quantity_milli, cost_price_minor)),
{
    if quantity_milli < 0 {
        return Err(BatchError::Validation(String::from_str("Batch quantity cannot be negative")));
    }
    if let Some(c) = cost_price_minor {
        if c < 0 {
            return Err(
                BatchError::Validation(String::from_str("Batch cost price cannot be negative")),
            );
        }
    }
    Ok(())
}

/// The status a new batch starts in: depleted when created empty, active otherwise.
pub open spec fn initial_status_spec(quantity_milli: i64) -> BatchStatus {
    if quantity_milli == 0 {
        BatchStatus::Depleted
    } else {
        BatchStatus::Active
    }
}

/// The status a new batch starts in.
pub fn initial_batch_status(quantity_milli: i64) -> (r: BatchStatus)
    ensures
        r == initial_status_spec(quantity_milli),
{
    if quantity_milli == 0 {
        BatchStatus::Depleted
    } else {
        BatchStatus::Active
    }
}

/// Byte-wise lexicographic order (the order of `str`).
pub open spec fn bytes_lt(a: Seq<u8>, b: Seq<u8>) -> bool
    decreases a.len(),
{
    if a.len() == 0 {
        b.len() > 0
    } else if b.len() == 0 {
        false
    } else if a[0] != b[0] {
        a[0] < b[0]
    } else {
        bytes_lt(a.skip(1), b.skip(1))
    }
}

/// `bytes_lt` is irreflexive.
pub proof fn lemma_bytes_lt_irreflexive(a: Seq<u8>)
    ensures
        !bytes_lt(a, a),
    decreases a.len(),
{
    if a.len() > 0 {
        lemma_bytes_lt_irreflexive(a.skip(1));
    }
}

/// `bytes_lt` is transitive.
pub proof fn lemma_bytes_lt_transitive(a: Seq<u8>, b: Seq<u8>, c: Seq<u8>)
    requires
        bytes_lt(a, b),
        bytes_lt(b, c),
    ensures
        bytes_lt(a, c),
    decreases a.len(),
{
    if a.len() > 0 && b.len() > 0 && c.len() > 0 && a[0] == b[0] && b[0] == c[0] {
        lemma_bytes_lt_transitive(a.skip(1), b.skip(1), c.skip(1));
    }
}

/// Two different byte strings are ordered one way or the other.
pub proof fn lemma_bytes_lt_total(a: Seq<u8>, b: Seq<u8>)
    requires
        a != b,
    ensures
        bytes_lt(a, b) || bytes_lt(b, a),
    decreases a.len(),
{
    if a.len() > 0 && b.len() > 0 && a[0] == b[0] {
        if a.skip(1) == b.skip(1) {
            assert(a =~= seq![a[0]] + a.skip(1));
            assert(b =~= seq![b[0]] + b.skip(1));
        }
        lemma_bytes_lt_total(a.skip(1), b.skip(1));
    } else if a.len() == 0 && b.len() == 0 {
        assert(a =~= b);
    }
}

/// Whether `a` sorts strictly before `b`, as `str` compares them.
pub fn str_lt(a: &str, b: &str) -> (r: bool)
    ensures
        r == bytes_lt(encode_utf8(a@), encode_utf8(b@)),
{
    let x = a.as_bytes();
    let y = b.as_bytes();
    let mut i: usize = 0;
    assert(x@.skip(0) =~= x@);
    assert(y@.skip(0) =~= y@);
    while i < x.len() && i < y.len()
        invariant
            x@ == encode_utf8(a@),
            y@ == encode_utf8(b@),
            i <= x@.len(),
            i <= y@.len(),
            bytes_lt(x@, y@) == bytes_lt(x@.skip(i as int), y@.skip(i as int)),
        decreases x.len() - i,
    {
        if x[i] != y[i] {
            return x[i] < y[i];
        }
        proof {
            assert(x@.skip(i as int).skip(1) =~= x@.skip(i + 1));
            assert(y@.skip(i as int).skip(1) =~= y@.skip(i + 1));
        }
        i = i + 1;
    }
    i < y.len()
}

pub open spec fn opt_view(o: Option<&str>) -> Option<Seq<char>> {
    match o {
        Some(s) => Some(s@),
        None => None,
    }
}

pub open spec fn opt_string_view(o: Option<String>) -> Option<Seq<char>> {
    match o {
        Some(s) => Some(s@),
        None => None,
    }
}

/// The normalized expiry date of a new batch.
pub open spec fn expiry_spec(expiry_required: bool, expiry: Option<Seq<char>>) -> Result<Option<Seq<char>>, BatchFault> {
    let missing = Err(BatchFault::Validation("Expiry date is mandatory for this product"@));
    match expiry {
        Some(e) => if trim_seq(e).len() == 0 {
            if expiry_required {
                missing
            } else {
                Ok(None)
            }
        } else {
            match iso_date_spec(trim_seq(e)) {
                Err(f) => Err(f),
                Ok(_) => Ok(Some(trim_seq(e))),
            }
        },
        None => if expiry_required {
            missing
        } else {
            Ok(None)
        },
    }
}

/// What `normalize_batch_dates` decides: the normalized manufacturing and expiry dates.
pub open spec fn batch_dates_spec(
    expiry_required: bool,
    manufactured: Option<Seq<char>>,
    expiry: Option<Seq<char>>,
) -> Result<(Option<Seq<char>>, Option<Seq<char>>), BatchFault> {
    match expiry_spec(expiry_required, expiry) {
        Err(f) => Err(f),
        Ok(exp) => match manufactured {
            None => Ok((None, exp)),
            Some(m) => {
                let t = trim_seq(m);
                if t.len() == 0 {
                    Ok((None, exp))
                } else {
                    match iso_date_spec(t) {
                        Err(f) => Err(f),
                        Ok(_) => match exp {
                            Some(x) => if !bytes_lt(encode_utf8(t), encode_utf8(x)) {
                                Err(
                                    BatchFault::Validation(
                                        "Manufactured date '"@ + t + "' must be strictly before expiry date '"@
                                            + x + "'"@,
                                    ),
                                )
                            } else {
                                Ok((Some(t), exp))
                            },
                            None => Ok((Some(t), exp)),
                        },
                    }
                }
            },
        },
    }
}

/// Normalizes the dates of a new batch: the expiry date is validated and mandatory when the
/// product requires one; a manufacturing date is validated and must precede the expiry date.
pub fn normalize_batch_dates(
    expiry_required: bool,
    manufactured_date: Option<&str>,
    expiry_date: Option<&str>,
) -> (r: Result<(Option<String>, Option<String>), BatchError>)
    ensures
        match batch_dates_spec(expiry_required, opt_view(manufactured_date), opt_view(expiry_date)) {
            Ok((m, e)) => r matches Ok((rm, re)) && opt_string_view(rm) == m && opt_string_view(re)
                == e,
            Err(f) => r matches Err(x) && x@ == f,
        },
{
    let exp: Option<String> = match expiry_date {
        Some(e) => {
            let t = trim(e);
            if char_count(t) == 0 {
                if expiry_required {
                    return Err(
                        BatchError::Validation(
                            String::from_str("Expiry date is mandatory for this product"),
                        ),
                    );
                }
                None
            } else {
                match validate_iso_calendar_date(t) {
                    Err(x) => {
                        return Err(x);
                    },
                    Ok(()) => {},
                }
                Some(owned(t))
            }
        },
        None => {
            if expiry_required {
                return Err(
                    BatchError::Validation(String::from_str("Expiry date is mandatory for this product")),
                );
            }
            None
        },
    };
    let mfg: Option<String> = match manufactured_date {
        None => None,
        Some(m) => {
            let t = trim(m);
            if char_count(t) == 0 {
                None
            } else {
                match validate_iso_calendar_date(t) {
                    Err(x) => {
                        return Err(x);
                    },
                    Ok(()) => {},
                }
                match &exp {
                    Some(x) => {
                        if !str_lt(t, x.as_str()) {
                            let mut msg = String::from_str("Manufactured date '");
                            push_str(&mut msg, t);
                            push_str(&mut msg, "' must be strictly before expiry date '");
                            push_str(&mut msg, x.as_str());
                            push_str(&mut msg, "'");
                            return Err(BatchError::Validation(msg));
                        }
                    },
                    None => {},
                }
                Some(owned(t))
            }
        },
    };
    Ok((mfg, exp))
}

/// What `check_batch_variant` decides for a (trimmed) variant ID, from the parent product of
/// the live variant of that ID, if any.
pub open spec fn batch_variant_spec(
    product_id: Seq<char>,
    variant_id: Option<Seq<char>>,
    variant_parent: Option<Seq<char>>,
) -> Result<Option<Seq<char>>, BatchFault> {
    match variant_id {
        None => Ok(None),
        Some(v) => if trim_seq(v).len() == 0 {
            Ok(None)
        } else {
            match variant_parent {
                None => Err(
                    BatchFault::NotFound(
                        "Variant '"@ + trim_seq(v) + "' not found or is soft-deleted"@,
                    ),
                ),
                Some(p) => if p != product_id {
                    Err(
                        BatchFault::Validation(
                            "Variant '"@ + trim_seq(v) + "' belongs to product '"@ + p + "', not '"@
                                + product_id + "'"@,
                        ),
                    )
                } else {
                    Ok(Some(trim_seq(v)))
                },
            }
        },
    }
}

/// Checks the variant of a new batch against the parent product of the stored variant.
pub fn check_batch_variant(
    product_id: &str,
    variant_id: Option<&str>,
    variant_parent: Option<String>,
) -> (r: Result<Option<String>, BatchError>)
    ensures
        match batch_variant_spec(product_id@, opt_view(variant_id), opt_string_view(variant_parent)) {
            Ok(v) => r matches Ok(rv) && opt_string_view(rv) == v,
            Err(f) => r matches Err(x) && x@ == f,
        },
{
    let v = match variant_id {
        None => {
            return Ok(None);
        },
        Some(v) => trim(v),
    };
    if char_count(v) == 0 {
        return Ok(None);
    }
    match variant_parent {
        None => {
            let mut m = String::from_str("Variant '");
            push_str(&mut m, v);
            push_str(&mut m, "' not found or is soft-deleted");
            Err(BatchError::NotFound(m))
        },
        Some(p) => {
            if !str_eq(p.as_str(), product_id) {
                let mut m = String::from_str("Variant '");
                push_str(&mut m, v);
                push_str(&mut m, "' belongs to product '");
                push_str(&mut m, p.as_str());
                push_str(&mut m, "', not '");
                push_str(&mut m, product_id);
                push_str(&mut m, "'");
                return Err(BatchError::Validation(m));
            }
            Ok(Some(owned(v)))
        },
    }
}

/// The variant ID under which the variant of a new batch is looked up: the trimmed ID, or
/// none when it is absent or blank.
pub open spec fn variant_lookup_spec(variant_id: Option<Seq<char>>) -> Option<Seq<char>> {
    match variant_id {
        None => None,
        Some(v) => if trim_seq(v).len() == 0 {
            None
        } else {
            Some(trim_seq(v))
        },
    }
}

/// The trimmed variant ID to look up for a new batch, if one is given and not blank.
pub fn batch_variant_lookup(variant_id: Option<&str>) -> (r: Option<String>)
    ensures
        opt_string_view(r) == variant_lookup_spec(opt_view(variant_id)),
{
    match variant_id {
        None => None,
        Some(v) => {
            let t = trim(v);
            if char_count(t) == 0 {
                None
            } else {
                Some(owned(t))
            }
        },
    }
}

/// Refuses a new batch in a branch that does not exist.
pub fn check_batch_branch(branch_id: &str, branch_exists: bool) -> (r: Result<(), BatchError>)
    ensures
        branch_exists ==> r is Ok,
        !branch_exists ==> (r matches Err(e) && e@ == BatchFault::NotFound(
            "Branch '"@ + branch_id@ + "' not found"@,
        )),
{
    if !branch_exists {
        let mut m = String::from_str("Branch '");
        push_str(&mut m, branch_id);
        push_str(&mut m, "' not found");
        return Err(BatchError::NotFound(m));
    }
    Ok(())
}

/// Refuses a new batch of a product that is tracked neither by batch nor by lot.
pub fn check_batch_tracked(product_id: &str, batch_tracked: bool) -> (r: Result<(), BatchError>)
    ensures
        batch_tracked ==> r is Ok,
        !batch_tracked ==> (r matches Err(e) && e@ == BatchFault::IneligibleProduct(
            "Product '"@ + product_id@ + "' is not configured for batch or lot tracking"@,
        )),
{
    if !batch_tracked {
        let mut m = String::from_str("Product '");
        push_str(&mut m, product_id);
        push_str(&mut m, "' is not configured for batch or lot tracking");
        return Err(BatchError::IneligibleProduct(m));
    }
    Ok(())
}

/// Refuses a status change of a batch that is not stored.
pub fn check_batch_found(batch_id: &str, found: bool) -> (r: Result<(), BatchError>)
    ensures
        found ==> r is Ok,
        !found ==> (r matches Err(e) && e@ == BatchFault::NotFound("Batch '"@ + batch_id@ + "' not found"@)),
{
    if !found {
        let mut m = String::from_str("Batch '");
        push_str(&mut m, batch_id);
        push_str(&mut m, "' not found");
        return Err(BatchError::NotFound(m));
    }
    Ok(())
}

/// Refuses a product that is not stored as active.
pub fn check_active_product(product_id: &str, found: bool) -> (r: Result<(), BatchError>)
    ensures
        found ==> r is Ok,
        !found ==> (r matches Err(e) && e@ == BatchFault::NotFound(
            "Product '"@ + product_id@ + "' not found or is inactive"@,
        )),
{
    if !found {
        let mut m = String::from_str("Product '");
        push_str(&mut m, product_id);
        push_str(&mut m, "' not found or is inactive");
        return Err(BatchError::NotFound(m));
    }
    Ok(())
}

/// The error for a batch number already used for the product in the branch.
pub open spec fn duplicate_batch_fault(batch_number: Seq<char>, branch_id: Seq<char>) -> BatchFault {
    BatchFault::DuplicateBatchNumber(
        "Batch number '"@ + batch_number + "' already exists for this product in branch '"@
            + branch_id + "'"@,
    )
}

/// Refuses a batch number already used for the product (and variant) in the branch.
pub fn check_batch_unique(batch_number: &str, branch_id: &str, duplicate_exists: bool) -> (r: Result<
    (),
    BatchError,
>)
    ensures
        duplicate_exists ==> (r matches Err(e) && e@ == duplicate_batch_fault(batch_number@, branch_id@)),
        !duplicate_exists ==> r is Ok,
{
    if duplicate_exists {
        let mut m = String::from_str("Batch number '");
        push_str(&mut m, batch_number);
        push_str(&mut m, "' already exists for this product in branch '");
        push_str(&mut m, branch_id);
        push_str(&mut m, "'");
        assert(m@ =~= "Batch number '"@ + batch_number@ + "' already exists for this product in branch '"@
            + branch_id@ + "'"@);
        return Err(BatchError::DuplicateBatchNumber(m));
    }
    Ok(())
}

// ---------------------------------------------------------------- lifecycle

/// Whether the batch lifecycle allows moving from `from` to a different status `to`:
/// active to quarantined, recalled or depleted; quarantined back to active or to recalled.
pub open spec fn batch_transition_allowed(from: BatchStatus, to: BatchStatus) -> bool {
    (from == BatchStatus::Active && (to == BatchStatus::Quarantined || to == BatchStatus::Recalled
        || to == BatchStatus::Depleted)) || (from == BatchStatus::Quarantined && (to
        == BatchStatus::Active || to == BatchStatus::Recalled))
}

/// What `decide_batch_transition` decides: `Ok(false)` when nothing changes, `Ok(true)` when
/// the status must be written.
pub open spec fn batch_transition_spec(current: BatchStatus, target: BatchStatus) -> Result<bool, BatchFault> {
    if current == target {
        Ok(false)
    } else if batch_transition_allowed(current, target) {
        Ok(true)
    } else if current == BatchStatus::Recalled {
        Err(
            BatchFault::InvalidStatusTransition(
                "Recalled batches are terminal and cannot be transitioned to any other status"@,
            ),
        )
    } else if current == BatchStatus::Depleted {
        Err(
            BatchFault::InvalidStatusTransition(
                "Depleted batches are terminal and cannot be arbitrarily reopened in F2.07"@,
            ),
        )
    } else {
        Err(
            BatchFault::InvalidStatusTransition(
                "Transition from '"@ + batch_status_code(current) + "' to '"@ + batch_status_code(
                    target,
                ) + "' is not permitted"@,
            ),
        )
    }
}

/// Decides a batch status change under the batch lifecycle.
pub fn decide_batch_transition(current: BatchStatus, target: BatchStatus) -> (r: Result<bool, BatchError>)
    ensures
        match batch_transition_spec(current, target) {
            Ok(b) => r == Ok::<bool, BatchError>(b),
            Err(f) => r matches Err(x) && x@ == f,
        },
{
    if current == target {
        return Ok(false);
    }
    match (current, target) {
        (BatchStatus::Active, BatchStatus::Quarantined) | (BatchStatus::Active, BatchStatus::Recalled)
        | (BatchStatus::Active, BatchStatus::Depleted) | (
            BatchStatus::Quarantined,
            BatchStatus::Active,
        ) | (BatchStatus::Quarantined, BatchStatus::Recalled) => Ok(true),
        (BatchStatus::Recalled, _) => Err(
            BatchError::InvalidStatusTransition(
                String::from_str(
                    "Recalled batches are terminal and cannot be transitioned to any other status",
                ),
            ),
        ),
        (BatchStatus::Depleted, _) => Err(
            BatchError::InvalidStatusTransition(
                String::from_str(
                    "Depleted batches are terminal and cannot be arbitrarily reopened in F2.07",
                ),
            ),
        ),
        (from, to) => {
            let mut m = String::from_str("Transition from '");
            push_str(&mut m, from.as_str());
            push_str(&mut m, "' to '");
            push_str(&mut m, to.as_str());
            push_str(&mut m, "' is not permitted");
            Err(BatchError::InvalidStatusTransition(m))
        },
    }
}

/// Recalled and depleted batches never change status again.
pub proof fn lemma_batch_terminal_states(current: BatchStatus, target: BatchStatus)
    requires
        current == BatchStatus::Recalled || current == BatchStatus::Depleted,
        target != current,
    ensures
        batch_transition_spec(current, target) is Err,
{
}

/// Every batch that is still in use, active or quarantined, can be recalled, and the recall
/// is written.
pub proof fn lemma_live_batch_recallable(current: BatchStatus)
    requires
        current == BatchStatus::Active || current == BatchStatus::Quarantined,
    ensures
        batch_transition_spec(current, BatchStatus::Recalled) == Ok::<bool, BatchFault>(true),
{
}

/// Quarantine goes both ways: an active batch can be quarantined and a quarantined one
/// released; an active batch can be closed as depleted, a quarantined one only after release.
/// Asking for the status a batch already has changes nothing.
pub proof fn lemma_quarantine_and_depletion(current: BatchStatus)
    ensures
        batch_transition_spec(BatchStatus::Active, BatchStatus::Quarantined) == Ok::<bool, BatchFault>(true),
        batch_transition_spec(BatchStatus::Quarantined, BatchStatus::Active) == Ok::<bool, BatchFault>(true),
        batch_transition_spec(BatchStatus::Active, BatchStatus::Depleted) == Ok::<bool, BatchFault>(true),
        batch_transition_spec(BatchStatus::Quarantined, BatchStatus::Depleted) is Err,
        batch_transition_spec(current, current) == Ok::<bool, BatchFault>(false),
{
}

/// A new batch starts depleted exactly when it is created empty, and active otherwise; its
/// quantity and cost pass exactly when neither is negative.
pub proof fn lemma_new_batch_rules(quantity_milli: i64, cost_price_minor: Option<i64>)
    ensures
        (initial_status_spec(quantity_milli) == BatchStatus::Depleted) <==> quantity_milli == 0,
        quantity_milli != 0 ==> initial_status_spec(quantity_milli) == BatchStatus::Active,
        batch_quantities_spec(quantity_milli, cost_price_minor) is Ok <==> (quantity_milli >= 0 && !(
        cost_price_minor matches Some(c) && c < 0)),
{
}

/// Accepted batch dates are valid calendar dates, an expiry date is present whenever the
/// product requires one, and a manufacturing date comes strictly before the expiry date.
pub proof fn lemma_batch_dates_accepted(
    expiry_required: bool,
    manufactured: Option<Seq<char>>,
    expiry: Option<Seq<char>>,
)
    requires
        batch_dates_spec(expiry_required, manufactured, expiry) is Ok,
    ensures
        ({
            let (m, e) = batch_dates_spec(expiry_required, manufactured, expiry)->Ok_0;
            &&& expiry_required ==> e is Some
            &&& e matches Some(x) ==> iso_date_spec(x) is Ok
            &&& m matches Some(y) ==> iso_date_spec(y) is Ok
            &&& m matches Some(y) ==> (e matches Some(x) ==> bytes_lt(encode_utf8(y), encode_utf8(x)))
        }),
{
    match expiry {
        Some(x) => {
            if trim_seq(x).len() > 0 {
                lemma_trim_idempotent(x);
            }
        },
        None => {},
    }
    match manufactured {
        Some(y) => {
            if trim_seq(y).len() > 0 {
                lemma_trim_idempotent(y);
            }
        },
        None => {},
    }
}

// ---------------------------------------------------------------- FEFO planning

/// Quantities allocated from each batch, in FEFO order, to cover `demand`: each batch gives
/// what it holds or what is still missing, whichever is less, until nothing is missing.
pub open spec fn fefo_allocations(q: Seq<int>, demand: int) -> Seq<int>
    decreases q.len(),
{
    if q.len() == 0 || demand <= 0 {
        Seq::empty()
    } else {
        let a = if demand < q[0] {
            demand
        } else {
            q[0]
        };
        seq![a] + fefo_allocations(q.skip(1), demand - a)
    }
}

/// Demand left uncovered once the batches are exhausted.
pub open spec fn fefo_shortfall(q: Seq<int>, demand: int) -> int
    decreases q.len(),
{
    if q.len() == 0 || demand <= 0 {
        demand
    } else {
        let a = if demand < q[0] {
            demand
        } else {
            q[0]
        };
        fefo_shortfall(q.skip(1), demand - a)
    }
}

/// Sum of a sequence of integers.
pub open spec fn sum_ints(s: Seq<int>) -> int
    decreases s.len(),
{
    if s.len() == 0 {
        0
    } else {
        s[0] + sum_ints(s.skip(1))
    }
}

/// The quantities of a candidate list.
pub open spec fn candidate_quantities(c: Seq<FefoCandidate>) -> Seq<int> {
    c.map_values(|x: FefoCandidate| x.quantity_milli as int)
}

pub open spec fn all_positive(q: Seq<int>) -> bool {
    forall|i: int| 0 <= i < q.len() ==> #[trigger] q[i] > 0
}

/// FEFO conservation: allocations and shortfall add up to the demand, each allocation is
/// positive and within its batch, and a shortfall only remains once every batch is emptied.
pub proof fn lemma_fefo_conservation(q: Seq<int>, demand: int)
    requires
        all_positive(q),
        demand >= 0,
    ensures
        sum_ints(fefo_allocations(q, demand)) + fefo_shortfall(q, demand) == demand,
        0 <= fefo_shortfall(q, demand) <= demand,
        fefo_allocations(q, demand).len() <= q.len(),
        forall|i: int|
            0 <= i < fefo_allocations(q, demand).len() ==> 0 < #[trigger] fefo_allocations(q, demand)[i]
                <= q[i],
        fefo_shortfall(q, demand) > 0 ==> fefo_allocations(q, demand).len() == q.len() && (forall|
            i: int,
        | 0 <= i < q.len() ==> #[trigger] fefo_allocations(q, demand)[i] == q[i]),
    decreases q.len(),
{
    if q.len() > 0 && demand > 0 {
        let a = if demand < q[0] {
            demand
        } else {
            q[0]
        };
        assert(q[0] > 0);
        let r = q.skip(1);
        assert(all_positive(r)) by {
            assert forall|i: int| 0 <= i < r.len() implies #[trigger] r[i] > 0 by {
                assert(r[i] == q[i + 1]);
            }
        }
        lemma_fefo_conservation(r, demand - a);
        let tail = fefo_allocations(r, demand - a);
        let all = fefo_allocations(q, demand);
        assert(all == seq![a] + tail);
        assert(all.skip(1) =~= tail);
        assert forall|i: int| 0 <= i < all.len() implies 0 < #[trigger] all[i] <= q[i] by {
            if i > 0 {
                assert(all[i] == tail[i - 1]);
                assert(q[i] == r[i - 1]);
            }
        }
        if fefo_shortfall(q, demand) > 0 {
            assert(demand - a > 0);
            assert(a == q[0]);
            assert forall|i: int| 0 <= i < q.len() implies #[trigger] all[i] == q[i] by {
                if i > 0 {
                    assert(all[i] == tail[i - 1]);
                    assert(q[i] == r[i - 1]);
                }
            }
        }
    }
}

/// What `check_requested_quantity` decides.
pub fn check_requested_quantity(requested_quantity_milli: i64) -> (r: Result<(), BatchError>)
    ensures
        requested_quantity_milli <= 0 ==> (r matches Err(x) && x@ == BatchFault::Validation(
            "Requested allocation quantity must be strictly positive"@,
        )),
        requested_quantity_milli > 0 ==> r is Ok,
{
    if requested_quantity_milli <= 0 {
        return Err(
            BatchError::Validation(
                String::from_str("Requested allocation quantity must be strictly positive"),
            ),
        );
    }
    Ok(())
}

/// Whether an allocation line is the FEFO allocation `a` out of candidate `c`.
pub open spec fn line_matches(l: FefoAllocationLine, c: FefoCandidate, a: int) -> bool {
    &&& l.batch_id@ == c.batch_id@
    &&& opt_string_view(l.batch_number) == opt_string_view(c.batch_number)
    &&& l.expiry_date@ == c.expiry_date@
    &&& l.allocated_quantity_milli == a
    &&& l.remaining_batch_quantity_milli == c.quantity_milli - a
}

/// Plans a read-only FEFO allocation of `requested_quantity_milli` over the allocatable
/// batches, listed earliest expiry first; nothing is written.
pub fn plan_fefo_allocation(
    branch_id: &str,
    product_id: &str,
    variant_id: Option<&str>,
    requested_quantity_milli: i64,
    fefo_enabled: bool,
    candidates: Vec<FefoCandidate>,
) -> (r: Result<FefoAllocationPlan, BatchError>)
    requires
        all_positive(candidate_quantities(candidates@)),
    ensures
        requested_quantity_milli <= 0 ==> (r matches Err(x) && x@ == BatchFault::Validation(
            "Requested allocation quantity must be strictly positive"@,
        )),
        requested_quantity_milli > 0 && !fefo_enabled ==> (r matches Err(x) && x@
            == BatchFault::Validation(
            "Product '"@ + trim_seq(product_id@) + "' does not have the FEFO capability enabled"@,
        )),
        requested_quantity_milli > 0 && fefo_enabled ==> (r matches Ok(plan) && {
            let q = candidate_quantities(candidates@);
            let alloc = fefo_allocations(q, requested_quantity_milli as int);
            &&& plan.product_id@ == trim_seq(product_id@)
            &&& plan.branch_id@ == trim_seq(branch_id@)
            &&& opt_string_view(plan.variant_id) == match variant_id {
                Some(v) => Some(trim_seq(v@)),
                None => None,
            }
            &&& plan.requested_quantity_milli == requested_quantity_milli
            &&& plan.shortfall_quantity_milli == fefo_shortfall(q, requested_quantity_milli as int)
            &&& plan.allocated_quantity_milli == requested_quantity_milli
                - plan.shortfall_quantity_milli
            &&& plan.allocations@.len() == alloc.len()
            &&& forall|i: int|
                0 <= i < alloc.len() ==> line_matches(
                    #[trigger] plan.allocations@[i],
                    candidates@[i],
                    alloc[i],
                )
        }),
{
    if requested_quantity_milli <= 0 {
        return Err(
            BatchError::Validation(
                String::from_str("Requested allocation quantity must be strictly positive"),
            ),
        );
    }
    let pid = trim(product_id);
    if !fefo_enabled {
        let mut m = String::from_str("Product '");
        push_str(&mut m, pid);
        push_str(&mut m, "' does not have the FEFO capability enabled");
        return Err(BatchError::Validation(m));
    }
    let ghost q = candidate_quantities(candidates@);
    let mut allocations: Vec<FefoAllocationLine> = Vec::new();
    let mut remaining: i64 = requested_quantity_milli;
    let mut i: usize = 0;
    assert(q.skip(0) =~= q);
    while i < candidates.len() && remaining != 0
        invariant
            q == candidate_quantities(candidates@),
            all_positive(q),
            i <= candidates@.len(),
            0 <= remaining <= requested_quantity_milli,
            allocations@.len() == i,
            fefo_allocations(q, requested_quantity_milli as int) == allocations@.map_values(
                |l: FefoAllocationLine| l.allocated_quantity_milli as int,
            ) + fefo_allocations(q.skip(i as int), remaining as int),
            fefo_shortfall(q, requested_quantity_milli as int) == fefo_shortfall(
                q.skip(i as int),
                remaining as int,
            ),
            forall|k: int|
                0 <= k < i ==> line_matches(
                    #[trigger] allocations@[k],
                    candidates@[k],
                    allocations@[k].allocated_quantity_milli as int,
                ),
        decreases candidates.len() - i,
    {
        let c = &candidates[i];
        let b_qty = c.quantity_milli;
        assert(q[i as int] == b_qty);
        assert(b_qty > 0);
        let allocated = if remaining < b_qty {
            remaining
        } else {
            b_qty
        };
        let line = FefoAllocationLine {
            batch_id: owned(c.batch_id.as_str()),
            batch_number: match &c.batch_number {
                Some(n) => Some(owned(n.as_str())),
                None => None,
            },
            expiry_date: owned(c.expiry_date.as_str()),
            allocated_quantity_milli: allocated,
            remaining_batch_quantity_milli: b_qty - allocated,
        };
        let ghost before = allocations@;
        allocations.push(line);
        proof {
            let r = q.skip(i as int);
            assert(r[0] == b_qty);
            assert(r.skip(1) =~= q.skip(i + 1));
            let m = |l: FefoAllocationLine| l.allocated_quantity_milli as int;
            assert(allocations@.map_values(m) =~= before.map_values(m).push(allocated as int));
            assert(fefo_allocations(r, remaining as int) == seq![allocated as int]
                + fefo_allocations(q.skip(i + 1), remaining - allocated));
            assert(before.map_values(m) + fefo_allocations(r, remaining as int) =~= allocations@.map_values(m)
                + fefo_allocations(q.skip(i + 1), remaining - allocated));
            assert forall|k: int| 0 <= k < i + 1 implies line_matches(
                #[trigger] allocations@[k],
                candidates@[k],
                allocations@[k].allocated_quantity_milli as int,
            ) by {
                if k < i {
                    assert(allocations@[k] == before[k]);
                }
            }
        }
        remaining = remaining - allocated;
        i = i + 1;
    }
    proof {
        let m = |l: FefoAllocationLine| l.allocated_quantity_milli as int;
        let rest = q.skip(i as int);
        assert(fefo_allocations(rest, remaining as int) =~= Seq::<int>::empty());
        assert(fefo_shortfall(rest, remaining as int) == remaining);
        let alloc = fefo_allocations(q, requested_quantity_milli as int);
        assert(alloc =~= allocations@.map_values(m));
        assert forall|k: int| 0 <= k < alloc.len() implies line_matches(
            #[trigger] allocations@[k],
            candidates@[k],
            alloc[k],
        ) by {
            assert(alloc[k] == allocations@.map_values(m)[k]);
        }
    }
    let variant = match variant_id {
        Some(v) => Some(owned(trim(v))),
        None => None,
    };
    Ok(
        FefoAllocationPlan {
            product_id: owned(pid),
            branch_id: owned(trim(branch_id)),
            variant_id: variant,
            requested_quantity_milli,
            allocated_quantity_milli: requested_quantity_milli - remaining,
            shortfall_quantity_milli: remaining,
            allocations,
        },
    )
}

} // verus!
