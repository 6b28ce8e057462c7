//! Stock movements with spatial balances (request-keyed variant): reasons, request
//! normalization and fingerprint, and the checks and balance updates of a posting.
use crate::stock_ledger::hash::{hex_lower, sha256, sha256_digest, to_hex_lower};
use crate::text::{
    char_count, concat2, concat3, concat5, concat7, debug_option, debug_option_str, int_decimal, nat_digits,
    norm_opt, opt_str_eq, opt_str_view, opt_string_view, owned, push_decimal, push_i64_decimal,
    push_str, str_eq, trim, trim_seq,
};
use vstd::prelude::*;
use vstd::utf8::encode_utf8;

verus! {

/// Reason of a stock movement.
#[derive(Debug, Clone, Copy, PartialEq, Eq, Structural)]
pub enum MovementReason {
    OpeningBalance,
    Adjustment,
    Damage,
    Loss,
}

/// The stored code of a reason.
pub open spec fn movement_reason_code(r: MovementReason) -> Seq<char> {
    match r {
        MovementReason::OpeningBalance => "opening_balance"@,
        MovementReason::Adjustment => "adjustment"@,
        MovementReason::Damage => "damage"@,
        MovementReason::Loss => "loss"@,
    }
}

/// The reason an exact code names.
pub open spec fn movement_reason_from_code(s: Seq<char>) -> Option<MovementReason> {
    if s == "opening_balance"@ {
        Some(MovementReason::OpeningBalance)
    } else if s == "adjustment"@ {
        Some(MovementReason::Adjustment)
    } else if s == "damage"@ {
        Some(MovementReason::Damage)
    } else if s == "loss"@ {
        Some(MovementReason::Loss)
    } else {
        None
    }
}

/// Typed errors of the stock movement service.
#[derive(Debug, PartialEq, Eq)]
pub enum StockLedgerError {
    MissingLocation,
    ZeroQuantityDelta,
    NegativeStock(String),
    LocationNotFound(String),
    LocationBranchMismatch(String),
    BinNotFound(String),
    BinLocationMismatch(String),
    ProductNotFound(String),
    VariantNotFound(String),
    VariantProductMismatch(String),
    VariantInactive(String),
    BatchNotFound(String),
    BatchProductMismatch(String),
    BatchBranchMismatch(String),
    BatchVariantMismatch(String),
    BatchInsufficientStock(String),
    BatchArithmeticOverflow(String),
    SerialNotFound(String),
    SerialProductMismatch(String),
    SerialBranchMismatch(String),
    SerialVariantMismatch(String),
    SerialInvalidQuantity(String),
    SerialInvalidStatus(String),
    SerialCoordinateMismatch(String),
    IdempotencyConflict(String),
    Database(String),
}

/// Kind of a stock error, with its message (empty for the two that carry none).
pub enum StockFault {
    MissingLocation,
    ZeroQuantityDelta,
    NegativeStock(Seq<char>),
    LocationNotFound(Seq<char>),
    LocationBranchMismatch(Seq<char>),
    BinNotFound(Seq<char>),
    BinLocationMismatch(Seq<char>),
    ProductNotFound(Seq<char>),
    VariantNotFound(Seq<char>),
    VariantProductMismatch(Seq<char>),
    VariantInactive(Seq<char>),
    BatchNotFound(Seq<char>),
    BatchProductMismatch(Seq<char>),
    BatchBranchMismatch(Seq<char>),
    BatchVariantMismatch(Seq<char>),
    BatchInsufficientStock(Seq<char>),
    BatchArithmeticOverflow(Seq<char>),
    SerialNotFound(Seq<char>),
    SerialProductMismatch(Seq<char>),
    SerialBranchMismatch(Seq<char>),
    SerialVariantMismatch(Seq<char>),
    SerialInvalidQuantity(Seq<char>),
    SerialInvalidStatus(Seq<char>),
    SerialCoordinateMismatch(Seq<char>),
    IdempotencyConflict(Seq<char>),
    Database(Seq<char>),
}

impl View for StockLedgerError {
    type V = StockFault;

    open spec fn view(&self) -> StockFault {
        match self {
            StockLedgerError::MissingLocation => StockFault::MissingLocation,
            StockLedgerError::ZeroQuantityDelta => StockFault::ZeroQuantityDelta,
            StockLedgerError::NegativeStock(m) => StockFault::NegativeStock(m@),
            StockLedgerError::LocationNotFound(m) => StockFault::LocationNotFound(m@),
            StockLedgerError::LocationBranchMismatch(m) => StockFault::LocationBranchMismatch(m@),
            StockLedgerError::BinNotFound(m) => StockFault::BinNotFound(m@),
            StockLedgerError::BinLocationMismatch(m) => StockFault::BinLocationMismatch(m@),
            StockLedgerError::ProductNotFound(m) => StockFault::ProductNotFound(m@),
            StockLedgerError::VariantNotFound(m) => StockFault::VariantNotFound(m@),
            StockLedgerError::VariantProductMismatch(m) => StockFault::VariantProductMismatch(m@),
            StockLedgerError::VariantInactive(m) => StockFault::VariantInactive(m@),
            StockLedgerError::BatchNotFound(m) => StockFault::BatchNotFound(m@),
            StockLedgerError::BatchProductMismatch(m) => StockFault::BatchProductMismatch(m@),
            StockLedgerError::BatchBranchMismatch(m) => StockFault::BatchBranchMismatch(m@),
            StockLedgerError::BatchVariantMismatch(m) => StockFault::BatchVariantMismatch(m@),
            StockLedgerError::BatchInsufficientStock(m) => StockFault::BatchInsufficientStock(m@),
            StockLedgerError::BatchArithmeticOverflow(m) => StockFault::BatchArithmeticOverflow(m@),
            StockLedgerError::SerialNotFound(m) => StockFault::SerialNotFound(m@),
            StockLedgerError::SerialProductMismatch(m) => StockFault::SerialProductMismatch(m@),
            StockLedgerError::SerialBranchMismatch(m) => StockFault::SerialBranchMismatch(m@),
            StockLedgerError::SerialVariantMismatch(m) => StockFault::SerialVariantMismatch(m@),
            StockLedgerError::SerialInvalidQuantity(m) => StockFault::SerialInvalidQuantity(m@),
            StockLedgerError::SerialInvalidStatus(m) => StockFault::SerialInvalidStatus(m@),
            StockLedgerError::SerialCoordinateMismatch(m) => StockFault::SerialCoordinateMismatch(m@),
            StockLedgerError::IdempotencyConflict(m) => StockFault::IdempotencyConflict(m@),
            StockLedgerError::Database(m) => StockFault::Database(m@),
        }
    }
}

/// The text a stock movement error is displayed with.
pub open spec fn stock_error_text(f: StockFault) -> Seq<char> {
    match f {
        StockFault::MissingLocation => "location_id is mandatory"@,
        StockFault::ZeroQuantityDelta => "quantity_delta_milli must be non-zero"@,
        StockFault::NegativeStock(m) => "Negative stock violation: "@ + m,
        StockFault::LocationNotFound(m) => "Location not found: "@ + m,
        StockFault::LocationBranchMismatch(m) => "Location branch mismatch: "@ + m,
        StockFault::BinNotFound(m) => "Bin not found: "@ + m,
        StockFault::BinLocationMismatch(m) => "Bin location mismatch: "@ + m,
        StockFault::ProductNotFound(m) => "Product not found: "@ + m,
        StockFault::VariantNotFound(m) => "Variant not found: "@ + m,
        StockFault::VariantProductMismatch(m) => "Variant product mismatch: "@ + m,
        StockFault::VariantInactive(m) => "Variant inactive: "@ + m,
        StockFault::BatchNotFound(m) => "Batch not found: "@ + m,
        StockFault::BatchProductMismatch(m) => "Batch product mismatch: "@ + m,
        StockFault::BatchBranchMismatch(m) => "Batch branch mismatch: "@ + m,
        StockFault::BatchVariantMismatch(m) => "Batch variant mismatch: "@ + m,
        StockFault::BatchInsufficientStock(m) => "Batch insufficient stock: "@ + m,
        StockFault::BatchArithmeticOverflow(m) => "Batch arithmetic overflow: "@ + m,
        StockFault::SerialNotFound(m) => "Serial not found: "@ + m,
        StockFault::SerialProductMismatch(m) => "Serial product mismatch: "@ + m,
        StockFault::SerialBranchMismatch(m) => "Serial branch mismatch: "@ + m,
        StockFault::SerialVariantMismatch(m) => "Serial variant mismatch: "@ + m,
        StockFault::SerialInvalidQuantity(m) => "Serial invalid quantity: "@ + m,
        StockFault::SerialInvalidStatus(m) => "Serial invalid status: "@ + m,
        StockFault::SerialCoordinateMismatch(m) => "Serial coordinate mismatch: "@ + m,
        StockFault::IdempotencyConflict(m) => "Idempotency conflict: "@ + m,
        StockFault::Database(m) => "Database error: "@ + m,
    }
}

impl StockLedgerError {
    /// The display text of this error.
    pub fn describe(&self) -> (r: String)
        ensures
            r@ == stock_error_text(self@),
    {
        match self {
            StockLedgerError::MissingLocation => String::from_str("location_id is mandatory"),
            StockLedgerError::ZeroQuantityDelta => String::from_str("quantity_delta_milli must be non-zero"),
            StockLedgerError::NegativeStock(m) => concat2("Negative stock violation: ", m.as_str()),
            StockLedgerError::LocationNotFound(m) => concat2("Location not found: ", m.as_str()),
            StockLedgerError::LocationBranchMismatch(m) => concat2("Location branch mismatch: ", m.as_str()),
            StockLedgerError::BinNotFound(m) => concat2("Bin not found: ", m.as_str()),
            StockLedgerError::BinLocationMismatch(m) => concat2("Bin location mismatch: ", m.as_str()),
            StockLedgerError::ProductNotFound(m) => concat2("Product not found: ", m.as_str()),
            StockLedgerError::VariantNotFound(m) => concat2("Variant not found: ", m.as_str()),
            StockLedgerError::VariantProductMismatch(m) => concat2("Variant product mismatch: ", m.as_str()),
            StockLedgerError::VariantInactive(m) => concat2("Variant inactive: ", m.as_str()),
            StockLedgerError::BatchNotFound(m) => concat2("Batch not found: ", m.as_str()),
            StockLedgerError::BatchProductMismatch(m) => concat2("Batch product mismatch: ", m.as_str()),
            StockLedgerError::BatchBranchMismatch(m) => concat2("Batch branch mismatch: ", m.as_str()),
            StockLedgerError::BatchVariantMismatch(m) => concat2("Batch variant mismatch: ", m.as_str()),
            StockLedgerError::BatchInsufficientStock(m) => concat2("Batch insufficient stock: ", m.as_str()),
            StockLedgerError::BatchArithmeticOverflow(m) => concat2("Batch arithmetic overflow: ", m.as_str()),
            StockLedgerError::SerialNotFound(m) => concat2("Serial not found: ", m.as_str()),
            StockLedgerError::SerialProductMismatch(m) => concat2("Serial product mismatch: ", m.as_str()),
            StockLedgerError::SerialBranchMismatch(m) => concat2("Serial branch mismatch: ", m.as_str()),
            StockLedgerError::SerialVariantMismatch(m) => concat2("Serial variant mismatch: ", m.as_str()),
            StockLedgerError::SerialInvalidQuantity(m) => concat2("Serial invalid quantity: ", m.as_str()),
            StockLedgerError::SerialInvalidStatus(m) => concat2("Serial invalid status: ", m.as_str()),
            StockLedgerError::SerialCoordinateMismatch(m) => concat2("Serial coordinate mismatch: ", m.as_str()),
            StockLedgerError::IdempotencyConflict(m) => concat2("Idempotency conflict: ", m.as_str()),
            StockLedgerError::Database(m) => concat2("Database error: ", m.as_str()),
        }
    }
}

/// Whether a unit result agrees with a specified outcome.
pub open spec fn stock_agrees(r: Result<(), StockLedgerError>, s: Result<(), StockFault>) -> bool {
    match s {
        Ok(_) => r is Ok,
        Err(f) => r matches Err(e) && e@ == f,
    }
}

impl MovementReason {
    /// The stored code of this reason.
    pub fn as_str(&self) -> (r: &'static str)
        ensures
            r@ == movement_reason_code(*self),
    {
        match self {
            MovementReason::OpeningBalance => "opening_balance",
            MovementReason::Adjustment => "adjustment",
            MovementReason::Damage => "damage",
            MovementReason::Loss => "loss",
        }
    }

    /// Parses an exact reason code.
    pub fn from_str(s: &str) -> (r: Result<Self, StockLedgerError>)
        ensures
            match movement_reason_from_code(s@) {
                Some(m) => r == Ok::<MovementReason, StockLedgerError>(m),
                None => r matches Err(e) && e@ == StockFault::Database(
                    "Invalid movement reason '"@ + s@
                        + "'. Permitted: opening_balance, adjustment, damage, loss"@,
                ),
            },
    {
        if str_eq(s, "opening_balance") {
            Ok(MovementReason::OpeningBalance)
        } else if str_eq(s, "adjustment") {
            Ok(MovementReason::Adjustment)
        } else if str_eq(s, "damage") {
            Ok(MovementReason::Damage)
        } else if str_eq(s, "loss") {
            Ok(MovementReason::Loss)
        } else {
            Err(
                StockLedgerError::Database(
                    concat3(
                        "Invalid movement reason '",
                        s,
                        "'. Permitted: opening_balance, adjustment, damage, loss",
                    ),
                ),
            )
        }
    }
}

/// Request to post a stock movement under an idempotency key.
#[derive(Debug, Clone)]
pub struct PostMovementRequest {
    pub idempotency_key: String,
    pub branch_id: String,
    pub product_id: String,
    pub variant_id: Option<String>,
    pub location_id: String,
    pub bin_id: Option<String>,
    pub batch_id: Option<String>,
    pub serial_id: Option<String>,
    pub quantity_delta_milli: i64,
    pub reason: MovementReason,
    pub user_id: Option<String>,
}

/// Result of a posted movement.
#[derive(Debug, Clone)]
pub struct StockMovementResult {
    pub movement_id: String,
    pub idempotency_key: String,
    pub branch_id: String,
    pub product_id: String,
    pub variant_id: Option<String>,
    pub location_id: String,
    pub bin_id: Option<String>,
    pub batch_id: Option<String>,
    pub serial_id: Option<String>,
    pub quantity_delta_milli: i64,
    pub quantity_before_milli: i64,
    pub quantity_after_milli: i64,
    pub reason: MovementReason,
    pub created_at: String,
}

/// Aggregate, spatially allocated and unallocated stock of a product.
#[derive(Debug, Clone)]
pub struct StockSummaryRecord {
    pub branch_id: String,
    pub product_id: String,
    pub variant_id: Option<String>,
    pub aggregate_quantity_milli: i64,
    pub allocated_spatial_milli: i64,
    pub unallocated_quantity_milli: i64,
}

/// One spatial stock slot.
#[derive(Debug, Clone)]
pub struct LocationInventoryRecord {
    pub id: String,
    pub branch_id: String,
    pub location_id: String,
    pub bin_id: Option<String>,
    pub product_id: String,
    pub variant_id: Option<String>,
    pub batch_id: Option<String>,
    pub quantity_milli: i64,
    pub created_at: String,
    pub updated_at: String,
}

/// Total, spatially allocated and unallocated quantity of a batch.
#[derive(Debug, Clone)]
pub struct BatchSummaryRecord {
    pub batch_id: String,
    pub branch_id: String,
    pub product_id: String,
    pub variant_id: Option<String>,
    pub batch_number: Option<String>,
    pub status: String,
    pub total_quantity_milli: i64,
    pub spatial_quantity_milli: i64,
    pub unallocated_quantity_milli: i64,
}

fn norm_ref(o: &Option<String>) -> (r: Option<&str>)
    ensures
        opt_str_view(r) == norm_opt(opt_string_view(*o)),
{
    match o {
        Some(s) => {
            let t = trim(s.as_str());
            if char_count(t) == 0 {
                None
            } else {
                Some(t)
            }
        },
        None => None,
    }
}

impl PostMovementRequest {
    /// The variant ID, trimmed; `None` when absent or blank.
    pub fn normalized_variant_id(&self) -> (r: Result<Option<&str>, StockLedgerError>)
        ensures
            r matches Ok(v) && opt_str_view(v) == norm_opt(opt_string_view(self.variant_id)),
    {
        Ok(norm_ref(&self.variant_id))
    }

    /// The bin ID, trimmed; `None` when absent or blank.
    pub fn normalized_bin_id(&self) -> (r: Result<Option<&str>, StockLedgerError>)
        ensures
            r matches Ok(v) && opt_str_view(v) == norm_opt(opt_string_view(self.bin_id)),
    {
        Ok(norm_ref(&self.bin_id))
    }

    /// The batch ID, trimmed; `None` when absent or blank.
    pub fn normalized_batch_id(&self) -> (r: Result<Option<&str>, StockLedgerError>)
        ensures
            r matches Ok(v) && opt_str_view(v) == norm_opt(opt_string_view(self.batch_id)),
    {
        Ok(norm_ref(&self.batch_id))
    }

    /// The serial ID, trimmed; `None` when absent or blank.
    pub fn normalized_serial_id(&self) -> (r: Result<Option<&str>, StockLedgerError>)
        ensures
            r matches Ok(v) && opt_str_view(v) == norm_opt(opt_string_view(self.serial_id)),
    {
        Ok(norm_ref(&self.serial_id))
    }

    /// The user ID, trimmed; `None` when absent or blank.
    pub fn normalized_user_id(&self) -> (r: Result<Option<&str>, StockLedgerError>)
        ensures
            r matches Ok(v) && opt_str_view(v) == norm_opt(opt_string_view(self.user_id)),
    {
        Ok(norm_ref(&self.user_id))
    }

    /// Lower-case hex SHA-256 of the request's fingerprint text.
    pub fn canonical_hash(&self) -> (r: String)
        ensures
            r@ == hex_lower(sha256_digest(encode_utf8(canonical_text(*self)))),
    {
        let text = canonical_fingerprint_text(self);
        let digest = sha256(text.as_str().as_bytes());
        to_hex_lower(digest.as_slice())
    }
}

/// An optional identifier as it stands in the fingerprint text: normalized, empty when absent.
pub open spec fn fp_opt(o: Option<String>) -> Seq<char> {
    match norm_opt(opt_string_view(o)) {
        Some(s) => s,
        None => Seq::empty(),
    }
}

/// The fingerprint text: the identifying fields, delta and reason, separated by `|`.
pub open spec fn canonical_text(r: PostMovementRequest) -> Seq<char> {
    trim_seq(r.branch_id@) + "|"@ + trim_seq(r.product_id@) + "|"@ + fp_opt(r.variant_id) + "|"@
        + trim_seq(r.location_id@) + "|"@ + fp_opt(r.bin_id) + "|"@ + fp_opt(r.batch_id) + "|"@
        + fp_opt(r.serial_id) + "|"@ + int_decimal(r.quantity_delta_milli as int) + "|"@
        + movement_reason_code(r.reason)
}

fn push_fp_opt(out: &mut String, o: &Option<String>)
    ensures
        final(out)@ == old(out)@ + fp_opt(*o),
{
    match norm_ref(o) {
        Some(s) => push_str(out, s),
        None => {
            assert(old(out)@ + Seq::<char>::empty() =~= old(out)@);
        },
    }
}

/// The fingerprint text of a request (hashing it at once equals feeding its pieces in turn).
pub fn canonical_fingerprint_text(r: &PostMovementRequest) -> (s: String)
    ensures
        s@ == canonical_text(*r),
{
    let mut s = owned(trim(r.branch_id.as_str()));
    push_str(&mut s, "|");
    push_str(&mut s, trim(r.product_id.as_str()));
    push_str(&mut s, "|");
    push_fp_opt(&mut s, &r.variant_id);
    push_str(&mut s, "|");
    push_str(&mut s, trim(r.location_id.as_str()));
    push_str(&mut s, "|");
    push_fp_opt(&mut s, &r.bin_id);
    push_str(&mut s, "|");
    push_fp_opt(&mut s, &r.batch_id);
    push_str(&mut s, "|");
    push_fp_opt(&mut s, &r.serial_id);
    push_str(&mut s, "|");
    push_i64_decimal(&mut s, r.quantity_delta_milli);
    push_str(&mut s, "|");
    push_str(&mut s, r.reason.as_str());
    s
}

/// What `validate_request_basic` decides.
pub open spec fn basic_spec(r: PostMovementRequest) -> Result<(), StockFault> {
    if r.quantity_delta_milli == 0 {
        Err(StockFault::ZeroQuantityDelta)
    } else if trim_seq(r.location_id@).len() == 0 {
        Err(StockFault::MissingLocation)
    } else if r.reason == MovementReason::OpeningBalance && r.quantity_delta_milli < 0 {
        Err(StockFault::NegativeStock("opening_balance cannot have negative delta"@))
    } else if (r.reason == MovementReason::Damage || r.reason == MovementReason::Loss)
        && r.quantity_delta_milli > 0 {
        Err(StockFault::Database("damage and loss movements must have negative deltas"@))
    } else {
        Ok(())
    }
}

/// Checks a request before any stored state is read: a non-zero delta, a location, and the
/// direction its reason demands.
pub fn validate_request_basic(req: &PostMovementRequest) -> (r: Result<(), StockLedgerError>)
    ensures
        stock_agrees(r, basic_spec(*req)),
{
    if req.quantity_delta_milli == 0 {
        return Err(StockLedgerError::ZeroQuantityDelta);
    }
    if char_count(trim(req.location_id.as_str())) == 0 {
        return Err(StockLedgerError::MissingLocation);
    }
    if req.reason == MovementReason::OpeningBalance && req.quantity_delta_milli < 0 {
        return Err(
            StockLedgerError::NegativeStock(
                String::from_str("opening_balance cannot have negative delta"),
            ),
        );
    }
    if (req.reason == MovementReason::Damage || req.reason == MovementReason::Loss)
        && req.quantity_delta_milli > 0 {
        return Err(
            StockLedgerError::Database(
                String::from_str("damage and loss movements must have negative deltas"),
            ),
        );
    }
    Ok(())
}

/// What a stored idempotency row (its result JSON and request hash) means: `Some(json)`
/// replays, `None` proceeds, an error reports reuse by a different request.
pub fn stock_replay_decision(key: &str, request_hash: &str, row: Option<(String, Option<String>)>) -> (r:
    Result<Option<String>, StockLedgerError>)
    ensures
        match row {
            None => r matches Ok(None),
            Some((json, stored)) => if opt_string_view(stored) == Some(request_hash@) {
                r matches Ok(Some(j)) && j@ == json@
            } else {
                r matches Err(e) && e@ == StockFault::IdempotencyConflict(
                    "Idempotency key '"@ + key@ + "' already used with different request parameters"@,
                )
            },
        },
{
    match row {
        None => Ok(None),
        Some((json, stored)) => {
            let same = match &stored {
                Some(h) => str_eq(h.as_str(), request_hash),
                None => false,
            };
            if same {
                Ok(Some(json))
            } else {
                Err(
                    StockLedgerError::IdempotencyConflict(
                        concat3(
                            "Idempotency key '",
                            key,
                            "' already used with different request parameters",
                        ),
                    ),
                )
            }
        },
    }
}

/// What `check_location_and_bin` decides from the stored location and bin rows
/// (`(branch or location, is_active)`).
pub open spec fn location_bin_spec(
    branch: Seq<char>,
    location: Seq<char>,
    bin: Option<Seq<char>>,
    loc_row: Option<(Seq<char>, i64)>,
    bin_row: Option<(Seq<char>, i64)>,
) -> Result<(), StockFault> {
    match loc_row {
        None => Err(StockFault::LocationNotFound(location)),
        Some((lb, la)) => if lb != branch {
            Err(
                StockFault::LocationBranchMismatch(
                    "Location '"@ + location + "' belongs to branch '"@ + lb + "', not '"@ + branch + "'"@,
                ),
            )
        } else if la != 1 {
            Err(StockFault::LocationNotFound("Location '"@ + location + "' is inactive"@))
        } else {
            match bin {
                None => Ok(()),
                Some(b) => match bin_row {
                    None => Err(StockFault::BinNotFound(b)),
                    Some((bl, ba)) => if bl != location {
                        Err(
                            StockFault::BinLocationMismatch(
                                "Bin '"@ + b + "' belongs to location '"@ + bl + "', not '"@ + location
                                    + "'"@,
                            ),
                        )
                    } else if ba != 1 {
                        Err(StockFault::BinNotFound("Bin '"@ + b + "' is inactive"@))
                    } else {
                        Ok(())
                    },
                },
            }
        },
    }
}

pub open spec fn row_view(o: Option<(String, i64)>) -> Option<(Seq<char>, i64)> {
    match o {
        Some((s, x)) => Some((s@, x)),
        None => None,
    }
}

/// Checks the location (and bin) of a movement against their stored rows.
pub fn check_location_and_bin(
    branch_id: &str,
    location_id: &str,
    bin_id: Option<&str>,
    loc_row: Option<(String, i64)>,
    bin_row: Option<(String, i64)>,
) -> (r: Result<(), StockLedgerError>)
    ensures
        stock_agrees(
            r,
            location_bin_spec(branch_id@, location_id@, opt_str_view(bin_id), row_view(loc_row), row_view(bin_row)),
        ),
{
    match loc_row {
        None => Err(StockLedgerError::LocationNotFound(owned(location_id))),
        Some((lb, la)) => {
            if !str_eq(lb.as_str(), branch_id) {
                return Err(
                    StockLedgerError::LocationBranchMismatch(
                        concat7("Location '", location_id, "' belongs to branch '", lb.as_str(), "', not '", branch_id, "'"),
                    ),
                );
            }
            if la != 1 {
                return Err(
                    StockLedgerError::LocationNotFound(concat3("Location '", location_id, "' is inactive")),
                );
            }
            match bin_id {
                None => Ok(()),
                Some(b) => match bin_row {
                    None => Err(StockLedgerError::BinNotFound(owned(b))),
                    Some((bl, ba)) => {
                        if !str_eq(bl.as_str(), location_id) {
                            return Err(
                                StockLedgerError::BinLocationMismatch(
                                    concat7("Bin '", b, "' belongs to location '", bl.as_str(), "', not '", location_id, "'"),
                                ),
                            );
                        }
                        if ba != 1 {
                            return Err(StockLedgerError::BinNotFound(concat3("Bin '", b, "' is inactive")));
                        }
                        Ok(())
                    },
                },
            }
        },
    }
}

/// What `check_product_and_variant` decides from the product's `is_active` and the variant's
/// stored row `(product, is_active, deleted)`.
pub open spec fn product_variant_spec(
    product: Seq<char>,
    variant: Option<Seq<char>>,
    product_active: Option<i64>,
    variant_row: Option<(Seq<char>, i64, bool)>,
) -> Result<(), StockFault> {
    match product_active {
        None => Err(StockFault::ProductNotFound(product)),
        Some(a) => if a != 1 {
            Err(StockFault::ProductNotFound("Product '"@ + product + "' is inactive"@))
        } else {
            match variant {
                None => Ok(()),
                Some(v) => match variant_row {
                    None => Err(StockFault::VariantNotFound(v)),
                    Some((vp, va, vd)) => if vp != product {
                        Err(
                            StockFault::VariantProductMismatch(
                                "Variant '"@ + v + "' belongs to product '"@ + vp + "', not '"@ + product
                                    + "'"@,
                            ),
                        )
                    } else if va != 1 || vd {
                        Err(StockFault::VariantInactive("Variant '"@ + v + "' is inactive or deleted"@))
                    } else {
                        Ok(())
                    },
                },
            }
        },
    }
}

/// Checks the product (and variant) of a movement against their stored rows.
pub fn check_product_and_variant(
    product_id: &str,
    variant_id: Option<&str>,
    product_active: Option<i64>,
    variant_row: Option<(String, i64, bool)>,
) -> (r: Result<(), StockLedgerError>)
    ensures
        stock_agrees(
            r,
            product_variant_spec(
                product_id@,
                opt_str_view(variant_id),
                product_active,
                match variant_row {
                    Some((p, a, d)) => Some((p@, a, d)),
                    None => None,
                },
            ),
        ),
{
    match product_active {
        None => Err(StockLedgerError::ProductNotFound(owned(product_id))),
        Some(a) => {
            if a != 1 {
                return Err(
                    StockLedgerError::ProductNotFound(concat3("Product '", product_id, "' is inactive")),
                );
            }
            match variant_id {
                None => Ok(()),
                Some(v) => match variant_row {
                    None => Err(StockLedgerError::VariantNotFound(owned(v))),
                    Some((vp, va, vd)) => {
                        if !str_eq(vp.as_str(), product_id) {
                            return Err(
                                StockLedgerError::VariantProductMismatch(
                                    concat7("Variant '", v, "' belongs to product '", vp.as_str(), "', not '", product_id, "'"),
                                ),
                            );
                        }
                        if va != 1 || vd {
                            return Err(
                                StockLedgerError::VariantInactive(
                                    concat3("Variant '", v, "' is inactive or deleted"),
                                ),
                            );
                        }
                        Ok(())
                    },
                },
            }
        },
    }
}

/// Stored row of a batch: product, branch, variant and quantity.
#[derive(Debug, Clone)]
pub struct BatchLotRow {
    pub product_id: String,
    pub branch_id: String,
    pub variant_id: Option<String>,
    pub quantity_milli: i64,
}

/// What `check_batch_lot` decides: the batch's current quantity when one is named.
pub open spec fn batch_lot_spec(
    batch: Option<Seq<char>>,
    product: Seq<char>,
    branch: Seq<char>,
    variant: Option<Seq<char>>,
    delta: int,
    row: Option<BatchLotRow>,
) -> Result<Option<int>, StockFault> {
    match batch {
        None => Ok(None),
        Some(b) => match row {
            None => Err(StockFault::BatchNotFound(b)),
            Some(r) => if r.product_id@ != product {
                Err(
                    StockFault::BatchProductMismatch(
                        "Batch '"@ + b + "' belongs to product '"@ + r.product_id@ + "', not '"@ + product
                            + "'"@,
                    ),
                )
            } else if r.branch_id@ != branch {
                Err(
                    StockFault::BatchBranchMismatch(
                        "Batch '"@ + b + "' belongs to branch '"@ + r.branch_id@ + "', not '"@ + branch
                            + "'"@,
                    ),
                )
            } else if opt_string_view(r.variant_id) != variant {
                Err(
                    StockFault::BatchVariantMismatch(
                        "Batch '"@ + b + "' belongs to variant '"@ + debug_option_str(
                            opt_string_view(r.variant_id),
                        ) + "', not '"@ + debug_option_str(variant) + "'"@,
                    ),
                )
            } else if !(i64::MIN <= r.quantity_milli + delta <= i64::MAX) {
                Err(StockFault::BatchArithmeticOverflow("Batch '"@ + b + "' overflow"@))
            } else if r.quantity_milli + delta < 0 {
                Err(
                    StockFault::BatchInsufficientStock(
                        "Batch '"@ + b + "' balance "@ + int_decimal(r.quantity_milli as int)
                            + " is insufficient for deduction "@ + int_decimal(delta),
                    ),
                )
            } else {
                Ok(Some(r.quantity_milli as int))
            },
        },
    }
}

/// Checks the batch of a movement against its stored row and returns its current quantity.
pub fn check_batch_lot(
    batch_id: Option<&str>,
    product_id: &str,
    branch_id: &str,
    variant_id: Option<&str>,
    delta: i64,
    row: Option<BatchLotRow>,
) -> (r: Result<Option<i64>, StockLedgerError>)
    ensures
        match batch_lot_spec(opt_str_view(batch_id), product_id@, branch_id@, opt_str_view(variant_id), delta as int, row) {
            Ok(q) => r matches Ok(rq) && match q {
                Some(x) => rq == Some(x as i64),
                None => rq is None,
            },
            Err(f) => r matches Err(e) && e@ == f,
        },
{
    let b = match batch_id {
        None => {
            return Ok(None);
        },
        Some(b) => b,
    };
    let r = match row {
        None => {
            return Err(StockLedgerError::BatchNotFound(owned(b)));
        },
        Some(r) => r,
    };
    if !str_eq(r.product_id.as_str(), product_id) {
        return Err(
            StockLedgerError::BatchProductMismatch(
                concat7("Batch '", b, "' belongs to product '", r.product_id.as_str(), "', not '", product_id, "'"),
            ),
        );
    }
    if !str_eq(r.branch_id.as_str(), branch_id) {
        return Err(
            StockLedgerError::BatchBranchMismatch(
                concat7("Batch '", b, "' belongs to branch '", r.branch_id.as_str(), "', not '", branch_id, "'"),
            ),
        );
    }
    let rv = crate::text::as_opt_str(&r.variant_id);
    if !opt_str_eq(rv, variant_id) {
        let d1 = debug_option(rv);
        let d2 = debug_option(variant_id);
        return Err(
            StockLedgerError::BatchVariantMismatch(
                concat7("Batch '", b, "' belongs to variant '", d1.as_str(), "', not '", d2.as_str(), "'"),
            ),
        );
    }
    let q = r.quantity_milli;
    let nq = match q.checked_add(delta) {
        None => {
            return Err(StockLedgerError::BatchArithmeticOverflow(concat3("Batch '", b, "' overflow")));
        },
        Some(x) => x,
    };
    if nq < 0 {
        let mut m = concat3("Batch '", b, "' balance ");
        push_i64_decimal(&mut m, q);
        push_str(&mut m, " is insufficient for deduction ");
        push_i64_decimal(&mut m, delta);
        return Err(StockLedgerError::BatchInsufficientStock(m));
    }
    Ok(Some(q))
}

/// Stored row of a serialized unit.
#[derive(Debug, Clone)]
pub struct SerialAssetRow {
    pub id: String,
    pub product_id: String,
    pub branch_id: String,
    pub variant_id: Option<String>,
    pub status: String,
    pub location_id: Option<String>,
    pub bin_id: Option<String>,
}

/// What `check_serial_asset` decides for a named unit: one unit exactly, then identity, then
/// status and place (intake of any unit not in stock or beyond revival; removal from stock at
/// the requested location and bin).
pub open spec fn serial_asset_spec(
    product: Seq<char>,
    branch: Seq<char>,
    variant: Option<Seq<char>>,
    location: Seq<char>,
    bin: Option<Seq<char>>,
    delta: int,
    row: Option<SerialAssetRow>,
    serial: Seq<char>,
) -> Result<(), StockFault> {
    if delta != 1000 && delta != -1000 {
        Err(
            StockFault::SerialInvalidQuantity(
                "Serialized movement must have quantity_delta_milli of 1000 or -1000, got "@
                    + int_decimal(delta),
            ),
        )
    } else {
        match row {
            None => Err(StockFault::SerialNotFound(serial)),
            Some(r) => {
                let s = r.id@;
                let st = r.status@;
                if r.product_id@ != product {
                    Err(
                        StockFault::SerialProductMismatch(
                            "Serial '"@ + s + "' belongs to product '"@ + r.product_id@ + "', not '"@
                                + product + "'"@,
                        ),
                    )
                } else if r.branch_id@ != branch {
                    Err(
                        StockFault::SerialBranchMismatch(
                            "Serial '"@ + s + "' belongs to branch '"@ + r.branch_id@ + "', not '"@
                                + branch + "'"@,
                        ),
                    )
                } else if opt_string_view(r.variant_id) != variant {
                    Err(
                        StockFault::SerialVariantMismatch(
                            "Serial '"@ + s + "' belongs to variant '"@ + debug_option_str(
                                opt_string_view(r.variant_id),
                            ) + "', not '"@ + debug_option_str(variant) + "'"@,
                        ),
                    )
                } else if delta > 0 {
                    if st == "in_stock"@ {
                        Err(StockFault::SerialInvalidStatus("Serial '"@ + s + "' is already in_stock"@))
                    } else if st == "disposed"@ || st == "recalled"@ || st == "sold"@ || st
                        == "transferred"@ {
                        Err(
                            StockFault::SerialInvalidStatus(
                                "Serial '"@ + s + "' has terminal or non-revivable status '"@ + st + "'"@,
                            ),
                        )
                    } else {
                        Ok(())
                    }
                } else if st != "in_stock"@ {
                    Err(
                        StockFault::SerialInvalidStatus(
                            "Serial '"@ + s + "' cannot be deducted; status is '"@ + st
                                + "', expected 'in_stock'"@,
                        ),
                    )
                } else {
                    match opt_string_view(r.location_id) {
                        None => Err(
                            StockFault::SerialCoordinateMismatch(
                                "Serial has no physical location assigned"@,
                            ),
                        ),
                        Some(loc) => if loc != location {
                            Err(
                                StockFault::SerialCoordinateMismatch(
                                    "Serial '"@ + s + "' is physically located at location '"@ + loc
                                        + "', not '"@ + location + "'"@,
                                ),
                            )
                        } else if opt_string_view(r.bin_id) != bin {
                            Err(
                                StockFault::SerialCoordinateMismatch(
                                    "Serial '"@ + s + "' is physically located at bin '"@
                                        + debug_option_str(opt_string_view(r.bin_id)) + "', not '"@
                                        + debug_option_str(bin) + "'"@,
                                ),
                            )
                        } else {
                            Ok(())
                        },
                    }
                }
            },
        }
    }
}

/// Checks a movement of a named serialized unit against its stored row.
pub fn check_serial_asset(
    serial_id: &str,
    product_id: &str,
    branch_id: &str,
    variant_id: Option<&str>,
    location_id: &str,
    bin_id: Option<&str>,
    delta: i64,
    row: Option<SerialAssetRow>,
) -> (r: Result<(), StockLedgerError>)
    ensures
        stock_agrees(
            r,
            serial_asset_spec(
                product_id@,
                branch_id@,
                opt_str_view(variant_id),
                location_id@,
                opt_str_view(bin_id),
                delta as int,
                row,
                serial_id@,
            ),
        ),
{
    if delta != 1000 && delta != -1000 {
        let mut m = String::from_str(
            "Serialized movement must have quantity_delta_milli of 1000 or -1000, got ",
        );
        push_i64_decimal(&mut m, delta);
        return Err(StockLedgerError::SerialInvalidQuantity(m));
    }
    let r = match row {
        None => {
            return Err(StockLedgerError::SerialNotFound(owned(serial_id)));
        },
        Some(r) => r,
    };
    let s = r.id.as_str();
    let st = r.status.as_str();
    if !str_eq(r.product_id.as_str(), product_id) {
        return Err(
            StockLedgerError::SerialProductMismatch(
                concat7("Serial '", s, "' belongs to product '", r.product_id.as_str(), "', not '", product_id, "'"),
            ),
        );
    }
    if !str_eq(r.branch_id.as_str(), branch_id) {
        return Err(
            StockLedgerError::SerialBranchMismatch(
                concat7("Serial '", s, "' belongs to branch '", r.branch_id.as_str(), "', not '", branch_id, "'"),
            ),
        );
    }
    let rv = crate::text::as_opt_str(&r.variant_id);
    if !opt_str_eq(rv, variant_id) {
        let d1 = debug_option(rv);
        let d2 = debug_option(variant_id);
        return Err(
            StockLedgerError::SerialVariantMismatch(
                concat7("Serial '", s, "' belongs to variant '", d1.as_str(), "', not '", d2.as_str(), "'"),
            ),
        );
    }
    if delta > 0 {
        if str_eq(st, "in_stock") {
            return Err(StockLedgerError::SerialInvalidStatus(concat3("Serial '", s, "' is already in_stock")));
        }
        if str_eq(st, "disposed") || str_eq(st, "recalled") || str_eq(st, "sold") || str_eq(
            st,
            "transferred",
        ) {
            return Err(
                StockLedgerError::SerialInvalidStatus(
                    concat5("Serial '", s, "' has terminal or non-revivable status '", st, "'"),
                ),
            );
        }
        return Ok(());
    }
    if !str_eq(st, "in_stock") {
        return Err(
            StockLedgerError::SerialInvalidStatus(
                concat5("Serial '", s, "' cannot be deducted; status is '", st, "', expected 'in_stock'"),
            ),
        );
    }
    match &r.location_id {
        None => {
            return Err(
                StockLedgerError::SerialCoordinateMismatch(
                    String::from_str("Serial has no physical location assigned"),
                ),
            );
        },
        Some(loc) => {
            if !str_eq(loc.as_str(), location_id) {
                return Err(
                    StockLedgerError::SerialCoordinateMismatch(
                        concat7("Serial '", s, "' is physically located at location '", loc.as_str(), "', not '", location_id, "'"),
                    ),
                );
            }
        },
    }
    let rb = crate::text::as_opt_str(&r.bin_id);
    if !opt_str_eq(rb, bin_id) {
        let d1 = debug_option(rb);
        let d2 = debug_option(bin_id);
        return Err(
            StockLedgerError::SerialCoordinateMismatch(
                concat7("Serial '", s, "' is physically located at bin '", d1.as_str(), "', not '", d2.as_str(), "'"),
            ),
        );
    }
    Ok(())
}

/// What `next_slot_balance` decides: the stored balance (0 when none) moved by `delta`,
/// which may not go negative.
pub open spec fn slot_balance_spec(current: Option<i64>, delta: int, label: Seq<char>) -> Result<(int, int), StockFault> {
    let before: int = match current {
        Some(c) => c as int,
        None => 0,
    };
    if before + delta < 0 {
        Err(
            StockFault::NegativeStock(
                label + " would become "@ + int_decimal(before + delta) + " (before: "@ + int_decimal(
                    before,
                ) + ", delta: "@ + int_decimal(delta) + ")"@,
            ),
        )
    } else {
        Ok((before, before + delta))
    }
}

/// Moves a stored balance (aggregate or spatial slot) by `delta`.
pub fn next_slot_balance(current: Option<i64>, delta: i64, label: &str) -> (r: Result<(i64, i64), StockLedgerError>)
    requires
        current matches Some(c) ==> i64::MIN <= c + delta <= i64::MAX,
    ensures
        match slot_balance_spec(current, delta as int, label@) {
            Ok((b, a)) => r matches Ok((rb, ra)) && rb == b && ra == a,
            Err(f) => r matches Err(e) && e@ == f,
        },
{
    let before: i64 = match current {
        Some(c) => c,
        None => 0,
    };
    let after = before + delta;
    if after < 0 {
        let mut m = owned(label);
        push_str(&mut m, " would become ");
        push_i64_decimal(&mut m, after);
        push_str(&mut m, " (before: ");
        push_i64_decimal(&mut m, before);
        push_str(&mut m, ", delta: ");
        push_i64_decimal(&mut m, delta);
        push_str(&mut m, ")");
        return Err(StockLedgerError::NegativeStock(m));
    }
    Ok((before, after))
}

/// The status a batch takes after a movement of the stock service, from its stored status and
/// new quantity: a recalled batch stays recalled (recall is final); otherwise an emptied batch
/// is depleted and any other is active. This service thus lifts a quarantine on any movement,
/// and a movement that refills a depleted batch reopens it as active (the lifecycle refuses
/// only a manual reopening of a depleted batch).
pub open spec fn stock_batch_status(status: Seq<char>, new_qty: int) -> Seq<char> {
    if status == "recalled"@ {
        "recalled"@
    } else if new_qty == 0 {
        "depleted"@
    } else {
        "active"@
    }
}

/// The batch's new quantity and status after a movement, from its stored quantity and
/// status (see `stock_batch_status`).
pub fn batch_after_movement(current_qty: Option<i64>, status: &str, delta: i64) -> (r: Option<(i64, &'static str)>)
    requires
        current_qty matches Some(q) ==> i64::MIN <= q + delta <= i64::MAX,
    ensures
        match current_qty {
            None => r is None,
            Some(q) => r matches Some((nq, st)) && nq == q + delta && st@ == stock_batch_status(status@, q + delta),
        },
{
    match current_qty {
        None => None,
        Some(q) => {
            let nq = q + delta;
            let st = if str_eq(status, "recalled") {
                "recalled"
            } else if nq == 0 {
                "depleted"
            } else {
                "active"
            };
            Some((nq, st))
        },
    }
}

/// The status a serialized unit takes: back in stock on intake; on removal defective for
/// damage, reserved for an adjustment, disposed otherwise.
pub fn serial_status_after_movement(delta: i64, reason: MovementReason) -> (r: &'static str)
    ensures
        r@ == (if delta > 0 {
            "in_stock"@
        } else {
            match reason {
                MovementReason::Damage => "defective"@,
                MovementReason::Adjustment => "reserved"@,
                _ => "disposed"@,
            }
        }),
{
    if delta > 0 {
        "in_stock"
    } else {
        match reason {
            MovementReason::Damage => "defective",
            MovementReason::Adjustment => "reserved",
            _ => "disposed",
        }
    }
}

/// The stock summary of a product from its aggregate and allocated spatial quantities.
pub fn stock_summary_record(
    branch_id: &str,
    product_id: &str,
    variant_id: Option<&str>,
    aggregate_quantity_milli: i64,
    allocated_spatial_milli: i64,
) -> (r: StockSummaryRecord)
    requires
        i64::MIN <= aggregate_quantity_milli - allocated_spatial_milli <= i64::MAX,
    ensures
        r.branch_id@ == branch_id@,
        r.product_id@ == product_id@,
        opt_string_view(r.variant_id) == opt_str_view(variant_id),
        r.aggregate_quantity_milli == aggregate_quantity_milli,
        r.allocated_spatial_milli == allocated_spatial_milli,
        r.unallocated_quantity_milli == aggregate_quantity_milli - allocated_spatial_milli,
{
    StockSummaryRecord {
        branch_id: owned(branch_id),
        product_id: owned(product_id),
        variant_id: match variant_id {
            Some(v) => Some(owned(v)),
            None => None,
        },
        aggregate_quantity_milli,
        allocated_spatial_milli,
        unallocated_quantity_milli: aggregate_quantity_milli - allocated_spatial_milli,
    }
}

/// A recalled batch stays recalled whatever a movement leaves in it.
pub proof fn lemma_recalled_batch_stays_recalled(new_qty: int)
    ensures
        stock_batch_status("recalled"@, new_qty) == "recalled"@,
{
}

/// The stock service's batch status after a movement: a recalled batch stays recalled; any
/// other batch is depleted exactly when the movement empties it, and active otherwise.
pub proof fn lemma_stock_batch_status(status: Seq<char>, new_qty: int)
    ensures
        status == "recalled"@ ==> stock_batch_status(status, new_qty) == "recalled"@,
        status != "recalled"@ && new_qty == 0 ==> stock_batch_status(status, new_qty) == "depleted"@,
        status != "recalled"@ && new_qty != 0 ==> stock_batch_status(status, new_qty) == "active"@,
{
}

/// A request passes the checks made before any stored state is read exactly when its delta
/// is non-zero, it names a location, an opening balance only adds stock, and damage or loss
/// only removes stock.
pub proof fn lemma_request_direction(r: PostMovementRequest)
    ensures
        basic_spec(r) is Ok <==> {
            &&& r.quantity_delta_milli != 0
            &&& trim_seq(r.location_id@).len() > 0
            &&& r.reason == MovementReason::OpeningBalance ==> r.quantity_delta_milli > 0
            &&& r.reason == MovementReason::Damage ==> r.quantity_delta_milli < 0
            &&& r.reason == MovementReason::Loss ==> r.quantity_delta_milli < 0
        },
{
}

/// A movement's location and bin pass exactly when the location is stored in the movement's
/// branch and active, and a named bin is stored in that location and active.
pub proof fn lemma_location_bin_accept(
    branch: Seq<char>,
    location: Seq<char>,
    bin: Option<Seq<char>>,
    loc_row: Option<(Seq<char>, i64)>,
    bin_row: Option<(Seq<char>, i64)>,
)
    ensures
        location_bin_spec(branch, location, bin, loc_row, bin_row) is Ok <==> {
            &&& loc_row == Some((branch, 1i64))
            &&& bin is Some ==> bin_row == Some((location, 1i64))
        },
{
}

/// A movement's product and variant pass exactly when the product is active and a named
/// variant belongs to it, is active and is not deleted.
pub proof fn lemma_product_variant_accept(
    product: Seq<char>,
    variant: Option<Seq<char>>,
    product_active: Option<i64>,
    variant_row: Option<(Seq<char>, i64, bool)>,
)
    ensures
        product_variant_spec(product, variant, product_active, variant_row) is Ok <==> {
            &&& product_active == Some(1i64)
            &&& variant is Some ==> variant_row == Some((product, 1i64, false))
        },
{
}

/// A named batch passes exactly when it is stored for the movement's product, branch and
/// variant and holds enough for the movement; what is returned is its current quantity.
pub proof fn lemma_batch_lot_accept(
    batch: Option<Seq<char>>,
    product: Seq<char>,
    branch: Seq<char>,
    variant: Option<Seq<char>>,
    delta: int,
    row: Option<BatchLotRow>,
)
    requires
        batch is Some,
    ensures
        batch_lot_spec(batch, product, branch, variant, delta, row) is Ok <==> {
            &&& row is Some
            &&& row->Some_0.product_id@ == product
            &&& row->Some_0.branch_id@ == branch
            &&& opt_string_view(row->Some_0.variant_id) == variant
            &&& 0 <= row->Some_0.quantity_milli + delta <= i64::MAX
        },
        batch_lot_spec(batch, product, branch, variant, delta, row) is Ok ==> batch_lot_spec(
            batch,
            product,
            branch,
            variant,
            delta,
            row,
        ) == Ok::<Option<int>, StockFault>(Some(row->Some_0.quantity_milli as int)),
{
}

/// A movement of a named serialized unit passes exactly when it moves one whole unit of the
/// movement's product, branch and variant, and either brings in a unit that is neither in
/// stock nor sold, transferred, recalled or disposed of, or takes out a unit that is in stock
/// at the movement's location and bin.
pub proof fn lemma_serial_asset_accept(
    product: Seq<char>,
    branch: Seq<char>,
    variant: Option<Seq<char>>,
    location: Seq<char>,
    bin: Option<Seq<char>>,
    delta: int,
    row: Option<SerialAssetRow>,
    serial: Seq<char>,
)
    ensures
        serial_asset_spec(product, branch, variant, location, bin, delta, row, serial) is Ok <==> {
            &&& delta == 1000 || delta == -1000
            &&& row is Some
            &&& row->Some_0.product_id@ == product
            &&& row->Some_0.branch_id@ == branch
            &&& opt_string_view(row->Some_0.variant_id) == variant
            &&& delta == 1000 ==> {
                let st = row->Some_0.status@;
                &&& st != "in_stock"@
                &&& st != "sold"@
                &&& st != "transferred"@
                &&& st != "recalled"@
                &&& st != "disposed"@
            }
            &&& delta == -1000 ==> {
                &&& row->Some_0.status@ == "in_stock"@
                &&& opt_string_view(row->Some_0.location_id) == Some(location)
                &&& opt_string_view(row->Some_0.bin_id) == bin
            }
        },
{
}

/// Intake and removal are mirror images: from a non-negative balance, an accepted intake of
/// `d` followed by a removal of `d` is accepted and restores the balance.
pub proof fn lemma_slot_round_trip(current: Option<i64>, d: int, label: Seq<char>)
    requires
        d > 0,
        slot_balance_spec(current, d, label) is Ok,
        slot_balance_spec(current, d, label)->Ok_0.1 <= i64::MAX,
        current matches Some(c) ==> c >= 0,
    ensures
        slot_balance_spec(Some((slot_balance_spec(current, d, label)->Ok_0.1) as i64), -d, label)
            == Ok::<(int, int), StockFault>(
            (
                slot_balance_spec(current, d, label)->Ok_0.1,
                slot_balance_spec(current, d, label)->Ok_0.0,
            ),
        ),
{
    let before: int = match current {
        Some(c) => c as int,
        None => 0,
    };
    let a = before + d;
    assert(((a as i64) as int) == a);
}

} // verus!
