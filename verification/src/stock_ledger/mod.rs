//! Stock ledger: movement reasons and their directional rules, canonical request
//! hashing for idempotency, and the decisions of posting a movement (entity checks,
//! batch and serial lifecycle, aggregate and spatial balances).
use crate::text::{
    ascii_lower_seq, ascii_upper_seq, char_count, is_lower_code, is_ws, lemma_lower_code_read_back,
    concat2, concat3, concat5, concat7, debug_option, debug_option_str,
    int_decimal, norm_opt, normalize_optional, opt_str_eq, opt_str_view, opt_string_view, owned,
    push_char, push_i64_decimal, push_str, str_eq, to_ascii_lower, trim, trim_seq,
};
use vstd::prelude::*;

pub mod hash;
pub mod posting;

pub use hash::compute_request_hash;



verus! {

/// Reason of a stock movement. Only the first four may be posted; the others are read back
/// from history, and `Other` keeps any unrecognized stored text.
#[derive(Debug, Clone, PartialEq, Eq, Hash)]
pub enum StockMovementReason {
    OpeningBalance,
    Adjustment,
    Damage,
    Loss,
    Sale,
    Refund,
    PurchaseReceipt,
    Transfer,
    Other(String),
}

/// Mathematical image of a movement reason.
pub enum ReasonSpec {
    OpeningBalance,
    Adjustment,
    Damage,
    Loss,
    Sale,
    Refund,
    PurchaseReceipt,
    Transfer,
    Other(Seq<char>),
}

impl View for StockMovementReason {
    type V = ReasonSpec;

    open spec fn view(&self) -> ReasonSpec {
        match self {
            StockMovementReason::OpeningBalance => ReasonSpec::OpeningBalance,
            StockMovementReason::Adjustment => ReasonSpec::Adjustment,
            StockMovementReason::Damage => ReasonSpec::Damage,
            StockMovementReason::Loss => ReasonSpec::Loss,
            StockMovementReason::Sale => ReasonSpec::Sale,
            StockMovementReason::Refund => ReasonSpec::Refund,
            StockMovementReason::PurchaseReceipt => ReasonSpec::PurchaseReceipt,
            StockMovementReason::Transfer => ReasonSpec::Transfer,
            StockMovementReason::Other(s) => ReasonSpec::Other(s@),
        }
    }
}

/// The stored code of a reason.
pub open spec fn reason_code(r: ReasonSpec) -> Seq<char> {
    match r {
        ReasonSpec::OpeningBalance => "opening_balance"@,
        ReasonSpec::Adjustment => "adjustment"@,
        ReasonSpec::Damage => "damage"@,
        ReasonSpec::Loss => "loss"@,
        ReasonSpec::Sale => "sale"@,
        ReasonSpec::Refund => "refund"@,
        ReasonSpec::PurchaseReceipt => "purchase_receipt"@,
        ReasonSpec::Transfer => "transfer"@,
        ReasonSpec::Other(s) => s,
    }
}

/// Reasons a movement may be posted with.
pub open spec fn is_mutation(r: ReasonSpec) -> bool {
    r is OpeningBalance || r is Adjustment || r is Damage || r is Loss
}

/// Typed errors of the stock ledger.
#[derive(Debug, PartialEq, Eq)]
pub enum StockLedgerError {
    Validation(String),
    NotFound(String),
    InsufficientStock { requested_milli: i64, available_milli: i64 },
    IdempotencyConflict(String),
    InvalidReason(String),
    InvalidQuantity(String),
    InvalidLocation(String),
    InvalidBin(String),
    InvalidBatch(String),
    InvalidSerial(String),
    BranchMismatch(String),
    VariantMismatch(String),
    Database(String),
}

/// Mathematical image of a `StockLedgerError`.
pub enum LedgerFault {
    Validation(Seq<char>),
    NotFound(Seq<char>),
    InsufficientStock { requested_milli: int, available_milli: int },
    IdempotencyConflict(Seq<char>),
    InvalidReason(Seq<char>),
    InvalidQuantity(Seq<char>),
    InvalidLocation(Seq<char>),
    InvalidBin(Seq<char>),
    InvalidBatch(Seq<char>),
    InvalidSerial(Seq<char>),
    BranchMismatch(Seq<char>),
    VariantMismatch(Seq<char>),
    Database(Seq<char>),
}

impl View for StockLedgerError {
    type V = LedgerFault;

    open spec fn view(&self) -> LedgerFault {
        match self {
            StockLedgerError::Validation(m) => LedgerFault::Validation(m@),
            StockLedgerError::NotFound(m) => LedgerFault::NotFound(m@),
            StockLedgerError::InsufficientStock { requested_milli, available_milli } => {
                LedgerFault::InsufficientStock {
                    requested_milli: *requested_milli as int,
                    available_milli: *available_milli as int,
                }
            },
            StockLedgerError::IdempotencyConflict(m) => LedgerFault::IdempotencyConflict(m@),
            StockLedgerError::InvalidReason(m) => LedgerFault::InvalidReason(m@),
            StockLedgerError::InvalidQuantity(m) => LedgerFault::InvalidQuantity(m@),
            StockLedgerError::InvalidLocation(m) => LedgerFault::InvalidLocation(m@),
            StockLedgerError::InvalidBin(m) => LedgerFault::InvalidBin(m@),
            StockLedgerError::InvalidBatch(m) => LedgerFault::InvalidBatch(m@),
            StockLedgerError::InvalidSerial(m) => LedgerFault::InvalidSerial(m@),
            StockLedgerError::BranchMismatch(m) => LedgerFault::BranchMismatch(m@),
            StockLedgerError::VariantMismatch(m) => LedgerFault::VariantMismatch(m@),
            StockLedgerError::Database(m) => LedgerFault::Database(m@),
        }
    }
}

/// Whether a result agrees with a specified outcome (success values compared by view).
pub open spec fn ledger_agrees<T: View>(r: Result<T, StockLedgerError>, s: Result<T::V, LedgerFault>) -> bool {
    match s {
        Ok(v) => r matches Ok(x) && x@ == v,
        Err(f) => r matches Err(e) && e@ == f,
    }
}

/// Message of a reason that may not be posted.
pub open spec fn invalid_reason_msg(code: Seq<char>) -> Seq<char> {
    "Invalid movement reason '"@ + code + "'. Allowed: opening_balance, adjustment, damage, loss"@
}

/// What `validate_delta` decides: a postable reason, a non-zero delta, positive for opening
/// balances and negative for damage and loss.
pub open spec fn delta_spec(r: ReasonSpec, delta: int) -> Result<(), LedgerFault> {
    if !is_mutation(r) {
        Err(LedgerFault::InvalidReason(invalid_reason_msg(reason_code(r))))
    } else if delta == 0 {
        Err(LedgerFault::InvalidQuantity("Quantity delta cannot be zero"@))
    } else if r is OpeningBalance && delta <= 0 {
        Err(LedgerFault::InvalidQuantity("opening_balance reason requires positive quantity_delta_milli"@))
    } else if r is Damage && delta >= 0 {
        Err(LedgerFault::InvalidQuantity("damage reason requires negative quantity_delta_milli"@))
    } else if r is Loss && delta >= 0 {
        Err(LedgerFault::InvalidQuantity("loss reason requires negative quantity_delta_milli"@))
    } else {
        Ok(())
    }
}

/// Known reasons by their lower-case stored code (`purchase` is an older spelling).
pub open spec fn persisted_known(lower: Seq<char>) -> Option<ReasonSpec> {
    if lower == "opening_balance"@ {
        Some(ReasonSpec::OpeningBalance)
    } else if lower == "adjustment"@ {
        Some(ReasonSpec::Adjustment)
    } else if lower == "damage"@ {
        Some(ReasonSpec::Damage)
    } else if lower == "loss"@ {
        Some(ReasonSpec::Loss)
    } else if lower == "sale"@ {
        Some(ReasonSpec::Sale)
    } else if lower == "refund"@ {
        Some(ReasonSpec::Refund)
    } else if lower == "purchase"@ || lower == "purchase_receipt"@ {
        Some(ReasonSpec::PurchaseReceipt)
    } else if lower == "transfer"@ {
        Some(ReasonSpec::Transfer)
    } else {
        None
    }
}

/// The text a ledger error is displayed with.
pub open spec fn ledger_error_text(f: LedgerFault) -> Seq<char> {
    match f {
        LedgerFault::Validation(m) => "Validation error: "@ + m,
        LedgerFault::NotFound(m) => "Entity not found: "@ + m,
        LedgerFault::InsufficientStock { requested_milli, available_milli } => "Insufficient stock: requested "@
            + int_decimal(requested_milli) + " milli, available "@ + int_decimal(available_milli) + " milli"@,
        LedgerFault::IdempotencyConflict(m) => "Idempotency conflict: "@ + m,
        LedgerFault::InvalidReason(m) => "Invalid reason: "@ + m,
        LedgerFault::InvalidQuantity(m) => "Invalid quantity: "@ + m,
        LedgerFault::InvalidLocation(m) => "Invalid location: "@ + m,
        LedgerFault::InvalidBin(m) => "Invalid bin: "@ + m,
        LedgerFault::InvalidBatch(m) => "Invalid batch: "@ + m,
        LedgerFault::InvalidSerial(m) => "Invalid serial: "@ + m,
        LedgerFault::BranchMismatch(m) => "Branch mismatch: "@ + m,
        LedgerFault::VariantMismatch(m) => "Variant mismatch: "@ + m,
        LedgerFault::Database(m) => "Database error: "@ + m,
    }
}

impl StockLedgerError {
    /// The display text of this error.
    pub fn describe(&self) -> (r: String)
        ensures
            r@ == ledger_error_text(self@),
    {
        match self {
            StockLedgerError::Validation(m) => concat2("Validation error: ", m.as_str()),
            StockLedgerError::NotFound(m) => concat2("Entity not found: ", m.as_str()),
            StockLedgerError::InsufficientStock { requested_milli, available_milli } => {
                let mut r = String::from_str("Insufficient stock: requested ");
                push_i64_decimal(&mut r, *requested_milli);
                push_str(&mut r, " milli, available ");
                push_i64_decimal(&mut r, *available_milli);
                push_str(&mut r, " milli");
                r
            },
            StockLedgerError::IdempotencyConflict(m) => concat2("Idempotency conflict: ", m.as_str()),
            StockLedgerError::InvalidReason(m) => concat2("Invalid reason: ", m.as_str()),
            StockLedgerError::InvalidQuantity(m) => concat2("Invalid quantity: ", m.as_str()),
            StockLedgerError::InvalidLocation(m) => concat2("Invalid location: ", m.as_str()),
            StockLedgerError::InvalidBin(m) => concat2("Invalid bin: ", m.as_str()),
            StockLedgerError::InvalidBatch(m) => concat2("Invalid batch: ", m.as_str()),
            StockLedgerError::InvalidSerial(m) => concat2("Invalid serial: ", m.as_str()),
            StockLedgerError::BranchMismatch(m) => concat2("Branch mismatch: ", m.as_str()),
            StockLedgerError::VariantMismatch(m) => concat2("Variant mismatch: ", m.as_str()),
            StockLedgerError::Database(m) => concat2("Database error: ", m.as_str()),
        }
    }
}

/// Postable reasons by their lower-case code.
pub open spec fn mutation_from_code(lower: Seq<char>) -> Option<ReasonSpec> {
    if lower == "opening_balance"@ {
        Some(ReasonSpec::OpeningBalance)
    } else if lower == "adjustment"@ {
        Some(ReasonSpec::Adjustment)
    } else if lower == "damage"@ {
        Some(ReasonSpec::Damage)
    } else if lower == "loss"@ {
        Some(ReasonSpec::Loss)
    } else {
        None
    }
}

impl StockMovementReason {
    /// The stored code of this reason.
    pub fn as_str(&self) -> (r: &str)
        ensures
            r@ == reason_code(self@),
    {
        match self {
            StockMovementReason::OpeningBalance => "opening_balance",
            StockMovementReason::Adjustment => "adjustment",
            StockMovementReason::Damage => "damage",
            StockMovementReason::Loss => "loss",
            StockMovementReason::Sale => "sale",
            StockMovementReason::Refund => "refund",
            StockMovementReason::PurchaseReceipt => "purchase_receipt",
            StockMovementReason::Transfer => "transfer",
            StockMovementReason::Other(s) => s.as_str(),
        }
    }

    /// Whether this reason may be posted (opening balance, adjustment, damage, loss).
    pub fn is_mutation_reason(&self) -> (r: bool)
        ensures
            r == is_mutation(self@),
    {
        match self {
            StockMovementReason::OpeningBalance | StockMovementReason::Adjustment
            | StockMovementReason::Damage | StockMovementReason::Loss => true,
            _ => false,
        }
    }

    /// Refuses reasons that may not be posted.
    pub fn validate_mutation(&self) -> (r: Result<(), StockLedgerError>)
        ensures
            is_mutation(self@) ==> r is Ok,
            !is_mutation(self@) ==> (r matches Err(e) && e@ == LedgerFault::InvalidReason(
                invalid_reason_msg(reason_code(self@)),
            )),
    {
        if !self.is_mutation_reason() {
            return Err(
                StockLedgerError::InvalidReason(
                    concat3(
                        "Invalid movement reason '",
                        self.as_str(),
                        "'. Allowed: opening_balance, adjustment, damage, loss",
                    ),
                ),
            );
        }
        Ok(())
    }

    /// Validates the direction of a quantity delta for this reason.
    pub fn validate_delta(&self, delta: i64) -> (r: Result<(), StockLedgerError>)
        ensures
            ledger_agrees(r, delta_spec(self@, delta as int)),
    {
        match self.validate_mutation() {
            Err(e) => {
                return Err(e);
            },
            Ok(()) => {},
        }
        if delta == 0 {
            return Err(
                StockLedgerError::InvalidQuantity(String::from_str("Quantity delta cannot be zero")),
            );
        }
        match self {
            StockMovementReason::OpeningBalance => {
                if delta <= 0 {
                    Err(
                        StockLedgerError::InvalidQuantity(
                            String::from_str(
                                "opening_balance reason requires positive quantity_delta_milli",
                            ),
                        ),
                    )
                } else {
                    Ok(())
                }
            },
            StockMovementReason::Damage => {
                if delta >= 0 {
                    Err(
                        StockLedgerError::InvalidQuantity(
                            String::from_str("damage reason requires negative quantity_delta_milli"),
                        ),
                    )
                } else {
                    Ok(())
                }
            },
            StockMovementReason::Loss => {
                if delta >= 0 {
                    Err(
                        StockLedgerError::InvalidQuantity(
                            String::from_str("loss reason requires negative quantity_delta_milli"),
                        ),
                    )
                } else {
                    Ok(())
                }
            },
            _ => Ok(()),
        }
    }

    /// Reads a stored reason: known codes (ASCII case and surrounding whitespace ignored),
    /// else `Other` with the trimmed text.
    pub fn from_persisted_str(s: &str) -> (r: Self)
        ensures
            match persisted_known(ascii_lower_seq(trim_seq(s@))) {
                Some(k) => r@ == k,
                None => r@ == ReasonSpec::Other(trim_seq(s@)),
            },
    {
        let t = trim(s);
        let lower = to_ascii_lower(t);
        let l = lower.as_str();
        if str_eq(l, "opening_balance") {
            StockMovementReason::OpeningBalance
        } else if str_eq(l, "adjustment") {
            StockMovementReason::Adjustment
        } else if str_eq(l, "damage") {
            StockMovementReason::Damage
        } else if str_eq(l, "loss") {
            StockMovementReason::Loss
        } else if str_eq(l, "sale") {
            StockMovementReason::Sale
        } else if str_eq(l, "refund") {
            StockMovementReason::Refund
        } else if str_eq(l, "purchase") || str_eq(l, "purchase_receipt") {
            StockMovementReason::PurchaseReceipt
        } else if str_eq(l, "transfer") {
            StockMovementReason::Transfer
        } else {
            StockMovementReason::Other(owned(t))
        }
    }

    /// Parses a postable reason (ASCII case and surrounding whitespace ignored); historical
    /// and unknown reasons are refused.
    pub fn from_str(s: &str) -> (r: Result<Self, StockLedgerError>)
        ensures
            match mutation_from_code(ascii_lower_seq(trim_seq(s@))) {
                Some(k) => r matches Ok(x) && x@ == k,
                None => r matches Err(e) && e@ == LedgerFault::InvalidReason(
                    invalid_reason_msg(ascii_lower_seq(trim_seq(s@))),
                ),
            },
    {
        let lower = to_ascii_lower(trim(s));
        let l = lower.as_str();
        if str_eq(l, "opening_balance") {
            Ok(StockMovementReason::OpeningBalance)
        } else if str_eq(l, "adjustment") {
            Ok(StockMovementReason::Adjustment)
        } else if str_eq(l, "damage") {
            Ok(StockMovementReason::Damage)
        } else if str_eq(l, "loss") {
            Ok(StockMovementReason::Loss)
        } else {
            Err(
                StockLedgerError::InvalidReason(
                    concat3(
                        "Invalid movement reason '",
                        l,
                        "'. Allowed: opening_balance, adjustment, damage, loss",
                    ),
                ),
            )
        }
    }

    /// A copy of this reason.
    pub fn duplicate(&self) -> (r: Self)
        ensures
            r@ == self@,
    {
        match self {
            StockMovementReason::OpeningBalance => StockMovementReason::OpeningBalance,
            StockMovementReason::Adjustment => StockMovementReason::Adjustment,
            StockMovementReason::Damage => StockMovementReason::Damage,
            StockMovementReason::Loss => StockMovementReason::Loss,
            StockMovementReason::Sale => StockMovementReason::Sale,
            StockMovementReason::Refund => StockMovementReason::Refund,
            StockMovementReason::PurchaseReceipt => StockMovementReason::PurchaseReceipt,
            StockMovementReason::Transfer => StockMovementReason::Transfer,
            StockMovementReason::Other(s) => StockMovementReason::Other(owned(s.as_str())),
        }
    }
}

/// A movement that passes `validate_delta` goes in the direction its reason demands.
pub proof fn lemma_delta_direction(r: ReasonSpec, delta: int)
    requires
        delta_spec(r, delta) is Ok,
    ensures
        is_mutation(r),
        delta != 0,
        r is OpeningBalance ==> delta > 0,
        (r is Damage || r is Loss) ==> delta < 0,
{
}

/// Exactly these movements may be posted: an opening balance that adds stock, an adjustment
/// either way, and damage or loss that removes stock. Sales, refunds, purchase receipts,
/// transfers and other reasons are never posted here.
pub proof fn lemma_postable_movements(r: ReasonSpec, delta: int)
    ensures
        delta_spec(r, delta) is Ok <==> {
            ||| r is OpeningBalance && delta > 0
            ||| r is Adjustment && delta != 0
            ||| (r is Damage || r is Loss) && delta < 0
        },
{
}

/// Only the four postable reasons can be posted: each parses back from its own code, the
/// historical reasons (sale, refund, purchase receipt, transfer) never parse as postable,
/// and whatever parses is postable.
pub proof fn lemma_only_postable_reasons_parse(r: ReasonSpec, code: Seq<char>)
    ensures
        is_mutation(r) ==> mutation_from_code(reason_code(r)) == Some(r),
        (r is Sale || r is Refund || r is PurchaseReceipt || r is Transfer) ==> mutation_from_code(reason_code(r)) is None,
        mutation_from_code(code) matches Some(x) ==> is_mutation(x),
{
    reveal_strlit("opening_balance");
    reveal_strlit("adjustment");
    reveal_strlit("damage");
    reveal_strlit("loss");
    reveal_strlit("sale");
    reveal_strlit("refund");
    reveal_strlit("purchase_receipt");
    reveal_strlit("transfer");
    // codes of equal length differ in their first letter
    assert("loss"@[0] != "sale"@[0]);
    assert("damage"@[0] != "refund"@[0]);
    assert("opening_balance"@.len() != "adjustment"@.len());
    match r {
        ReasonSpec::Sale => {
            assert(reason_code(r)[0] != "loss"@[0]);
        },
        ReasonSpec::Refund => {
            assert(reason_code(r)[0] != "damage"@[0]);
        },
        _ => {},
    }
}

/// A stored reason code is read back as its reason, also when padded with whitespace or
/// written in ASCII upper case, as `from_persisted_str` reads it.
pub proof fn lemma_persisted_reason_read_back(r: ReasonSpec, pre: Seq<char>, post: Seq<char>)
    requires
        !(r is Other),
        forall|i: int| 0 <= i < pre.len() ==> is_ws(#[trigger] pre[i]),
        forall|i: int| 0 <= i < post.len() ==> is_ws(#[trigger] post[i]),
    ensures
        persisted_known(ascii_lower_seq(trim_seq(pre + reason_code(r) + post))) == Some(r),
        persisted_known(ascii_lower_seq(trim_seq(pre + ascii_upper_seq(reason_code(r)) + post))) == Some(r),
{
    reveal_strlit("opening_balance");
    reveal_strlit("adjustment");
    reveal_strlit("damage");
    reveal_strlit("loss");
    reveal_strlit("sale");
    reveal_strlit("refund");
    reveal_strlit("purchase");
    reveal_strlit("purchase_receipt");
    reveal_strlit("transfer");
    assert(is_lower_code(reason_code(r)));
    lemma_lower_code_read_back(pre, reason_code(r), post);
    // codes of equal length differ in their first letter
    assert("loss"@[0] != "sale"@[0]);
    assert("damage"@[0] != "refund"@[0]);
    assert("purchase"@[0] != "transfer"@[0]);
    match r {
        ReasonSpec::Sale => {
            assert(reason_code(r)[0] != "loss"@[0]);
        },
        ReasonSpec::Refund => {
            assert(reason_code(r)[0] != "damage"@[0]);
        },
        ReasonSpec::Transfer => {
            assert(reason_code(r)[0] != "purchase"@[0]);
        },
        _ => {},
    }
}

// ---------------------------------------------------------------- records

/// An immutable stock movement of the ledger.
#[derive(Debug, Clone, PartialEq, Eq)]
pub struct StockMovement {
    pub id: String,
    pub branch_id: String,
    pub product_id: String,
    pub variant_id: Option<String>,
    pub quantity_delta_milli: i64,
    pub quantity_before_milli: Option<i64>,
    pub quantity_after_milli: Option<i64>,
    pub reason: StockMovementReason,
    pub source_type: Option<String>,
    pub source_id: Option<String>,
    pub location_id: Option<String>,
    pub bin_id: Option<String>,
    pub batch_id: Option<String>,
    pub serial_id: Option<String>,
    pub user_id: Option<String>,
    pub created_at: String,
}

/// A spatially attributed stock balance.
#[derive(Debug, Clone, PartialEq, Eq)]
pub struct LocationInventory {
    pub id: String,
    pub branch_id: String,
    pub location_id: String,
    pub product_id: String,
    pub bin_id: Option<String>,
    pub variant_id: Option<String>,
    pub batch_id: Option<String>,
    pub quantity_milli: i64,
    pub created_at: String,
    pub updated_at: String,
}

/// Aggregate, spatially allocated and unallocated stock of a product.
#[derive(Debug, Clone, PartialEq, Eq)]
pub struct StockBalanceSummary {
    pub branch_id: String,
    pub product_id: String,
    pub variant_id: Option<String>,
    pub aggregate_quantity_milli: i64,
    pub allocated_spatial_milli: i64,
    pub unallocated_milli: i64,
}

/// Request to post a stock movement.
#[derive(Debug, Clone, PartialEq, Eq)]
pub struct PostMovementInput {
    pub branch_id: String,
    pub product_id: String,
    pub variant_id: Option<String>,
    pub location_id: String,
    pub bin_id: Option<String>,
    pub batch_id: Option<String>,
    pub serial_id: Option<String>,
    pub quantity_delta_milli: i64,
    pub reason: StockMovementReason,
    pub source_type: Option<String>,
    pub source_id: Option<String>,
    pub user_id: Option<String>,
    pub idempotency_key: Option<String>,
}

/// Filter of the movement history.
#[derive(Debug, Clone, PartialEq, Eq)]
pub struct StockMovementFilter {
    pub branch_id: String,
    pub product_id: Option<String>,
    pub variant_id: Option<String>,
    pub location_id: Option<String>,
    pub bin_id: Option<String>,
    pub batch_id: Option<String>,
    pub serial_id: Option<String>,
    pub reason: Option<StockMovementReason>,
    pub limit: Option<i64>,
    pub offset: Option<i64>,
}

/// Filter of spatial balances.
#[derive(Debug, Clone, PartialEq, Eq)]
pub struct LocationInventoryFilter {
    pub branch_id: String,
    pub location_id: Option<String>,
    pub bin_id: Option<String>,
    pub product_id: Option<String>,
    pub variant_id: Option<String>,
    pub batch_id: Option<String>,
}

/// The single write authority of stock quantities.
pub struct StockLedgerService;

/// What `get_stock_balance` reports from the aggregate quantity (0 when no row) and the
/// sum of the spatial balances.
pub fn balance_summary(
    branch_id: &str,
    product_id: &str,
    variant_id: Option<&str>,
    aggregate_quantity_milli: i64,
    allocated_spatial_milli: i64,
) -> (r: StockBalanceSummary)
    requires
        i64::MIN <= aggregate_quantity_milli - allocated_spatial_milli <= i64::MAX,
    ensures
        r.branch_id@ == trim_seq(branch_id@),
        r.product_id@ == trim_seq(product_id@),
        opt_string_view(r.variant_id) == norm_opt(opt_str_view(variant_id)),
        r.aggregate_quantity_milli == aggregate_quantity_milli,
        r.allocated_spatial_milli == allocated_spatial_milli,
        r.unallocated_milli == aggregate_quantity_milli - allocated_spatial_milli,
{
    let v: Option<String> = match variant_id {
        Some(s) => {
            let t = trim(s);
            if char_count(t) == 0 {
                None
            } else {
                Some(owned(t))
            }
        },
        None => None,
    };
    StockBalanceSummary {
        branch_id: owned(trim(branch_id)),
        product_id: owned(trim(product_id)),
        variant_id: v,
        aggregate_quantity_milli,
        allocated_spatial_milli,
        unallocated_milli: aggregate_quantity_milli - allocated_spatial_milli,
    }
}

/// The page size of a history query: 100 by default, clamped to 1..=1000.
pub fn movement_page_limit(limit: Option<i64>) -> (r: i64)
    ensures
        r == match limit {
            None => 100,
            Some(l) => if l < 1 {
                1
            } else if l > 1000 {
                1000
            } else {
                l
            },
        },
{
    match limit {
        None => 100,
        Some(l) => {
            if l < 1 {
                1
            } else if l > 1000 {
                1000
            } else {
                l
            }
        },
    }
}

/// The offset of a history query, never negative.
pub fn movement_page_offset(offset: i64) -> (r: i64)
    ensures
        r == if offset < 0 {
            0
        } else {
            offset
        },
{
    if offset < 0 {
        0
    } else {
        offset
    }
}

} // verus!
