//! Stock ledger command records, their translation into ledger inputs and filters, and the
//! text of ledger errors.
use crate::stock_ledger::{
    invalid_reason_msg, ledger_error_text, mutation_from_code, persisted_known, LedgerFault,
    LocationInventoryFilter, PostMovementInput, ReasonSpec, StockLedgerError, StockMovementFilter,
    StockMovementReason,
};
use crate::text::{ascii_lower_seq, trim_seq};
use vstd::prelude::*;

verus! {

/// IPC Request DTO for posting an atomic stock ledger movement.
#[derive(Debug, Clone)]
pub struct PostMovementRequest {
    pub branch_id: String,
    pub product_id: String,
    pub variant_id: Option<String>,
    pub location_id: String,
    pub bin_id: Option<String>,
    pub batch_id: Option<String>,
    pub serial_id: Option<String>,
    pub quantity_delta_milli: i64,
    pub reason: String,
    pub source_type: Option<String>,
    pub source_id: Option<String>,
    pub idempotency_key: Option<String>,
}

/// IPC Request DTO for filtering location inventory.
#[derive(Debug, Clone, Default)]
pub struct LocationInventoryFilterRequest {
    pub branch_id: String,
    pub location_id: Option<String>,
    pub bin_id: Option<String>,
    pub product_id: Option<String>,
    pub variant_id: Option<String>,
    pub batch_id: Option<String>,
}

/// IPC Request DTO for filtering stock movements.
#[derive(Debug, Clone, Default)]
pub struct StockMovementFilterRequest {
    pub branch_id: String,
    pub product_id: Option<String>,
    pub variant_id: Option<String>,
    pub location_id: Option<String>,
    pub bin_id: Option<String>,
    pub batch_id: Option<String>,
    pub serial_id: Option<String>,
    pub reason: Option<String>,
    pub limit: Option<i64>,
    pub offset: Option<i64>,
}

/// The text the user interface shows for a storage failure; the raw database message is
/// never shown.
pub open spec fn storage_failure_text() -> Seq<char> {
    "Database error: the storage operation failed"@
}

/// The text the user interface shows for a ledger error: the error's own text, except for a
/// storage failure, which is shown as `storage_failure_text`.
pub open spec fn ledger_ui_text(f: LedgerFault) -> Seq<char> {
    match f {
        LedgerFault::Database(_) => storage_failure_text(),
        _ => ledger_error_text(f),
    }
}

/// Maps a ledger error to the text reported to the user interface, keeping the distinctions
/// between errors without passing on raw database messages.
pub fn map_stock_ledger_error(err: StockLedgerError) -> (r: String)
    ensures
        r@ == ledger_ui_text(err@),
{
    match &err {
        StockLedgerError::Database(_) => String::from_str("Database error: the storage operation failed"),
        _ => err.describe(),
    }
}

/// The reason a stored or requested reason code stands for (see `from_persisted_str`).
pub open spec fn persisted_reason(code: Seq<char>) -> ReasonSpec {
    match persisted_known(ascii_lower_seq(trim_seq(code))) {
        Some(k) => k,
        None => ReasonSpec::Other(trim_seq(code)),
    }
}

/// The ledger input of a posting request made by the signed-in user: the request's fields,
/// its reason parsed as a postable reason, and the user bound as the author. A reason that is
/// not postable is refused with the ledger's text for it.
pub fn movement_input(request: PostMovementRequest, user_id: String) -> (r: Result<PostMovementInput, String>)
    ensures
        match mutation_from_code(ascii_lower_seq(trim_seq(request.reason@))) {
            Some(k) => r matches Ok(i) && {
                &&& i.reason@ == k
                &&& i.branch_id == request.branch_id
                &&& i.product_id == request.product_id
                &&& i.variant_id == request.variant_id
                &&& i.location_id == request.location_id
                &&& i.bin_id == request.bin_id
                &&& i.batch_id == request.batch_id
                &&& i.serial_id == request.serial_id
                &&& i.quantity_delta_milli == request.quantity_delta_milli
                &&& i.source_type == request.source_type
                &&& i.source_id == request.source_id
                &&& i.user_id == Some(user_id)
                &&& i.idempotency_key == request.idempotency_key
            },
            None => r matches Err(m) && m@ == ledger_ui_text(
                LedgerFault::InvalidReason(invalid_reason_msg(ascii_lower_seq(trim_seq(request.reason@)))),
            ),
        },
{
    let reason = match StockMovementReason::from_str(request.reason.as_str()) {
        Ok(x) => x,
        Err(e) => {
            return Err(map_stock_ledger_error(e));
        },
    };
    Ok(PostMovementInput {
        branch_id: request.branch_id,
        product_id: request.product_id,
        variant_id: request.variant_id,
        location_id: request.location_id,
        bin_id: request.bin_id,
        batch_id: request.batch_id,
        serial_id: request.serial_id,
        quantity_delta_milli: request.quantity_delta_milli,
        reason,
        source_type: request.source_type,
        source_id: request.source_id,
        user_id: Some(user_id),
        idempotency_key: request.idempotency_key,
    })
}

/// The spatial-balance filter of a request: the same fields.
pub fn location_inventory_filter(request: LocationInventoryFilterRequest) -> (r: LocationInventoryFilter)
    ensures
        r.branch_id == request.branch_id,
        r.location_id == request.location_id,
        r.bin_id == request.bin_id,
        r.product_id == request.product_id,
        r.variant_id == request.variant_id,
        r.batch_id == request.batch_id,
{
    LocationInventoryFilter {
        branch_id: request.branch_id,
        location_id: request.location_id,
        bin_id: request.bin_id,
        product_id: request.product_id,
        variant_id: request.variant_id,
        batch_id: request.batch_id,
    }
}

/// The movement-history filter of a request: the same fields, with the reason read as a
/// stored reason code (any code is accepted; unknown ones stand for themselves).
pub fn movement_filter(request: StockMovementFilterRequest) -> (r: StockMovementFilter)
    ensures
        r.branch_id == request.branch_id,
        r.product_id == request.product_id,
        r.variant_id == request.variant_id,
        r.location_id == request.location_id,
        r.bin_id == request.bin_id,
        r.batch_id == request.batch_id,
        r.serial_id == request.serial_id,
        r.limit == request.limit,
        r.offset == request.offset,
        match request.reason {
            None => r.reason is None,
            Some(code) => r.reason matches Some(x) && x@ == persisted_reason(code@),
        },
{
    let reason = match &request.reason {
        Some(code) => Some(StockMovementReason::from_persisted_str(code.as_str())),
        None => None,
    };
    StockMovementFilter {
        branch_id: request.branch_id,
        product_id: request.product_id,
        variant_id: request.variant_id,
        location_id: request.location_id,
        bin_id: request.bin_id,
        batch_id: request.batch_id,
        serial_id: request.serial_id,
        reason,
        limit: request.limit,
        offset: request.offset,
    }
}

} // verus!
