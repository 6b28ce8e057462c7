//! Stock transfer command records and the text of transfer errors.
use super::stock_ledger::storage_failure_text;
use crate::text::{concat2, concat3, int_decimal, push_i64_decimal, push_str};
use vstd::prelude::*;

verus! {

/// One line of a transfer request: a product (or variant, batch or unit) and its quantity.
#[derive(Debug, Clone, PartialEq, Eq)]
pub struct CreateTransferItemInput {
    pub product_id: String,
    pub variant_id: Option<String>,
    pub batch_id: Option<String>,
    pub serial_id: Option<String>,
    pub quantity_milli: i64,
}

/// Typed errors of the transfer service.
#[derive(Debug, Clone, PartialEq, Eq)]
pub enum TransferError {
    Validation(String),
    NotFound(String),
    TopologyMismatch(String),
    NoOpRelocation(String),
    InvalidLocation(String),
    InvalidBin(String),
    BranchMismatch(String),
    VariantMismatch(String),
    InsufficientStock { product_id: String, requested_milli: i64, available_milli: i64 },
    InvalidStatusTransition { current: String, attempted: String, reason: String },
    InvalidBatch(String),
    InvalidBatchStatus(String),
    InvalidSerial(String),
    InvalidSerialStatus(String),
    IdempotencyConflict(String),
    Unauthorized(String),
    Database(String),
}

/// IPC Request DTO for creating a new stock transfer document.
#[derive(Debug, Clone)]
pub struct CreateStockTransferRequest {
    pub transfer_type: String,
    pub source_branch_id: String,
    pub destination_branch_id: String,
    pub source_location_id: String,
    pub destination_location_id: String,
    pub source_bin_id: Option<String>,
    pub destination_bin_id: Option<String>,
    pub notes: Option<String>,
    pub items: Vec<CreateTransferItemInput>,
    pub idempotency_key: Option<String>,
}

/// IPC Request DTO for dispatching an inter-branch transfer.
#[derive(Debug, Clone)]
pub struct DispatchStockTransferRequest {
    pub transfer_id: String,
    pub idempotency_key: Option<String>,
}

/// IPC Request DTO for receiving an in-transit inter-branch transfer.
#[derive(Debug, Clone)]
pub struct ReceiveStockTransferRequest {
    pub transfer_id: String,
    pub destination_location_id: Option<String>,
    pub destination_bin_id: Option<String>,
    pub idempotency_key: Option<String>,
}

/// IPC Request DTO for cancelling a draft transfer.
#[derive(Debug, Clone)]
pub struct CancelStockTransferRequest {
    pub transfer_id: String,
}

/// IPC Request DTO for instant intra-branch relocation.
#[derive(Debug, Clone)]
pub struct InstantIntraBranchTransferRequest {
    pub branch_id: String,
    pub source_location_id: String,
    pub destination_location_id: String,
    pub source_bin_id: Option<String>,
    pub destination_bin_id: Option<String>,
    pub notes: Option<String>,
    pub items: Vec<CreateTransferItemInput>,
    pub idempotency_key: Option<String>,
}

/// IPC Request DTO for filtering stock transfer documents.
#[derive(Debug, Clone, Default)]
pub struct ListStockTransfersRequest {
    pub branch_id: Option<String>,
    pub source_branch_id: Option<String>,
    pub destination_branch_id: Option<String>,
    pub transfer_type: Option<String>,
    pub status: Option<String>,
    pub limit: Option<i64>,
    pub offset: Option<i64>,
}

/// The text a transfer error is reported with at the command boundary; a storage failure is
/// shown as `storage_failure_text`, without the raw database message.
pub open spec fn transfer_error_text(e: TransferError) -> Seq<char> {
    match e {
        TransferError::Validation(m) => "Validation error: "@ + m@,
        TransferError::NotFound(m) => "Entity not found: "@ + m@,
        TransferError::TopologyMismatch(m) => "Topology mismatch: "@ + m@,
        TransferError::NoOpRelocation(m) => "No-op relocation error: "@ + m@,
        TransferError::InvalidLocation(m) => "Invalid location: "@ + m@,
        TransferError::InvalidBin(m) => "Invalid bin: "@ + m@,
        TransferError::BranchMismatch(m) => "Branch mismatch: "@ + m@,
        TransferError::VariantMismatch(m) => "Variant mismatch: "@ + m@,
        TransferError::InsufficientStock { product_id, requested_milli, available_milli } => "Insufficient stock for product '"@
            + product_id@ + "': requested "@ + int_decimal(requested_milli as int) + " milli, available "@
            + int_decimal(available_milli as int) + " milli"@,
        TransferError::InvalidStatusTransition { current, attempted, reason } => "Invalid status transition from '"@
            + current@ + "' to '"@ + attempted@ + "': "@ + reason@,
        TransferError::InvalidBatch(m) => "Invalid batch: "@ + m@,
        TransferError::InvalidBatchStatus(m) => "Invalid batch status: "@ + m@,
        TransferError::InvalidSerial(m) => "Invalid serial: "@ + m@,
        TransferError::InvalidSerialStatus(m) => "Invalid serial status: "@ + m@,
        TransferError::IdempotencyConflict(m) => "Idempotency conflict: "@ + m@,
        TransferError::Unauthorized(m) => "Unauthorized: "@ + m@,
        TransferError::Database(_) => storage_failure_text(),
    }
}

/// Maps a transfer error to the text reported to the user interface.
pub fn map_transfer_error(err: TransferError) -> (r: String)
    ensures
        r@ == transfer_error_text(err),
{
    match &err {
        TransferError::Validation(m) => concat2("Validation error: ", m.as_str()),
        TransferError::NotFound(m) => concat2("Entity not found: ", m.as_str()),
        TransferError::TopologyMismatch(m) => concat2("Topology mismatch: ", m.as_str()),
        TransferError::NoOpRelocation(m) => concat2("No-op relocation error: ", m.as_str()),
        TransferError::InvalidLocation(m) => concat2("Invalid location: ", m.as_str()),
        TransferError::InvalidBin(m) => concat2("Invalid bin: ", m.as_str()),
        TransferError::BranchMismatch(m) => concat2("Branch mismatch: ", m.as_str()),
        TransferError::VariantMismatch(m) => concat2("Variant mismatch: ", m.as_str()),
        TransferError::InsufficientStock { product_id, requested_milli, available_milli } => {
            let mut r = concat3("Insufficient stock for product '", product_id.as_str(), "': requested ");
            push_i64_decimal(&mut r, *requested_milli);
            push_str(&mut r, " milli, available ");
            push_i64_decimal(&mut r, *available_milli);
            push_str(&mut r, " milli");
            r
        },
        TransferError::InvalidStatusTransition { current, attempted, reason } => {
            let mut r = concat3("Invalid status transition from '", current.as_str(), "' to '");
            push_str(&mut r, attempted.as_str());
            push_str(&mut r, "': ");
            push_str(&mut r, reason.as_str());
            r
        },
        TransferError::InvalidBatch(m) => concat2("Invalid batch: ", m.as_str()),
        TransferError::InvalidBatchStatus(m) => concat2("Invalid batch status: ", m.as_str()),
        TransferError::InvalidSerial(m) => concat2("Invalid serial: ", m.as_str()),
        TransferError::InvalidSerialStatus(m) => concat2("Invalid serial status: ", m.as_str()),
        TransferError::IdempotencyConflict(m) => concat2("Idempotency conflict: ", m.as_str()),
        TransferError::Unauthorized(m) => concat2("Unauthorized: ", m.as_str()),
        TransferError::Database(_) => String::from_str("Database error: the storage operation failed"),
    }
}

} // verus!
