//! Stock movement command records.
use vstd::prelude::*;

verus! {

#[derive(Debug, Clone)]
pub struct PostMovementInput {
    pub idempotency_key: String,
    pub branch_id: String,
    pub product_id: String,
    pub variant_id: Option<String>,
    pub location_id: String,
    pub bin_id: Option<String>,
    pub batch_id: Option<String>,
    pub serial_id: Option<String>,
    pub quantity_delta_milli: i64,
    pub reason: String,
}

} // verus!
