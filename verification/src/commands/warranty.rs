//! Warranty command records.
use vstd::prelude::*;

verus! {

#[derive(Debug, Clone)]
pub struct RegisterInstanceWarrantyRequest {
    pub branch_id: String,
    pub serial_number_id: String,
    pub start_date: Option<String>,
    pub duration_months: Option<u32>,
    pub warranty_expires_at: Option<String>,
}

} // verus!
