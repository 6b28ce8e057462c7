//! Command-boundary records and rules: sale totals and request checks, error texts of
//! the stock ledger and transfer services, and the request records of each command group.
use vstd::prelude::*;

pub mod auth;
pub mod barcode;
pub mod inventory;
pub mod licence;
pub mod sales;
pub mod stock;
pub mod stock_ledger;
pub mod transfer;
pub mod warranty;

verus! {

} // verus!
