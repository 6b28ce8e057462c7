//! Verified domain core of a point-of-sale and store-management system.
use vstd::prelude::*;

pub mod auth;
pub mod barcode;
pub mod batch;
pub mod branch;
pub mod category;
pub mod commands;
pub mod brand;
pub mod db;
pub mod licence;
pub mod location;
pub mod manufacturer;
pub mod organization;
pub mod permission;
pub mod product;
pub mod register;
pub mod rules;
pub mod serial;
pub mod stock;
pub mod stock_ledger;
pub mod text;

verus! {

} // verus!
