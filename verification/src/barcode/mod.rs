//! Barcode domain model: catalogue barcode records, the typed barcode error,
//! GS1 check digits, symbology validators and SKU / internal EAN-13 rules.
use vstd::prelude::*;

pub mod check_digit;
pub mod generator;
pub mod registry;
pub mod symbology;

pub use check_digit::{calculate_gs1_check_digit, verify_gs1_check_digit};
pub use generator::{sanitize_ean13_prefix, sanitize_sku_prefix, validate_sku};
pub use symbology::{
    detect_symbology, validate_barcode_symbology, validate_code128, validate_code39,
    validate_custom_barcode, validate_ean13, validate_ean8, validate_upc_a, validate_upc_e,
    BarcodeSymbology,
};

verus! {

/// Canonical barcode record of the `product_barcodes` registry.
#[derive(Debug, Clone, PartialEq, Eq)]
pub struct ProductBarcode {
    pub id: String,
    pub product_id: String,
    pub barcode: String,
    pub symbology: BarcodeSymbology,
    pub is_primary: bool,
    pub is_active: bool,
    pub created_at: String,
    pub updated_at: String,
}

/// Request to attach a barcode to a product.
#[derive(Debug, Clone)]
pub struct AddBarcodeRequest {
    pub product_id: String,
    pub barcode: String,
    pub symbology: Option<BarcodeSymbology>,
    pub is_primary: Option<bool>,
}

/// One disagreement between the legacy `products.barcode` mirror and the canonical primary barcode.
#[derive(Debug, Clone, PartialEq, Eq)]
pub struct BarcodeIntegrityMismatch {
    pub product_id: String,
    pub product_name: String,
    pub legacy_mirror: Option<String>,
    pub canonical_primary: Option<String>,
    pub description: String,
}

/// Typed errors of barcode validation and barcode repository operations.
#[derive(Debug, PartialEq, Eq)]
pub enum BarcodeError {
    Validation(String),
    NotFound(String),
    DuplicateBarcode(String),
    DuplicateSku(String),
    InvalidCheckDigit { expected: u8, actual: u8 },
    Database(String),
}

/// Mathematical image of the validation failures of barcode rules.
pub enum BarcodeFault {
    Validation(Seq<char>),
    NotFound(Seq<char>),
    DuplicateBarcode(Seq<char>),
    InvalidCheckDigit { expected: u8, actual: u8 },
}

/// Whether an executable result agrees with a specified outcome (values compared by view).
pub open spec fn agrees<T: View>(r: Result<T, BarcodeError>, s: Result<T::V, BarcodeFault>) -> bool {
    match s {
        Ok(v) => r matches Ok(x) && x@ == v,
        Err(BarcodeFault::Validation(m)) => r matches Err(BarcodeError::Validation(rm)) && rm@ == m,
        Err(BarcodeFault::NotFound(m)) => r matches Err(BarcodeError::NotFound(rm)) && rm@ == m,
        Err(BarcodeFault::DuplicateBarcode(m)) => r matches Err(BarcodeError::DuplicateBarcode(rm))
            && rm@ == m,
        Err(BarcodeFault::InvalidCheckDigit { expected, actual }) => r == Err::<T, BarcodeError>(
            BarcodeError::InvalidCheckDigit { expected, actual },
        ),
    }
}


/// The text a barcode error displays.
pub open spec fn barcode_error_text(e: BarcodeError) -> Seq<char> {
    match e {
        BarcodeError::Validation(m) => "Validation error: "@ + m@,
        BarcodeError::NotFound(m) => "Not found: "@ + m@,
        BarcodeError::DuplicateBarcode(m) => "Duplicate barcode error: "@ + m@,
        BarcodeError::DuplicateSku(m) => "Duplicate SKU error: "@ + m@,
        BarcodeError::InvalidCheckDigit { expected, actual } => "Invalid GS1 check digit: expected "@
            + crate::text::nat_digits(expected as nat) + ", got "@ + crate::text::nat_digits(actual as nat),
        BarcodeError::Database(m) => "Database error: "@ + m@,
    }
}

impl BarcodeError {
    /// The text this error displays.
    pub fn describe(&self) -> (r: String)
        ensures
            r@ == barcode_error_text(*self),
    {
        match self {
            BarcodeError::Validation(m) => crate::text::concat2("Validation error: ", m.as_str()),
            BarcodeError::NotFound(m) => crate::text::concat2("Not found: ", m.as_str()),
            BarcodeError::DuplicateBarcode(m) => crate::text::concat2("Duplicate barcode error: ", m.as_str()),
            BarcodeError::DuplicateSku(m) => crate::text::concat2("Duplicate SKU error: ", m.as_str()),
            BarcodeError::InvalidCheckDigit { expected, actual } => {
                let mut r = String::from_str("Invalid GS1 check digit: expected ");
                crate::text::push_decimal(&mut r, *expected as u64);
                crate::text::push_str(&mut r, ", got ");
                crate::text::push_decimal(&mut r, *actual as u64);
                r
            },
            BarcodeError::Database(m) => crate::text::concat2("Database error: ", m.as_str()),
        }
    }
}

/// What a failed barcode write means, from whether the database reported a constraint
/// violation with a message, and from that message: kind 0 a barcode actively held
/// elsewhere, 1 an SKU actively held elsewhere, 2 a second active primary barcode, 3 a
/// database error.
pub open spec fn barcode_write_fault(is_constraint_violation: bool, msg: Seq<char>) -> (nat, Seq<char>) {
    if is_constraint_violation && (crate::text::contains_seq(msg, "product_barcodes.barcode"@)
        || crate::text::contains_seq(msg, "idx_product_barcodes_unique_active"@)
        || crate::text::contains_seq(msg, "products.barcode"@)) {
        (0, "Barcode is already actively assigned to another product"@)
    } else if is_constraint_violation && (crate::text::contains_seq(msg, "products.sku"@)
        || crate::text::contains_seq(msg, "idx_products_sku_active"@)) {
        (1, "SKU is already actively assigned to another product"@)
    } else if is_constraint_violation && crate::text::contains_seq(
        msg,
        "idx_product_barcodes_one_active_primary"@,
    ) {
        (2, "Product can have at most one active primary barcode"@)
    } else {
        (3, msg)
    }
}

/// Classifies a failed barcode write (kinds of `barcode_write_fault`).
pub fn classify_barcode_write_error(is_constraint_violation: bool, msg: String) -> (r: BarcodeError)
    ensures
        ({
            let (k, m) = barcode_write_fault(is_constraint_violation, msg@);
            match r {
                BarcodeError::DuplicateBarcode(x) => k == 0 && x@ == m,
                BarcodeError::DuplicateSku(x) => k == 1 && x@ == m,
                BarcodeError::Validation(x) => k == 2 && x@ == m,
                BarcodeError::Database(x) => k == 3 && x@ == m,
                _ => false,
            }
        }),
{
    let s = msg.as_str();
    if is_constraint_violation && (crate::text::contains_str(s, "product_barcodes.barcode")
        || crate::text::contains_str(s, "idx_product_barcodes_unique_active")
        || crate::text::contains_str(s, "products.barcode")) {
        return BarcodeError::DuplicateBarcode(
            String::from_str("Barcode is already actively assigned to another product"),
        );
    }
    if is_constraint_violation && (crate::text::contains_str(s, "products.sku")
        || crate::text::contains_str(s, "idx_products_sku_active")) {
        return BarcodeError::DuplicateSku(
            String::from_str("SKU is already actively assigned to another product"),
        );
    }
    if is_constraint_violation && crate::text::contains_str(s, "idx_product_barcodes_one_active_primary") {
        return BarcodeError::Validation(
            String::from_str("Product can have at most one active primary barcode"),
        );
    }
    BarcodeError::Database(msg)
}

} // verus!
