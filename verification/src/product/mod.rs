//! Products: records, field rules, and the checks of catalogue writes (SKU and barcode
//! uniqueness, inactive products).
use crate::barcode::generator::sku_spec;
use crate::barcode::{barcode_error_text, validate_sku, BarcodeError};
use crate::barcode::BarcodeFault;
use crate::rules::{bounded_spec, bounded_text};
use crate::text::{concat3, contains_seq, concat5, norm_opt, opt_str_view, owned, str_eq, trim, trim_seq};
use vstd::prelude::*;

verus! {

/// Largest minor-unit amount that converts exactly to and from a 64-bit float.
pub const MAX_SAFE_MINOR_UNITS: i64 = 90_071_992_547_409;

/// Canonical Product entity.
#[derive(Debug, Clone, PartialEq, Eq)]
pub struct Product {
    pub id: String,
    pub category_id: Option<String>,
    pub sku: Option<String>,
    pub name: String,
    pub description: Option<String>,
    pub barcode: Option<String>,
    pub product_type: String,
    pub base_price_minor: i64,
    pub cost_price_minor: Option<i64>,
    pub unit_type: Option<String>,
    pub requires_expiry: bool,
    pub requires_serial: bool,
    pub warranty_months: Option<i32>,
    pub custom_attributes: Option<String>,
    pub is_active: bool,
    pub created_at: String,
    pub updated_at: String,
}

/// Input payload for creating a new product.
#[derive(Debug, Clone)]
pub struct CreateProductInput {
    pub name: String,
    pub description: Option<String>,
    pub category_id: Option<String>,
    pub sku: Option<String>,
    pub barcode: Option<String>,
    pub product_type: Option<String>,
    pub base_price_minor: i64,
    pub cost_price_minor: Option<i64>,
    pub unit_type: Option<String>,
    pub requires_expiry: Option<bool>,
    pub requires_serial: Option<bool>,
    pub warranty_months: Option<i32>,
    pub custom_attributes: Option<String>,
}

/// Input payload for updating an existing product.
#[derive(Debug, Clone)]
pub struct UpdateProductInput {
    pub id: String,
    pub name: String,
    pub description: Option<String>,
    pub category_id: Option<String>,
    pub sku: Option<String>,
    pub barcode: Option<String>,
    pub product_type: String,
    pub base_price_minor: i64,
    pub cost_price_minor: Option<i64>,
    pub unit_type: Option<String>,
    pub requires_expiry: bool,
    pub requires_serial: bool,
    pub warranty_months: Option<i32>,
    pub custom_attributes: Option<String>,
    pub is_active: bool,
}

/// Filter criteria for querying/listing products.
#[derive(Debug, Clone, Default)]
pub struct ProductFilter {
    pub query: Option<String>,
    pub is_active: Option<bool>,
    pub category_id: Option<String>,
    pub limit: Option<u32>,
    pub offset: Option<u32>,
}

/// Typed domain and repository errors for product operations.
#[derive(Debug, PartialEq, Eq)]
pub enum ProductError {
    Validation(String),
    NotFound(String),
    DuplicateBarcode(String),
    DuplicateSku(String),
    Database(String),
}

/// Validates a product name: trimmed, 1 to 255 characters.
/// The text a product error is displayed with.
pub open spec fn product_error_text(e: ProductError) -> Seq<char> {
    match e {
        ProductError::Validation(m) => "Validation error: "@ + m@,
        ProductError::NotFound(m) => "Product not found: "@ + m@,
        ProductError::DuplicateBarcode(m) => "Duplicate barcode error: "@ + m@,
        ProductError::DuplicateSku(m) => "Duplicate SKU error: "@ + m@,
        ProductError::Database(m) => "Database error: "@ + m@,
    }
}

impl ProductError {
    /// The display text of this error.
    pub fn describe(&self) -> (r: String)
        ensures
            r@ == product_error_text(*self),
    {
        match self {
            ProductError::Validation(m) => crate::text::concat2("Validation error: ", m.as_str()),
            ProductError::NotFound(m) => crate::text::concat2("Product not found: ", m.as_str()),
            ProductError::DuplicateBarcode(m) => crate::text::concat2("Duplicate barcode error: ", m.as_str()),
            ProductError::DuplicateSku(m) => crate::text::concat2("Duplicate SKU error: ", m.as_str()),
            ProductError::Database(m) => crate::text::concat2("Database error: ", m.as_str()),
        }
    }
}

/// What a failed product write means, from whether the database reported a constraint
/// violation with a message, and from that message: kind 0 a duplicate barcode, 1 a
/// duplicate SKU, 2 a database error.
pub open spec fn product_write_fault(is_constraint_violation: bool, msg: Seq<char>) -> (nat, Seq<char>) {
    if is_constraint_violation && (contains_seq(msg, "products.barcode"@) || contains_seq(
        msg,
        "product_barcodes.barcode"@,
    ) || contains_seq(msg, "idx_product_barcodes_unique_active"@)) {
        (0, "Barcode already assigned to another product"@)
    } else if is_constraint_violation && (contains_seq(msg, "products.sku"@) || contains_seq(
        msg,
        "idx_products_sku_active"@,
    )) {
        (1, "SKU already assigned to another product"@)
    } else {
        (2, msg)
    }
}

/// Classifies a failed product write into a duplicate barcode, a duplicate SKU or a
/// database error.
pub fn classify_product_write_error(is_constraint_violation: bool, msg: String) -> (r: ProductError)
    ensures
        ({
            let (k, m) = product_write_fault(is_constraint_violation, msg@);
            match r {
                ProductError::DuplicateBarcode(x) => k == 0 && x@ == m,
                ProductError::DuplicateSku(x) => k == 1 && x@ == m,
                ProductError::Database(x) => k == 2 && x@ == m,
                _ => false,
            }
        }),
{
    let s = msg.as_str();
    if is_constraint_violation && (crate::text::contains_str(s, "products.barcode")
        || crate::text::contains_str(s, "product_barcodes.barcode") || crate::text::contains_str(
        s,
        "idx_product_barcodes_unique_active",
    )) {
        return ProductError::DuplicateBarcode(
            String::from_str("Barcode already assigned to another product"),
        );
    }
    if is_constraint_violation && (crate::text::contains_str(s, "products.sku")
        || crate::text::contains_str(s, "idx_products_sku_active")) {
        return ProductError::DuplicateSku(String::from_str("SKU already assigned to another product"));
    }
    ProductError::Database(msg)
}

pub fn validate_name(name: &str) -> (r: Result<String, ProductError>)
    ensures
        match bounded_spec(name@, "Product name cannot be empty"@, 255, false, "Product name exceeds maximum length of 255 characters"@) {
            Ok(t) => r matches Ok(x) && x@ == t,
            Err(m) => r matches Err(ProductError::Validation(x)) && x@ == m,
        },
{
    match bounded_text(name, "Product name cannot be empty", 255, false, "Product name exceeds maximum length of 255 characters") {
        Ok(t) => Ok(t),
        Err(m) => Err(ProductError::Validation(m)),
    }
}

/// Validates a base price in minor units: not negative and at most `MAX_SAFE_MINOR_UNITS`.
pub fn validate_base_price_minor(price: i64) -> (r: Result<i64, ProductError>)
    ensures
        price < 0 ==> (r matches Err(ProductError::Validation(m)) && m@ == "Base price cannot be negative"@),
        price > MAX_SAFE_MINOR_UNITS ==> (r matches Err(ProductError::Validation(m)) && m@ == "Base price exceeds maximum supported precision"@),
        0 <= price <= MAX_SAFE_MINOR_UNITS ==> r == Ok::<i64, ProductError>(price),
{
    if price < 0 {
        return Err(ProductError::Validation(String::from_str("Base price cannot be negative")));
    }
    if price > MAX_SAFE_MINOR_UNITS {
        return Err(ProductError::Validation(String::from_str("Base price exceeds maximum supported precision")));
    }
    Ok(price)
}

/// Validates an optional cost price in minor units: not negative and at most
/// `MAX_SAFE_MINOR_UNITS`.
pub fn validate_cost_price_minor(cost: Option<i64>) -> (r: Result<Option<i64>, ProductError>)
    ensures
        (cost matches Some(c) && c < 0) ==> (r matches Err(ProductError::Validation(m)) && m@ == "Cost price cannot be negative"@),
        (cost matches Some(c) && c > MAX_SAFE_MINOR_UNITS) ==> (r matches Err(ProductError::Validation(m)) && m@ == "Cost price exceeds maximum supported precision"@),
        !(cost matches Some(c) && (c < 0 || c > MAX_SAFE_MINOR_UNITS)) ==> r == Ok::<Option<i64>, ProductError>(cost),
{
    if let Some(c) = cost {
        if c < 0 {
            return Err(ProductError::Validation(String::from_str("Cost price cannot be negative")));
        }
        if c > MAX_SAFE_MINOR_UNITS {
            return Err(ProductError::Validation(String::from_str("Cost price exceeds maximum supported precision")));
        }
    }
    Ok(cost)
}

/// Trims a legacy barcode field; blank becomes `None`.
pub fn validate_barcode(barcode: Option<&str>) -> (r: Option<String>)
    ensures
        match r {
            Some(x) => norm_opt(opt_str_view(barcode)) == Some(x@),
            None => norm_opt(opt_str_view(barcode)) is None,
        },
{
    crate::rules::trimmed_opt(barcode)
}

/// Trims optional text; blank becomes `None`.
pub fn sanitize_optional_string(s: Option<&str>) -> (r: Option<String>)
    ensures
        match r {
            Some(x) => norm_opt(opt_str_view(s)) == Some(x@),
            None => norm_opt(opt_str_view(s)) is None,
        },
{
    crate::rules::trimmed_opt(s)
}

/// What `validate_product_type` decides: `simple` by default, else one of `simple`,
/// `variable`, `weighted`.
pub open spec fn product_type_spec(ptype: Option<Seq<char>>) -> Result<Seq<char>, Seq<char>> {
    match norm_opt(ptype) {
        None => Ok("simple"@),
        Some(t) => if t == "simple"@ || t == "variable"@ || t == "weighted"@ {
            Ok(t)
        } else {
            Err("Invalid product_type '"@ + t + "'. Allowed: 'simple', 'variable', 'weighted'"@)
        },
    }
}

/// Validates the product type.
pub fn validate_product_type(ptype: Option<&str>) -> (r: Result<String, ProductError>)
    ensures
        match product_type_spec(opt_str_view(ptype)) {
            Ok(t) => r matches Ok(x) && x@ == t,
            Err(m) => r matches Err(ProductError::Validation(x)) && x@ == m,
        },
{
    match crate::rules::trimmed_opt(ptype) {
        None => Ok(String::from_str("simple")),
        Some(t) => {
            let s = t.as_str();
            if str_eq(s, "simple") || str_eq(s, "variable") || str_eq(s, "weighted") {
                Ok(t)
            } else {
                Err(ProductError::Validation(concat3("Invalid product_type '", s, "'. Allowed: 'simple', 'variable', 'weighted'")))
            }
        },
    }
}

/// What `check_sku_input` decides: no SKU when blank, else the validated upper-cased SKU; a
/// refused SKU is reported with the barcode error's text.
pub open spec fn sku_input_spec(raw: Option<Seq<char>>) -> Result<Option<Seq<char>>, Seq<char>> {
    match norm_opt(raw) {
        None => Ok(None),
        Some(t) => match sku_spec(t) {
            Ok(s) => Ok(Some(s)),
            Err(BarcodeFault::Validation(m)) => Err("Validation error: "@ + m),
            Err(_) => Err(Seq::empty()),
        },
    }
}

/// Validates the SKU of a product write.
pub fn check_sku_input(raw_sku: Option<&str>) -> (r: Result<Option<String>, ProductError>)
    ensures
        match sku_input_spec(opt_str_view(raw_sku)) {
            Ok(None) => r matches Ok(None),
            Ok(Some(s)) => r matches Ok(Some(x)) && x@ == s,
            Err(m) => r matches Err(ProductError::Validation(x)) && x@ == m,
        },
{
    let t = match crate::rules::trimmed_opt(raw_sku) {
        None => {
            return Ok(None);
        },
        Some(t) => t,
    };
    proof {
        crate::text::lemma_trim_idempotent(raw_sku->0@);
    }
    match validate_sku(t.as_str()) {
        Ok(s) => Ok(Some(s)),
        Err(e) => Err(ProductError::Validation(e.describe())),
    }
}

/// Refuses an SKU that another active product holds.
pub fn check_sku_conflict(sku: &str, conflict_id: Option<&str>) -> (r: Result<(), ProductError>)
    ensures
        conflict_id is None ==> r is Ok,
        conflict_id is Some ==> (r matches Err(ProductError::DuplicateSku(m)) && m@ == "SKU '"@ + sku@ + "' is already assigned to product '"@ + conflict_id->0@ + "'"@),
{
    match conflict_id {
        None => Ok(()),
        Some(id) => Err(ProductError::DuplicateSku(concat5("SKU '", sku, "' is already assigned to product '", id, "'"))),
    }
}

/// Refuses a barcode that another active product holds, in its legacy field or in the
/// barcode registry (the legacy holder is named first).
pub fn check_barcode_conflict(barcode: &str, product_conflict: Option<&str>, registry_conflict: Option<&str>) -> (r: Result<(), ProductError>)
    ensures
        product_conflict is None && registry_conflict is None ==> r is Ok,
        product_conflict is Some ==> (r matches Err(ProductError::DuplicateBarcode(m)) && m@ == "Barcode '"@ + barcode@ + "' is already assigned to product '"@ + product_conflict->0@ + "'"@),
        product_conflict is None && registry_conflict is Some ==> (r matches Err(ProductError::DuplicateBarcode(m)) && m@ == "Barcode '"@ + barcode@ + "' is already assigned to product '"@ + registry_conflict->0@ + "'"@),
{
    let holder = match product_conflict {
        Some(p) => Some(p),
        None => registry_conflict,
    };
    match holder {
        None => Ok(()),
        Some(id) => Err(ProductError::DuplicateBarcode(concat5("Barcode '", barcode, "' is already assigned to product '", id, "'"))),
    }
}

/// The barcode a product keeps after an update: the trimmed barcode while active, none once
/// archived.
pub fn effective_barcode(barcode: Option<&str>, is_active: bool) -> (r: Option<String>)
    ensures
        !is_active ==> r is None,
        is_active ==> match r {
            Some(x) => norm_opt(opt_str_view(barcode)) == Some(x@),
            None => norm_opt(opt_str_view(barcode)) is None,
        },
{
    if is_active {
        crate::rules::trimmed_opt(barcode)
    } else {
        None
    }
}

/// The organization that owns the catalog: the one named in the business settings, else
/// the only organization that branches belong to, else none.
pub open spec fn catalog_organization_spec(from_settings: Option<Seq<char>>, branch_orgs: Seq<Seq<char>>) -> Option<Seq<char>> {
    match from_settings {
        Some(o) => Some(o),
        None => if branch_orgs.len() == 1 {
            Some(branch_orgs[0])
        } else {
            None
        },
    }
}

/// Resolves the catalog's organization from the one in the business settings (if any) and
/// the distinct organizations of the branches.
pub fn catalog_organization(from_settings: Option<String>, branch_orgs: &Vec<String>) -> (r: Option<String>)
    ensures
        crate::text::opt_string_view(r) == catalog_organization_spec(
            crate::text::opt_string_view(from_settings),
            branch_orgs@.map_values(|o: String| o@),
        ),
{
    match from_settings {
        Some(o) => Some(o),
        None => if branch_orgs.len() == 1 {
            Some(owned(branch_orgs[0].as_str()))
        } else {
            None
        },
    }
}

} // verus!
