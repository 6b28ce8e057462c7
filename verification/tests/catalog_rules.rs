use pos_global::branch::{self, BranchError};
use pos_global::brand::{self, BrandError};
use pos_global::category::{self, CategoryError};
use pos_global::commands::sales::{sale_amounts, sale_subtotal_minor, validate_request, CreateSaleRequest, SaleItem};
use pos_global::commands::stock_ledger::map_stock_ledger_error;
use pos_global::commands::transfer::{map_transfer_error, TransferError};
use pos_global::licence::{activation_outcome, check_local_status, generate_device_fingerprint};
use pos_global::location::{self, LocationError};
use pos_global::manufacturer::{self, ManufacturerError};
use pos_global::organization::{self, OrganizationError};
use pos_global::product::{self, ProductError, MAX_SAFE_MINOR_UNITS};
use pos_global::register::{self, RegisterError};
use pos_global::stock_ledger::StockLedgerError;

#[test]
fn branch_organization_register_fields() {
    assert_eq!(branch::validate_name("  Main  "), Ok("Main".to_string()));
    assert_eq!(branch::validate_name(" "), Err(BranchError::Validation("Branch name cannot be empty".to_string())));
    assert_eq!(branch::validate_name(&"é".repeat(255)), Ok("é".repeat(255)));
    assert_eq!(
        branch::validate_name(&"x".repeat(256)),
        Err(BranchError::Validation("Branch name exceeds maximum length of 255 characters".to_string()))
    );
    assert_eq!(branch::validate_currency(" DZD "), Ok("DZD".to_string()));
    assert_eq!(branch::validate_currency("usd"), Err(BranchError::Validation("Invalid ISO currency code 'usd'".to_string())));
    assert_eq!(branch::validate_id(""), Err(BranchError::Validation("Branch ID cannot be empty".to_string())));
    assert_eq!(branch::validate_organization_ref(" o1 "), Ok("o1".to_string()));
    assert_eq!(
        branch::missing_organization("o9"),
        BranchError::InvalidOrganization("Organization with ID 'o9' does not exist".to_string())
    );

    // organization names are limited in bytes
    assert_eq!(
        organization::validate_name(&"é".repeat(128)),
        Err(OrganizationError::Validation("Organization name exceeds maximum length of 255 characters".to_string()))
    );
    assert_eq!(organization::validate_currency("EUR"), Ok("EUR".to_string()));
    assert_eq!(
        organization::validate_currency("EU"),
        Err(OrganizationError::Validation(
            "Invalid ISO currency code 'EU'. Expected 3 uppercase ASCII letters (e.g. 'USD', 'DZD', 'EUR')".to_string()
        ))
    );
    assert_eq!(organization::validate_language(" fr-DZ "), Ok("fr-DZ".to_string()));
    assert_eq!(
        organization::validate_language("e"),
        Err(OrganizationError::Validation(
            "Invalid language code 'e'. Expected 2-10 alphanumeric characters (e.g. 'en', 'fr', 'ar')".to_string()
        ))
    );
    assert!(organization::validate_language("en us").is_err());
    assert_eq!(organization::validate_id(" "), Err(OrganizationError::Validation("Organization ID cannot be empty".to_string())));

    assert_eq!(register::validate_name(" Till 1 "), Ok("Till 1".to_string()));
    assert_eq!(register::validate_id(" "), Err(RegisterError::Validation("Register ID cannot be empty".to_string())));
}

#[test]
fn brand_and_manufacturer_fields() {
    assert_eq!(brand::escape_like_pattern("50%_off"), "50\\%\\_off");
    assert_eq!(brand::validate_name(" Acme "), Ok("Acme".to_string()));
    assert_eq!(brand::validate_description(Some("   ")), None);
    assert_eq!(brand::validate_description(Some(" d ")), Some("d".to_string()));
    assert_eq!(brand::validate_website(Some(" acme.com ")), Ok(Some("acme.com".to_string())));
    assert_eq!(brand::validate_website(None), Ok(None));
    assert_eq!(
        brand::validate_website(Some("acme")),
        Err(BrandError::Validation("Website URL must be a valid web address or domain".to_string()))
    );
    assert_eq!(
        brand::classify_brand_write_error(true, "UNIQUE constraint failed: brands.name".to_string()),
        BrandError::DuplicateName("An active brand with this name already exists".to_string())
    );
    assert_eq!(
        brand::classify_brand_write_error(false, "idx_brands_name_active".to_string()),
        BrandError::Database("idx_brands_name_active".to_string())
    );

    assert_eq!(
        manufacturer::classify_manufacturer_write_error(true, "idx_manufacturers_name_active".to_string()),
        ManufacturerError::DuplicateName("An active manufacturer with this name already exists".to_string())
    );
    assert_eq!(manufacturer::validate_phone(Some(" +213 (0) 555-12.34 ")), Ok(Some("+213 (0) 555-12.34".to_string())));
    assert_eq!(manufacturer::validate_phone(Some("  ")), Ok(None));
    assert_eq!(
        manufacturer::validate_phone(Some("12")),
        Err(ManufacturerError::Validation("Support phone must contain at least 3 digits".to_string()))
    );
    assert_eq!(
        manufacturer::validate_phone(Some("123x")),
        Err(ManufacturerError::Validation("Support phone contains invalid characters".to_string()))
    );
    assert_eq!(
        manufacturer::validate_phone(Some(&"1".repeat(51))),
        Err(ManufacturerError::Validation("Support phone exceeds maximum length of 50 characters".to_string()))
    );
    assert_eq!(manufacturer::validate_email(Some(" help@acme.co ")), Ok(Some("help@acme.co".to_string())));
    assert_eq!(manufacturer::validate_email(None), Ok(None));
    let invalid = Err(ManufacturerError::Validation("Support email must be a valid email address".to_string()));
    assert_eq!(manufacturer::validate_email(Some("a@@b.c")), invalid);
    assert_eq!(manufacturer::validate_email(Some("@b.c")), invalid);
    assert_eq!(manufacturer::validate_email(Some("a@")), invalid);
    assert_eq!(manufacturer::validate_email(Some("a@b..c")), invalid);
    assert_eq!(manufacturer::validate_email(Some("a@bc")), invalid);
    assert_eq!(
        manufacturer::validate_email(Some("a b@c.d")),
        Err(ManufacturerError::Validation("Support email cannot contain whitespace".to_string()))
    );
}

#[test]
fn category_rules() {
    assert_eq!(category::escape_like_pattern("a\\b"), "a\\\\b");
    assert_eq!(category::validate_name(""), Err(CategoryError::Validation("Category name cannot be empty".to_string())));
    assert_eq!(category::normalize_parent_id(Some(" p ")), Some("p".to_string()));
    assert_eq!(category::normalize_parent_id(Some(" ")), None);
    assert_eq!(
        category::check_parent_active("p", None),
        Err(CategoryError::NotFound("Parent category with ID 'p' not found".to_string()))
    );
    assert_eq!(
        category::check_parent_active("p", Some(0)),
        Err(CategoryError::InactiveParent("Parent category 'p' is inactive/archived".to_string()))
    );
    assert_eq!(category::check_parent_active("p", Some(1)), Ok(()));
    assert_eq!(
        category::check_not_self_parent("c", "c"),
        Err(CategoryError::SelfParenting("Category cannot be its own parent".to_string()))
    );
    assert_eq!(category::check_not_self_parent("c", "d"), Ok(()));
    assert_eq!(category::category_cycle_step("c", "d", 0, Some(Some("e".to_string()))), Ok(Some("e".to_string())));
    assert_eq!(category::category_cycle_step("c", "d", 0, Some(None)), Ok(None));
    assert_eq!(category::category_cycle_step("c", "d", 0, None), Ok(None));
    assert_eq!(
        category::category_cycle_step("c", "d", 3, Some(Some("c".to_string()))),
        Err(CategoryError::CycleDetected("Category 'c' cannot be parented under its own descendant 'd'".to_string()))
    );
    assert_eq!(
        category::category_cycle_step("c", "d", 49, Some(Some("e".to_string()))),
        Err(CategoryError::HierarchyDepthExceeded("Hierarchy depth exceeds supported maximum of 50 levels".to_string()))
    );
    assert_eq!(
        category::check_archivable("c", 2),
        Err(CategoryError::HasActiveChildren("Cannot archive category 'c' because it has 2 active subcategory(ies)".to_string()))
    );
    assert_eq!(category::check_archivable("c", 0), Ok(()));
}

#[test]
fn location_rules() {
    assert_eq!(location::validate_and_trim_str(" A ", "name"), Ok("A".to_string()));
    assert_eq!(
        location::validate_and_trim_str(" ", "code"),
        Err(LocationError::Validation("code cannot be empty or whitespace-only".to_string()))
    );
    assert_eq!(location::normalize_optional_str(Some("")), None);
    assert_eq!(
        location::check_parent_location("b1", None, "p", None),
        Err(LocationError::NotFound("Parent location 'p' not found".to_string()))
    );
    assert_eq!(
        location::check_parent_location("b1", None, "p", Some(("b2".to_string(), true))),
        Err(LocationError::CrossBranchParent("Parent location 'p' belongs to branch 'b2', but child belongs to 'b1'".to_string()))
    );
    assert_eq!(
        location::check_parent_location("b1", None, "p", Some(("b1".to_string(), false))),
        Err(LocationError::InactiveParent("Cannot set parent to inactive location 'p'".to_string()))
    );
    assert_eq!(
        location::check_parent_location("b1", Some("p"), "p", Some(("b1".to_string(), true))),
        Err(LocationError::SelfParenting("Location cannot be its own parent".to_string()))
    );
    assert_eq!(location::check_parent_location("b1", Some("l"), "p", Some(("b1".to_string(), true))), Ok(()));
    assert_eq!(
        location::location_cycle_step("l", "p", 49, Some(Some("x".to_string()))),
        Err(LocationError::TraversalSafetyError("Defensive traversal limit of 50 steps exceeded during cycle check".to_string()))
    );
    assert_eq!(
        location::location_cycle_step("l", "p", 1, Some(Some("l".to_string()))),
        Err(LocationError::CycleDetected("Location 'l' cannot be parented under its own descendant 'p'".to_string()))
    );
    assert_eq!(
        location::check_can_deactivate("l", 1, 5),
        Err(LocationError::DeactivationBlocked("Cannot deactivate location 'l': it contains 1 active child location(s)".to_string()))
    );
    assert_eq!(
        location::check_can_deactivate("l", 0, 5),
        Err(LocationError::DeactivationBlocked("Cannot deactivate location 'l': it contains 5 active bin(s)".to_string()))
    );
    assert_eq!(location::check_can_deactivate("l", 0, 0), Ok(()));
    assert_eq!(
        location::check_can_reactivate("l", Some("p"), Some(false)),
        Err(LocationError::InactiveParent("Cannot reactivate location 'l': its parent location 'p' is inactive".to_string()))
    );
    assert_eq!(location::check_can_reactivate("l", Some("p"), Some(true)), Ok(()));
    assert_eq!(location::check_can_reactivate("l", None, None), Ok(()));
}

#[test]
fn product_rules() {
    assert_eq!(product::validate_name(" Tea "), Ok("Tea".to_string()));
    assert_eq!(product::validate_base_price_minor(0), Ok(0));
    assert_eq!(product::validate_base_price_minor(MAX_SAFE_MINOR_UNITS), Ok(MAX_SAFE_MINOR_UNITS));
    assert_eq!(
        product::validate_base_price_minor(-1),
        Err(ProductError::Validation("Base price cannot be negative".to_string()))
    );
    assert_eq!(
        product::validate_base_price_minor(MAX_SAFE_MINOR_UNITS + 1),
        Err(ProductError::Validation("Base price exceeds maximum supported precision".to_string()))
    );
    assert_eq!(product::validate_cost_price_minor(None), Ok(None));
    assert_eq!(
        product::validate_cost_price_minor(Some(-5)),
        Err(ProductError::Validation("Cost price cannot be negative".to_string()))
    );
    assert_eq!(product::validate_barcode(Some(" 123 ")), Some("123".to_string()));
    assert_eq!(product::sanitize_optional_string(Some(" ")), None);
    assert_eq!(product::validate_product_type(None), Ok("simple".to_string()));
    assert_eq!(product::validate_product_type(Some(" weighted ")), Ok("weighted".to_string()));
    assert_eq!(
        product::validate_product_type(Some("bundle")),
        Err(ProductError::Validation("Invalid product_type 'bundle'. Allowed: 'simple', 'variable', 'weighted'".to_string()))
    );
    assert_eq!(product::check_sku_input(Some(" ab-12 ")), Ok(Some("AB-12".to_string())));
    assert_eq!(product::check_sku_input(Some("  ")), Ok(None));
    assert_eq!(
        product::check_sku_input(Some("ab")),
        Err(ProductError::Validation("Validation error: SKU length must be between 3 and 64 characters, got 2".to_string()))
    );
    assert_eq!(product::check_sku_conflict("AB-12", None), Ok(()));
    assert_eq!(
        product::check_sku_conflict("AB-12", Some("p9")),
        Err(ProductError::DuplicateSku("SKU 'AB-12' is already assigned to product 'p9'".to_string()))
    );
    assert_eq!(
        product::check_barcode_conflict("123", None, Some("p7")),
        Err(ProductError::DuplicateBarcode("Barcode '123' is already assigned to product 'p7'".to_string()))
    );
    assert_eq!(
        product::check_barcode_conflict("123", Some("p1"), Some("p7")),
        Err(ProductError::DuplicateBarcode("Barcode '123' is already assigned to product 'p1'".to_string()))
    );
    assert_eq!(product::check_barcode_conflict("123", None, None), Ok(()));
    assert_eq!(product::effective_barcode(Some(" 9 "), false), None);
    assert_eq!(product::effective_barcode(Some(" 9 "), true), Some("9".to_string()));
}

fn item(product: &str, qty: i64, price: i64) -> SaleItem {
    SaleItem { product_id: product.to_string(), variant_id: None, quantity_milli: qty, unit_price_minor: price }
}

fn sale(items: Vec<SaleItem>) -> CreateSaleRequest {
    CreateSaleRequest {
        branch_id: "b1".to_string(),
        shift_id: "s1".to_string(),
        user_id: "u1".to_string(),
        idempotency_key: "k1".to_string(),
        items,
        payment_method: "cash".to_string(),
        currency: "DZD".to_string(),
    }
}

#[test]
fn sale_totals() {
    // 1.5 units at 333 minor units: 499.5 rounds half up to 500
    assert_eq!(item("p", 1500, 333).line_total_minor(), Ok(500));
    // 0.001 unit at 499: 0.499 rounds down to 0
    assert_eq!(item("p", 1, 499).line_total_minor(), Ok(0));
    assert_eq!(item("p", 1, 500).line_total_minor(), Ok(1));
    assert_eq!(item("p", 0, 5).line_total_minor(), Err("invalid sale quantity or price".to_string()));
    assert_eq!(item("p", 5, -1).line_total_minor(), Err("invalid sale quantity or price".to_string()));
    assert_eq!(item("p", i64::MAX, i64::MAX).line_total_minor(), Err("line total exceeds i64 range".to_string()));

    assert_eq!(sale_subtotal_minor(&vec![item("a", 2000, 150), item("b", 500, 1001)]), Ok(801));
    assert_eq!(sale_subtotal_minor(&vec![]), Ok(0));
    // The subtotal is the sum of the line totals that are stored with the items.
    let lines = vec![item("a", 1500, 333), item("b", 250, 7), item("c", 3000, 1999)];
    let line_sum: i64 = lines.iter().map(|l| l.line_total_minor().unwrap()).sum();
    assert_eq!(line_sum, 500 + 2 + 5997);
    assert_eq!(sale_subtotal_minor(&lines), Ok(line_sum));
    // The stored total and payment both equal the subtotal; each item keeps its line total.
    let amounts = sale_amounts(&lines).unwrap();
    assert_eq!(amounts.subtotal_minor, 6499);
    assert_eq!(amounts.total_minor, 6499);
    assert_eq!(amounts.payment_minor, 6499);
    assert_eq!((amounts.discount_minor, amounts.tax_minor), (0, 0));
    assert_eq!(amounts.line_totals_minor, vec![500, 2, 5997]);
    assert_eq!(
        sale_amounts(&vec![item("a", 1000, i64::MAX), item("b", 1000, 1)]).map(|a| a.total_minor),
        Err("sale total overflow".to_string())
    );
    assert_eq!(
        sale_amounts(&vec![item("a", 1000, 5), item("b", 0, 1)]).map(|a| a.total_minor),
        Err("invalid sale quantity or price".to_string())
    );
    assert_eq!(
        sale_subtotal_minor(&vec![item("a", 1000, i64::MAX), item("b", 1000, 1)]),
        Err("sale total overflow".to_string())
    );

    assert_eq!(validate_request(&sale(vec![item("a", 1000, 10)])), Ok(()));
    assert_eq!(validate_request(&sale(vec![])), Err("at least one sale item is required".to_string()));
    let mut missing = sale(vec![item("a", 1000, 10)]);
    missing.currency = " ".to_string();
    assert_eq!(validate_request(&missing), Err("required sale fields are missing".to_string()));
    assert_eq!(
        validate_request(&sale(vec![item("a", 1000, 10), item(" ", 1000, 10)])),
        Err("product_id is required".to_string())
    );
    assert_eq!(validate_request(&sale(vec![item("a", -1, 10)])), Err("quantity must be positive".to_string()));
    assert_eq!(validate_request(&sale(vec![item("a", 1, -10)])), Err("unit_price_minor must be non-negative".to_string()));
}

#[test]
fn command_error_texts() {
    assert_eq!(
        map_stock_ledger_error(StockLedgerError::InsufficientStock { requested_milli: 2500, available_milli: 1000 }),
        "Insufficient stock: requested 2500 milli, available 1000 milli"
    );
    assert_eq!(map_stock_ledger_error(StockLedgerError::NotFound("x".to_string())), "Entity not found: x");
    assert_eq!(map_stock_ledger_error(StockLedgerError::InvalidBin("b".to_string())), "Invalid bin: b");
    assert_eq!(
        map_transfer_error(TransferError::InsufficientStock {
            product_id: "p1".to_string(),
            requested_milli: 3,
            available_milli: -1,
        }),
        "Insufficient stock for product 'p1': requested 3 milli, available -1 milli"
    );
    assert_eq!(
        map_transfer_error(TransferError::InvalidStatusTransition {
            current: "draft".to_string(),
            attempted: "received".to_string(),
            reason: "not dispatched".to_string(),
        }),
        "Invalid status transition from 'draft' to 'received': not dispatched"
    );
    assert_eq!(map_transfer_error(TransferError::NoOpRelocation("same".to_string())), "No-op relocation error: same");
    // storage failures are reported without the raw database message
    let shown = map_stock_ledger_error(StockLedgerError::Database("no such table: inventory".to_string()));
    assert_eq!(shown, "Database error: the storage operation failed");
    assert!(!shown.contains("no such table"));
    assert_eq!(
        map_transfer_error(TransferError::Database("disk I/O error".to_string())),
        "Database error: the storage operation failed"
    );
}

#[test]
fn licence_boundary() {
    assert_eq!(generate_device_fingerprint(), Err("Device fingerprint design is not implemented yet".to_string()));
    let s = check_local_status();
    assert!(!s.is_valid);
    assert_eq!(s.days_offline_remaining, 0);
    assert!(activation_outcome("KEY").is_err());
}

#[test]
fn error_display_texts() {
    assert_eq!(
        CategoryError::HasActiveChildren("x".to_string()).describe(),
        "Category has active children: x"
    );
    assert_eq!(BrandError::DuplicateName("n".to_string()).describe(), "Duplicate name error: n");
    assert_eq!(ManufacturerError::NotFound("m".to_string()).describe(), "Not found: m");
    assert_eq!(BranchError::NotFound("b".to_string()).describe(), "Branch not found: b");
    assert_eq!(OrganizationError::NotFound("o".to_string()).describe(), "Organization not found: o");
    assert_eq!(RegisterError::InvalidBranch("r".to_string()).describe(), "Invalid branch: r");
    assert_eq!(LocationError::SelfParenting("s".to_string()).describe(), "Self-parenting error: s");
    assert_eq!(ProductError::DuplicateSku("k".to_string()).describe(), "Duplicate SKU error: k");
    assert_eq!(
        StockLedgerError::InsufficientStock { requested_milli: 5, available_milli: 2 }.describe(),
        "Insufficient stock: requested 5 milli, available 2 milli"
    );
    assert_eq!(
        pos_global::stock::StockLedgerError::MissingLocation.describe(),
        "location_id is mandatory"
    );
    assert_eq!(
        pos_global::stock::StockLedgerError::BatchNotFound("bt".to_string()).describe(),
        "Batch not found: bt"
    );
    assert_eq!(
        pos_global::serial::SerialError::TerminalStatus("disposed".to_string()).describe(),
        "Cannot update status of disposed: terminal state"
    );
    assert_eq!(
        pos_global::serial::SerialError::ProductNotSerialized("p".to_string()).describe(),
        "Product 'p' is not tracked by serial or IMEI"
    );
    assert_eq!(
        pos_global::batch::BatchError::IneligibleProduct("p".to_string()).describe(),
        "Ineligible product error: p"
    );
    assert_eq!(
        pos_global::auth::AuthError::Unconfigured("u".to_string()).describe(),
        "Configuration error: u"
    );
    assert_eq!(
        pos_global::permission::PermissionError::InvalidRole("x".to_string()).describe(),
        "Invalid role: 'x'"
    );
    assert_eq!(
        pos_global::permission::PermissionError::ScopeMismatch { expected: "a".to_string(), actual: "b".to_string() }
            .describe(),
        "Scope mismatch: operation expects scope 'a', but session has scope 'b'"
    );
    assert_eq!(
        pos_global::auth::middleware::AuthMiddlewareError::PermissionDenied {
            role: "cashier".to_string(),
            permission: "sales.void".to_string(),
            reason: "no".to_string(),
        }
        .describe(),
        "Permission denied: role 'cashier' lacks permission 'sales.void'. Reason: no"
    );
}

#[test]
fn database_write_errors() {
    assert_eq!(
        category::classify_category_write_error(true, "UNIQUE constraint failed: categories.name".to_string()),
        CategoryError::DuplicateName("An active category with this name already exists in this scope".to_string())
    );
    assert_eq!(
        category::classify_category_write_error(true, "FOREIGN KEY constraint failed".to_string()),
        CategoryError::NotFound("Parent category not found".to_string())
    );
    assert_eq!(
        category::classify_category_write_error(false, "FOREIGN KEY constraint failed".to_string()),
        CategoryError::Database("FOREIGN KEY constraint failed".to_string())
    );
    assert_eq!(
        product::classify_product_write_error(true, "UNIQUE constraint failed: products.sku".to_string()),
        ProductError::DuplicateSku("SKU already assigned to another product".to_string())
    );
    assert_eq!(
        product::classify_product_write_error(true, "idx_product_barcodes_unique_active".to_string()),
        ProductError::DuplicateBarcode("Barcode already assigned to another product".to_string())
    );
    assert_eq!(
        location::classify_location_write_error(true, false, "UNIQUE constraint failed: bins.location_id, bins.code".to_string()),
        LocationError::DuplicateCode("A bin with this code already exists in this location".to_string())
    );
    assert_eq!(
        location::classify_location_write_error(true, true, "constraint".to_string()),
        LocationError::DuplicateCode("Unique constraint violation".to_string())
    );
    assert_eq!(
        location::classify_location_write_error(false, true, "locations.code".to_string()),
        LocationError::Database("locations.code".to_string())
    );
    assert_eq!(
        pos_global::barcode::classify_barcode_write_error(true, "idx_product_barcodes_one_active_primary".to_string()),
        pos_global::barcode::BarcodeError::Validation("Product can have at most one active primary barcode".to_string())
    );
    assert_eq!(
        pos_global::barcode::classify_barcode_write_error(true, "products.sku".to_string()),
        pos_global::barcode::BarcodeError::DuplicateSku("SKU is already actively assigned to another product".to_string())
    );
}

#[test]
fn catalog_organization_resolution() {
    let orgs = |v: &[&str]| v.iter().map(|s| s.to_string()).collect::<Vec<String>>();
    assert_eq!(product::catalog_organization(Some("o1".into()), &orgs(&["o2", "o3"])), Some("o1".to_string()));
    assert_eq!(product::catalog_organization(None, &orgs(&["o2"])), Some("o2".to_string()));
    assert_eq!(product::catalog_organization(None, &orgs(&["o2", "o3"])), None);
    assert_eq!(product::catalog_organization(None, &orgs(&[])), None);
}

#[test]
fn branch_currency_and_register_branch() {
    assert_eq!(branch::resolve_branch_currency("o1", Some(" EUR "), None), Ok("EUR".to_string()));
    assert_eq!(
        branch::resolve_branch_currency("o1", Some("eur"), Some("USD".into())),
        Err(BranchError::Validation("Invalid ISO currency code 'eur'".into()))
    );
    assert_eq!(branch::resolve_branch_currency("o1", None, Some("GBP".into())), Ok("GBP".to_string()));
    assert_eq!(
        branch::resolve_branch_currency("o1", None, None),
        Err(BranchError::InvalidOrganization("Organization with ID 'o1' does not exist".into()))
    );

    assert_eq!(register::validate_branch_ref("  "), Err(RegisterError::Validation("Branch ID cannot be empty".into())));
    assert_eq!(register::validate_organization_ref(" o1 "), Ok("o1".to_string()));
    assert_eq!(
        register::missing_organization("o9"),
        RegisterError::InvalidOrganization("Organization with ID 'o9' does not exist".into())
    );
    assert!(register::check_register_branch("o1", "b1", Some(Some("o1".into()))).is_ok());
    assert_eq!(
        register::check_register_branch("o1", "b1", Some(Some("o2".into()))),
        Err(RegisterError::InvalidBranch("Branch 'b1' belongs to organization 'o2', not 'o1'".into()))
    );
    assert_eq!(
        register::check_register_branch("o1", "b1", Some(None)),
        Err(RegisterError::InvalidBranch("Branch 'b1' has corrupt or NULL organization_id".into()))
    );
    assert_eq!(
        register::check_register_branch("o1", "b1", None),
        Err(RegisterError::InvalidBranch("Branch with ID 'b1' does not exist".into()))
    );
}

#[test]
fn unimplemented_commands_refuse() {
    let listed = pos_global::commands::inventory::list_products(pos_global::commands::inventory::ProductSearchRequest {
        branch_id: "b1".into(),
        query: None,
        category_id: None,
        limit: Some(10),
    });
    assert_eq!(listed.unwrap_err(), "Product repository/service is not implemented yet");
    let upserted = pos_global::commands::inventory::upsert_product(pos_global::commands::inventory::UpsertProductRequest {
        id: None,
        name: "Tea".into(),
        category_id: None,
        barcode: None,
        sku: None,
        description: None,
    });
    assert_eq!(upserted.unwrap_err(), "Product service is not implemented yet");
    assert_eq!(
        pos_global::commands::licence::activate_licence("KEY".into()).unwrap_err(),
        "License activation is not implemented yet; security design gate required"
    );
    assert_eq!(
        pos_global::commands::licence::check_licence_status().unwrap_err(),
        "License status verification is not implemented yet"
    );
}
