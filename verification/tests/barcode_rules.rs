use pos_global::commands::barcode::check_barcode_string;
use pos_global::barcode::generator::{internal_ean13_candidate, sku_candidate};
use pos_global::barcode::registry::{
    add_request_product_id, check_add_target, check_reassign_target, check_set_primary,
    decide_add_primary, integrity_mismatch,
};
use pos_global::barcode::{
    calculate_gs1_check_digit, detect_symbology, sanitize_ean13_prefix, sanitize_sku_prefix,
    validate_barcode_symbology, validate_code128, validate_code39, validate_custom_barcode,
    validate_ean13, validate_ean8, validate_sku, validate_upc_a, validate_upc_e,
    verify_gs1_check_digit, AddBarcodeRequest, BarcodeError, BarcodeSymbology, ProductBarcode,
};

fn v(msg: &str) -> BarcodeError {
    BarcodeError::Validation(msg.to_string())
}

#[test]
fn gs1_check_digits() {
    assert_eq!(calculate_gs1_check_digit("400638133393"), Ok(1));
    assert_eq!(calculate_gs1_check_digit("  590123412345 "), Ok(7));
    assert_eq!(calculate_gs1_check_digit("9638507"), Ok(4));
    assert_eq!(calculate_gs1_check_digit(""), Err(v("Cannot calculate check digit for empty string")));
    assert_eq!(
        calculate_gs1_check_digit("12a4"),
        Err(v("Non-numeric character 'a' in barcode check digit input"))
    );
    // The rightmost offending character is the one reported.
    assert_eq!(
        calculate_gs1_check_digit("x2b4"),
        Err(v("Non-numeric character 'b' in barcode check digit input"))
    );
}

#[test]
fn gs1_verification() {
    assert_eq!(verify_gs1_check_digit("4006381333931"), Ok(()));
    assert_eq!(
        verify_gs1_check_digit("4006381333932"),
        Err(BarcodeError::InvalidCheckDigit { expected: 1, actual: 2 })
    );
    assert_eq!(
        verify_gs1_check_digit("1"),
        Err(v("Barcode must be at least 2 characters to verify check digit"))
    );
    assert_eq!(verify_gs1_check_digit("123X"), Err(v("Check digit character 'X' is not numeric")));
}

#[test]
fn appended_check_digit_verifies() {
    for body in ["0", "12", "400638133393", "96385074", "000000000000"] {
        let d = calculate_gs1_check_digit(body).unwrap();
        let full = format!("{body}{d}");
        assert_eq!(verify_gs1_check_digit(&full), Ok(()));
    }
}

#[test]
fn symbology_names_round_trip() {
    for s in [
        BarcodeSymbology::Ean13,
        BarcodeSymbology::Ean8,
        BarcodeSymbology::UpcA,
        BarcodeSymbology::UpcE,
        BarcodeSymbology::Code128,
        BarcodeSymbology::Code39,
        BarcodeSymbology::Custom,
        BarcodeSymbology::Unknown,
    ] {
        assert_eq!(BarcodeSymbology::parse(s.as_str()), Some(s));
    }
    assert_eq!(BarcodeSymbology::parse("  ean-13 "), Some(BarcodeSymbology::Ean13));
    assert_eq!(BarcodeSymbology::parse("code-39"), Some(BarcodeSymbology::Code39));
    assert_eq!(BarcodeSymbology::parse("qr"), None);
    assert_eq!(BarcodeSymbology::parse("upc-e"), Some(BarcodeSymbology::UpcE));
    assert_eq!(BarcodeSymbology::parse("Code-39"), Some(BarcodeSymbology::Code39));
    assert_eq!(BarcodeSymbology::parse("QR"), None);
}

#[test]
fn symbology_validators() {
    assert_eq!(validate_ean13("4006381333931"), Ok(()));
    assert_eq!(
        validate_ean13("400638133393"),
        Err(v("EAN-13 barcode must be exactly 13 numeric digits, got 12"))
    );
    assert_eq!(
        validate_ean13("40063813339a1"),
        Err(v("EAN-13 barcode must contain only numeric digits (0-9)"))
    );
    assert_eq!(validate_ean8("96385074"), Ok(()));
    assert_eq!(validate_upc_a("036000291452"), Ok(()));
    assert_eq!(
        validate_upc_a("036000291453"),
        Err(BarcodeError::InvalidCheckDigit { expected: 2, actual: 3 })
    );
    assert_eq!(validate_upc_e("01234565"), Ok(()));
    assert_eq!(validate_code128("Hello-128 ~"), Ok(()));
    assert_eq!(
        validate_code128(""),
        Err(v("Code 128 barcode length must be between 1 and 128 characters, got 0"))
    );
    assert_eq!(
        validate_code128("tab\there"),
        Err(v("Code 128 barcode contains invalid non-printable or non-ASCII characters"))
    );
    assert_eq!(validate_code39("ABC-123 $/+%."), Ok(()));
    assert_eq!(
        validate_code39("abc"),
        Err(v("Code 39 barcode contains invalid characters. Allowed: A-Z, 0-9, -, ., $, /, +, %, space"))
    );
    let long = "A".repeat(65);
    assert_eq!(
        validate_code39(&long),
        Err(v("Code 39 barcode length must be between 1 and 64 characters, got 65"))
    );
    assert_eq!(
        validate_custom_barcode("é"),
        Err(v("Custom barcode contains invalid non-printable characters"))
    );
}

#[test]
fn explicit_symbology_validation() {
    assert_eq!(
        validate_barcode_symbology("  4006381333931 ", BarcodeSymbology::Ean13),
        Ok("4006381333931".to_string())
    );
    assert_eq!(validate_barcode_symbology("   ", BarcodeSymbology::Custom), Err(v("Barcode cannot be empty")));
    assert_eq!(
        validate_barcode_symbology("shelf tag 7", BarcodeSymbology::Unknown),
        Ok("shelf tag 7".to_string())
    );
}

#[test]
fn detection_prefers_most_specific() {
    assert_eq!(detect_symbology("4006381333931"), BarcodeSymbology::Ean13);
    assert_eq!(detect_symbology("036000291452"), BarcodeSymbology::UpcA);
    assert_eq!(detect_symbology("96385074"), BarcodeSymbology::Ean8);
    assert_eq!(detect_symbology("96385075"), BarcodeSymbology::UpcE);
    assert_eq!(detect_symbology("12345678"), BarcodeSymbology::UpcE);
    assert_eq!(detect_symbology("ABC-123"), BarcodeSymbology::Code39);
    assert_eq!(detect_symbology("abc-123"), BarcodeSymbology::Code128);
    assert_eq!(detect_symbology("ünïcode"), BarcodeSymbology::Custom);
    // A detected symbology other than Custom always validates.
    for code in ["4006381333931", "036000291452", "96385074", "96385075", "12345678", "ABC-123", "abc-123", " x ~ "] {
        let s = detect_symbology(code);
        assert!(validate_barcode_symbology(code, s).is_ok());
    }
}

#[test]
fn sku_rules() {
    assert_eq!(validate_sku("  ab-12_x.y "), Ok("AB-12_X.Y".to_string()));
    assert_eq!(validate_sku(" "), Err(v("SKU cannot be empty")));
    assert_eq!(validate_sku("ab"), Err(v("SKU length must be between 3 and 64 characters, got 2")));
    assert_eq!(
        validate_sku("ab cd"),
        Err(v("SKU contains invalid characters. Allowed: A-Z, 0-9, hyphens (-), underscores (_), dots (.)"))
    );
    assert_eq!(sanitize_sku_prefix(None), "SKU");
    assert_eq!(sanitize_sku_prefix(Some(" elec tronics!! ")), "ELECTRON");
    assert_eq!(sanitize_sku_prefix(Some("a_b-c")), "A_B-C");
    assert_eq!(sanitize_sku_prefix(Some("!!")), "SKU");
    assert_eq!(sanitize_sku_prefix(Some("elec tronics!")), "ELECTRON");
    assert_eq!(sanitize_sku_prefix(Some("ELECTRON")), "ELECTRON");
    assert_eq!(sanitize_sku_prefix(Some("***")), "SKU");
    // A sanitized prefix is clean, at most eight characters, and sanitizing it again keeps it.
    let clean = sanitize_sku_prefix(Some("  ab-cd_ef99 "));
    assert_eq!(clean, "AB-CD_EF");
    assert_eq!(sanitize_sku_prefix(Some(&clean)), clean);
    assert_eq!(sku_candidate("SKU", 1), "SKU-000001");
    assert_eq!(sku_candidate("ELEC", 42), "ELEC-000042");
    assert_eq!(sku_candidate("X", 1234567), "X-1234567");
    // A generated SKU is itself a valid SKU.
    assert_eq!(validate_sku(&sku_candidate("ELEC", 42)), Ok("ELEC-000042".to_string()));
}

#[test]
fn internal_ean13_rules() {
    assert_eq!(sanitize_ean13_prefix(None), Ok("200".to_string()));
    assert_eq!(sanitize_ean13_prefix(Some(" 250 ")), Ok("250".to_string()));
    assert_eq!(
        sanitize_ean13_prefix(Some("300")),
        Err(v("Internal EAN-13 prefix '300' is outside restricted store range 200-299"))
    );
    assert_eq!(
        sanitize_ean13_prefix(Some("2a0")),
        Err(v("Internal EAN-13 prefix must be a 3-digit numeric string (200-299)"))
    );
    let code = internal_ean13_candidate("200", 1);
    assert_eq!(code, "2000000000015");
    assert_eq!(validate_ean13(&code), Ok(()));
    let wrapped = internal_ean13_candidate("299", 1_000_000_007);
    assert!(wrapped.starts_with("299000000007"));
    assert_eq!(validate_ean13(&wrapped), Ok(()));
}

fn barcode(product: &str, active: bool) -> ProductBarcode {
    ProductBarcode {
        id: "b1".into(),
        product_id: product.into(),
        barcode: "4006381333931".into(),
        symbology: BarcodeSymbology::Ean13,
        is_primary: false,
        is_active: active,
        created_at: "2024-01-01".into(),
        updated_at: "2024-01-01".into(),
    }
}

#[test]
fn registry_decisions() {
    let req = AddBarcodeRequest {
        product_id: "  p1 ".into(),
        barcode: " 4006381333931 ".into(),
        symbology: None,
        is_primary: None,
    };
    assert_eq!(add_request_product_id(&req), Ok("p1".to_string()));
    let empty = AddBarcodeRequest { product_id: " ".into(), ..req.clone() };
    assert_eq!(add_request_product_id(&empty), Err(v("Product ID cannot be empty")));
    assert_eq!(
        check_add_target(&req, "p1", None),
        Err(BarcodeError::NotFound("Product with ID 'p1' not found".into()))
    );
    assert_eq!(check_add_target(&req, "p1", Some(0)), Err(v("Cannot assign barcode to an archived product")));
    assert_eq!(
        check_add_target(&req, "p1", Some(1)),
        Ok(("4006381333931".to_string(), BarcodeSymbology::Ean13))
    );
    assert_eq!(decide_add_primary("123", None, None, false), Ok(true));
    assert_eq!(decide_add_primary("123", None, None, true), Ok(false));
    assert_eq!(decide_add_primary("123", Some(false), None, false), Ok(false));
    assert_eq!(
        decide_add_primary("123", None, Some("p9"), false),
        Err(BarcodeError::DuplicateBarcode("Barcode '123' is already actively assigned to product 'p9'".into()))
    );
    assert_eq!(check_set_primary(Some(&barcode("p1", true)), "p1", "b1"), Ok(()));
    assert_eq!(
        check_set_primary(Some(&barcode("p2", true)), "p1", "b1"),
        Err(v("Barcode 'b1' does not belong to product 'p1'"))
    );
    assert_eq!(
        check_set_primary(Some(&barcode("p1", false)), "p1", "b1"),
        Err(v("Cannot set an inactive barcode as primary"))
    );
    assert_eq!(
        check_set_primary(None, "p1", "b1"),
        Err(BarcodeError::NotFound("Barcode with ID 'b1' not found".into()))
    );
    assert_eq!(check_reassign_target("p2", Some(1)), Ok(()));
    assert_eq!(check_reassign_target("p2", Some(0)), Err(v("Cannot reassign barcode to an archived product")));
    assert_eq!(
        check_reassign_target("p2", None),
        Err(BarcodeError::NotFound("Target product with ID 'p2' not found".into()))
    );
}

#[test]
fn barcode_error_text() {
    assert_eq!(v("x").describe(), "Validation error: x");
    assert_eq!(
        BarcodeError::InvalidCheckDigit { expected: 1, actual: 9 }.describe(),
        "Invalid GS1 check digit: expected 1, got 9"
    );
    assert_eq!(BarcodeError::DuplicateSku("s".into()).describe(), "Duplicate SKU error: s");
}

#[test]
fn integrity_audit_findings() {
    assert!(integrity_mismatch("p1", "Tea", Some("123"), Some("123")).is_none());
    assert!(integrity_mismatch("p1", "Tea", None, None).is_none());
    let m = integrity_mismatch("p1", "Tea", Some("123"), None).unwrap();
    assert_eq!(m.product_id, "p1");
    assert_eq!(m.product_name, "Tea");
    assert_eq!(m.legacy_mirror, Some("123".to_string()));
    assert_eq!(m.canonical_primary, None);
    assert_eq!(
        m.description,
        "Legacy products.barcode (Some(\"123\")) disagrees with canonical primary in product_barcodes (None)"
    );
    let m = integrity_mismatch("p2", "Milk", None, Some("9")).unwrap();
    assert_eq!(
        m.description,
        "Legacy products.barcode (None) disagrees with canonical primary in product_barcodes (Some(\"9\"))"
    );
}

#[test]
fn barcode_string_check() {
    assert_eq!(check_barcode_string(" 4006381333931 ", None), Ok("4006381333931".to_string()));
    assert_eq!(
        check_barcode_string("400638133393", Some(" ean-13 ")),
        Err("Validation error: EAN-13 barcode must be exactly 13 numeric digits, got 12".to_string())
    );
    assert_eq!(
        check_barcode_string("036000291453", Some("UPC-A")),
        Err("Invalid GS1 check digit: expected 2, got 3".to_string())
    );
    // an unknown symbology name accepts any printable text
    assert_eq!(check_barcode_string("shelf tag 7", Some("mystery")), Ok("shelf tag 7".to_string()));
    assert_eq!(check_barcode_string("  ", None), Err("Validation error: Barcode cannot be empty".to_string()));
}
