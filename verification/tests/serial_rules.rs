use pos_global::serial::{
    check_status_update, check_variant_row, classify_collision, validate_asset_tag,
    validate_cost_price, validate_identifiers, validate_imei, validate_luhn_checksum,
    validate_serial_number, validate_status_transition, SerialError, SerialStatus,
    SerializedInstance, UpdateSerialStatusInput,
};

const ALL: [SerialStatus; 7] = [
    SerialStatus::InStock,
    SerialStatus::Reserved,
    SerialStatus::Sold,
    SerialStatus::Transferred,
    SerialStatus::Defective,
    SerialStatus::Recalled,
    SerialStatus::Disposed,
];

#[test]
fn status_codes_round_trip() {
    for s in ALL {
        assert_eq!(SerialStatus::from_str(s.as_str()), Ok(s));
    }
    assert_eq!(SerialStatus::from_str("  IN_STOCK "), Ok(SerialStatus::InStock));
    assert_eq!(
        SerialStatus::from_str("lost"),
        Err(SerialError::Validation(
            "Invalid serial status 'lost'. Allowed: in_stock, reserved, sold, transferred, defective, recalled, disposed"
                .to_string()
        ))
    );
    assert!(SerialStatus::Recalled.is_terminal());
    assert!(SerialStatus::Disposed.is_terminal());
    assert!(!SerialStatus::Sold.is_terminal());
}

#[test]
fn luhn_checksum() {
    assert!(validate_luhn_checksum("79927398713"));
    assert!(validate_luhn_checksum("490154203237518"));
    assert!(!validate_luhn_checksum("490154203237519"));
    assert!(!validate_luhn_checksum("4901a4203237518"));
    assert!(validate_luhn_checksum(""));
}

#[test]
fn identifier_validation() {
    assert_eq!(validate_serial_number("  SN-1 "), Ok("SN-1".to_string()));
    assert_eq!(
        validate_serial_number("   "),
        Err(SerialError::Validation("Serial number cannot be empty or whitespace-only".to_string()))
    );
    assert_eq!(
        validate_serial_number(&"x".repeat(101)),
        Err(SerialError::Validation("Serial number exceeds maximum length of 100 characters".to_string()))
    );
    assert_eq!(validate_asset_tag(&"é".repeat(100)), Ok("é".repeat(100)));
    assert_eq!(
        validate_asset_tag(""),
        Err(SerialError::Validation("Asset tag cannot be empty or whitespace-only".to_string()))
    );
    assert_eq!(validate_imei(" 490154203237518 "), Ok("490154203237518".to_string()));
    assert_eq!(
        validate_imei("49015420323751"),
        Err(SerialError::Validation("IMEI must be exactly 15 decimal digits".to_string()))
    );
    assert_eq!(
        validate_imei("490154203237519"),
        Err(SerialError::Validation("IMEI failed Luhn check digit validation".to_string()))
    );
}

#[test]
fn identifier_triples() {
    assert_eq!(
        validate_identifiers(Some(" A1 "), Some(""), None),
        Ok((Some("A1".to_string()), None, None))
    );
    assert_eq!(
        validate_identifiers(None, Some("490154203237518"), Some("TAG")),
        Ok((None, Some("490154203237518".to_string()), Some("TAG".to_string())))
    );
    assert_eq!(
        validate_identifiers(Some("  "), None, Some("")),
        Err(SerialError::Validation(
            "At least one valid identifier (serial_number, imei, or asset_tag) must be provided".to_string()
        ))
    );
    assert_eq!(
        validate_identifiers(Some("ok"), Some("123"), None),
        Err(SerialError::Validation("IMEI must be exactly 15 decimal digits".to_string()))
    );
    assert_eq!(validate_cost_price(Some(-1)), Err(SerialError::Validation("Cost price cannot be negative".to_string())));
    assert_eq!(validate_cost_price(Some(0)), Ok(()));
    assert_eq!(validate_cost_price(None), Ok(()));
}

#[test]
fn lifecycle_transitions() {
    for target in ALL {
        assert_eq!(
            validate_status_transition(SerialStatus::Recalled, target),
            Err(SerialError::TerminalStatus("recalled".to_string()))
        );
        assert_eq!(
            validate_status_transition(SerialStatus::Disposed, target),
            Err(SerialError::TerminalStatus("disposed".to_string()))
        );
    }
    for s in ALL {
        if !s.is_terminal() {
            assert_eq!(validate_status_transition(s, SerialStatus::Recalled), Ok(()));
            assert_eq!(validate_status_transition(s, SerialStatus::Disposed), Ok(()));
            assert_eq!(validate_status_transition(s, s), Ok(()));
        }
    }
    assert_eq!(validate_status_transition(SerialStatus::InStock, SerialStatus::Transferred), Ok(()));
    assert_eq!(
        validate_status_transition(SerialStatus::Sold, SerialStatus::Transferred),
        Err(SerialError::InvalidStatusTransition { from: "sold".to_string(), to: "transferred".to_string() })
    );
    assert_eq!(
        validate_status_transition(SerialStatus::Defective, SerialStatus::Sold),
        Err(SerialError::InvalidStatusTransition { from: "defective".to_string(), to: "sold".to_string() })
    );
}

#[test]
fn variant_and_collision_checks() {
    assert_eq!(check_variant_row("p1", "v1", Some(("p1".to_string(), true, false))), Ok(()));
    assert_eq!(
        check_variant_row("p1", "v1", None),
        Err(SerialError::InvalidVariant("Variant 'v1' not found".to_string()))
    );
    assert_eq!(
        check_variant_row("p1", "v1", Some(("p2".to_string(), true, false))),
        Err(SerialError::InvalidVariant("Variant 'v1' belongs to product 'p2', not 'p1'".to_string()))
    );
    assert_eq!(
        check_variant_row("p1", "v1", Some(("p1".to_string(), false, false))),
        Err(SerialError::InvalidVariant("Variant 'v1' is inactive or soft-deleted".to_string()))
    );
    assert_eq!(
        classify_collision(false, "UNIQUE constraint failed: serial_numbers.imei".to_string()),
        SerialError::DuplicateImei("IMEI already exists".to_string())
    );
    assert_eq!(
        classify_collision(true, "idx_serial_numbers_serial_active".to_string()),
        SerialError::DuplicateSerial("Serial number already exists".to_string())
    );
    assert_eq!(
        classify_collision(true, "serial_numbers.branch_id, serial_numbers.asset_tag".to_string()),
        SerialError::DuplicateAssetTag("Asset tag already exists in this branch".to_string())
    );
    assert_eq!(
        classify_collision(false, "disk I/O error".to_string()),
        SerialError::Database("disk I/O error".to_string())
    );
}

fn unit(branch: &str, status: SerialStatus) -> SerializedInstance {
    SerializedInstance {
        id: "u1".to_string(),
        product_id: "p1".to_string(),
        branch_id: branch.to_string(),
        variant_id: None,
        serial_number: Some("SN".to_string()),
        imei: None,
        asset_tag: None,
        cost_price_minor: None,
        status,
        sold_in_sale_id: None,
        warranty_expires_at: None,
        created_at: "2024-01-01".to_string(),
        updated_at: "2024-01-01".to_string(),
    }
}

#[test]
fn status_update_checks() {
    let input = UpdateSerialStatusInput {
        id: "u1".to_string(),
        branch_id: "b1".to_string(),
        status: SerialStatus::Sold,
    };
    assert_eq!(check_status_update(None, &input), Err(SerialError::NotFound("u1".to_string())));
    assert_eq!(
        check_status_update(Some(&unit("b2", SerialStatus::InStock)), &input),
        Err(SerialError::NotFound("u1".to_string()))
    );
    assert_eq!(check_status_update(Some(&unit("b1", SerialStatus::InStock)), &input), Ok(()));
    assert_eq!(
        check_status_update(Some(&unit("b1", SerialStatus::Disposed)), &input),
        Err(SerialError::TerminalStatus("disposed".to_string()))
    );
}
