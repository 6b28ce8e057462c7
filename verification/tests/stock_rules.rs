use pos_global::stock::{
    batch_after_movement, canonical_fingerprint_text, check_batch_lot, check_location_and_bin,
    check_product_and_variant, check_serial_asset, next_slot_balance, serial_status_after_movement,
    stock_replay_decision, stock_summary_record, validate_request_basic, BatchLotRow,
    MovementReason, PostMovementRequest, SerialAssetRow, StockLedgerError,
};

fn request(delta: i64, reason: MovementReason) -> PostMovementRequest {
    PostMovementRequest {
        idempotency_key: "key-1".to_string(),
        branch_id: " b1 ".to_string(),
        product_id: "p1".to_string(),
        variant_id: Some("   ".to_string()),
        location_id: "loc1".to_string(),
        bin_id: Some(" bin1".to_string()),
        batch_id: None,
        serial_id: None,
        quantity_delta_milli: delta,
        reason,
        user_id: Some(" u1 ".to_string()),
    }
}

#[test]
fn reasons_and_normalization() {
    for r in [MovementReason::OpeningBalance, MovementReason::Adjustment, MovementReason::Damage, MovementReason::Loss] {
        assert_eq!(MovementReason::from_str(r.as_str()), Ok(r));
    }
    assert_eq!(
        MovementReason::from_str("Damage"),
        Err(StockLedgerError::Database(
            "Invalid movement reason 'Damage'. Permitted: opening_balance, adjustment, damage, loss".to_string()
        ))
    );
    let r = request(-1000, MovementReason::Damage);
    assert_eq!(r.normalized_variant_id(), Ok(None));
    assert_eq!(r.normalized_bin_id(), Ok(Some("bin1")));
    assert_eq!(r.normalized_batch_id(), Ok(None));
    assert_eq!(r.normalized_serial_id(), Ok(None));
    assert_eq!(r.normalized_user_id(), Ok(Some("u1")));
}

#[test]
fn request_fingerprint() {
    let r = request(-1000, MovementReason::Damage);
    assert_eq!(canonical_fingerprint_text(&r), "b1|p1||loc1|bin1|||-1000|damage");
    assert_eq!(r.canonical_hash(), "ec16d2e8169ffcc78936e8e64af2d066406a8b12aa5307320dd03a816e0e5c33");
    let mut other_key = r.clone();
    other_key.idempotency_key = "key-2".to_string();
    assert_eq!(other_key.canonical_hash(), r.canonical_hash());
}

#[test]
fn basic_request_checks() {
    assert_eq!(validate_request_basic(&request(0, MovementReason::Adjustment)), Err(StockLedgerError::ZeroQuantityDelta));
    let mut no_loc = request(5, MovementReason::Adjustment);
    no_loc.location_id = " ".to_string();
    assert_eq!(validate_request_basic(&no_loc), Err(StockLedgerError::MissingLocation));
    assert_eq!(
        validate_request_basic(&request(-5, MovementReason::OpeningBalance)),
        Err(StockLedgerError::NegativeStock("opening_balance cannot have negative delta".to_string()))
    );
    assert_eq!(
        validate_request_basic(&request(5, MovementReason::Loss)),
        Err(StockLedgerError::Database("damage and loss movements must have negative deltas".to_string()))
    );
    assert_eq!(validate_request_basic(&request(-5, MovementReason::Adjustment)), Ok(()));
}

#[test]
fn replay_rows() {
    assert_eq!(stock_replay_decision("k", "h", None), Ok(None));
    assert_eq!(
        stock_replay_decision("k", "h", Some(("{\"a\":1}".to_string(), Some("h".to_string())))),
        Ok(Some("{\"a\":1}".to_string()))
    );
    assert_eq!(
        stock_replay_decision("k", "h", Some(("{}".to_string(), None))),
        Err(StockLedgerError::IdempotencyConflict(
            "Idempotency key 'k' already used with different request parameters".to_string()
        ))
    );
}

#[test]
fn location_product_checks() {
    assert_eq!(check_location_and_bin("b1", "l1", None, Some(("b1".to_string(), 1)), None), Ok(()));
    assert_eq!(
        check_location_and_bin("b1", "l1", None, None, None),
        Err(StockLedgerError::LocationNotFound("l1".to_string()))
    );
    assert_eq!(
        check_location_and_bin("b1", "l1", None, Some(("b2".to_string(), 1)), None),
        Err(StockLedgerError::LocationBranchMismatch("Location 'l1' belongs to branch 'b2', not 'b1'".to_string()))
    );
    assert_eq!(
        check_location_and_bin("b1", "l1", None, Some(("b1".to_string(), 0)), None),
        Err(StockLedgerError::LocationNotFound("Location 'l1' is inactive".to_string()))
    );
    assert_eq!(
        check_location_and_bin("b1", "l1", Some("x"), Some(("b1".to_string(), 1)), None),
        Err(StockLedgerError::BinNotFound("x".to_string()))
    );
    assert_eq!(
        check_location_and_bin("b1", "l1", Some("x"), Some(("b1".to_string(), 1)), Some(("l2".to_string(), 1))),
        Err(StockLedgerError::BinLocationMismatch("Bin 'x' belongs to location 'l2', not 'l1'".to_string()))
    );
    assert_eq!(
        check_location_and_bin("b1", "l1", Some("x"), Some(("b1".to_string(), 1)), Some(("l1".to_string(), 0))),
        Err(StockLedgerError::BinNotFound("Bin 'x' is inactive".to_string()))
    );

    assert_eq!(check_product_and_variant("p1", None, Some(1), None), Ok(()));
    assert_eq!(check_product_and_variant("p1", None, None, None), Err(StockLedgerError::ProductNotFound("p1".to_string())));
    assert_eq!(
        check_product_and_variant("p1", None, Some(0), None),
        Err(StockLedgerError::ProductNotFound("Product 'p1' is inactive".to_string()))
    );
    assert_eq!(
        check_product_and_variant("p1", Some("v"), Some(1), None),
        Err(StockLedgerError::VariantNotFound("v".to_string()))
    );
    assert_eq!(
        check_product_and_variant("p1", Some("v"), Some(1), Some(("p2".to_string(), 1, false))),
        Err(StockLedgerError::VariantProductMismatch("Variant 'v' belongs to product 'p2', not 'p1'".to_string()))
    );
    assert_eq!(
        check_product_and_variant("p1", Some("v"), Some(1), Some(("p1".to_string(), 1, true))),
        Err(StockLedgerError::VariantInactive("Variant 'v' is inactive or deleted".to_string()))
    );
}

fn lot(qty: i64) -> BatchLotRow {
    BatchLotRow { product_id: "p1".to_string(), branch_id: "b1".to_string(), variant_id: None, quantity_milli: qty }
}

#[test]
fn batch_lots() {
    assert_eq!(check_batch_lot(None, "p1", "b1", None, -5, None), Ok(None));
    assert_eq!(check_batch_lot(Some("bt"), "p1", "b1", None, -5, Some(lot(10))), Ok(Some(10)));
    assert_eq!(
        check_batch_lot(Some("bt"), "p1", "b1", None, -15, Some(lot(10))),
        Err(StockLedgerError::BatchInsufficientStock("Batch 'bt' balance 10 is insufficient for deduction -15".to_string()))
    );
    assert_eq!(
        check_batch_lot(Some("bt"), "p1", "b1", None, i64::MAX, Some(lot(10))),
        Err(StockLedgerError::BatchArithmeticOverflow("Batch 'bt' overflow".to_string()))
    );
    assert_eq!(check_batch_lot(Some("bt"), "p1", "b1", None, 1, None), Err(StockLedgerError::BatchNotFound("bt".to_string())));
    assert_eq!(
        check_batch_lot(Some("bt"), "p1", "b1", Some("v1"), 1, Some(lot(10))),
        Err(StockLedgerError::BatchVariantMismatch("Batch 'bt' belongs to variant 'None', not 'Some(\"v1\")'".to_string()))
    );
    let mut elsewhere = lot(10);
    elsewhere.branch_id = "b9".to_string();
    assert_eq!(
        check_batch_lot(Some("bt"), "p1", "b1", None, 1, Some(elsewhere)),
        Err(StockLedgerError::BatchBranchMismatch("Batch 'bt' belongs to branch 'b9', not 'b1'".to_string()))
    );
}

fn asset(status: &str) -> SerialAssetRow {
    SerialAssetRow {
        id: "s1".to_string(),
        product_id: "p1".to_string(),
        branch_id: "b1".to_string(),
        variant_id: None,
        status: status.to_string(),
        location_id: Some("l1".to_string()),
        bin_id: None,
    }
}

#[test]
fn serial_assets() {
    assert_eq!(
        check_serial_asset("s1", "p1", "b1", None, "l1", None, 2000, Some(asset("in_stock"))),
        Err(StockLedgerError::SerialInvalidQuantity(
            "Serialized movement must have quantity_delta_milli of 1000 or -1000, got 2000".to_string()
        ))
    );
    assert_eq!(check_serial_asset("s1", "p1", "b1", None, "l1", None, -1000, None), Err(StockLedgerError::SerialNotFound("s1".to_string())));
    assert_eq!(check_serial_asset("s1", "p1", "b1", None, "l1", None, -1000, Some(asset("in_stock"))), Ok(()));
    assert_eq!(
        check_serial_asset("s1", "p1", "b1", None, "l1", None, 1000, Some(asset("in_stock"))),
        Err(StockLedgerError::SerialInvalidStatus("Serial 's1' is already in_stock".to_string()))
    );
    assert_eq!(
        check_serial_asset("s1", "p1", "b1", None, "l1", None, 1000, Some(asset("sold"))),
        Err(StockLedgerError::SerialInvalidStatus("Serial 's1' has terminal or non-revivable status 'sold'".to_string()))
    );
    assert_eq!(check_serial_asset("s1", "p1", "b1", None, "l1", None, 1000, Some(asset("reserved"))), Ok(()));
    assert_eq!(
        check_serial_asset("s1", "p1", "b1", None, "l1", None, -1000, Some(asset("defective"))),
        Err(StockLedgerError::SerialInvalidStatus(
            "Serial 's1' cannot be deducted; status is 'defective', expected 'in_stock'".to_string()
        ))
    );
    assert_eq!(
        check_serial_asset("s1", "p1", "b1", None, "l2", None, -1000, Some(asset("in_stock"))),
        Err(StockLedgerError::SerialCoordinateMismatch(
            "Serial 's1' is physically located at location 'l1', not 'l2'".to_string()
        ))
    );
    assert_eq!(
        check_serial_asset("s1", "p1", "b1", None, "l1", Some("bin"), -1000, Some(asset("in_stock"))),
        Err(StockLedgerError::SerialCoordinateMismatch(
            "Serial 's1' is physically located at bin 'None', not 'Some(\"bin\")'".to_string()
        ))
    );
    let mut nowhere = asset("in_stock");
    nowhere.location_id = None;
    assert_eq!(
        check_serial_asset("s1", "p1", "b1", None, "l1", None, -1000, Some(nowhere)),
        Err(StockLedgerError::SerialCoordinateMismatch("Serial has no physical location assigned".to_string()))
    );
}

#[test]
fn balance_updates() {
    assert_eq!(next_slot_balance(Some(5000), -2000, "Aggregate"), Ok((5000, 3000)));
    assert_eq!(next_slot_balance(None, 700, "Aggregate"), Ok((0, 700)));
    assert_eq!(
        next_slot_balance(Some(100), -300, "Spatial slot"),
        Err(StockLedgerError::NegativeStock("Spatial slot would become -200 (before: 100, delta: -300)".to_string()))
    );
    // an intake followed by the same removal restores the balance
    let (b, a) = next_slot_balance(Some(40), 60, "s").unwrap();
    assert_eq!(next_slot_balance(Some(a), -60, "s"), Ok((a, b)));
    assert_eq!(batch_after_movement(None, "active", 5), None);
    assert_eq!(batch_after_movement(Some(5), "active", -5), Some((0, "depleted")));
    assert_eq!(batch_after_movement(Some(5), "active", 5), Some((10, "active")));
    // a recalled batch is terminal: a damage or loss movement leaves it recalled
    assert_eq!(batch_after_movement(Some(5000), "recalled", -1000), Some((4000, "recalled")));
    assert_eq!(batch_after_movement(Some(1000), "recalled", -1000), Some((0, "recalled")));
    // the stock service lifts a quarantine on a movement, and a refill reopens a depleted batch
    assert_eq!(batch_after_movement(Some(5000), "quarantined", -1000), Some((4000, "active")));
    assert_eq!(batch_after_movement(Some(0), "depleted", 2000), Some((2000, "active")));
    assert_eq!(batch_after_movement(Some(1000), "quarantined", -1000), Some((0, "depleted")));
    assert_eq!(serial_status_after_movement(1000, MovementReason::Damage), "in_stock");
    assert_eq!(serial_status_after_movement(-1000, MovementReason::Damage), "defective");
    assert_eq!(serial_status_after_movement(-1000, MovementReason::Adjustment), "reserved");
    assert_eq!(serial_status_after_movement(-1000, MovementReason::Loss), "disposed");
    let s = stock_summary_record("b1", "p1", Some("v"), 9000, 4000);
    assert_eq!(s.unallocated_quantity_milli, 5000);
    assert_eq!(s.variant_id, Some("v".to_string()));
}
