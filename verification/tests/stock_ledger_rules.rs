use pos_global::commands::stock_ledger::{
    location_inventory_filter, movement_filter, movement_input, LocationInventoryFilterRequest,
    PostMovementRequest, StockMovementFilterRequest,
};
use pos_global::stock_ledger::hash::{canonical_request_text, to_hex_lower};
use pos_global::stock_ledger::posting::{
    check_movement_request, check_spatial_allocation, clean_idempotency_key, movement_record,
    plan_movement, replay_decision, try_plan_movement, BatchFacts, BinFacts, LocationFacts, MovementFacts,
    MovementPlan, NormalizedMovement, SerialFacts, VariantFacts,
};
use pos_global::stock_ledger::{
    balance_summary, compute_request_hash, movement_page_limit, movement_page_offset,
    PostMovementInput, StockLedgerError, StockMovementReason,
};

fn input(delta: i64, reason: StockMovementReason) -> PostMovementInput {
    PostMovementInput {
        branch_id: " b1 ".to_string(),
        product_id: "p1".to_string(),
        variant_id: None,
        location_id: "loc1".to_string(),
        bin_id: Some(" bin1 ".to_string()),
        batch_id: Some("  ".to_string()),
        serial_id: None,
        quantity_delta_milli: delta,
        reason,
        source_type: Some("manual".to_string()),
        source_id: None,
        user_id: Some("u1".to_string()),
        idempotency_key: Some("k1".to_string()),
    }
}

#[test]
fn reason_codes_and_directions() {
    assert_eq!(StockMovementReason::from_str(" LOSS "), Ok(StockMovementReason::Loss));
    assert_eq!(
        StockMovementReason::from_str("sale"),
        Err(StockLedgerError::InvalidReason(
            "Invalid movement reason 'sale'. Allowed: opening_balance, adjustment, damage, loss".to_string()
        ))
    );
    assert_eq!(StockMovementReason::from_persisted_str(" Purchase "), StockMovementReason::PurchaseReceipt);
    assert_eq!(StockMovementReason::from_persisted_str("purchase"), StockMovementReason::PurchaseReceipt);
    for r in [
        StockMovementReason::OpeningBalance,
        StockMovementReason::Adjustment,
        StockMovementReason::Damage,
        StockMovementReason::Loss,
        StockMovementReason::Sale,
        StockMovementReason::Refund,
        StockMovementReason::PurchaseReceipt,
        StockMovementReason::Transfer,
    ] {
        assert_eq!(StockMovementReason::from_persisted_str(r.as_str()), r);
        assert_eq!(StockMovementReason::from_persisted_str(&format!(" {} ", r.as_str().to_uppercase())), r);
    }
    assert_eq!(StockMovementReason::from_persisted_str(" SALE "), StockMovementReason::Sale);
    assert_eq!(StockMovementReason::from_persisted_str(" Foo "), StockMovementReason::Other("Foo".to_string()));
    assert_eq!(StockMovementReason::from_persisted_str("sale"), StockMovementReason::Sale);
    assert_eq!(
        StockMovementReason::from_persisted_str(" Custom "),
        StockMovementReason::Other("Custom".to_string())
    );
    assert_eq!(StockMovementReason::Other("x".to_string()).as_str(), "x");
    assert_eq!(StockMovementReason::PurchaseReceipt.as_str(), "purchase_receipt");
    assert!(StockMovementReason::Damage.is_mutation_reason());
    assert!(!StockMovementReason::Transfer.is_mutation_reason());
    assert_eq!(StockMovementReason::Adjustment.duplicate(), StockMovementReason::Adjustment);

    assert_eq!(StockMovementReason::OpeningBalance.validate_delta(1), Ok(()));
    assert_eq!(
        StockMovementReason::OpeningBalance.validate_delta(-1),
        Err(StockLedgerError::InvalidQuantity(
            "opening_balance reason requires positive quantity_delta_milli".to_string()
        ))
    );
    assert_eq!(
        StockMovementReason::Damage.validate_delta(5),
        Err(StockLedgerError::InvalidQuantity("damage reason requires negative quantity_delta_milli".to_string()))
    );
    assert_eq!(
        StockMovementReason::Loss.validate_delta(0),
        Err(StockLedgerError::InvalidQuantity("Quantity delta cannot be zero".to_string()))
    );
    assert_eq!(StockMovementReason::Adjustment.validate_delta(-7), Ok(()));
    assert_eq!(StockMovementReason::Adjustment.validate_delta(7), Ok(()));
    assert_eq!(
        StockMovementReason::Refund.validate_delta(7),
        Err(StockLedgerError::InvalidReason(
            "Invalid movement reason 'refund'. Allowed: opening_balance, adjustment, damage, loss".to_string()
        ))
    );
}

#[test]
fn canonical_text_and_hash() {
    let i = input(-2500, StockMovementReason::Adjustment);
    assert_eq!(
        canonical_request_text(&i),
        "branch_id=b1|product_id=p1|variant_id=|location_id=loc1|bin_id=bin1|batch_id=|serial_id=|quantity_delta_milli=-2500|reason=adjustment|source_type=manual|source_id=|user_id=u1"
    );
    assert_eq!(
        compute_request_hash(&i),
        "06de3b4d98b04e0d8aa945f692464fe28d01b478ca34fb1865dcfc20e53e9e63"
    );
    // the idempotency key itself is not part of the fingerprint
    let mut other_key = i.clone();
    other_key.idempotency_key = Some("k2".to_string());
    assert_eq!(compute_request_hash(&other_key), compute_request_hash(&i));
    let mut other_delta = i.clone();
    other_delta.quantity_delta_milli = -2501;
    assert_ne!(compute_request_hash(&other_delta), compute_request_hash(&i));
    assert_eq!(to_hex_lower(&[0x00, 0xab, 0x7f]), "00ab7f");
}

#[test]
fn request_checks() {
    let n = check_movement_request(&input(-2500, StockMovementReason::Adjustment)).unwrap();
    assert_eq!(n.branch_id, "b1");
    assert_eq!(n.bin_id, Some("bin1".to_string()));
    assert_eq!(n.batch_id, None);
    let mut blank = input(1, StockMovementReason::Adjustment);
    blank.location_id = "  ".to_string();
    assert_eq!(
        check_movement_request(&blank),
        Err(StockLedgerError::Validation("location_id cannot be empty".to_string()))
    );
    assert_eq!(
        check_movement_request(&input(5, StockMovementReason::Loss)),
        Err(StockLedgerError::InvalidQuantity("loss reason requires negative quantity_delta_milli".to_string()))
    );
    assert_eq!(clean_idempotency_key(&None), Ok(None));
    assert_eq!(clean_idempotency_key(&Some(" k ".to_string())), Ok(Some("k".to_string())));
    assert_eq!(
        clean_idempotency_key(&Some(" ".to_string())),
        Err(StockLedgerError::Validation("idempotency_key cannot be empty or whitespace".to_string()))
    );
}

#[test]
fn idempotent_replays() {
    assert_eq!(replay_decision("k", "h1", None), Ok(None));
    assert_eq!(
        replay_decision("k", "h1", Some((Some("h1".to_string()), Some("{}".to_string())))),
        Ok(Some("{}".to_string()))
    );
    assert_eq!(
        replay_decision("k", "h1", Some((Some("h2".to_string()), Some("{}".to_string())))),
        Err(StockLedgerError::IdempotencyConflict(
            "Idempotency key 'k' already used with different request parameters".to_string()
        ))
    );
    assert!(replay_decision("k", "h1", Some((None, None))).is_err());
}

fn norm(batch: Option<&str>, serial: Option<&str>) -> NormalizedMovement {
    NormalizedMovement {
        branch_id: "b1".to_string(),
        product_id: "p1".to_string(),
        location_id: "loc1".to_string(),
        variant_id: None,
        bin_id: None,
        batch_id: batch.map(|s| s.to_string()),
        serial_id: serial.map(|s| s.to_string()),
    }
}

fn facts() -> MovementFacts {
    MovementFacts {
        branch_active: Some(true),
        product_active: Some(true),
        variant: None,
        location: Some(LocationFacts { branch_id: "b1".to_string(), is_active: true }),
        bin: None,
        batch: None,
        serial: None,
        aggregate_quantity_milli: Some(5000),
        spatial_quantity_milli: Some(2000),
    }
}

#[test]
fn movement_plans() {
    let plan = plan_movement(&norm(None, None), -1500, &StockMovementReason::Adjustment, &facts()).unwrap();
    assert_eq!(
        plan,
        MovementPlan {
            aggregate_before_milli: 5000,
            aggregate_after_milli: 3500,
            spatial_after_milli: 500,
            batch_update: None,
            serial_status: None,
        }
    );
    assert_eq!(
        plan_movement(&norm(None, None), -2500, &StockMovementReason::Adjustment, &facts()),
        Err(StockLedgerError::InsufficientStock { requested_milli: 2500, available_milli: 2000 })
    );
    let mut no_rows = facts();
    no_rows.aggregate_quantity_milli = None;
    no_rows.spatial_quantity_milli = None;
    let opening = plan_movement(&norm(None, None), 4000, &StockMovementReason::OpeningBalance, &no_rows).unwrap();
    assert_eq!(opening.aggregate_before_milli, 0);
    assert_eq!(opening.aggregate_after_milli, 4000);
    assert_eq!(
        plan_movement(&norm(None, None), -1, &StockMovementReason::Loss, &no_rows),
        Err(StockLedgerError::InsufficientStock { requested_milli: 1, available_milli: 0 })
    );

    let mut inactive = facts();
    inactive.branch_active = Some(false);
    assert_eq!(
        plan_movement(&norm(None, None), 1, &StockMovementReason::Adjustment, &inactive),
        Err(StockLedgerError::Validation("Branch 'b1' is inactive".to_string()))
    );
    let mut elsewhere = facts();
    elsewhere.location = Some(LocationFacts { branch_id: "b2".to_string(), is_active: true });
    assert_eq!(
        plan_movement(&norm(None, None), 1, &StockMovementReason::Adjustment, &elsewhere),
        Err(StockLedgerError::BranchMismatch("Location 'loc1' belongs to branch 'b2', not 'b1'".to_string()))
    );
    let mut with_bin = norm(None, None);
    with_bin.bin_id = Some("x".to_string());
    let mut bin_facts = facts();
    bin_facts.bin = Some(BinFacts { location_id: "loc1".to_string(), is_active: false });
    assert_eq!(
        plan_movement(&with_bin, 1, &StockMovementReason::Adjustment, &bin_facts),
        Err(StockLedgerError::InvalidBin("Bin 'x' is inactive".to_string()))
    );
    let mut with_variant = norm(None, None);
    with_variant.variant_id = Some("v1".to_string());
    let mut variant_facts = facts();
    variant_facts.variant = Some(VariantFacts { product_id: "p2".to_string(), is_active: true, is_deleted: false });
    assert_eq!(
        plan_movement(&with_variant, 1, &StockMovementReason::Adjustment, &variant_facts),
        Err(StockLedgerError::VariantMismatch("Variant 'v1' belongs to product 'p2', not 'p1'".to_string()))
    );

    // the most negative delta: entity errors come first; only a shortfall cannot be reported
    assert_eq!(
        plan_movement(&norm(None, None), i64::MIN, &StockMovementReason::Loss, &inactive),
        Err(StockLedgerError::Validation("Branch 'b1' is inactive".to_string()))
    );
    assert_eq!(
        try_plan_movement(&norm(None, None), i64::MIN, &StockMovementReason::Loss, &inactive),
        Some(Err(StockLedgerError::Validation("Branch 'b1' is inactive".to_string())))
    );
    assert_eq!(try_plan_movement(&norm(None, None), i64::MIN, &StockMovementReason::Loss, &facts()), None);
    assert_eq!(
        try_plan_movement(&norm(None, None), -1500, &StockMovementReason::Adjustment, &facts()),
        Some(Ok(plan))
    );
}

fn batch(status: &str, qty: i64) -> BatchFacts {
    BatchFacts {
        product_id: "p1".to_string(),
        branch_id: "b1".to_string(),
        variant_id: None,
        quantity_milli: qty,
        status: status.to_string(),
    }
}

#[test]
fn batch_movements() {
    let mut f = facts();
    f.batch = Some(batch("active", 2000));
    let p = plan_movement(&norm(Some("bt"), None), -2000, &StockMovementReason::Damage, &f).unwrap();
    assert_eq!(p.batch_update, Some((0, "depleted".to_string())));
    f.batch = Some(batch("quarantined", 2000));
    let q = plan_movement(&norm(Some("bt"), None), -500, &StockMovementReason::Damage, &f).unwrap();
    assert_eq!(q.batch_update, Some((1500, "quarantined".to_string())));
    assert_eq!(
        plan_movement(&norm(Some("bt"), None), 500, &StockMovementReason::Adjustment, &f),
        Err(StockLedgerError::InvalidBatch("Quarantined batch cannot accept positive stock intake".to_string()))
    );
    f.batch = Some(batch("depleted", 0));
    assert_eq!(
        plan_movement(&norm(Some("bt"), None), -1, &StockMovementReason::Adjustment, &f),
        Err(StockLedgerError::InvalidBatch(
            "Depleted batch is terminal and cannot accept stock intake or movements".to_string()
        ))
    );
    f.batch = Some(batch("recalled", 100));
    let r = plan_movement(&norm(Some("bt"), None), -100, &StockMovementReason::Loss, &f).unwrap();
    assert_eq!(r.batch_update, Some((0, "recalled".to_string())));
    f.batch = Some(batch("active", 100));
    assert_eq!(
        plan_movement(&norm(Some("bt"), None), -200, &StockMovementReason::Loss, &f),
        Err(StockLedgerError::InsufficientStock { requested_milli: 200, available_milli: 100 })
    );
    let mut vb = batch("active", 100);
    vb.variant_id = Some("v9".to_string());
    f.batch = Some(vb);
    assert_eq!(
        plan_movement(&norm(Some("bt"), None), -1, &StockMovementReason::Loss, &f),
        Err(StockLedgerError::VariantMismatch(
            "Batch variant 'Some(\"v9\")' does not match requested variant 'None'".to_string()
        ))
    );
    f.batch = None;
    assert_eq!(
        plan_movement(&norm(Some("bt"), None), -1, &StockMovementReason::Loss, &f),
        Err(StockLedgerError::NotFound("Batch 'bt' not found".to_string()))
    );
}

fn serial(status: &str) -> SerialFacts {
    SerialFacts {
        product_id: "p1".to_string(),
        branch_id: "b1".to_string(),
        variant_id: None,
        status: status.to_string(),
        location_id: Some("loc1".to_string()),
        bin_id: None,
    }
}

#[test]
fn serial_movements() {
    let mut f = facts();
    f.serial = Some(serial("in_stock"));
    let d = plan_movement(&norm(None, Some("s1")), -1000, &StockMovementReason::Damage, &f).unwrap();
    assert_eq!(d.serial_status, Some("defective".to_string()));
    let l = plan_movement(&norm(None, Some("s1")), -1000, &StockMovementReason::Loss, &f).unwrap();
    assert_eq!(l.serial_status, Some("disposed".to_string()));
    let a = plan_movement(&norm(None, Some("s1")), -1000, &StockMovementReason::Adjustment, &f).unwrap();
    assert_eq!(a.serial_status, Some("reserved".to_string()));
    assert_eq!(
        plan_movement(&norm(None, Some("s1")), -2000, &StockMovementReason::Damage, &f),
        Err(StockLedgerError::InvalidQuantity(
            "Serialized negative stock movement must be exactly -1000 milli (1 unit)".to_string()
        ))
    );
    assert_eq!(
        plan_movement(&norm(None, Some("s1")), 1000, &StockMovementReason::Adjustment, &f),
        Err(StockLedgerError::InvalidSerial(
            "Cannot intake serial in status 'in_stock'. Permitted: reserved, defective".to_string()
        ))
    );
    f.serial = Some(serial("reserved"));
    let back = plan_movement(&norm(None, Some("s1")), 1000, &StockMovementReason::Adjustment, &f).unwrap();
    assert_eq!(back.serial_status, Some("in_stock".to_string()));
    assert_eq!(
        plan_movement(&norm(None, Some("s1")), -1000, &StockMovementReason::Loss, &f),
        Err(StockLedgerError::InvalidSerial(
            "Cannot deduct serial in status 'reserved'. Expected 'in_stock'".to_string()
        ))
    );
    let mut moved = serial("in_stock");
    moved.location_id = Some("loc2".to_string());
    f.serial = Some(moved);
    assert_eq!(
        plan_movement(&norm(None, Some("s1")), -1000, &StockMovementReason::Loss, &f),
        Err(StockLedgerError::InvalidSerial(
            "Serial current location 'Some(\"loc2\")' does not match requested location 'loc1'".to_string()
        ))
    );
}

#[test]
fn balances_and_records() {
    assert_eq!(check_spatial_allocation(10, 10), Ok(()));
    assert_eq!(
        check_spatial_allocation(5, 8),
        Err(StockLedgerError::Validation(
            "Spatial allocation (8 milli) exceeds aggregate balance (5 milli)".to_string()
        ))
    );
    let s = balance_summary(" b1 ", "p1", Some("  "), 7000, 2500);
    assert_eq!(s.branch_id, "b1");
    assert_eq!(s.variant_id, None);
    assert_eq!(s.unallocated_milli, 4500);
    assert_eq!(movement_page_limit(None), 100);
    assert_eq!(movement_page_limit(Some(0)), 1);
    assert_eq!(movement_page_limit(Some(5000)), 1000);
    assert_eq!(movement_page_limit(Some(25)), 25);
    assert_eq!(movement_page_offset(-3), 0);
    assert_eq!(movement_page_offset(40), 40);

    let i = input(-1500, StockMovementReason::Adjustment);
    let n = check_movement_request(&i).unwrap();
    let plan = plan_movement(&n, -1500, &i.reason, &facts());
    // the request names a bin but the facts lack it
    assert_eq!(plan, Err(StockLedgerError::NotFound("Bin 'bin1' not found".to_string())));
    let p = MovementPlan {
        aggregate_before_milli: 5000,
        aggregate_after_milli: 3500,
        spatial_after_milli: 500,
        batch_update: None,
        serial_status: None,
    };
    let rec = movement_record("m1".to_string(), "2024-01-01T00:00:00Z".to_string(), &n, &i, &p);
    assert_eq!(rec.id, "m1");
    assert_eq!(rec.branch_id, "b1");
    assert_eq!(rec.quantity_before_milli, Some(5000));
    assert_eq!(rec.quantity_after_milli, Some(3500));
    assert_eq!(rec.location_id, Some("loc1".to_string()));
    assert_eq!(rec.bin_id, Some("bin1".to_string()));
    assert_eq!(rec.reason, StockMovementReason::Adjustment);
}

fn request(reason: &str) -> PostMovementRequest {
    PostMovementRequest {
        branch_id: "b1".to_string(),
        product_id: "p1".to_string(),
        variant_id: Some("v1".to_string()),
        location_id: "loc1".to_string(),
        bin_id: None,
        batch_id: Some("lot".to_string()),
        serial_id: None,
        quantity_delta_milli: -250,
        reason: reason.to_string(),
        source_type: Some("count".to_string()),
        source_id: None,
        idempotency_key: Some("k1".to_string()),
    }
}

#[test]
fn command_requests_become_ledger_inputs() {
    let i = movement_input(request(" Damage "), "u7".to_string()).unwrap();
    assert_eq!(i.reason, StockMovementReason::Damage);
    assert_eq!(i.branch_id, "b1");
    assert_eq!(i.variant_id, Some("v1".to_string()));
    assert_eq!(i.batch_id, Some("lot".to_string()));
    assert_eq!(i.quantity_delta_milli, -250);
    assert_eq!(i.source_type, Some("count".to_string()));
    assert_eq!(i.user_id, Some("u7".to_string()));
    assert_eq!(i.idempotency_key, Some("k1".to_string()));
    assert_eq!(
        movement_input(request("Sale"), "u7".to_string()).unwrap_err(),
        "Invalid reason: Invalid movement reason 'sale'. Allowed: opening_balance, adjustment, damage, loss"
    );

    let f = movement_filter(StockMovementFilterRequest {
        branch_id: "b1".to_string(),
        reason: Some(" SALE ".to_string()),
        limit: Some(5),
        ..Default::default()
    });
    assert_eq!(f.branch_id, "b1");
    assert_eq!(f.reason, Some(StockMovementReason::Sale));
    assert_eq!(f.limit, Some(5));
    assert_eq!(f.offset, None);
    let f = movement_filter(StockMovementFilterRequest {
        branch_id: "b1".to_string(),
        reason: Some("mystery".to_string()),
        ..Default::default()
    });
    assert_eq!(f.reason, Some(StockMovementReason::Other("mystery".to_string())));
    assert!(movement_filter(StockMovementFilterRequest::default()).reason.is_none());

    let l = location_inventory_filter(LocationInventoryFilterRequest {
        branch_id: "b1".to_string(),
        bin_id: Some("bin9".to_string()),
        ..Default::default()
    });
    assert_eq!(l.branch_id, "b1");
    assert_eq!(l.bin_id, Some("bin9".to_string()));
    assert_eq!(l.location_id, None);
}
