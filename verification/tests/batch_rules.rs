use pos_global::batch::{
    batch_variant_lookup, check_active_product, check_batch_branch, check_batch_found,
    check_batch_tracked, check_batch_unique, check_batch_variant, check_requested_quantity, decide_batch_transition, initial_batch_status,
    normalize_batch_dates, plan_fefo_allocation, str_lt, validate_batch_number,
    validate_batch_quantities, validate_iso_calendar_date, BatchError, BatchStatus, FefoCandidate,
};

fn v(msg: &str) -> BatchError {
    BatchError::Validation(msg.to_string())
}

#[test]
fn batch_status_codes() {
    for s in [BatchStatus::Active, BatchStatus::Quarantined, BatchStatus::Recalled, BatchStatus::Depleted] {
        assert_eq!(BatchStatus::from_str(s.as_str()), Ok(s));
        assert_eq!(BatchStatus::from_str(&format!(" {} ", s.as_str().to_uppercase())), Ok(s));
        assert_eq!(BatchStatus::from_str(&format!("\t{}\n", s.as_str())), Ok(s));
    }
    assert_eq!(BatchStatus::from_str(" Active "), Ok(BatchStatus::Active));
    assert_eq!(
        BatchStatus::from_str("open"),
        Err(v("Invalid batch status 'open'. Allowed: active, quarantined, recalled, depleted"))
    );
}

#[test]
fn iso_calendar_dates() {
    assert_eq!(validate_iso_calendar_date("2024-02-29"), Ok(()));
    assert_eq!(validate_iso_calendar_date(" 2000-02-29 "), Ok(()));
    assert_eq!(validate_iso_calendar_date("2999-12-31"), Ok(()));
    assert_eq!(
        validate_iso_calendar_date("1900-02-29"),
        Err(v("Day 29 is invalid for month 2 in year 1900 in date '1900-02-29'"))
    );
    assert_eq!(
        validate_iso_calendar_date("2024-2-29"),
        Err(v("Date '2024-2-29' must be exactly 10 characters in YYYY-MM-DD format"))
    );
    assert_eq!(
        validate_iso_calendar_date("2024/02/29"),
        Err(v("Date '2024/02/29' must have hyphens at positions 5 and 8 (YYYY-MM-DD)"))
    );
    assert_eq!(validate_iso_calendar_date("20x4-02-01"), Err(v("Invalid year in date '20x4-02-01'")));
    assert_eq!(validate_iso_calendar_date("2024-0a-01"), Err(v("Invalid month in date '2024-0a-01'")));
    assert_eq!(validate_iso_calendar_date("2024-01-3x"), Err(v("Invalid day in date '2024-01-3x'")));
    // every field is digits only: no sign
    assert_eq!(validate_iso_calendar_date("2024-+1-05"), Err(v("Invalid month in date '2024-+1-05'")));
    assert_eq!(validate_iso_calendar_date("2024-01-+5"), Err(v("Invalid day in date '2024-01-+5'")));
    assert_eq!(validate_iso_calendar_date("+024-01-05"), Err(v("Invalid year in date '+024-01-05'")));
    assert_eq!(
        validate_iso_calendar_date("1899-12-31"),
        Err(v("Year 1899 in date '1899-12-31' is outside permitted range [1900, 2999]"))
    );
    assert_eq!(
        validate_iso_calendar_date("2024-13-01"),
        Err(v("Month 13 in date '2024-13-01' must be between 1 and 12"))
    );
    assert_eq!(
        validate_iso_calendar_date("2023-04-31"),
        Err(v("Day 31 is invalid for month 4 in year 2023 in date '2023-04-31'"))
    );
    assert_eq!(
        validate_iso_calendar_date("2023-01-00"),
        Err(v("Day 0 is invalid for month 1 in year 2023 in date '2023-01-00'"))
    );
}

#[test]
fn batch_inputs() {
    assert_eq!(validate_batch_number("  LOT-7 "), Ok("LOT-7".to_string()));
    assert_eq!(validate_batch_number(" "), Err(v("Batch number cannot be empty or whitespace")));
    assert_eq!(
        validate_batch_number(&"é".repeat(51)),
        Err(v("Batch number exceeds maximum length of 100 characters"))
    );
    assert_eq!(validate_batch_quantities(0, None), Ok(()));
    assert_eq!(validate_batch_quantities(-1, None), Err(v("Batch quantity cannot be negative")));
    assert_eq!(validate_batch_quantities(5, Some(-2)), Err(v("Batch cost price cannot be negative")));
    assert_eq!(initial_batch_status(0), BatchStatus::Depleted);
    assert_eq!(initial_batch_status(1500), BatchStatus::Active);
}

#[test]
fn string_order() {
    assert!(str_lt("2024-01-01", "2024-01-02"));
    assert!(!str_lt("2024-01-02", "2024-01-02"));
    assert!(str_lt("abc", "abcd"));
    assert!(!str_lt("b", "abc"));
}

#[test]
fn batch_dates() {
    assert_eq!(
        normalize_batch_dates(true, Some(" 2024-01-01 "), Some("2025-01-01")),
        Ok((Some("2024-01-01".to_string()), Some("2025-01-01".to_string())))
    );
    assert_eq!(
        normalize_batch_dates(true, None, Some("  ")),
        Err(v("Expiry date is mandatory for this product"))
    );
    assert_eq!(normalize_batch_dates(true, None, None), Err(v("Expiry date is mandatory for this product")));
    assert_eq!(normalize_batch_dates(false, Some(""), None), Ok((None, None)));
    assert_eq!(
        normalize_batch_dates(false, Some("2025-01-01"), Some("2025-01-01")),
        Err(v("Manufactured date '2025-01-01' must be strictly before expiry date '2025-01-01'"))
    );
    assert_eq!(
        normalize_batch_dates(false, Some("2025-02-30"), None),
        Err(v("Day 30 is invalid for month 2 in year 2025 in date '2025-02-30'"))
    );
}

#[test]
fn batch_variants() {
    assert_eq!(check_batch_variant("p1", None, None), Ok(None));
    assert_eq!(check_batch_variant("p1", Some("  "), None), Ok(None));
    assert_eq!(check_batch_variant("p1", Some(" v1 "), Some("p1".to_string())), Ok(Some("v1".to_string())));
    assert_eq!(
        check_batch_variant("p1", Some("v1"), None),
        Err(BatchError::NotFound("Variant 'v1' not found or is soft-deleted".to_string()))
    );
    assert_eq!(
        check_batch_variant("p1", Some("v1"), Some("p2".to_string())),
        Err(v("Variant 'v1' belongs to product 'p2', not 'p1'"))
    );
}

#[test]
fn batch_lifecycle() {
    assert_eq!(decide_batch_transition(BatchStatus::Active, BatchStatus::Active), Ok(false));
    assert_eq!(decide_batch_transition(BatchStatus::Active, BatchStatus::Quarantined), Ok(true));
    assert_eq!(decide_batch_transition(BatchStatus::Quarantined, BatchStatus::Active), Ok(true));
    assert_eq!(
        decide_batch_transition(BatchStatus::Recalled, BatchStatus::Active),
        Err(BatchError::InvalidStatusTransition(
            "Recalled batches are terminal and cannot be transitioned to any other status".to_string()
        ))
    );
    assert_eq!(
        decide_batch_transition(BatchStatus::Depleted, BatchStatus::Active),
        Err(BatchError::InvalidStatusTransition(
            "Depleted batches are terminal and cannot be arbitrarily reopened in F2.07".to_string()
        ))
    );
    assert_eq!(
        decide_batch_transition(BatchStatus::Quarantined, BatchStatus::Depleted),
        Err(BatchError::InvalidStatusTransition(
            "Transition from 'quarantined' to 'depleted' is not permitted".to_string()
        ))
    );
}

fn cand(id: &str, expiry: &str, qty: i64) -> FefoCandidate {
    FefoCandidate {
        batch_id: id.to_string(),
        batch_number: Some(format!("LOT-{id}")),
        expiry_date: expiry.to_string(),
        quantity_milli: qty,
    }
}

#[test]
fn fefo_planning() {
    assert_eq!(check_requested_quantity(0), Err(v("Requested allocation quantity must be strictly positive")));
    assert_eq!(check_requested_quantity(1), Ok(()));
    let candidates = vec![cand("b1", "2024-01-01", 3000), cand("b2", "2024-02-01", 5000), cand("b3", "2024-03-01", 1000)];
    let plan = plan_fefo_allocation(" br ", " p1 ", Some(" v "), 6000, true, candidates.clone()).unwrap();
    assert_eq!(plan.product_id, "p1");
    assert_eq!(plan.branch_id, "br");
    assert_eq!(plan.variant_id, Some("v".to_string()));
    assert_eq!(plan.allocated_quantity_milli, 6000);
    assert_eq!(plan.shortfall_quantity_milli, 0);
    assert_eq!(plan.allocations.len(), 2);
    assert_eq!(plan.allocations[0].batch_id, "b1");
    assert_eq!(plan.allocations[0].allocated_quantity_milli, 3000);
    assert_eq!(plan.allocations[0].remaining_batch_quantity_milli, 0);
    assert_eq!(plan.allocations[1].allocated_quantity_milli, 3000);
    assert_eq!(plan.allocations[1].remaining_batch_quantity_milli, 2000);

    let short = plan_fefo_allocation("br", "p1", None, 10000, true, candidates.clone()).unwrap();
    assert_eq!(short.allocated_quantity_milli, 9000);
    assert_eq!(short.shortfall_quantity_milli, 1000);
    assert_eq!(short.allocations.len(), 3);

    assert_eq!(
        plan_fefo_allocation("br", " p1 ", None, 10, false, candidates.clone()),
        Err(v("Product 'p1' does not have the FEFO capability enabled"))
    );
    assert_eq!(
        plan_fefo_allocation("br", "p1", None, -5, true, candidates),
        Err(v("Requested allocation quantity must be strictly positive"))
    );
    let empty = plan_fefo_allocation("br", "p1", None, 5, true, vec![]).unwrap();
    assert_eq!(empty.shortfall_quantity_milli, 5);
    assert!(empty.allocations.is_empty());
}

#[test]
fn batch_creation_checks() {
    assert_eq!(check_batch_branch("b1", true), Ok(()));
    assert_eq!(check_batch_branch("b9", false), Err(BatchError::NotFound("Branch 'b9' not found".to_string())));
    assert_eq!(check_batch_tracked("p1", true), Ok(()));
    assert_eq!(
        check_batch_tracked("p2", false),
        Err(BatchError::IneligibleProduct("Product 'p2' is not configured for batch or lot tracking".to_string()))
    );
    assert_eq!(check_active_product("p1", true), Ok(()));
    assert_eq!(
        check_active_product("p3", false),
        Err(BatchError::NotFound("Product 'p3' not found or is inactive".to_string()))
    );
    assert_eq!(check_batch_found("x", true), Ok(()));
    assert_eq!(check_batch_found("x", false), Err(BatchError::NotFound("Batch 'x' not found".to_string())));
    assert_eq!(check_batch_unique("LOT-1", "b1", false), Ok(()));
    assert_eq!(
        check_batch_unique("LOT-1", "b1", true),
        Err(BatchError::DuplicateBatchNumber(
            "Batch number 'LOT-1' already exists for this product in branch 'b1'".to_string()
        ))
    );
    assert_eq!(batch_variant_lookup(None), None);
    assert_eq!(batch_variant_lookup(Some("   ")), None);
    assert_eq!(batch_variant_lookup(Some(" v1 ")), Some("v1".to_string()));
}
