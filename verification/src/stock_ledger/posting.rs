//! Decisions of posting a stock movement. The repository reads the facts (entities,
//! batch, serial, balances) inside its transaction; these functions decide on them, in
//! the order the ledger checks them, and say what must be written.
use super::{
    delta_spec, ledger_agrees, LedgerFault, PostMovementInput, ReasonSpec, StockLedgerError,
    StockMovement, StockMovementReason, reason_code,
};
use crate::text::{
    char_count, concat3, concat5, concat7, debug_option, debug_option_str, int_decimal, norm_opt,
    normalize_optional, opt_str_eq, opt_str_view, opt_string_view, owned, push_i64_decimal,
    push_str, str_eq, trim, trim_seq,
};
use vstd::prelude::*;

verus! {

// ---------------------------------------------------------------- request

/// A movement request with its identifiers trimmed and blank optional ones dropped.
#[derive(Debug, Clone, PartialEq, Eq)]
pub struct NormalizedMovement {
    pub branch_id: String,
    pub product_id: String,
    pub location_id: String,
    pub variant_id: Option<String>,
    pub bin_id: Option<String>,
    pub batch_id: Option<String>,
    pub serial_id: Option<String>,
}

/// Mathematical image of a normalized movement.
pub struct NormSpec {
    pub branch: Seq<char>,
    pub product: Seq<char>,
    pub location: Seq<char>,
    pub variant: Option<Seq<char>>,
    pub bin: Option<Seq<char>>,
    pub batch: Option<Seq<char>>,
    pub serial: Option<Seq<char>>,
}

impl View for NormalizedMovement {
    type V = NormSpec;

    open spec fn view(&self) -> NormSpec {
        NormSpec {
            branch: self.branch_id@,
            product: self.product_id@,
            location: self.location_id@,
            variant: opt_string_view(self.variant_id),
            bin: opt_string_view(self.bin_id),
            batch: opt_string_view(self.batch_id),
            serial: opt_string_view(self.serial_id),
        }
    }
}

/// What `check_movement_request` decides: required identifiers present, the delta's
/// direction valid for its reason, and the identifiers normalized.
pub open spec fn request_spec(input: PostMovementInput) -> Result<NormSpec, LedgerFault> {
    let b = trim_seq(input.branch_id@);
    let p = trim_seq(input.product_id@);
    let l = trim_seq(input.location_id@);
    if b.len() == 0 {
        Err(LedgerFault::Validation("branch_id cannot be empty"@))
    } else if p.len() == 0 {
        Err(LedgerFault::Validation("product_id cannot be empty"@))
    } else if l.len() == 0 {
        Err(LedgerFault::Validation("location_id cannot be empty"@))
    } else {
        match delta_spec(input.reason@, input.quantity_delta_milli as int) {
            Err(f) => Err(f),
            Ok(_) => Ok(
                NormSpec {
                    branch: b,
                    product: p,
                    location: l,
                    variant: norm_opt(opt_string_view(input.variant_id)),
                    bin: norm_opt(opt_string_view(input.bin_id)),
                    batch: norm_opt(opt_string_view(input.batch_id)),
                    serial: norm_opt(opt_string_view(input.serial_id)),
                },
            ),
        }
    }
}

/// Checks and normalizes a movement request before any stored state is read.
pub fn check_movement_request(input: &PostMovementInput) -> (r: Result<NormalizedMovement, StockLedgerError>)
    ensures
        ledger_agrees(r, request_spec(*input)),
{
    let b = trim(input.branch_id.as_str());
    let p = trim(input.product_id.as_str());
    let l = trim(input.location_id.as_str());
    if char_count(b) == 0 {
        return Err(StockLedgerError::Validation(String::from_str("branch_id cannot be empty")));
    }
    if char_count(p) == 0 {
        return Err(StockLedgerError::Validation(String::from_str("product_id cannot be empty")));
    }
    if char_count(l) == 0 {
        return Err(StockLedgerError::Validation(String::from_str("location_id cannot be empty")));
    }
    match input.reason.validate_delta(input.quantity_delta_milli) {
        Err(e) => {
            return Err(e);
        },
        Ok(()) => {},
    }
    Ok(
        NormalizedMovement {
            branch_id: owned(b),
            product_id: owned(p),
            location_id: owned(l),
            variant_id: normalize_optional(&input.variant_id),
            bin_id: normalize_optional(&input.bin_id),
            batch_id: normalize_optional(&input.batch_id),
            serial_id: normalize_optional(&input.serial_id),
        },
    )
}

// ---------------------------------------------------------------- idempotency

/// The trimmed idempotency key of a request; a blank key is refused.
pub fn clean_idempotency_key(key: &Option<String>) -> (r: Result<Option<String>, StockLedgerError>)
    ensures
        match key {
            None => r matches Ok(None),
            Some(k) => if trim_seq(k@).len() == 0 {
                r matches Err(e) && e@ == LedgerFault::Validation(
                    "idempotency_key cannot be empty or whitespace"@,
                )
            } else {
                r matches Ok(Some(c)) && c@ == trim_seq(k@)
            },
        },
{
    match key {
        None => Ok(None),
        Some(k) => {
            let t = trim(k.as_str());
            if char_count(t) == 0 {
                Err(
                    StockLedgerError::Validation(
                        String::from_str("idempotency_key cannot be empty or whitespace"),
                    ),
                )
            } else {
                Ok(Some(owned(t)))
            }
        },
    }
}

/// What a stored idempotency record means for a request: `Ok(Some(json))` replays the stored
/// result, `Ok(None)` proceeds, an error reports a key reused by a different request.
pub open spec fn replay_spec(
    key: Seq<char>,
    request_hash: Seq<char>,
    existing: Option<(Option<Seq<char>>, Option<Seq<char>>)>,
) -> Result<Option<Seq<char>>, LedgerFault> {
    match existing {
        None => Ok(None),
        Some((stored, json)) => if stored == Some(request_hash) {
            Ok(json)
        } else {
            Err(
                LedgerFault::IdempotencyConflict(
                    "Idempotency key '"@ + key + "' already used with different request parameters"@,
                ),
            )
        },
    }
}

/// Decides on the idempotency record stored under a key (its request hash and result JSON).
pub fn replay_decision(
    key: &str,
    request_hash: &str,
    existing: Option<(Option<String>, Option<String>)>,
) -> (r: Result<Option<String>, StockLedgerError>)
    ensures
        match replay_spec(
            key@,
            request_hash@,
            match existing {
                Some((h, j)) => Some((opt_string_view(h), opt_string_view(j))),
                None => None,
            },
        ) {
            Ok(j) => r matches Ok(rj) && opt_string_view(rj) == j,
            Err(f) => r matches Err(e) && e@ == f,
        },
{
    match existing {
        None => Ok(None),
        Some((stored, json)) => {
            let same = match &stored {
                Some(h) => str_eq(h.as_str(), request_hash),
                None => false,
            };
            if same {
                Ok(json)
            } else {
                Err(
                    StockLedgerError::IdempotencyConflict(
                        concat3(
                            "Idempotency key '",
                            key,
                            "' already used with different request parameters",
                        ),
                    ),
                )
            }
        },
    }
}

/// A request replayed under its key with the same fingerprint never conflicts; one with a
/// different fingerprint always does.
pub proof fn lemma_idempotent_replay(
    key: Seq<char>,
    request_hash: Seq<char>,
    stored_hash: Seq<char>,
    json: Option<Seq<char>>,
)
    ensures
        stored_hash == request_hash ==> replay_spec(key, request_hash, Some((Some(stored_hash), json)))
            == Ok::<Option<Seq<char>>, LedgerFault>(json),
        stored_hash != request_hash ==> replay_spec(
            key,
            request_hash,
            Some((Some(stored_hash), json)),
        ) is Err,
{
}

// ---------------------------------------------------------------- stored facts

/// Stored row of a product variant.
#[derive(Debug, Clone, PartialEq, Eq)]
pub struct VariantFacts {
    pub product_id: String,
    pub is_active: bool,
    pub is_deleted: bool,
}

/// Stored row of a location.
#[derive(Debug, Clone, PartialEq, Eq)]
pub struct LocationFacts {
    pub branch_id: String,
    pub is_active: bool,
}

/// Stored row of a bin.
#[derive(Debug, Clone, PartialEq, Eq)]
pub struct BinFacts {
    pub location_id: String,
    pub is_active: bool,
}

/// Stored row of a batch.
#[derive(Debug, Clone, PartialEq, Eq)]
pub struct BatchFacts {
    pub product_id: String,
    pub branch_id: String,
    pub variant_id: Option<String>,
    pub quantity_milli: i64,
    pub status: String,
}

/// Stored row of a serialized unit.
#[derive(Debug, Clone, PartialEq, Eq)]
pub struct SerialFacts {
    pub product_id: String,
    pub branch_id: String,
    pub variant_id: Option<String>,
    pub status: String,
    pub location_id: Option<String>,
    pub bin_id: Option<String>,
}

/// Everything a posting reads: each entity row when it exists (read only for identifiers the
/// request names), the aggregate balance and the spatial balance of the movement's cell.
#[derive(Debug, Clone, PartialEq, Eq)]
pub struct MovementFacts {
    pub branch_active: Option<bool>,
    pub product_active: Option<bool>,
    pub variant: Option<VariantFacts>,
    pub location: Option<LocationFacts>,
    pub bin: Option<BinFacts>,
    pub batch: Option<BatchFacts>,
    pub serial: Option<SerialFacts>,
    pub aggregate_quantity_milli: Option<i64>,
    pub spatial_quantity_milli: Option<i64>,
}

/// What a posting writes: the aggregate balance before and after, the spatial balance after,
/// the batch's new quantity and status, and the serialized unit's new status.
#[derive(Debug, Clone, PartialEq, Eq)]
pub struct MovementPlan {
    pub aggregate_before_milli: i64,
    pub aggregate_after_milli: i64,
    pub spatial_after_milli: i64,
    pub batch_update: Option<(i64, String)>,
    pub serial_status: Option<String>,
}

// ---------------------------------------------------------------- entity checks

/// Branch, product, variant, location and bin checks, in that order.
pub open spec fn entities_spec(n: NormSpec, f: MovementFacts) -> Result<(), LedgerFault> {
    match f.branch_active {
        None => Err(LedgerFault::NotFound("Branch '"@ + n.branch + "' not found"@)),
        Some(false) => Err(LedgerFault::Validation("Branch '"@ + n.branch + "' is inactive"@)),
        Some(true) => match f.product_active {
            None => Err(LedgerFault::NotFound("Product '"@ + n.product + "' not found"@)),
            Some(false) => Err(LedgerFault::Validation("Product '"@ + n.product + "' is inactive"@)),
            Some(true) => match variant_check(n, f.variant) {
                Err(e) => Err(e),
                Ok(_) => match location_check(n, f.location) {
                    Err(e) => Err(e),
                    Ok(_) => bin_check(n, f.bin),
                },
            },
        },
    }
}

pub open spec fn variant_check(n: NormSpec, v: Option<VariantFacts>) -> Result<(), LedgerFault> {
    match n.variant {
        None => Ok(()),
        Some(vid) => match v {
            None => Err(LedgerFault::NotFound("Variant '"@ + vid + "' not found"@)),
            Some(vf) => if vf.product_id@ != n.product {
                Err(
                    LedgerFault::VariantMismatch(
                        "Variant '"@ + vid + "' belongs to product '"@ + vf.product_id@ + "', not '"@
                            + n.product + "'"@,
                    ),
                )
            } else if !vf.is_active || vf.is_deleted {
                Err(LedgerFault::Validation("Variant '"@ + vid + "' is inactive or soft-deleted"@))
            } else {
                Ok(())
            },
        },
    }
}

pub open spec fn location_check(n: NormSpec, l: Option<LocationFacts>) -> Result<(), LedgerFault> {
    match l {
        None => Err(LedgerFault::NotFound("Location '"@ + n.location + "' not found"@)),
        Some(lf) => if lf.branch_id@ != n.branch {
            Err(
                LedgerFault::BranchMismatch(
                    "Location '"@ + n.location + "' belongs to branch '"@ + lf.branch_id@ + "', not '"@
                        + n.branch + "'"@,
                ),
            )
        } else if !lf.is_active {
            Err(LedgerFault::InvalidLocation("Location '"@ + n.location + "' is inactive"@))
        } else {
            Ok(())
        },
    }
}

pub open spec fn bin_check(n: NormSpec, b: Option<BinFacts>) -> Result<(), LedgerFault> {
    match n.bin {
        None => Ok(()),
        Some(bid) => match b {
            None => Err(LedgerFault::NotFound("Bin '"@ + bid + "' not found"@)),
            Some(bf) => if bf.location_id@ != n.location {
                Err(
                    LedgerFault::InvalidBin(
                        "Bin '"@ + bid + "' belongs to location '"@ + bf.location_id@ + "', not '"@
                            + n.location + "'"@,
                    ),
                )
            } else if !bf.is_active {
                Err(LedgerFault::InvalidBin("Bin '"@ + bid + "' is inactive"@))
            } else {
                Ok(())
            },
        },
    }
}

fn check_entities(n: &NormalizedMovement, f: &MovementFacts) -> (r: Result<(), StockLedgerError>)
    ensures
        ledger_agrees(r, entities_spec(n@, *f)),
{
    let b = n.branch_id.as_str();
    let p = n.product_id.as_str();
    let l = n.location_id.as_str();
    match f.branch_active {
        None => {
            return Err(StockLedgerError::NotFound(concat3("Branch '", b, "' not found")));
        },
        Some(false) => {
            return Err(StockLedgerError::Validation(concat3("Branch '", b, "' is inactive")));
        },
        Some(true) => {},
    }
    match f.product_active {
        None => {
            return Err(StockLedgerError::NotFound(concat3("Product '", p, "' not found")));
        },
        Some(false) => {
            return Err(StockLedgerError::Validation(concat3("Product '", p, "' is inactive")));
        },
        Some(true) => {},
    }
    if let Some(vid) = &n.variant_id {
        let v = vid.as_str();
        match &f.variant {
            None => {
                return Err(StockLedgerError::NotFound(concat3("Variant '", v, "' not found")));
            },
            Some(vf) => {
                if !str_eq(vf.product_id.as_str(), p) {
                    return Err(
                        StockLedgerError::VariantMismatch(
                            concat7(
                                "Variant '",
                                v,
                                "' belongs to product '",
                                vf.product_id.as_str(),
                                "', not '",
                                p,
                                "'",
                            ),
                        ),
                    );
                }
                if !vf.is_active || vf.is_deleted {
                    return Err(
                        StockLedgerError::Validation(
                            concat3("Variant '", v, "' is inactive or soft-deleted"),
                        ),
                    );
                }
            },
        }
    }
    match &f.location {
        None => {
            return Err(StockLedgerError::NotFound(concat3("Location '", l, "' not found")));
        },
        Some(lf) => {
            if !str_eq(lf.branch_id.as_str(), b) {
                return Err(
                    StockLedgerError::BranchMismatch(
                        concat7(
                            "Location '",
                            l,
                            "' belongs to branch '",
                            lf.branch_id.as_str(),
                            "', not '",
                            b,
                            "'",
                        ),
                    ),
                );
            }
            if !lf.is_active {
                return Err(StockLedgerError::InvalidLocation(concat3("Location '", l, "' is inactive")));
            }
        },
    }
    if let Some(bid) = &n.bin_id {
        let bi = bid.as_str();
        match &f.bin {
            None => {
                return Err(StockLedgerError::NotFound(concat3("Bin '", bi, "' not found")));
            },
            Some(bf) => {
                if !str_eq(bf.location_id.as_str(), l) {
                    return Err(
                        StockLedgerError::InvalidBin(
                            concat7(
                                "Bin '",
                                bi,
                                "' belongs to location '",
                                bf.location_id.as_str(),
                                "', not '",
                                l,
                                "'",
                            ),
                        ),
                    );
                }
                if !bf.is_active {
                    return Err(StockLedgerError::InvalidBin(concat3("Bin '", bi, "' is inactive")));
                }
            },
        }
    }
    Ok(())
}


// ---------------------------------------------------------------- batch

/// Status of a batch after a movement leaves it with `new_qty`: recalled stays recalled,
/// an emptied batch is depleted, a quarantined one stays quarantined, otherwise active.
pub open spec fn next_batch_status(status: Seq<char>, new_qty: int) -> Seq<char> {
    if status == "recalled"@ {
        "recalled"@
    } else if new_qty == 0 {
        "depleted"@
    } else if status == "quarantined"@ {
        "quarantined"@
    } else {
        "active"@
    }
}

pub open spec fn in_i64(x: int) -> bool {
    i64::MIN <= x <= i64::MAX
}

/// Batch checks and the batch's new quantity and status (when the request names a batch).
pub open spec fn batch_step(n: NormSpec, delta: int, b: Option<BatchFacts>) -> Result<
    Option<(int, Seq<char>)>,
    LedgerFault,
> {
    match n.batch {
        None => Ok(None),
        Some(bid) => match b {
            None => Err(LedgerFault::NotFound("Batch '"@ + bid + "' not found"@)),
            Some(bf) => {
                let st = bf.status@;
                let nq = bf.quantity_milli + delta;
                if bf.product_id@ != n.product {
                    Err(
                        LedgerFault::InvalidBatch(
                            "Batch '"@ + bid + "' belongs to product '"@ + bf.product_id@ + "', not '"@
                                + n.product + "'"@,
                        ),
                    )
                } else if bf.branch_id@ != n.branch {
                    Err(
                        LedgerFault::BranchMismatch(
                            "Batch '"@ + bid + "' belongs to branch '"@ + bf.branch_id@ + "', not '"@
                                + n.branch + "'"@,
                        ),
                    )
                } else if opt_string_view(bf.variant_id) != n.variant {
                    Err(
                        LedgerFault::VariantMismatch(
                            "Batch variant '"@ + debug_option_str(opt_string_view(bf.variant_id))
                                + "' does not match requested variant '"@ + debug_option_str(n.variant)
                                + "'"@,
                        ),
                    )
                } else if st == "depleted"@ {
                    Err(
                        LedgerFault::InvalidBatch(
                            "Depleted batch is terminal and cannot accept stock intake or movements"@,
                        ),
                    )
                } else if st == "recalled"@ && delta > 0 {
                    Err(LedgerFault::InvalidBatch("Recalled batch cannot accept positive stock intake"@))
                } else if st == "quarantined"@ && delta > 0 {
                    Err(
                        LedgerFault::InvalidBatch(
                            "Quarantined batch cannot accept positive stock intake"@,
                        ),
                    )
                } else if st != "active"@ && st != "recalled"@ && st != "quarantined"@ {
                    Err(LedgerFault::InvalidBatch("Unrecognized batch status '"@ + st + "'"@))
                } else if !in_i64(nq) {
                    Err(LedgerFault::Validation("Batch quantity arithmetic overflow"@))
                } else if nq < 0 {
                    Err(
                        LedgerFault::InsufficientStock {
                            requested_milli: -delta,
                            available_milli: bf.quantity_milli as int,
                        },
                    )
                } else {
                    Ok(Some((nq, next_batch_status(st, nq))))
                }
            },
        },
    }
}

fn next_batch_status_str(status: &str, new_qty: i64) -> (r: &'static str)
    ensures
        r@ == next_batch_status(status@, new_qty as int),
{
    if str_eq(status, "recalled") {
        "recalled"
    } else if new_qty == 0 {
        "depleted"
    } else if str_eq(status, "quarantined") {
        "quarantined"
    } else {
        "active"
    }
}

/// The batch step; `None` where it ends short of stock with a delta whose negation does not
/// fit in `i64`, so that no error can report the requested quantity.
fn check_batch(n: &NormalizedMovement, delta: i64, b: &Option<BatchFacts>) -> (r: Option<Result<
    Option<(i64, String)>,
    StockLedgerError,
>>)
    ensures
        r is None <==> (delta == i64::MIN && ends_short(batch_step(n@, delta as int, *b))),
        r matches Some(x) ==> match batch_step(n@, delta as int, *b) {
            Ok(None) => x matches Ok(None),
            Ok(Some((q, st))) => x matches Ok(Some((rq, rs))) && rq == q && rs@ == st,
            Err(f) => x matches Err(e) && e@ == f,
        },
{
    let bid = match &n.batch_id {
        None => {
            return Some(Ok(None));
        },
        Some(x) => x.as_str(),
    };
    let bf = match b {
        None => {
            return Some(Err(StockLedgerError::NotFound(concat3("Batch '", bid, "' not found"))));
        },
        Some(bf) => bf,
    };
    if !str_eq(bf.product_id.as_str(), n.product_id.as_str()) {
        return Some(Err(
            StockLedgerError::InvalidBatch(
                concat7(
                    "Batch '",
                    bid,
                    "' belongs to product '",
                    bf.product_id.as_str(),
                    "', not '",
                    n.product_id.as_str(),
                    "'",
                ),
            ),
        ));
    }
    if !str_eq(bf.branch_id.as_str(), n.branch_id.as_str()) {
        return Some(Err(
            StockLedgerError::BranchMismatch(
                concat7(
                    "Batch '",
                    bid,
                    "' belongs to branch '",
                    bf.branch_id.as_str(),
                    "', not '",
                    n.branch_id.as_str(),
                    "'",
                ),
            ),
        ));
    }
    let bv = crate::text::as_opt_str(&bf.variant_id);
    let nv = crate::text::as_opt_str(&n.variant_id);
    if !opt_str_eq(bv, nv) {
        let dv = debug_option(bv);
        let dn = debug_option(nv);
        return Some(Err(
            StockLedgerError::VariantMismatch(
                concat5(
                    "Batch variant '",
                    dv.as_str(),
                    "' does not match requested variant '",
                    dn.as_str(),
                    "'",
                ),
            ),
        ));
    }
    let st = bf.status.as_str();
    if str_eq(st, "depleted") {
        return Some(Err(
            StockLedgerError::InvalidBatch(
                String::from_str(
                    "Depleted batch is terminal and cannot accept stock intake or movements",
                ),
            ),
        ));
    }
    if str_eq(st, "recalled") && delta > 0 {
        return Some(Err(
            StockLedgerError::InvalidBatch(
                String::from_str("Recalled batch cannot accept positive stock intake"),
            ),
        ));
    }
    if str_eq(st, "quarantined") && delta > 0 {
        return Some(Err(
            StockLedgerError::InvalidBatch(
                String::from_str("Quarantined batch cannot accept positive stock intake"),
            ),
        ));
    }
    if !str_eq(st, "active") && !str_eq(st, "recalled") && !str_eq(st, "quarantined") {
        return Some(Err(StockLedgerError::InvalidBatch(concat3("Unrecognized batch status '", st, "'"))));
    }
    let nq = match bf.quantity_milli.checked_add(delta) {
        None => {
            return Some(Err(
                StockLedgerError::Validation(String::from_str("Batch quantity arithmetic overflow")),
            ));
        },
        Some(x) => x,
    };
    if nq < 0 {
        if delta == i64::MIN {
            return None;
        }
        return Some(Err(
            StockLedgerError::InsufficientStock {
                requested_milli: -delta,
                available_milli: bf.quantity_milli,
            },
        ));
    }
    Some(Ok(Some((nq, owned(next_batch_status_str(st, nq))))))
}

// ---------------------------------------------------------------- serial

/// Status a serialized unit takes when it leaves stock for `reason`.
pub open spec fn outbound_serial_status(reason: ReasonSpec) -> Result<Seq<char>, LedgerFault> {
    match reason {
        ReasonSpec::Damage => Ok("defective"@),
        ReasonSpec::Loss => Ok("disposed"@),
        ReasonSpec::Adjustment => Ok("reserved"@),
        ReasonSpec::OpeningBalance => Err(LedgerFault::InvalidReason("opening_balance cannot be outbound"@)),
        _ => Err(
            LedgerFault::InvalidReason(
                "Reason '"@ + reason_code(reason) + "' is not an authorized outbound mutation reason"@,
            ),
        ),
    }
}

/// Serial checks and the unit's new status (when the request names a serialized unit): one
/// unit in or out; intake from reserved or defective, removal from stock at the requested
/// place.
pub open spec fn serial_step(n: NormSpec, delta: int, reason: ReasonSpec, s: Option<SerialFacts>) -> Result<
    Option<Seq<char>>,
    LedgerFault,
> {
    match n.serial {
        None => Ok(None),
        Some(sid) => if delta > 0 && delta != 1000 {
            Err(
                LedgerFault::InvalidQuantity(
                    "Serialized positive stock movement must be exactly +1000 milli (1 unit)"@,
                ),
            )
        } else if delta < 0 && delta != -1000 {
            Err(
                LedgerFault::InvalidQuantity(
                    "Serialized negative stock movement must be exactly -1000 milli (1 unit)"@,
                ),
            )
        } else {
            match s {
                None => Err(LedgerFault::NotFound("Serial '"@ + sid + "' not found"@)),
                Some(sf) => {
                    let st = sf.status@;
                    if sf.product_id@ != n.product {
                        Err(
                            LedgerFault::InvalidSerial(
                                "Serial '"@ + sid + "' belongs to product '"@ + sf.product_id@
                                    + "', not '"@ + n.product + "'"@,
                            ),
                        )
                    } else if sf.branch_id@ != n.branch {
                        Err(
                            LedgerFault::BranchMismatch(
                                "Serial '"@ + sid + "' belongs to branch '"@ + sf.branch_id@
                                    + "', not '"@ + n.branch + "'"@,
                            ),
                        )
                    } else if opt_string_view(sf.variant_id) != n.variant {
                        Err(
                            LedgerFault::VariantMismatch(
                                "Serial variant '"@ + debug_option_str(opt_string_view(sf.variant_id))
                                    + "' does not match requested variant '"@ + debug_option_str(
                                    n.variant,
                                ) + "'"@,
                            ),
                        )
                    } else if delta == 1000 {
                        if st != "reserved"@ && st != "defective"@ {
                            Err(
                                LedgerFault::InvalidSerial(
                                    "Cannot intake serial in status '"@ + st
                                        + "'. Permitted: reserved, defective"@,
                                ),
                            )
                        } else {
                            Ok(Some("in_stock"@))
                        }
                    } else if st != "in_stock"@ {
                        Err(
                            LedgerFault::InvalidSerial(
                                "Cannot deduct serial in status '"@ + st + "'. Expected 'in_stock'"@,
                            ),
                        )
                    } else if opt_string_view(sf.location_id) != Some(n.location) {
                        Err(
                            LedgerFault::InvalidSerial(
                                "Serial current location '"@ + debug_option_str(
                                    opt_string_view(sf.location_id),
                                ) + "' does not match requested location '"@ + n.location + "'"@,
                            ),
                        )
                    } else if n.bin is Some && opt_string_view(sf.bin_id) != n.bin {
                        Err(
                            LedgerFault::InvalidSerial(
                                "Serial current bin '"@ + debug_option_str(opt_string_view(sf.bin_id))
                                    + "' does not match requested bin '"@ + debug_option_str(n.bin)
                                    + "'"@,
                            ),
                        )
                    } else {
                        match outbound_serial_status(reason) {
                            Err(f) => Err(f),
                            Ok(t) => Ok(Some(t)),
                        }
                    }
                },
            }
        },
    }
}

fn check_serial(n: &NormalizedMovement, delta: i64, reason: &StockMovementReason, s: &Option<SerialFacts>) -> (r:
    Result<Option<String>, StockLedgerError>)
    ensures
        match serial_step(n@, delta as int, reason@, *s) {
            Ok(None) => r matches Ok(None),
            Ok(Some(t)) => r matches Ok(Some(rt)) && rt@ == t,
            Err(f) => r matches Err(e) && e@ == f,
        },
{
    let sid = match &n.serial_id {
        None => {
            return Ok(None);
        },
        Some(x) => x.as_str(),
    };
    if delta > 0 && delta != 1000 {
        return Err(
            StockLedgerError::InvalidQuantity(
                String::from_str("Serialized positive stock movement must be exactly +1000 milli (1 unit)"),
            ),
        );
    }
    if delta < 0 && delta != -1000 {
        return Err(
            StockLedgerError::InvalidQuantity(
                String::from_str("Serialized negative stock movement must be exactly -1000 milli (1 unit)"),
            ),
        );
    }
    let sf = match s {
        None => {
            return Err(StockLedgerError::NotFound(concat3("Serial '", sid, "' not found")));
        },
        Some(sf) => sf,
    };
    if !str_eq(sf.product_id.as_str(), n.product_id.as_str()) {
        return Err(
            StockLedgerError::InvalidSerial(
                concat7(
                    "Serial '",
                    sid,
                    "' belongs to product '",
                    sf.product_id.as_str(),
                    "', not '",
                    n.product_id.as_str(),
                    "'",
                ),
            ),
        );
    }
    if !str_eq(sf.branch_id.as_str(), n.branch_id.as_str()) {
        return Err(
            StockLedgerError::BranchMismatch(
                concat7(
                    "Serial '",
                    sid,
                    "' belongs to branch '",
                    sf.branch_id.as_str(),
                    "', not '",
                    n.branch_id.as_str(),
                    "'",
                ),
            ),
        );
    }
    let sv = crate::text::as_opt_str(&sf.variant_id);
    let nv = crate::text::as_opt_str(&n.variant_id);
    if !opt_str_eq(sv, nv) {
        let ds = debug_option(sv);
        let dn = debug_option(nv);
        return Err(
            StockLedgerError::VariantMismatch(
                concat5(
                    "Serial variant '",
                    ds.as_str(),
                    "' does not match requested variant '",
                    dn.as_str(),
                    "'",
                ),
            ),
        );
    }
    let st = sf.status.as_str();
    if delta == 1000 {
        if !str_eq(st, "reserved") && !str_eq(st, "defective") {
            return Err(
                StockLedgerError::InvalidSerial(
                    concat3("Cannot intake serial in status '", st, "'. Permitted: reserved, defective"),
                ),
            );
        }
        return Ok(Some(String::from_str("in_stock")));
    }
    if !str_eq(st, "in_stock") {
        return Err(
            StockLedgerError::InvalidSerial(
                concat3("Cannot deduct serial in status '", st, "'. Expected 'in_stock'"),
            ),
        );
    }
    let sloc = crate::text::as_opt_str(&sf.location_id);
    if !opt_str_eq(sloc, Some(n.location_id.as_str())) {
        let d = debug_option(sloc);
        return Err(
            StockLedgerError::InvalidSerial(
                concat5(
                    "Serial current location '",
                    d.as_str(),
                    "' does not match requested location '",
                    n.location_id.as_str(),
                    "'",
                ),
            ),
        );
    }
    let nbin = crate::text::as_opt_str(&n.bin_id);
    let sbin = crate::text::as_opt_str(&sf.bin_id);
    if nbin.is_some() && !opt_str_eq(sbin, nbin) {
        let ds = debug_option(sbin);
        let dn = debug_option(nbin);
        return Err(
            StockLedgerError::InvalidSerial(
                concat5(
                    "Serial current bin '",
                    ds.as_str(),
                    "' does not match requested bin '",
                    dn.as_str(),
                    "'",
                ),
            ),
        );
    }
    match reason {
        StockMovementReason::Damage => Ok(Some(String::from_str("defective"))),
        StockMovementReason::Loss => Ok(Some(String::from_str("disposed"))),
        StockMovementReason::Adjustment => Ok(Some(String::from_str("reserved"))),
        StockMovementReason::OpeningBalance => Err(
            StockLedgerError::InvalidReason(String::from_str("opening_balance cannot be outbound")),
        ),
        _ => Err(
            StockLedgerError::InvalidReason(
                concat3(
                    "Reason '",
                    reason.as_str(),
                    "' is not an authorized outbound mutation reason",
                ),
            ),
        ),
    }
}

// ---------------------------------------------------------------- balances

/// A balance moved by `delta`: the stored balance (0 when there is no row) before and after;
/// it may not overflow nor go negative.
pub open spec fn balance_step(current: Option<i64>, delta: int, overflow_msg: Seq<char>) -> Result<
    (int, int),
    LedgerFault,
> {
    match current {
        Some(c) => if !in_i64(c + delta) {
            Err(LedgerFault::Validation(overflow_msg))
        } else if c + delta < 0 {
            Err(LedgerFault::InsufficientStock { requested_milli: -delta, available_milli: c as int })
        } else {
            Ok((c as int, c + delta))
        },
        None => if delta < 0 {
            Err(LedgerFault::InsufficientStock { requested_milli: -delta, available_milli: 0 })
        } else {
            Ok((0, delta))
        },
    }
}

/// The balance step; `None` where it ends short of stock with a delta whose negation does not
/// fit in `i64`, so that no error can report the requested quantity.
fn move_balance(current: Option<i64>, delta: i64, overflow_msg: &str) -> (r: Option<Result<(i64, i64), StockLedgerError>>)
    ensures
        r is None <==> (delta == i64::MIN && ends_short(balance_step(current, delta as int, overflow_msg@))),
        r matches Some(x) ==> match balance_step(current, delta as int, overflow_msg@) {
            Ok((b, a)) => x matches Ok((rb, ra)) && rb == b && ra == a,
            Err(f) => x matches Err(e) && e@ == f,
        },
{
    match current {
        Some(c) => {
            let after = match c.checked_add(delta) {
                None => {
                    return Some(Err(StockLedgerError::Validation(owned(overflow_msg))));
                },
                Some(x) => x,
            };
            if after < 0 {
                if delta == i64::MIN {
                    return None;
                }
                return Some(Err(
                    StockLedgerError::InsufficientStock { requested_milli: -delta, available_milli: c },
                ));
            }
            Some(Ok((c, after)))
        },
        None => {
            if delta < 0 {
                if delta == i64::MIN {
                    return None;
                }
                return Some(Err(
                    StockLedgerError::InsufficientStock { requested_milli: -delta, available_milli: 0 },
                ));
            }
            Some(Ok((0, delta)))
        },
    }
}

// ---------------------------------------------------------------- plan

/// Mathematical image of a movement plan.
pub struct PlanSpec {
    pub aggregate_before: int,
    pub aggregate_after: int,
    pub spatial_after: int,
    pub batch_update: Option<(int, Seq<char>)>,
    pub serial_status: Option<Seq<char>>,
}

impl View for MovementPlan {
    type V = PlanSpec;

    open spec fn view(&self) -> PlanSpec {
        PlanSpec {
            aggregate_before: self.aggregate_before_milli as int,
            aggregate_after: self.aggregate_after_milli as int,
            spatial_after: self.spatial_after_milli as int,
            batch_update: match self.batch_update {
                Some((q, s)) => Some((q as int, s@)),
                None => None,
            },
            serial_status: opt_string_view(self.serial_status),
        }
    }
}

/// What `plan_movement` decides on the stored facts: entity checks, then batch, serial,
/// aggregate balance and spatial balance, in that order.
pub open spec fn plan_spec(n: NormSpec, delta: int, reason: ReasonSpec, f: MovementFacts) -> Result<
    PlanSpec,
    LedgerFault,
> {
    match entities_spec(n, f) {
        Err(e) => Err(e),
        Ok(_) => match batch_step(n, delta, f.batch) {
            Err(e) => Err(e),
            Ok(bu) => match serial_step(n, delta, reason, f.serial) {
                Err(e) => Err(e),
                Ok(su) => match balance_step(
                    f.aggregate_quantity_milli,
                    delta,
                    "Aggregate inventory quantity overflow"@,
                ) {
                    Err(e) => Err(e),
                    Ok((ab, aa)) => match balance_step(
                        f.spatial_quantity_milli,
                        delta,
                        "Spatial inventory quantity overflow"@,
                    ) {
                        Err(e) => Err(e),
                        Ok((_, sa)) => Ok(
                            PlanSpec {
                                aggregate_before: ab,
                                aggregate_after: aa,
                                spatial_after: sa,
                                batch_update: bu,
                                serial_status: su,
                            },
                        ),
                    },
                },
            },
        },
    }
}

/// Whether an outcome is a refusal for want of stock.
pub open spec fn ends_short<T>(r: Result<T, LedgerFault>) -> bool {
    r matches Err(LedgerFault::InsufficientStock { .. })
}

/// Decides a movement on the stored facts read for it, as `plan_movement` does; `None`
/// where the movement ends short of stock with the most negative delta, whose requested
/// quantity (its negation) does not fit in `i64`.
pub fn try_plan_movement(
    n: &NormalizedMovement,
    delta: i64,
    reason: &StockMovementReason,
    facts: &MovementFacts,
) -> (r: Option<Result<MovementPlan, StockLedgerError>>)
    ensures
        r is None <==> (delta == i64::MIN && ends_short(plan_spec(n@, delta as int, reason@, *facts))),
        r matches Some(x) ==> ledger_agrees(x, plan_spec(n@, delta as int, reason@, *facts)),
{
    match check_entities(n, facts) {
        Err(e) => {
            return Some(Err(e));
        },
        Ok(()) => {},
    }
    let batch_update = match check_batch(n, delta, &facts.batch) {
        None => {
            return None;
        },
        Some(Err(e)) => {
            return Some(Err(e));
        },
        Some(Ok(b)) => b,
    };
    let serial_status = match check_serial(n, delta, reason, &facts.serial) {
        Err(e) => {
            return Some(Err(e));
        },
        Ok(s) => s,
    };
    let (ab, aa) = match move_balance(
        facts.aggregate_quantity_milli,
        delta,
        "Aggregate inventory quantity overflow",
    ) {
        None => {
            return None;
        },
        Some(Err(e)) => {
            return Some(Err(e));
        },
        Some(Ok(x)) => x,
    };
    let (_sb, sa) = match move_balance(
        facts.spatial_quantity_milli,
        delta,
        "Spatial inventory quantity overflow",
    ) {
        None => {
            return None;
        },
        Some(Err(e)) => {
            return Some(Err(e));
        },
        Some(Ok(x)) => x,
    };
    Some(
        Ok(
            MovementPlan {
                aggregate_before_milli: ab,
                aggregate_after_milli: aa,
                spatial_after_milli: sa,
                batch_update,
                serial_status,
            },
        ),
    )
}

/// Decides a movement on the stored facts read for it and says what to write. The most
/// negative delta is refused by `requires` only where the movement ends short of stock,
/// since the error would report its negation.
pub fn plan_movement(
    n: &NormalizedMovement,
    delta: i64,
    reason: &StockMovementReason,
    facts: &MovementFacts,
) -> (r: Result<MovementPlan, StockLedgerError>)
    requires
        delta != i64::MIN || !ends_short(plan_spec(n@, delta as int, reason@, *facts)),
    ensures
        ledger_agrees(r, plan_spec(n@, delta as int, reason@, *facts)),
{
    match try_plan_movement(n, delta, reason, facts) {
        Some(x) => x,
        None => {
            proof {
                assert(false);
            }
            Err(StockLedgerError::Validation(String::new()))
        },
    }
}

/// Every accepted movement conserves quantity and never leaves a negative balance: the
/// aggregate and spatial balances move by exactly the delta, as does the batch.
pub proof fn lemma_plan_conserves_stock(n: NormSpec, delta: int, reason: ReasonSpec, f: MovementFacts)
    requires
        plan_spec(n, delta, reason, f) is Ok,
    ensures
        ({
            let p = plan_spec(n, delta, reason, f)->Ok_0;
            &&& p.aggregate_after == p.aggregate_before + delta
            &&& p.aggregate_after >= 0
            &&& p.spatial_after >= 0
            &&& p.spatial_after == (match f.spatial_quantity_milli {
                Some(c) => c as int,
                None => 0,
            }) + delta
            &&& (p.batch_update matches Some((q, _)) ==> f.batch matches Some(bf) && q
                == bf.quantity_milli + delta && q >= 0)
        }),
{
}

/// A depleted batch accepts no movement, and recalled or quarantined batches accept no intake.
pub proof fn lemma_batch_lifecycle_guards(n: NormSpec, delta: int, b: BatchFacts)
    requires
        n.batch is Some,
    ensures
        b.status@ == "depleted"@ ==> batch_step(n, delta, Some(b)) is Err,
        (b.status@ == "recalled"@ || b.status@ == "quarantined"@) && delta > 0 ==> batch_step(
            n,
            delta,
            Some(b),
        ) is Err,
{
}

/// The status a movement leaves on the batch it names: a recalled batch stays recalled; any
/// other batch that the movement empties is depleted; a quarantined or active batch that
/// keeps some stock keeps its status.
pub proof fn lemma_planned_batch_status(n: NormSpec, delta: int, reason: ReasonSpec, f: MovementFacts)
    requires
        plan_spec(n, delta, reason, f) matches Ok(p) && p.batch_update is Some,
    ensures
        ({
            let p = plan_spec(n, delta, reason, f)->Ok_0;
            let q = p.batch_update->Some_0.0;
            let st = p.batch_update->Some_0.1;
            let stored = f.batch->Some_0.status@;
            &&& f.batch is Some
            &&& stored == "recalled"@ ==> st == "recalled"@
            &&& stored != "recalled"@ && q == 0 ==> st == "depleted"@
            &&& stored == "quarantined"@ && q != 0 ==> st == "quarantined"@
            &&& stored == "active"@ && q != 0 ==> st == "active"@
        }),
{
    reveal_strlit("recalled");
    reveal_strlit("quarantined");
    reveal_strlit("active");
    assert("recalled"@.len() == 8 && "quarantined"@.len() == 11 && "active"@.len() == 6);
}

/// The stored entities accept a movement exactly when the branch and product are active, a
/// named variant belongs to the product and is live, the location belongs to the branch and
/// is active, and a named bin belongs to the location and is active.
pub proof fn lemma_entities_accept(n: NormSpec, f: MovementFacts)
    ensures
        entities_spec(n, f) is Ok <==> {
            &&& f.branch_active == Some(true)
            &&& f.product_active == Some(true)
            &&& n.variant is Some ==> {
                &&& f.variant is Some
                &&& f.variant->Some_0.product_id@ == n.product
                &&& f.variant->Some_0.is_active
                &&& !f.variant->Some_0.is_deleted
            }
            &&& f.location is Some
            &&& f.location->Some_0.branch_id@ == n.branch
            &&& f.location->Some_0.is_active
            &&& n.bin is Some ==> {
                &&& f.bin is Some
                &&& f.bin->Some_0.location_id@ == n.location
                &&& f.bin->Some_0.is_active
            }
        },
{
}

/// A serialized unit moves one whole unit at a time. It comes into stock only from reserved
/// or defective; it leaves stock only from `in_stock` at the requested location, and then
/// becomes defective for damage, disposed for a loss and reserved for an adjustment; no other
/// reason takes it out of stock.
pub proof fn lemma_serial_step_outcome(n: NormSpec, delta: int, reason: ReasonSpec, s: Option<SerialFacts>)
    requires
        n.serial is Some,
        serial_step(n, delta, reason, s) is Ok,
    ensures
        s is Some,
        delta > 0 ==> delta == 1000,
        delta < 0 ==> delta == -1000,
        delta == 1000 ==> (s->Some_0.status@ == "reserved"@ || s->Some_0.status@ == "defective"@)
            && serial_step(n, delta, reason, s) == Ok::<Option<Seq<char>>, LedgerFault>(Some("in_stock"@)),
        delta == -1000 ==> {
            &&& s->Some_0.status@ == "in_stock"@
            &&& opt_string_view(s->Some_0.location_id) == Some(n.location)
            &&& reason == ReasonSpec::Damage || reason == ReasonSpec::Loss || reason
                == ReasonSpec::Adjustment
            &&& reason == ReasonSpec::Damage ==> serial_step(n, delta, reason, s) == Ok::<
                Option<Seq<char>>,
                LedgerFault,
            >(Some("defective"@))
            &&& reason == ReasonSpec::Loss ==> serial_step(n, delta, reason, s) == Ok::<
                Option<Seq<char>>,
                LedgerFault,
            >(Some("disposed"@))
            &&& reason == ReasonSpec::Adjustment ==> serial_step(n, delta, reason, s) == Ok::<
                Option<Seq<char>>,
                LedgerFault,
            >(Some("reserved"@))
        },
{
}

/// The spatial balances of a product may never exceed its aggregate balance.
pub fn check_spatial_allocation(aggregate_after_milli: i64, allocated_spatial_milli: i64) -> (r: Result<
    (),
    StockLedgerError,
>)
    ensures
        aggregate_after_milli >= allocated_spatial_milli ==> r is Ok,
        aggregate_after_milli < allocated_spatial_milli ==> (r matches Err(e) && e@ == LedgerFault::Validation(
            "Spatial allocation ("@ + int_decimal(allocated_spatial_milli as int)
                + " milli) exceeds aggregate balance ("@ + int_decimal(aggregate_after_milli as int)
                + " milli)"@,
        )),
{
    if aggregate_after_milli < allocated_spatial_milli {
        let mut m = String::from_str("Spatial allocation (");
        push_i64_decimal(&mut m, allocated_spatial_milli);
        push_str(&mut m, " milli) exceeds aggregate balance (");
        push_i64_decimal(&mut m, aggregate_after_milli);
        push_str(&mut m, " milli)");
        return Err(StockLedgerError::Validation(m));
    }
    Ok(())
}

fn copy_opt(o: &Option<String>) -> (r: Option<String>)
    ensures
        opt_string_view(r) == opt_string_view(*o),
{
    match o {
        Some(s) => Some(owned(s.as_str())),
        None => None,
    }
}

/// The ledger entry of a posted movement, from its stored ID and timestamp.
pub fn movement_record(
    id: String,
    created_at: String,
    n: &NormalizedMovement,
    input: &PostMovementInput,
    plan: &MovementPlan,
) -> (r: StockMovement)
    ensures
        r.id == id,
        r.created_at == created_at,
        r.branch_id@ == n.branch_id@,
        r.product_id@ == n.product_id@,
        opt_string_view(r.variant_id) == opt_string_view(n.variant_id),
        r.quantity_delta_milli == input.quantity_delta_milli,
        r.quantity_before_milli == Some(plan.aggregate_before_milli),
        r.quantity_after_milli == Some(plan.aggregate_after_milli),
        r.reason@ == input.reason@,
        opt_string_view(r.source_type) == opt_string_view(input.source_type),
        opt_string_view(r.source_id) == opt_string_view(input.source_id),
        r.location_id matches Some(l) && l@ == n.location_id@,
        opt_string_view(r.bin_id) == opt_string_view(n.bin_id),
        opt_string_view(r.batch_id) == opt_string_view(n.batch_id),
        opt_string_view(r.serial_id) == opt_string_view(n.serial_id),
        opt_string_view(r.user_id) == opt_string_view(input.user_id),
{
    StockMovement {
        id,
        branch_id: owned(n.branch_id.as_str()),
        product_id: owned(n.product_id.as_str()),
        variant_id: copy_opt(&n.variant_id),
        quantity_delta_milli: input.quantity_delta_milli,
        quantity_before_milli: Some(plan.aggregate_before_milli),
        quantity_after_milli: Some(plan.aggregate_after_milli),
        reason: input.reason.duplicate(),
        source_type: copy_opt(&input.source_type),
        source_id: copy_opt(&input.source_id),
        location_id: Some(owned(n.location_id.as_str())),
        bin_id: copy_opt(&n.bin_id),
        batch_id: copy_opt(&n.batch_id),
        serial_id: copy_opt(&n.serial_id),
        user_id: copy_opt(&input.user_id),
        created_at,
    }
}

} // verus!
