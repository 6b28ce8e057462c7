//! Decisions of the barcode registry operations, taken on the facts that the
//! repository reads: request normalisation, target checks and primary selection.
use super::symbology::{detect_spec, symbology_spec};
use super::{
    agrees, detect_symbology, validate_barcode_symbology, AddBarcodeRequest, BarcodeError,
    BarcodeFault, BarcodeIntegrityMismatch, BarcodeSymbology, ProductBarcode,
};
use crate::text::{
    char_count, concat5, debug_option, debug_option_str, opt_str_eq, opt_str_view, opt_string_view,
    owned, push_str, str_eq, trim, trim_seq,
};
use vstd::prelude::*;

verus! {

/// Trimmed product ID of an add request, or the message for an empty one.
pub open spec fn add_product_id_spec(product_id: Seq<char>) -> Result<Seq<char>, BarcodeFault> {
    if trim_seq(product_id).len() == 0 {
        Err(BarcodeFault::Validation("Product ID cannot be empty"@))
    } else {
        Ok(trim_seq(product_id))
    }
}

/// The product an add request targets: its trimmed ID, which must not be empty.
pub fn add_request_product_id(request: &AddBarcodeRequest) -> (r: Result<String, BarcodeError>)
    ensures
        agrees(r, add_product_id_spec(request.product_id@)),
{
    let t = trim(request.product_id.as_str());
    if char_count(t) == 0 {
        return Err(BarcodeError::Validation(String::from_str("Product ID cannot be empty")));
    }
    Ok(owned(t))
}

/// The symbology an add request is validated under: the requested one, else the detected one.
pub open spec fn add_symbology_spec(requested: Option<BarcodeSymbology>, barcode: Seq<char>) -> BarcodeSymbology {
    match requested {
        Some(s) => s,
        None => detect_spec(barcode),
    }
}

/// What `check_add_target` decides from the product's stored `is_active` flag
/// (`None` when no such product exists).
pub open spec fn add_target_spec(
    barcode: Seq<char>,
    requested: Option<BarcodeSymbology>,
    product_id: Seq<char>,
    product_is_active: Option<i64>,
) -> Result<(Seq<char>, BarcodeSymbology), BarcodeFault> {
    match product_is_active {
        None => Err(BarcodeFault::NotFound("Product with ID '"@ + product_id + "' not found"@)),
        Some(a) => if a == 0 {
            Err(BarcodeFault::Validation("Cannot assign barcode to an archived product"@))
        } else {
            let sym = add_symbology_spec(requested, barcode);
            match symbology_spec(barcode, sym) {
                Err(e) => Err(e),
                Ok(b) => Ok((b, sym)),
            }
        },
    }
}

/// Checks the product of an add request and validates its barcode: returns the barcode as
/// stored (trimmed) and its symbology.
pub fn check_add_target(request: &AddBarcodeRequest, product_id: &str, product_is_active: Option<i64>) -> (r:
    Result<(String, BarcodeSymbology), BarcodeError>)
    ensures
        match add_target_spec(request.barcode@, request.symbology, product_id@, product_is_active) {
            Ok((b, s)) => r matches Ok((rb, rs)) && rb@ == b && rs == s,
            Err(BarcodeFault::Validation(m)) => r matches Err(BarcodeError::Validation(rm)) && rm@ == m,
            Err(BarcodeFault::NotFound(m)) => r matches Err(BarcodeError::NotFound(rm)) && rm@ == m,
            Err(BarcodeFault::DuplicateBarcode(m)) => r matches Err(BarcodeError::DuplicateBarcode(rm))
                && rm@ == m,
            Err(BarcodeFault::InvalidCheckDigit { expected, actual }) => r == Err::<
                (String, BarcodeSymbology),
                BarcodeError,
            >(BarcodeError::InvalidCheckDigit { expected, actual }),
        },
{
    match product_is_active {
        None => {
            let mut msg = String::from_str("Product with ID '");
            push_str(&mut msg, product_id);
            push_str(&mut msg, "' not found");
            Err(BarcodeError::NotFound(msg))
        },
        Some(a) => {
            if a == 0 {
                return Err(
                    BarcodeError::Validation(
                        String::from_str("Cannot assign barcode to an archived product"),
                    ),
                );
            }
            let sym = match request.symbology {
                Some(s) => s,
                None => detect_symbology(request.barcode.as_str()),
            };
            match validate_barcode_symbology(request.barcode.as_str(), sym) {
                Err(e) => Err(e),
                Ok(b) => Ok((b, sym)),
            }
        },
    }
}

/// A barcode that no other product actively holds is added as primary exactly as the request
/// asks; when the request does not say, it is primary exactly when it is the product's first
/// active barcode. One that another product actively holds is refused as a duplicate.
pub proof fn lemma_add_primary_choice(
    barcode: Seq<char>,
    requested: Option<bool>,
    owner: Option<Seq<char>>,
    has_active_barcodes: bool,
)
    ensures
        requested matches Some(p) ==> (owner is None ==> add_primary_spec(
            barcode,
            requested,
            owner,
            has_active_barcodes,
        ) == Ok::<bool, BarcodeFault>(p)),
        owner is None && requested is None ==> add_primary_spec(
            barcode,
            requested,
            owner,
            has_active_barcodes,
        ) == Ok::<bool, BarcodeFault>(!has_active_barcodes),
        owner is Some ==> add_primary_spec(barcode, requested, owner, has_active_barcodes) matches Err(
            BarcodeFault::DuplicateBarcode(_),
        ),
{
}

/// What `decide_add_primary` decides.
pub open spec fn add_primary_spec(
    barcode: Seq<char>,
    requested: Option<bool>,
    existing_active_owner: Option<Seq<char>>,
    has_active_barcodes: bool,
) -> Result<bool, BarcodeFault> {
    match existing_active_owner {
        Some(owner) => Err(
            BarcodeFault::DuplicateBarcode(
                "Barcode '"@ + barcode + "' is already actively assigned to product '"@ + owner + "'"@,
            ),
        ),
        None => Ok(
            match requested {
                Some(p) => p,
                None => !has_active_barcodes,
            },
        ),
    }
}

/// Refuses a barcode that another product actively holds; otherwise decides whether the new
/// barcode is primary (as requested, else primary exactly when the product has no active barcode).
pub fn decide_add_primary(
    barcode: &str,
    requested: Option<bool>,
    existing_active_owner: Option<&str>,
    has_active_barcodes: bool,
) -> (r: Result<bool, BarcodeError>)
    ensures
        match add_primary_spec(
            barcode@,
            requested,
            match existing_active_owner {
                Some(o) => Some(o@),
                None => None,
            },
            has_active_barcodes,
        ) {
            Ok(p) => r == Ok::<bool, BarcodeError>(p),
            Err(BarcodeFault::DuplicateBarcode(m)) => r matches Err(BarcodeError::DuplicateBarcode(rm))
                && rm@ == m,
            Err(_) => false,
        },
{
    match existing_active_owner {
        Some(owner) => {
            let mut msg = String::from_str("Barcode '");
            push_str(&mut msg, barcode);
            push_str(&mut msg, "' is already actively assigned to product '");
            push_str(&mut msg, owner);
            push_str(&mut msg, "'");
            Err(BarcodeError::DuplicateBarcode(msg))
        },
        None => Ok(
            match requested {
                Some(p) => p,
                None => !has_active_barcodes,
            },
        ),
    }
}

/// What `check_set_primary` decides for the barcode record found under `barcode_id` (if any).
pub open spec fn set_primary_spec(
    target: Option<(Seq<char>, bool)>,
    product_id: Seq<char>,
    barcode_id: Seq<char>,
) -> Result<(), BarcodeFault> {
    match target {
        None => Err(BarcodeFault::NotFound("Barcode with ID '"@ + barcode_id + "' not found"@)),
        Some((owner, active)) => if owner != product_id {
            Err(
                BarcodeFault::Validation(
                    "Barcode '"@ + barcode_id + "' does not belong to product '"@ + product_id + "'"@,
                ),
            )
        } else if !active {
            Err(BarcodeFault::Validation("Cannot set an inactive barcode as primary"@))
        } else {
            Ok(())
        },
    }
}

/// Checks that a barcode may become the primary barcode of a product: it exists, belongs to
/// the product and is active.
pub fn check_set_primary(target: Option<&ProductBarcode>, product_id: &str, barcode_id: &str) -> (r: Result<
    (),
    BarcodeError,
>)
    ensures
        agrees(
            r,
            set_primary_spec(
                match target {
                    Some(t) => Some((t.product_id@, t.is_active)),
                    None => None,
                },
                product_id@,
                barcode_id@,
            ),
        ),
{
    match target {
        None => {
            let mut msg = String::from_str("Barcode with ID '");
            push_str(&mut msg, barcode_id);
            push_str(&mut msg, "' not found");
            Err(BarcodeError::NotFound(msg))
        },
        Some(t) => {
            if !str_eq(t.product_id.as_str(), product_id) {
                let mut msg = String::from_str("Barcode '");
                push_str(&mut msg, barcode_id);
                push_str(&mut msg, "' does not belong to product '");
                push_str(&mut msg, product_id);
                push_str(&mut msg, "'");
                return Err(BarcodeError::Validation(msg));
            }
            if !t.is_active {
                return Err(
                    BarcodeError::Validation(
                        String::from_str("Cannot set an inactive barcode as primary"),
                    ),
                );
            }
            Ok(())
        },
    }
}

/// What `check_reassign_target` decides from the target product's stored `is_active` flag.
pub open spec fn reassign_target_spec(target_product_id: Seq<char>, target_is_active: Option<i64>) -> Result<
    (),
    BarcodeFault,
> {
    match target_is_active {
        None => Err(
            BarcodeFault::NotFound("Target product with ID '"@ + target_product_id + "' not found"@),
        ),
        Some(a) => if a == 0 {
            Err(BarcodeFault::Validation("Cannot reassign barcode to an archived product"@))
        } else {
            Ok(())
        },
    }
}

/// Checks that the target product of a reassignment exists and is active.
pub fn check_reassign_target(target_product_id: &str, target_is_active: Option<i64>) -> (r: Result<
    (),
    BarcodeError,
>)
    ensures
        agrees(r, reassign_target_spec(target_product_id@, target_is_active)),
{
    match target_is_active {
        None => {
            let mut msg = String::from_str("Target product with ID '");
            push_str(&mut msg, target_product_id);
            push_str(&mut msg, "' not found");
            Err(BarcodeError::NotFound(msg))
        },
        Some(a) => {
            if a == 0 {
                Err(
                    BarcodeError::Validation(
                        String::from_str("Cannot reassign barcode to an archived product"),
                    ),
                )
            } else {
                Ok(())
            }
        },
    }
}

/// The description of an audit finding: the product's mirrored barcode and its active
/// primary barcode, each as `{:?}` renders an optional string.
pub open spec fn mismatch_description(legacy: Option<Seq<char>>, canonical: Option<Seq<char>>) -> Seq<char> {
    "Legacy products.barcode ("@ + debug_option_str(legacy) + ") disagrees with canonical primary in product_barcodes ("@
        + debug_option_str(canonical) + ")"@
}

/// The audit finding for an active product whose mirrored barcode (`legacy`) differs from
/// its active primary barcode (`canonical`); none where the two agree.
pub fn integrity_mismatch(
    product_id: &str,
    product_name: &str,
    legacy: Option<&str>,
    canonical: Option<&str>,
) -> (r: Option<BarcodeIntegrityMismatch>)
    ensures
        r is None <==> opt_str_view(legacy) == opt_str_view(canonical),
        r matches Some(m) ==> {
            &&& m.product_id@ == product_id@
            &&& m.product_name@ == product_name@
            &&& opt_string_view(m.legacy_mirror) == opt_str_view(legacy)
            &&& opt_string_view(m.canonical_primary) == opt_str_view(canonical)
            &&& m.description@ == mismatch_description(opt_str_view(legacy), opt_str_view(canonical))
        },
{
    if opt_str_eq(legacy, canonical) {
        return None;
    }
    let l = debug_option(legacy);
    let c = debug_option(canonical);
    let description = concat5(
        "Legacy products.barcode (",
        l.as_str(),
        ") disagrees with canonical primary in product_barcodes (",
        c.as_str(),
        ")",
    );
    Some(BarcodeIntegrityMismatch {
        product_id: owned(product_id),
        product_name: owned(product_name),
        legacy_mirror: match legacy {
            Some(x) => Some(owned(x)),
            None => None,
        },
        canonical_primary: match canonical {
            Some(x) => Some(owned(x)),
            None => None,
        },
        description,
    })
}


/// A barcode is added to a product only when the product exists and is not archived and the
/// barcode is valid under the requested symbology, or the detected one when none is asked
/// for; what is stored is the barcode as that symbology validates it.
pub proof fn lemma_add_target_accept(
    barcode: Seq<char>,
    requested: Option<BarcodeSymbology>,
    product_id: Seq<char>,
    product_is_active: Option<i64>,
)
    ensures
        add_target_spec(barcode, requested, product_id, product_is_active) is Ok <==> {
            &&& product_is_active is Some
            &&& product_is_active->Some_0 != 0
            &&& symbology_spec(barcode, add_symbology_spec(requested, barcode)) is Ok
        },
        add_target_spec(barcode, requested, product_id, product_is_active) is Ok ==> {
            let (b, sym) = add_target_spec(barcode, requested, product_id, product_is_active)->Ok_0;
            &&& sym == (match requested {
                Some(r) => r,
                None => detect_spec(barcode),
            })
            &&& symbology_spec(barcode, sym) == Ok::<Seq<char>, BarcodeFault>(b)
        },
{
}

/// A barcode becomes a product's primary barcode only when it exists, belongs to that product
/// and is active.
pub proof fn lemma_set_primary_accept(target: Option<(Seq<char>, bool)>, product_id: Seq<char>, barcode_id: Seq<char>)
    ensures
        set_primary_spec(target, product_id, barcode_id) is Ok <==> target == Some((product_id, true)),
{
}

/// A barcode is reassigned only to a product that exists and is not archived.
pub proof fn lemma_reassign_target_accept(target_product_id: Seq<char>, target_is_active: Option<i64>)
    ensures
        reassign_target_spec(target_product_id, target_is_active) is Ok <==> (target_is_active is Some
            && target_is_active->Some_0 != 0),
{
}

} // verus!
