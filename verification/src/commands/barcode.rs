//! The barcode check offered to the user interface: a barcode validated under a named or
//! detected symbology, failures reported as display text.
use crate::barcode::symbology::{detect_spec, symbology_from_upper, symbology_spec};
use crate::barcode::{detect_symbology, validate_barcode_symbology, BarcodeFault, BarcodeSymbology};
use crate::text::{nat_digits, opt_str_view, trim_seq, unicode_upper};
use vstd::prelude::*;

verus! {

/// The symbology a barcode is checked under: the named one (an unknown name counts as
/// `Unknown`), else the one detected from the barcode.
pub open spec fn chosen_symbology(barcode: Seq<char>, named: Option<Seq<char>>) -> BarcodeSymbology {
    match named {
        Some(s) => match symbology_from_upper(unicode_upper(trim_seq(s))) {
            Some(x) => x,
            None => BarcodeSymbology::Unknown,
        },
        None => detect_spec(barcode),
    }
}

/// The display text of a barcode rule failure.
pub open spec fn barcode_fault_text(f: BarcodeFault) -> Seq<char> {
    match f {
        BarcodeFault::Validation(m) => "Validation error: "@ + m,
        BarcodeFault::NotFound(m) => "Not found: "@ + m,
        BarcodeFault::DuplicateBarcode(m) => "Duplicate barcode error: "@ + m,
        BarcodeFault::InvalidCheckDigit { expected, actual } => "Invalid GS1 check digit: expected "@ + nat_digits(
            expected as nat,
        ) + ", got "@ + nat_digits(actual as nat),
    }
}

/// Validates a barcode under the named symbology, or the detected one when none is named;
/// returns the normalized barcode, or the display text of the failure.
pub fn check_barcode_string(barcode: &str, symbology: Option<&str>) -> (r: Result<String, String>)
    ensures
        match symbology_spec(barcode@, chosen_symbology(barcode@, opt_str_view(symbology))) {
            Ok(v) => r matches Ok(x) && x@ == v,
            Err(f) => r matches Err(m) && m@ == barcode_fault_text(f),
        },
{
    let sym = match symbology {
        Some(s) => match BarcodeSymbology::parse(s) {
            Some(x) => x,
            None => BarcodeSymbology::Unknown,
        },
        None => detect_symbology(barcode),
    };
    match validate_barcode_symbology(barcode, sym) {
        Ok(v) => Ok(v),
        Err(e) => Err(e.describe()),
    }
}

} // verus!
