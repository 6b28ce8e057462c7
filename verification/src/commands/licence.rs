//! Licence commands: activation and status checks are not implemented yet and refuse
//! every request.
use crate::licence::LicenceStatus;
use vstd::prelude::*;

verus! {

#[derive(Debug)]
pub struct ActivationResult {
    pub success: bool,
    pub message: String,
}

/// Activates a licence key; refused until the licensing security design is approved.
pub fn activate_licence(_licence_key: String) -> (r: Result<ActivationResult, String>)
    ensures
        r matches Err(m) && m@ == "License activation is not implemented yet; security design gate required"@,
{
    Err(String::from_str("License activation is not implemented yet; security design gate required"))
}

/// Reports the licence status; refused until status verification is implemented.
pub fn check_licence_status() -> (r: Result<LicenceStatus, String>)
    ensures
        r matches Err(m) && m@ == "License status verification is not implemented yet"@,
{
    Err(String::from_str("License status verification is not implemented yet"))
}

} // verus!
