//! Licence status boundary: no licence protocol is implemented yet, so the local status
//! is never valid and no device fingerprint is produced.
use vstd::prelude::*;

verus! {

#[derive(Debug, Clone)]
pub struct LicenceStatus {
    pub is_valid: bool,
    pub expires_at: Option<String>,
    pub days_offline_remaining: i32,
    pub license_id: Option<String>,
    pub device_activation_id: Option<String>,
}

/// The device fingerprint; its design is not implemented, so this always fails.
pub fn generate_device_fingerprint() -> (r: Result<String, String>)
    ensures
        r matches Err(m) && m@ == "Device fingerprint design is not implemented yet"@,
{
    Err(String::from_str("Device fingerprint design is not implemented yet"))
}

/// The local licence status: not valid, no expiry, no offline days left, no identifiers.
pub fn check_local_status() -> (r: LicenceStatus)
    ensures
        !r.is_valid,
        r.expires_at is None,
        r.days_offline_remaining == 0,
        r.license_id is None,
        r.device_activation_id is None,
{
    LicenceStatus {
        is_valid: false,
        expires_at: None,
        days_offline_remaining: 0,
        license_id: None,
        device_activation_id: None,
    }
}

/// Activation of a licence key; the protocol is not implemented, so this always fails.
pub fn activation_outcome(licence_key: &str) -> (r: Result<LicenceStatus, String>)
    ensures
        r matches Err(m) && m@ == "License protocol is not implemented yet"@,
{
    Err(String::from_str("License protocol is not implemented yet"))
}

} // verus!
