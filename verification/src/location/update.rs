//! Partial updates of locations and bins: what an update request changes, which stored
//! checks it calls for, and the checks on the location that holds a bin.
use super::{normalize_optional_str, validate_and_trim_str, Bin, Location, LocationError, UpdateBinInput, UpdateLocationInput};
use crate::text::{concat3, concat5, norm_opt, opt_str_view, opt_string_view, owned, trim, trim_seq};
use vstd::prelude::*;

verus! {

/// A text field after a partial update: the trimmed new value, the stored one when the
/// update leaves it out, none when the new value is blank.
pub open spec fn patched_text(new: Option<String>, stored: Seq<char>) -> Option<Seq<char>> {
    match new {
        Some(n) => if trim_seq(n@).len() == 0 {
            None
        } else {
            Some(trim_seq(n@))
        },
        None => Some(stored),
    }
}

/// An optional field after a partial update: a named value trimmed (none when blank), the
/// stored value when the update leaves the field out.
pub open spec fn patched_optional(new: Option<Option<String>>, stored: Option<String>) -> Option<Seq<char>> {
    match new {
        Some(o) => norm_opt(opt_string_view(o)),
        None => opt_string_view(stored),
    }
}

/// The message refusing a blank field.
pub open spec fn blank_field_msg(field: Seq<char>) -> Seq<char> {
    field + " cannot be empty or whitespace-only"@
}

/// The fields of a location after an update, and the stored checks the update calls for.
#[derive(Debug, Clone, PartialEq, Eq)]
pub struct LocationChanges {
    pub name: String,
    pub code: String,
    pub location_type: Option<String>,
    pub parent_id: Option<String>,
    /// A parent is newly named: its place in the hierarchy must be checked first.
    pub check_parent: bool,
    pub is_active: bool,
    /// An active location is being deactivated: it must hold no active children or bins.
    pub check_deactivation: bool,
}

/// What an update request makes of a stored location: name and code replaced by their
/// trimmed new values (a blank one is refused, the name first), the type and the parent
/// replaced when named (trimmed, a blank one clears it), the activity flag replaced when given.
pub fn merge_location_update(existing: &Location, input: &UpdateLocationInput) -> (r: Result<LocationChanges, LocationError>)
    ensures
        patched_text(input.name, existing.name@) is None ==> (r matches Err(LocationError::Validation(m))
            && m@ == blank_field_msg("name"@)),
        patched_text(input.name, existing.name@) is Some && patched_text(input.code, existing.code@) is None
            ==> (r matches Err(LocationError::Validation(m)) && m@ == blank_field_msg("code"@)),
        patched_text(input.name, existing.name@) is Some && patched_text(input.code, existing.code@) is Some
            ==> (r matches Ok(c) && {
            &&& Some(c.name@) == patched_text(input.name, existing.name@)
            &&& Some(c.code@) == patched_text(input.code, existing.code@)
            &&& opt_string_view(c.location_type) == patched_optional(input.location_type, existing.location_type)
            &&& opt_string_view(c.parent_id) == patched_optional(input.parent_id, existing.parent_id)
            &&& c.check_parent == (input.parent_id matches Some(Some(p)) && trim_seq(p@).len() != 0)
            &&& c.is_active == match input.is_active {
                Some(a) => a,
                None => existing.is_active,
            }
            &&& c.check_deactivation == (input.is_active == Some(false) && existing.is_active)
        }),
{
    let name = match &input.name {
        Some(n) => validate_and_trim_str(n.as_str(), "name")?,
        None => owned(existing.name.as_str()),
    };
    let code = match &input.code {
        Some(c) => validate_and_trim_str(c.as_str(), "code")?,
        None => owned(existing.code.as_str()),
    };
    let location_type = match &input.location_type {
        Some(o) => normalize_optional_str(
            match o {
                Some(s) => Some(s.as_str()),
                None => None,
            },
        ),
        None => match &existing.location_type {
            Some(s) => Some(owned(s.as_str())),
            None => None,
        },
    };
    let mut check_parent = false;
    let parent_id = match &input.parent_id {
        Some(Some(pid)) => {
            let t = trim(pid.as_str());
            if crate::text::char_count(t) == 0 {
                None
            } else {
                check_parent = true;
                Some(owned(t))
            }
        },
        Some(None) => None,
        None => match &existing.parent_id {
            Some(s) => Some(owned(s.as_str())),
            None => None,
        },
    };
    let (is_active, check_deactivation) = match input.is_active {
        Some(a) => (a, !a && existing.is_active),
        None => (existing.is_active, false),
    };
    Ok(LocationChanges { name, code, location_type, parent_id, check_parent, is_active, check_deactivation })
}

/// The fields of a bin after an update, and whether its location must be checked active.
#[derive(Debug, Clone, PartialEq, Eq)]
pub struct BinChanges {
    pub name: String,
    pub code: String,
    pub is_active: bool,
    /// An inactive bin is being activated: its location must not be inactive.
    pub check_location_active: bool,
}

/// What an update request makes of a stored bin: name and code as for locations, the
/// activity flag replaced when given.
pub fn merge_bin_update(existing: &Bin, input: &UpdateBinInput) -> (r: Result<BinChanges, LocationError>)
    ensures
        patched_text(input.name, existing.name@) is None ==> (r matches Err(LocationError::Validation(m))
            && m@ == blank_field_msg("name"@)),
        patched_text(input.name, existing.name@) is Some && patched_text(input.code, existing.code@) is None
            ==> (r matches Err(LocationError::Validation(m)) && m@ == blank_field_msg("code"@)),
        patched_text(input.name, existing.name@) is Some && patched_text(input.code, existing.code@) is Some
            ==> (r matches Ok(c) && {
            &&& Some(c.name@) == patched_text(input.name, existing.name@)
            &&& Some(c.code@) == patched_text(input.code, existing.code@)
            &&& c.is_active == match input.is_active {
                Some(a) => a,
                None => existing.is_active,
            }
            &&& c.check_location_active == (c.is_active && !existing.is_active)
        }),
{
    let name = match &input.name {
        Some(n) => validate_and_trim_str(n.as_str(), "name")?,
        None => owned(existing.name.as_str()),
    };
    let code = match &input.code {
        Some(c) => validate_and_trim_str(c.as_str(), "code")?,
        None => owned(existing.code.as_str()),
    };
    let is_active = match input.is_active {
        Some(a) => a,
        None => existing.is_active,
    };
    Ok(BinChanges { name, code, is_active, check_location_active: is_active && !existing.is_active })
}

/// Refuses to activate a bin whose location is stored as inactive (`Some(false)`); an
/// active or missing location does not stop it.
pub fn check_bin_activation(bin_id: &str, location_id: &str, location_active: Option<bool>) -> (r: Result<(), LocationError>)
    ensures
        location_active == Some(false) ==> (r matches Err(LocationError::InactiveParent(m)) && m@
            == "Cannot activate bin '"@ + bin_id@ + "': its parent location '"@ + location_id@ + "' is inactive"@),
        location_active != Some(false) ==> r is Ok,
{
    if location_active == Some(false) {
        return Err(
            LocationError::InactiveParent(
                concat5("Cannot activate bin '", bin_id, "': its parent location '", location_id, "' is inactive"),
            ),
        );
    }
    Ok(())
}

/// Checks the location a new bin goes into, from its stored `is_active` flag: it must exist
/// and be active.
pub fn check_bin_location(location_id: &str, location_active: Option<bool>) -> (r: Result<(), LocationError>)
    ensures
        location_active == Some(true) ==> r is Ok,
        location_active == Some(false) ==> (r matches Err(LocationError::InactiveParent(m)) && m@
            == "Cannot create bin in inactive location '"@ + location_id@ + "'"@),
        location_active is None ==> (r matches Err(LocationError::NotFound(m)) && m@ == "Location '"@
            + location_id@ + "' not found"@),
{
    match location_active {
        Some(true) => Ok(()),
        Some(false) => Err(LocationError::InactiveParent(concat3("Cannot create bin in inactive location '", location_id, "'"))),
        None => Err(LocationError::NotFound(concat3("Location '", location_id, "' not found"))),
    }
}

} // verus!
