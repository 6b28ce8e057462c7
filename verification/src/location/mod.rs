//! Storage locations and bins of a branch: records, field rules and hierarchy checks.
use crate::rules::{
    ancestor_step, ancestor_step_spec, bounded_spec, bounded_text, like_escaped, nonblank_spec,
    nonblank_text, parent_view, AncestorStep, AncestorStepSpec, MAX_DEFENSIVE_STEPS,
};
use crate::text::{concat3, contains_seq, concat5, nat_digits, norm_opt, opt_str_view, owned, push_decimal, push_str, str_eq, trim, trim_seq};
use vstd::prelude::*;

pub mod complete;
pub mod tree;
pub mod update;

verus! {

#[derive(Debug, PartialEq, Eq)]
pub enum LocationError {
    Validation(String),
    NotFound(String),
    DuplicateCode(String),
    SelfParenting(String),
    CycleDetected(String),
    CrossBranchParent(String),
    InactiveParent(String),
    DeactivationBlocked(String),
    TraversalSafetyError(String),
    Database(String),
}

/// Physical storage area or zone within a branch.
#[derive(Debug, Clone, PartialEq, Eq)]
pub struct Location {
    pub id: String,
    pub branch_id: String,
    pub parent_id: Option<String>,
    pub name: String,
    pub code: String,
    pub location_type: Option<String>,
    pub is_active: bool,
    pub created_at: String,
    pub updated_at: String,
}

/// Addressable physical pick/put storage slot belonging to a location.
#[derive(Debug, Clone, PartialEq, Eq)]
pub struct Bin {
    pub id: String,
    pub location_id: String,
    pub name: String,
    pub code: String,
    pub is_active: bool,
    pub created_at: String,
    pub updated_at: String,
}

/// Hierarchical tree representation of locations and their terminal bins.
#[derive(Debug)]
pub struct LocationTreeNode {
    pub location: Location,
    pub children: Vec<LocationTreeNode>,
    pub bins: Vec<Bin>,
}

/// Input payload for creating a location.
#[derive(Debug, Clone)]
pub struct CreateLocationInput {
    pub branch_id: String,
    pub parent_id: Option<String>,
    pub name: String,
    pub code: String,
    pub location_type: Option<String>,
}

/// Input payload for updating a location.
#[derive(Debug, Clone)]
pub struct UpdateLocationInput {
    pub id: String,
    pub name: Option<String>,
    pub code: Option<String>,
    pub parent_id: Option<Option<String>>,
    pub location_type: Option<Option<String>>,
    pub is_active: Option<bool>,
}

/// Filter parameters for listing locations.
#[derive(Debug, Clone, Default)]
pub struct LocationFilter {
    pub branch_id: String,
    pub parent_id: Option<String>,
    pub is_active: Option<bool>,
    pub query: Option<String>,
}

/// Input payload for creating a bin.
#[derive(Debug, Clone)]
pub struct CreateBinInput {
    pub location_id: String,
    pub name: String,
    pub code: String,
}

/// Input payload for updating a bin.
#[derive(Debug, Clone)]
pub struct UpdateBinInput {
    pub id: String,
    pub name: Option<String>,
    pub code: Option<String>,
    pub is_active: Option<bool>,
}

/// Filter parameters for listing bins.
#[derive(Debug, Clone, Default)]
pub struct BinFilter {
    pub location_id: Option<String>,
    pub branch_id: Option<String>,
    pub is_active: Option<bool>,
    pub query: Option<String>,
}

/// The text a location error is displayed with.
pub open spec fn location_error_text(e: LocationError) -> Seq<char> {
    match e {
        LocationError::Validation(m) => "Validation error: "@ + m@,
        LocationError::NotFound(m) => "Not found: "@ + m@,
        LocationError::DuplicateCode(m) => "Duplicate code: "@ + m@,
        LocationError::SelfParenting(m) => "Self-parenting error: "@ + m@,
        LocationError::CycleDetected(m) => "Hierarchy cycle detected: "@ + m@,
        LocationError::CrossBranchParent(m) => "Cross-branch error: "@ + m@,
        LocationError::InactiveParent(m) => "Inactive parent error: "@ + m@,
        LocationError::DeactivationBlocked(m) => "Deactivation blocked: "@ + m@,
        LocationError::TraversalSafetyError(m) => "Traversal safety error: "@ + m@,
        LocationError::Database(m) => "Database error: "@ + m@,
    }
}

impl LocationError {
    /// The display text of this error.
    pub fn describe(&self) -> (r: String)
        ensures
            r@ == location_error_text(*self),
    {
        match self {
            LocationError::Validation(m) => crate::text::concat2("Validation error: ", m.as_str()),
            LocationError::NotFound(m) => crate::text::concat2("Not found: ", m.as_str()),
            LocationError::DuplicateCode(m) => crate::text::concat2("Duplicate code: ", m.as_str()),
            LocationError::SelfParenting(m) => crate::text::concat2("Self-parenting error: ", m.as_str()),
            LocationError::CycleDetected(m) => crate::text::concat2("Hierarchy cycle detected: ", m.as_str()),
            LocationError::CrossBranchParent(m) => crate::text::concat2("Cross-branch error: ", m.as_str()),
            LocationError::InactiveParent(m) => crate::text::concat2("Inactive parent error: ", m.as_str()),
            LocationError::DeactivationBlocked(m) => crate::text::concat2("Deactivation blocked: ", m.as_str()),
            LocationError::TraversalSafetyError(m) => crate::text::concat2("Traversal safety error: ", m.as_str()),
            LocationError::Database(m) => crate::text::concat2("Database error: ", m.as_str()),
        }
    }
}

/// What a failed location or bin write means. A database failure that carries a message is
/// a uniqueness violation when its extended code says so or its message does; such a
/// violation names the location code or the bin code it broke (kind 0 with the message),
/// any other failure is a database error (kind 1, the message itself).
pub open spec fn location_write_fault(has_message: bool, unique_code: bool, msg: Seq<char>) -> (nat, Seq<char>) {
    if has_message && (unique_code || contains_seq(msg, "UNIQUE constraint failed"@)) {
        if contains_seq(msg, "locations.branch_id"@) || contains_seq(msg, "locations.code"@) {
            (0, "A location with this code already exists in this branch"@)
        } else if contains_seq(msg, "bins.location_id"@) || contains_seq(msg, "bins.code"@) {
            (0, "A bin with this code already exists in this location"@)
        } else {
            (0, "Unique constraint violation"@)
        }
    } else {
        (1, msg)
    }
}

/// Classifies a failed location or bin write into a duplicate code or a database error.
pub fn classify_location_write_error(has_message: bool, unique_code: bool, msg: String) -> (r: LocationError)
    ensures
        ({
            let (k, m) = location_write_fault(has_message, unique_code, msg@);
            match r {
                LocationError::DuplicateCode(x) => k == 0 && x@ == m,
                LocationError::Database(x) => k == 1 && x@ == m,
                _ => false,
            }
        }),
{
    let s = msg.as_str();
    if has_message && (unique_code || crate::text::contains_str(s, "UNIQUE constraint failed")) {
        if crate::text::contains_str(s, "locations.branch_id") || crate::text::contains_str(
            s,
            "locations.code",
        ) {
            return LocationError::DuplicateCode(
                String::from_str("A location with this code already exists in this branch"),
            );
        }
        if crate::text::contains_str(s, "bins.location_id") || crate::text::contains_str(s, "bins.code") {
            return LocationError::DuplicateCode(
                String::from_str("A bin with this code already exists in this location"),
            );
        }
        return LocationError::DuplicateCode(String::from_str("Unique constraint violation"));
    }
    LocationError::Database(msg)
}

/// Trims a required text field; blank is refused with the field's name.
pub fn validate_and_trim_str(val: &str, field_name: &str) -> (r: Result<String, LocationError>)
    ensures
        trim_seq(val@).len() == 0 ==> (r matches Err(LocationError::Validation(m)) && m@ == field_name@ + " cannot be empty or whitespace-only"@),
        trim_seq(val@).len() != 0 ==> (r matches Ok(x) && x@ == trim_seq(val@)),
{
    let t = trim(val);
    if crate::text::char_count(t) == 0 {
        let mut m = owned(field_name);
        push_str(&mut m, " cannot be empty or whitespace-only");
        return Err(LocationError::Validation(m));
    }
    Ok(owned(t))
}

/// Trims optional text; blank becomes `None`.
pub fn normalize_optional_str(val: Option<&str>) -> (r: Option<String>)
    ensures
        match r {
            Some(x) => norm_opt(opt_str_view(val)) == Some(x@),
            None => norm_opt(opt_str_view(val)) is None,
        },
{
    crate::rules::trimmed_opt(val)
}

/// What `check_parent_location` decides from the stored parent row `(branch, is_active)`.
pub open spec fn parent_location_spec(
    child_branch_id: Seq<char>,
    location_id: Option<Seq<char>>,
    target_parent_id: Seq<char>,
    parent_row: Option<(Seq<char>, bool)>,
) -> Result<(), (nat, Seq<char>)> {
    match parent_row {
        None => Err((0, "Parent location '"@ + target_parent_id + "' not found"@)),
        Some((b, active)) => if b != child_branch_id {
            Err((1, "Parent location '"@ + target_parent_id + "' belongs to branch '"@ + b + "', but child belongs to '"@ + child_branch_id + "'"@))
        } else if !active {
            Err((2, "Cannot set parent to inactive location '"@ + target_parent_id + "'"@))
        } else if location_id == Some(target_parent_id) {
            Err((3, "Location cannot be its own parent"@))
        } else {
            Ok(())
        },
    }
}

/// The error kind of a parent check: 0 not found, 1 other branch, 2 inactive, 3 itself.
pub open spec fn parent_error_matches(e: LocationError, kind: nat, m: Seq<char>) -> bool {
    match e {
        LocationError::NotFound(x) => kind == 0 && x@ == m,
        LocationError::CrossBranchParent(x) => kind == 1 && x@ == m,
        LocationError::InactiveParent(x) => kind == 2 && x@ == m,
        LocationError::SelfParenting(x) => kind == 3 && x@ == m,
        _ => false,
    }
}

/// A new parent is accepted exactly when it is stored in the child's branch, is active, and
/// is not the location being re-parented.
pub proof fn lemma_parent_location_accept(
    child_branch_id: Seq<char>,
    location_id: Option<Seq<char>>,
    target_parent_id: Seq<char>,
    parent_row: Option<(Seq<char>, bool)>,
)
    ensures
        parent_location_spec(child_branch_id, location_id, target_parent_id, parent_row) is Ok <==> (
        parent_row == Some((child_branch_id, true)) && location_id != Some(target_parent_id)),
{
}

/// Checks a new parent location: it exists, is in the child's branch, is active, and is not
/// the location itself (when an existing location is re-parented).
pub fn check_parent_location(
    child_branch_id: &str,
    location_id: Option<&str>,
    target_parent_id: &str,
    parent_row: Option<(String, bool)>,
) -> (r: Result<(), LocationError>)
    ensures
        match parent_location_spec(child_branch_id@, opt_str_view(location_id), target_parent_id@, match parent_row { Some((b, a)) => Some((b@, a)), None => None }) {
            Ok(()) => r is Ok,
            Err((k, m)) => r matches Err(e) && parent_error_matches(e, k, m),
        },
{
    match parent_row {
        None => Err(LocationError::NotFound(concat3("Parent location '", target_parent_id, "' not found"))),
        Some((b, active)) => {
            if !str_eq(b.as_str(), child_branch_id) {
                let mut m = concat5("Parent location '", target_parent_id, "' belongs to branch '", b.as_str(), "', but child belongs to '");
                push_str(&mut m, child_branch_id);
                push_str(&mut m, "'");
                return Err(LocationError::CrossBranchParent(m));
            }
            if !active {
                return Err(LocationError::InactiveParent(concat3("Cannot set parent to inactive location '", target_parent_id, "'")));
            }
            if let Some(id) = location_id {
                if str_eq(id, target_parent_id) {
                    return Err(LocationError::SelfParenting(String::from_str("Location cannot be its own parent")));
                }
            }
            Ok(())
        },
    }
}

/// One step of the cycle check that walks up from a new parent location: `Ok(Some(next))`
/// goes on, `Ok(None)` ends the walk without a cycle.
pub fn location_cycle_step(
    location_id: &str,
    target_parent_id: &str,
    steps: usize,
    parent: Option<Option<String>>,
) -> (r: Result<Option<String>, LocationError>)
    requires
        steps < MAX_DEFENSIVE_STEPS,
    ensures
        match ancestor_step_spec(location_id@, steps as nat, parent_view(parent)) {
            AncestorStepSpec::Next(a) => r matches Ok(Some(x)) && x@ == a,
            AncestorStepSpec::Clear => r matches Ok(None),
            AncestorStepSpec::Cycle => r matches Err(LocationError::CycleDetected(m)) && m@ == "Location '"@ + location_id@ + "' cannot be parented under its own descendant '"@ + target_parent_id@ + "'"@,
            AncestorStepSpec::TooDeep => r matches Err(LocationError::TraversalSafetyError(m)) && m@ == "Defensive traversal limit of 50 steps exceeded during cycle check"@,
        },
{
    match ancestor_step(location_id, steps, parent) {
        AncestorStep::Next(a) => Ok(Some(a)),
        AncestorStep::Clear => Ok(None),
        AncestorStep::Cycle => Err(LocationError::CycleDetected(concat5("Location '", location_id, "' cannot be parented under its own descendant '", target_parent_id, "'"))),
        AncestorStep::TooDeep => Err(LocationError::TraversalSafetyError(String::from_str("Defensive traversal limit of 50 steps exceeded during cycle check"))),
    }
}

/// A location holding active child locations or active bins may not be deactivated.
pub fn check_can_deactivate(location_id: &str, active_children: i64, active_bins: i64) -> (r: Result<(), LocationError>)
    ensures
        active_children > 0 ==> (r matches Err(LocationError::DeactivationBlocked(m)) && m@ == "Cannot deactivate location '"@ + location_id@ + "': it contains "@ + crate::text::int_decimal(active_children as int) + " active child location(s)"@),
        active_children <= 0 && active_bins > 0 ==> (r matches Err(LocationError::DeactivationBlocked(m)) && m@ == "Cannot deactivate location '"@ + location_id@ + "': it contains "@ + crate::text::int_decimal(active_bins as int) + " active bin(s)"@),
        active_children <= 0 && active_bins <= 0 ==> r is Ok,
{
    if active_children > 0 {
        let mut m = concat3("Cannot deactivate location '", location_id, "': it contains ");
        crate::text::push_i64_decimal(&mut m, active_children);
        push_str(&mut m, " active child location(s)");
        return Err(LocationError::DeactivationBlocked(m));
    }
    if active_bins > 0 {
        let mut m = concat3("Cannot deactivate location '", location_id, "': it contains ");
        crate::text::push_i64_decimal(&mut m, active_bins);
        push_str(&mut m, " active bin(s)");
        return Err(LocationError::DeactivationBlocked(m));
    }
    Ok(())
}

/// A location under an inactive parent may not be reactivated.
pub fn check_can_reactivate(location_id: &str, parent_id: Option<&str>, parent_active: Option<bool>) -> (r: Result<(), LocationError>)
    ensures
        parent_id is Some && parent_active == Some(false) ==> (r matches Err(LocationError::InactiveParent(m)) && m@ == "Cannot reactivate location '"@ + location_id@ + "': its parent location '"@ + parent_id->0@ + "' is inactive"@),
        !(parent_id is Some && parent_active == Some(false)) ==> r is Ok,
{
    if let Some(p) = parent_id {
        if parent_active == Some(false) {
            return Err(LocationError::InactiveParent(concat5("Cannot reactivate location '", location_id, "': its parent location '", p, "' is inactive")));
        }
    }
    Ok(())
}

} // verus!
