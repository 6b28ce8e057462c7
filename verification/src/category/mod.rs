//! Categories: records, field rules and hierarchy checks.
use crate::rules::{
    ancestor_step, ancestor_step_spec, bounded_spec, bounded_text, like_escaped, nonblank_spec,
    nonblank_text, parent_view, AncestorStep, AncestorStepSpec, MAX_DEFENSIVE_STEPS,
};
use crate::text::{concat2, concat3, contains_seq, contains_str, concat5, nat_digits, norm_opt, opt_str_view, owned, push_decimal, push_str, str_eq, trim, trim_seq};
use vstd::prelude::*;

pub mod complete;
pub mod tree;

verus! {

/// Canonical Category entity.
#[derive(Debug, Clone, PartialEq, Eq)]
pub struct Category {
    pub id: String,
    pub name: String,
    pub parent_id: Option<String>,
    pub description: Option<String>,
    pub is_active: bool,
    pub created_at: String,
    pub updated_at: String,
}

/// Recursive category tree node for hierarchical UI and navigation.
#[derive(Debug)]
pub struct CategoryTreeNode {
    pub category: Category,
    pub children: Vec<CategoryTreeNode>,
}

/// Input payload for creating a category.
#[derive(Debug, Clone)]
pub struct CreateCategoryInput {
    pub name: String,
    pub parent_id: Option<String>,
    pub description: Option<String>,
}

/// Input payload for updating a category.
#[derive(Debug, Clone)]
pub struct UpdateCategoryInput {
    pub id: String,
    pub name: String,
    pub parent_id: Option<String>,
    pub description: Option<String>,
    pub is_active: bool,
}

/// Filter parameters for listing categories.
#[derive(Debug, Clone, Default)]
pub struct CategoryFilter {
    pub query: Option<String>,
    pub parent_id: Option<Option<String>>,
    pub is_active: Option<bool>,
}

#[derive(Debug, PartialEq, Eq)]
pub enum CategoryError {
    Validation(String),
    NotFound(String),
    DuplicateName(String),
    InactiveParent(String),
    SelfParenting(String),
    CycleDetected(String),
    HierarchyDepthExceeded(String),
    HasActiveChildren(String),
    Database(String),
}

/// The text a category error is displayed with.
pub open spec fn category_error_text(e: CategoryError) -> Seq<char> {
    match e {
        CategoryError::Validation(m) => "Validation error: "@ + m@,
        CategoryError::NotFound(m) => "Not found: "@ + m@,
        CategoryError::DuplicateName(m) => "Duplicate name error: "@ + m@,
        CategoryError::InactiveParent(m) => "Inactive parent error: "@ + m@,
        CategoryError::SelfParenting(m) => "Self parenting error: "@ + m@,
        CategoryError::CycleDetected(m) => "Cycle detected error: "@ + m@,
        CategoryError::HierarchyDepthExceeded(m) => "Hierarchy depth exceeded: "@ + m@,
        CategoryError::HasActiveChildren(m) => "Category has active children: "@ + m@,
        CategoryError::Database(m) => "Database error: "@ + m@,
    }
}

impl CategoryError {
    /// The display text of this error.
    pub fn describe(&self) -> (r: String)
        ensures
            r@ == category_error_text(*self),
    {
        match self {
            CategoryError::Validation(m) => concat2("Validation error: ", m.as_str()),
            CategoryError::NotFound(m) => concat2("Not found: ", m.as_str()),
            CategoryError::DuplicateName(m) => concat2("Duplicate name error: ", m.as_str()),
            CategoryError::InactiveParent(m) => concat2("Inactive parent error: ", m.as_str()),
            CategoryError::SelfParenting(m) => concat2("Self parenting error: ", m.as_str()),
            CategoryError::CycleDetected(m) => concat2("Cycle detected error: ", m.as_str()),
            CategoryError::HierarchyDepthExceeded(m) => concat2("Hierarchy depth exceeded: ", m.as_str()),
            CategoryError::HasActiveChildren(m) => concat2("Category has active children: ", m.as_str()),
            CategoryError::Database(m) => concat2("Database error: ", m.as_str()),
        }
    }
}

/// What a failed category write means, from whether the database reported a constraint
/// violation with a message, and from that message.
pub open spec fn category_write_fault(is_constraint_violation: bool, msg: Seq<char>) -> (nat, Seq<char>) {
    if is_constraint_violation && (contains_seq(msg, "idx_categories_root_name_active"@)
        || contains_seq(msg, "idx_categories_sibling_name_active"@) || contains_seq(
        msg,
        "UNIQUE constraint failed: categories.name"@,
    )) {
        (0, "An active category with this name already exists in this scope"@)
    } else if is_constraint_violation && contains_seq(msg, "FOREIGN KEY constraint failed"@) {
        (1, "Parent category not found"@)
    } else {
        (2, msg)
    }
}

/// Classifies a failed category write: a duplicate active name in the same scope, a missing
/// parent, or a database error (kinds 0, 1 and 2 of `category_write_fault`).
pub fn classify_category_write_error(is_constraint_violation: bool, msg: String) -> (r: CategoryError)
    ensures
        ({
            let (k, m) = category_write_fault(is_constraint_violation, msg@);
            match r {
                CategoryError::DuplicateName(x) => k == 0 && x@ == m,
                CategoryError::NotFound(x) => k == 1 && x@ == m,
                CategoryError::Database(x) => k == 2 && x@ == m,
                _ => false,
            }
        }),
{
    let s = msg.as_str();
    if is_constraint_violation && (contains_str(s, "idx_categories_root_name_active") || contains_str(
        s,
        "idx_categories_sibling_name_active",
    ) || contains_str(s, "UNIQUE constraint failed: categories.name")) {
        return CategoryError::DuplicateName(
            String::from_str("An active category with this name already exists in this scope"),
        );
    }
    if is_constraint_violation && contains_str(s, "FOREIGN KEY constraint failed") {
        return CategoryError::NotFound(String::from_str("Parent category not found"));
    }
    CategoryError::Database(msg)
}

/// Escapes the LIKE wildcards `%`, `_` and `\\` with a backslash.
pub fn escape_like_pattern(input: &str) -> (r: String)
    ensures
        r@ == like_escaped(input@),
{
    crate::rules::escape_like_pattern(input)
}

/// Validates a category name: trimmed, 1 to 255 characters.
pub fn validate_name(name: &str) -> (r: Result<String, CategoryError>)
    ensures
        match bounded_spec(name@, "Category name cannot be empty"@, 255, false, "Category name exceeds maximum length of 255 characters"@) {
            Ok(t) => r matches Ok(x) && x@ == t,
            Err(m) => r matches Err(CategoryError::Validation(x)) && x@ == m,
        },
{
    match bounded_text(name, "Category name cannot be empty", 255, false, "Category name exceeds maximum length of 255 characters") {
        Ok(t) => Ok(t),
        Err(m) => Err(CategoryError::Validation(m)),
    }
}

/// Trims a description; blank becomes `None`.
pub fn validate_description(desc: Option<&str>) -> (r: Option<String>)
    ensures
        match r {
            Some(x) => norm_opt(opt_str_view(desc)) == Some(x@),
            None => norm_opt(opt_str_view(desc)) is None,
        },
{
    crate::rules::trimmed_opt(desc)
}

/// Trims a parent ID; blank becomes `None`.
pub fn normalize_parent_id(pid: Option<&str>) -> (r: Option<String>)
    ensures
        match r {
            Some(x) => norm_opt(opt_str_view(pid)) == Some(x@),
            None => norm_opt(opt_str_view(pid)) is None,
        },
{
    crate::rules::trimmed_opt(pid)
}

/// Checks a parent category from its stored `is_active` flag (`None` when absent).
pub fn check_parent_active(parent_id: &str, parent_active: Option<i64>) -> (r: Result<(), CategoryError>)
    ensures
        parent_active is None ==> (r matches Err(CategoryError::NotFound(m)) && m@ == "Parent category with ID '"@ + parent_id@ + "' not found"@),
        parent_active == Some(0i64) ==> (r matches Err(CategoryError::InactiveParent(m)) && m@ == "Parent category '"@ + parent_id@ + "' is inactive/archived"@),
        (parent_active matches Some(a) && a != 0) ==> r is Ok,
{
    match parent_active {
        None => Err(CategoryError::NotFound(concat3("Parent category with ID '", parent_id, "' not found"))),
        Some(a) => {
            if a == 0 {
                Err(CategoryError::InactiveParent(concat3("Parent category '", parent_id, "' is inactive/archived")))
            } else {
                Ok(())
            }
        },
    }
}

/// A category may not be its own parent.
pub fn check_not_self_parent(category_id: &str, target_parent_id: &str) -> (r: Result<(), CategoryError>)
    ensures
        category_id@ == target_parent_id@ ==> (r matches Err(CategoryError::SelfParenting(m)) && m@ == "Category cannot be its own parent"@),
        category_id@ != target_parent_id@ ==> r is Ok,
{
    if str_eq(category_id, target_parent_id) {
        return Err(CategoryError::SelfParenting(String::from_str("Category cannot be its own parent")));
    }
    Ok(())
}

/// One step of the cycle check that walks up from a new parent: `Ok(Some(next))` goes on,
/// `Ok(None)` ends the walk without a cycle.
pub fn category_cycle_step(
    category_id: &str,
    target_parent_id: &str,
    steps: usize,
    parent: Option<Option<String>>,
) -> (r: Result<Option<String>, CategoryError>)
    requires
        steps < MAX_DEFENSIVE_STEPS,
    ensures
        match ancestor_step_spec(category_id@, steps as nat, parent_view(parent)) {
            AncestorStepSpec::Next(a) => r matches Ok(Some(x)) && x@ == a,
            AncestorStepSpec::Clear => r matches Ok(None),
            AncestorStepSpec::Cycle => r matches Err(CategoryError::CycleDetected(m)) && m@ == "Category '"@ + category_id@ + "' cannot be parented under its own descendant '"@ + target_parent_id@ + "'"@,
            AncestorStepSpec::TooDeep => r matches Err(CategoryError::HierarchyDepthExceeded(m)) && m@ == "Hierarchy depth exceeds supported maximum of 50 levels"@,
        },
{
    match ancestor_step(category_id, steps, parent) {
        AncestorStep::Next(a) => Ok(Some(a)),
        AncestorStep::Clear => Ok(None),
        AncestorStep::Cycle => Err(CategoryError::CycleDetected(concat5("Category '", category_id, "' cannot be parented under its own descendant '", target_parent_id, "'"))),
        AncestorStep::TooDeep => Err(CategoryError::HierarchyDepthExceeded(String::from_str("Hierarchy depth exceeds supported maximum of 50 levels"))),
    }
}

/// A category with active subcategories may not be archived.
pub fn check_archivable(category_id: &str, active_children: i64) -> (r: Result<(), CategoryError>)
    ensures
        active_children > 0 ==> (r matches Err(CategoryError::HasActiveChildren(m)) && m@ == "Cannot archive category '"@ + category_id@ + "' because it has "@ + crate::text::int_decimal(active_children as int) + " active subcategory(ies)"@),
        active_children <= 0 ==> r is Ok,
{
    if active_children > 0 {
        let mut m = concat3("Cannot archive category '", category_id, "' because it has ");
        crate::text::push_i64_decimal(&mut m, active_children);
        push_str(&mut m, " active subcategory(ies)");
        return Err(CategoryError::HasActiveChildren(m));
    }
    Ok(())
}

} // verus!
