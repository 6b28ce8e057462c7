//! Roles, permissions and the deny-by-default evaluation rules.
use crate::text::{ascii_lower_seq, owned, str_eq, to_lowercase, to_ascii_lower, unicode_lower};
use vstd::prelude::*;

verus! {

/// The permission catalogue.
#[derive(Debug, Clone, Copy, PartialEq, Eq, Hash, Structural)]
pub enum Permission {
    SalesCreate,
    SalesRefund,
    SalesVoid,
    InventoryAdjust,
    InventoryTransfer,
    ProductsManage,
    PurchasesManage,
    CustomersManage,
    DebtsManage,
    CashOpen,
    CashClose,
    CashAdjust,
    ReportsView,
    ReportsExport,
    UsersManage,
    SettingsManage,
    LicenseManage,
}

/// The exact code of a permission.
pub open spec fn permission_code(p: Permission) -> Seq<char> {
    match p {
        Permission::SalesCreate => "sales.create"@,
        Permission::SalesRefund => "sales.refund"@,
        Permission::SalesVoid => "sales.void"@,
        Permission::InventoryAdjust => "inventory.adjust"@,
        Permission::InventoryTransfer => "inventory.transfer"@,
        Permission::ProductsManage => "products.manage"@,
        Permission::PurchasesManage => "purchases.manage"@,
        Permission::CustomersManage => "customers.manage"@,
        Permission::DebtsManage => "debts.manage"@,
        Permission::CashOpen => "cash.open"@,
        Permission::CashClose => "cash.close"@,
        Permission::CashAdjust => "cash.adjust"@,
        Permission::ReportsView => "reports.view"@,
        Permission::ReportsExport => "reports.export"@,
        Permission::UsersManage => "users.manage"@,
        Permission::SettingsManage => "settings.manage"@,
        Permission::LicenseManage => "license.manage"@,
    }
}

/// The permission an exact code names.
pub open spec fn permission_from_code(s: Seq<char>) -> Option<Permission> {
    if s == "sales.create"@ {
        Some(Permission::SalesCreate)
    } else if s == "sales.refund"@ {
        Some(Permission::SalesRefund)
    } else if s == "sales.void"@ {
        Some(Permission::SalesVoid)
    } else if s == "inventory.adjust"@ {
        Some(Permission::InventoryAdjust)
    } else if s == "inventory.transfer"@ {
        Some(Permission::InventoryTransfer)
    } else if s == "products.manage"@ {
        Some(Permission::ProductsManage)
    } else if s == "purchases.manage"@ {
        Some(Permission::PurchasesManage)
    } else if s == "customers.manage"@ {
        Some(Permission::CustomersManage)
    } else if s == "debts.manage"@ {
        Some(Permission::DebtsManage)
    } else if s == "cash.open"@ {
        Some(Permission::CashOpen)
    } else if s == "cash.close"@ {
        Some(Permission::CashClose)
    } else if s == "cash.adjust"@ {
        Some(Permission::CashAdjust)
    } else if s == "reports.view"@ {
        Some(Permission::ReportsView)
    } else if s == "reports.export"@ {
        Some(Permission::ReportsExport)
    } else if s == "users.manage"@ {
        Some(Permission::UsersManage)
    } else if s == "settings.manage"@ {
        Some(Permission::SettingsManage)
    } else if s == "license.manage"@ {
        Some(Permission::LicenseManage)
    } else {
        None
    }
}

/// Every permission of the catalogue, in catalogue order.
pub open spec fn all_permissions_seq() -> Seq<Permission> {
    seq![
        Permission::SalesCreate,
        Permission::SalesRefund,
        Permission::SalesVoid,
        Permission::InventoryAdjust,
        Permission::InventoryTransfer,
        Permission::ProductsManage,
        Permission::PurchasesManage,
        Permission::CustomersManage,
        Permission::DebtsManage,
        Permission::CashOpen,
        Permission::CashClose,
        Permission::CashAdjust,
        Permission::ReportsView,
        Permission::ReportsExport,
        Permission::UsersManage,
        Permission::SettingsManage,
        Permission::LicenseManage,
    ]
}

impl Permission {
    /// The complete permission catalogue, in catalogue order.
    pub fn all() -> (v: Vec<Permission>)
        ensures
            v@ == all_permissions_seq(),
    {
        vec![
            Permission::SalesCreate,
            Permission::SalesRefund,
            Permission::SalesVoid,
            Permission::InventoryAdjust,
            Permission::InventoryTransfer,
            Permission::ProductsManage,
            Permission::PurchasesManage,
            Permission::CustomersManage,
            Permission::DebtsManage,
            Permission::CashOpen,
            Permission::CashClose,
            Permission::CashAdjust,
            Permission::ReportsView,
            Permission::ReportsExport,
            Permission::UsersManage,
            Permission::SettingsManage,
            Permission::LicenseManage,
        ]
    }

    /// The exact code of this permission.
    pub fn as_str(&self) -> (r: &'static str)
        ensures
            r@ == permission_code(*self),
    {
        match self {
            Permission::SalesCreate => "sales.create",
            Permission::SalesRefund => "sales.refund",
            Permission::SalesVoid => "sales.void",
            Permission::InventoryAdjust => "inventory.adjust",
            Permission::InventoryTransfer => "inventory.transfer",
            Permission::ProductsManage => "products.manage",
            Permission::PurchasesManage => "purchases.manage",
            Permission::CustomersManage => "customers.manage",
            Permission::DebtsManage => "debts.manage",
            Permission::CashOpen => "cash.open",
            Permission::CashClose => "cash.close",
            Permission::CashAdjust => "cash.adjust",
            Permission::ReportsView => "reports.view",
            Permission::ReportsExport => "reports.export",
            Permission::UsersManage => "users.manage",
            Permission::SettingsManage => "settings.manage",
            Permission::LicenseManage => "license.manage",
        }
    }

    /// Parses an exact permission code; unknown codes, other letter cases and surrounding
    /// whitespace are refused.
    pub fn parse(s: &str) -> (r: Option<Permission>)
        ensures
            r == permission_from_code(s@),
    {
        if str_eq(s, "sales.create") {
            Some(Permission::SalesCreate)
        } else if str_eq(s, "sales.refund") {
            Some(Permission::SalesRefund)
        } else if str_eq(s, "sales.void") {
            Some(Permission::SalesVoid)
        } else if str_eq(s, "inventory.adjust") {
            Some(Permission::InventoryAdjust)
        } else if str_eq(s, "inventory.transfer") {
            Some(Permission::InventoryTransfer)
        } else if str_eq(s, "products.manage") {
            Some(Permission::ProductsManage)
        } else if str_eq(s, "purchases.manage") {
            Some(Permission::PurchasesManage)
        } else if str_eq(s, "customers.manage") {
            Some(Permission::CustomersManage)
        } else if str_eq(s, "debts.manage") {
            Some(Permission::DebtsManage)
        } else if str_eq(s, "cash.open") {
            Some(Permission::CashOpen)
        } else if str_eq(s, "cash.close") {
            Some(Permission::CashClose)
        } else if str_eq(s, "cash.adjust") {
            Some(Permission::CashAdjust)
        } else if str_eq(s, "reports.view") {
            Some(Permission::ReportsView)
        } else if str_eq(s, "reports.export") {
            Some(Permission::ReportsExport)
        } else if str_eq(s, "users.manage") {
            Some(Permission::UsersManage)
        } else if str_eq(s, "settings.manage") {
            Some(Permission::SettingsManage)
        } else if str_eq(s, "license.manage") {
            Some(Permission::LicenseManage)
        } else {
            None
        }
    }
}

/// The built-in roles.
#[derive(Debug, Clone, Copy, PartialEq, Eq, Hash, Structural)]
pub enum Role {
    Admin,
    Manager,
    Cashier,
}

/// The exact code of a role.
pub open spec fn role_code(r: Role) -> Seq<char> {
    match r {
        Role::Admin => "admin"@,
        Role::Manager => "manager"@,
        Role::Cashier => "cashier"@,
    }
}

/// The role an exact code names.
pub open spec fn role_from_code(s: Seq<char>) -> Option<Role> {
    if s == "admin"@ {
        Some(Role::Admin)
    } else if s == "manager"@ {
        Some(Role::Manager)
    } else if s == "cashier"@ {
        Some(Role::Cashier)
    } else {
        None
    }
}

/// The permissions a role holds by default, in catalogue order.
pub open spec fn default_permissions_seq(r: Role) -> Seq<Permission> {
    match r {
        Role::Admin => all_permissions_seq(),
        Role::Manager => seq![
            Permission::SalesCreate,
            Permission::SalesRefund,
            Permission::SalesVoid,
            Permission::InventoryAdjust,
            Permission::InventoryTransfer,
            Permission::ProductsManage,
            Permission::PurchasesManage,
            Permission::CustomersManage,
            Permission::DebtsManage,
            Permission::CashOpen,
            Permission::CashClose,
            Permission::CashAdjust,
            Permission::ReportsView,
            Permission::ReportsExport,
            Permission::SettingsManage,
        ],
        Role::Cashier => seq![
            Permission::SalesCreate,
            Permission::CustomersManage,
            Permission::ReportsView,
            Permission::CashOpen,
            Permission::CashClose,
        ],
    }
}

/// Whether a role holds a permission by default: admins hold all of them, managers all but
/// user and licence management, cashiers sales, customers, report viewing and cash open/close.
pub open spec fn role_grants(r: Role, p: Permission) -> bool {
    match r {
        Role::Admin => true,
        Role::Manager => p != Permission::UsersManage && p != Permission::LicenseManage,
        Role::Cashier => p == Permission::SalesCreate || p == Permission::CustomersManage || p
            == Permission::ReportsView || p == Permission::CashOpen || p == Permission::CashClose,
    }
}

impl Role {
    /// The exact code of this role.
    pub fn as_str(&self) -> (r: &'static str)
        ensures
            r@ == role_code(*self),
    {
        match self {
            Role::Admin => "admin",
            Role::Manager => "manager",
            Role::Cashier => "cashier",
        }
    }

    /// Parses an exact role code; unknown codes, other letter cases and surrounding
    /// whitespace are refused.
    pub fn parse(s: &str) -> (r: Option<Role>)
        ensures
            r == role_from_code(s@),
    {
        if str_eq(s, "admin") {
            Some(Role::Admin)
        } else if str_eq(s, "manager") {
            Some(Role::Manager)
        } else if str_eq(s, "cashier") {
            Some(Role::Cashier)
        } else {
            None
        }
    }

    /// The permissions this role holds by default, in catalogue order.
    pub fn default_permissions(&self) -> (v: Vec<Permission>)
        ensures
            v@ == default_permissions_seq(*self),
    {
        match self {
            Role::Admin => Permission::all(),
            Role::Manager => vec![
                Permission::SalesCreate,
                Permission::SalesRefund,
                Permission::SalesVoid,
                Permission::InventoryAdjust,
                Permission::InventoryTransfer,
                Permission::ProductsManage,
                Permission::PurchasesManage,
                Permission::CustomersManage,
                Permission::DebtsManage,
                Permission::CashOpen,
                Permission::CashClose,
                Permission::CashAdjust,
                Permission::ReportsView,
                Permission::ReportsExport,
                Permission::SettingsManage,
            ],
            Role::Cashier => vec![
                Permission::SalesCreate,
                Permission::CustomersManage,
                Permission::ReportsView,
                Permission::CashOpen,
                Permission::CashClose,
            ],
        }
    }

    /// Whether this role holds `perm` by default.
    pub fn has_default_permission(&self, perm: Permission) -> (r: bool)
        ensures
            r == default_permissions_seq(*self).contains(perm),
            r == role_grants(*self, perm),
    {
        let list = self.default_permissions();
        let mut i: usize = 0;
        while i < list.len()
            invariant
                list@ == default_permissions_seq(*self),
                i <= list@.len(),
                forall|k: int| 0 <= k < i ==> list@[k] != perm,
            decreases list.len() - i,
        {
            if list[i] == perm {
                proof {
                    lemma_default_permissions_match(*self, perm);
                }
                return true;
            }
            i = i + 1;
        }
        proof {
            lemma_default_permissions_match(*self, perm);
        }
        false
    }
}

/// The default permission list of a role holds exactly the permissions the role is granted.
pub proof fn lemma_default_permissions_match(r: Role, p: Permission)
    ensures
        default_permissions_seq(r).contains(p) <==> role_grants(r, p),
{
    let s = default_permissions_seq(r);
    if role_grants(r, p) {
        match r {
            Role::Admin => {
                match p {
                    Permission::SalesCreate => assert(s[0] == p),
                    Permission::SalesRefund => assert(s[1] == p),
                    Permission::SalesVoid => assert(s[2] == p),
                    Permission::InventoryAdjust => assert(s[3] == p),
                    Permission::InventoryTransfer => assert(s[4] == p),
                    Permission::ProductsManage => assert(s[5] == p),
                    Permission::PurchasesManage => assert(s[6] == p),
                    Permission::CustomersManage => assert(s[7] == p),
                    Permission::DebtsManage => assert(s[8] == p),
                    Permission::CashOpen => assert(s[9] == p),
                    Permission::CashClose => assert(s[10] == p),
                    Permission::CashAdjust => assert(s[11] == p),
                    Permission::ReportsView => assert(s[12] == p),
                    Permission::ReportsExport => assert(s[13] == p),
                    Permission::UsersManage => assert(s[14] == p),
                    Permission::SettingsManage => assert(s[15] == p),
                    Permission::LicenseManage => assert(s[16] == p),
                }
            },
            Role::Manager => {
                match p {
                    Permission::SalesCreate => assert(s[0] == p),
                    Permission::SalesRefund => assert(s[1] == p),
                    Permission::SalesVoid => assert(s[2] == p),
                    Permission::InventoryAdjust => assert(s[3] == p),
                    Permission::InventoryTransfer => assert(s[4] == p),
                    Permission::ProductsManage => assert(s[5] == p),
                    Permission::PurchasesManage => assert(s[6] == p),
                    Permission::CustomersManage => assert(s[7] == p),
                    Permission::DebtsManage => assert(s[8] == p),
                    Permission::CashOpen => assert(s[9] == p),
                    Permission::CashClose => assert(s[10] == p),
                    Permission::CashAdjust => assert(s[11] == p),
                    Permission::ReportsView => assert(s[12] == p),
                    Permission::ReportsExport => assert(s[13] == p),
                    Permission::UsersManage => {},
                    Permission::SettingsManage => assert(s[14] == p),
                    Permission::LicenseManage => {},
                }
            },
            Role::Cashier => {
                match p {
                    Permission::SalesCreate => assert(s[0] == p),
                    Permission::SalesRefund => {},
                    Permission::SalesVoid => {},
                    Permission::InventoryAdjust => {},
                    Permission::InventoryTransfer => {},
                    Permission::ProductsManage => {},
                    Permission::PurchasesManage => {},
                    Permission::CustomersManage => assert(s[1] == p),
                    Permission::DebtsManage => {},
                    Permission::CashOpen => assert(s[3] == p),
                    Permission::CashClose => assert(s[4] == p),
                    Permission::CashAdjust => {},
                    Permission::ReportsView => assert(s[2] == p),
                    Permission::ReportsExport => {},
                    Permission::UsersManage => {},
                    Permission::SettingsManage => {},
                    Permission::LicenseManage => {},
                }
            },
        }
    }
}

/// Every permission code parses back to its permission.
pub proof fn lemma_permission_code_round_trip(p: Permission)
    ensures
        permission_from_code(permission_code(p)) == Some(p),
{
    reveal_strlit("sales.create");
    reveal_strlit("sales.refund");
    reveal_strlit("sales.void");
    reveal_strlit("inventory.adjust");
    reveal_strlit("inventory.transfer");
    reveal_strlit("products.manage");
    reveal_strlit("purchases.manage");
    reveal_strlit("customers.manage");
    reveal_strlit("debts.manage");
    reveal_strlit("cash.open");
    reveal_strlit("cash.close");
    reveal_strlit("cash.adjust");
    reveal_strlit("reports.view");
    reveal_strlit("reports.export");
    reveal_strlit("users.manage");
    reveal_strlit("settings.manage");
    reveal_strlit("license.manage");
    assert("sales.create"@.len() == 12);
    assert("sales.refund"@.len() == 12);
    assert("sales.void"@.len() == 10);
    assert("inventory.adjust"@.len() == 16);
    assert("inventory.transfer"@.len() == 18);
    assert("products.manage"@.len() == 15);
    assert("purchases.manage"@.len() == 16);
    assert("customers.manage"@.len() == 16);
    assert("debts.manage"@.len() == 12);
    assert("cash.open"@.len() == 9);
    assert("cash.close"@.len() == 10);
    assert("cash.adjust"@.len() == 11);
    assert("reports.view"@.len() == 12);
    assert("reports.export"@.len() == 14);
    assert("users.manage"@.len() == 12);
    assert("settings.manage"@.len() == 15);
    assert("license.manage"@.len() == 14);
    match p {
        Permission::SalesCreate => {},
        Permission::SalesRefund => {
            assert("sales.refund"@[6] != "sales.create"@[6]);
        },
        Permission::SalesVoid => {},
        Permission::InventoryAdjust => {},
        Permission::InventoryTransfer => {},
        Permission::ProductsManage => {},
        Permission::PurchasesManage => {
            assert("purchases.manage"@[0] != "inventory.adjust"@[0]);
        },
        Permission::CustomersManage => {
            assert("customers.manage"@[0] != "inventory.adjust"@[0]);
            assert("customers.manage"@[0] != "purchases.manage"@[0]);
        },
        Permission::DebtsManage => {
            assert("debts.manage"@[0] != "sales.create"@[0]);
            assert("debts.manage"@[0] != "sales.refund"@[0]);
        },
        Permission::CashOpen => {},
        Permission::CashClose => {
            assert("cash.close"@[0] != "sales.void"@[0]);
        },
        Permission::CashAdjust => {},
        Permission::ReportsView => {
            assert("reports.view"@[0] != "sales.create"@[0]);
            assert("reports.view"@[0] != "sales.refund"@[0]);
            assert("reports.view"@[0] != "debts.manage"@[0]);
        },
        Permission::ReportsExport => {},
        Permission::UsersManage => {
            assert("users.manage"@[0] != "sales.create"@[0]);
            assert("users.manage"@[0] != "sales.refund"@[0]);
            assert("users.manage"@[0] != "debts.manage"@[0]);
            assert("users.manage"@[0] != "reports.view"@[0]);
        },
        Permission::SettingsManage => {
            assert("settings.manage"@[0] != "products.manage"@[0]);
        },
        Permission::LicenseManage => {
            assert("license.manage"@[0] != "reports.export"@[0]);
        },
    }
}

/// Every role code parses back to its role.
pub proof fn lemma_role_code_round_trip(r: Role)
    ensures
        role_from_code(role_code(r)) == Some(r),
{
    reveal_strlit("admin");
    reveal_strlit("manager");
    reveal_strlit("cashier");
    assert("admin"@.len() == 5 && "manager"@.len() == 7 && "cashier"@.len() == 7);
    if r == Role::Cashier {
        assert("cashier"@[0] != "manager"@[0]);
    }
}


/// Typed authorization errors.
#[derive(Debug, Clone, PartialEq, Eq)]
pub enum PermissionError {
    PermissionDenied { role: String, permission: String, reason: String },
    ScopeMismatch { expected: String, actual: String },
    InvalidPermission(String),
    InvalidRole(String),
    Database(String),
}

/// The text a permission error is displayed with.
pub open spec fn permission_error_text(e: PermissionError) -> Seq<char> {
    match e {
        PermissionError::PermissionDenied { role, permission, reason } => "Permission denied: role '"@
            + role@ + "' lacks permission '"@ + permission@ + "'. Reason: "@ + reason@,
        PermissionError::ScopeMismatch { expected, actual } => "Scope mismatch: operation expects scope '"@
            + expected@ + "', but session has scope '"@ + actual@ + "'"@,
        PermissionError::InvalidPermission(p) => "Invalid permission: '"@ + p@ + "'"@,
        PermissionError::InvalidRole(r) => "Invalid role: '"@ + r@ + "'"@,
        PermissionError::Database(m) => "Database error: "@ + m@,
    }
}

impl PermissionError {
    /// The display text of this error.
    pub fn describe(&self) -> (r: String)
        ensures
            r@ == permission_error_text(*self),
    {
        match self {
            PermissionError::PermissionDenied { role, permission, reason } => {
                let mut m = crate::text::concat5(
                    "Permission denied: role '",
                    role.as_str(),
                    "' lacks permission '",
                    permission.as_str(),
                    "'. Reason: ",
                );
                crate::text::push_str(&mut m, reason.as_str());
                m
            },
            PermissionError::ScopeMismatch { expected, actual } => crate::text::concat5(
                "Scope mismatch: operation expects scope '",
                expected.as_str(),
                "', but session has scope '",
                actual.as_str(),
                "'",
            ),
            PermissionError::InvalidPermission(p) => crate::text::concat3("Invalid permission: '", p.as_str(), "'"),
            PermissionError::InvalidRole(r) => crate::text::concat3("Invalid role: '", r.as_str(), "'"),
            PermissionError::Database(m) => crate::text::concat2("Database error: ", m.as_str()),
        }
    }
}

/// Whether the role and permission codes name a known role that holds a known permission.
pub open spec fn role_code_grants(role: Seq<char>, perm: Seq<char>) -> bool {
    match (role_from_code(role), permission_from_code(perm)) {
        (Some(r), Some(p)) => role_grants(r, p),
        _ => false,
    }
}

/// Deny-by-default check of one permission code for a role code; unknown codes are denied.
pub fn check_role_permission(role_str: &str, perm_str: &str) -> (r: bool)
    ensures
        r == role_code_grants(role_str@, perm_str@),
{
    let role = match Role::parse(role_str) {
        Some(r) => r,
        None => return false,
    };
    let perm = match Permission::parse(perm_str) {
        Some(p) => p,
        None => return false,
    };
    role.has_default_permission(perm)
}

/// Whether a known role holds every one of a non-empty list of permissions.
pub open spec fn role_code_grants_all(role: Seq<char>, required: Seq<Permission>) -> bool {
    required.len() > 0 && match role_from_code(role) {
        Some(r) => forall|i: int| 0 <= i < required.len() ==> role_grants(r, #[trigger] required[i]),
        None => false,
    }
}

/// Whether a known role holds at least one of a non-empty list of permissions.
pub open spec fn role_code_grants_any(role: Seq<char>, required: Seq<Permission>) -> bool {
    required.len() > 0 && match role_from_code(role) {
        Some(r) => exists|i: int| 0 <= i < required.len() && role_grants(r, #[trigger] required[i]),
        None => false,
    }
}

/// Whether a role holds all the required permissions; false for an empty list or an unknown role.
pub fn check_role_all_permissions(role_str: &str, required: &[Permission]) -> (r: bool)
    ensures
        r == role_code_grants_all(role_str@, required@),
{
    if required.len() == 0 {
        return false;
    }
    let role = match Role::parse(role_str) {
        Some(r) => r,
        None => return false,
    };
    let mut i: usize = 0;
    while i < required.len()
        invariant
            role_from_code(role_str@) == Some(role),
            i <= required@.len(),
            forall|k: int| 0 <= k < i ==> role_grants(role, #[trigger] required@[k]),
        decreases required.len() - i,
    {
        if !role.has_default_permission(required[i]) {
            return false;
        }
        i = i + 1;
    }
    true
}

/// Whether a role holds at least one required permission; false for an empty list or an
/// unknown role.
pub fn check_role_any_permission(role_str: &str, required: &[Permission]) -> (r: bool)
    ensures
        r == role_code_grants_any(role_str@, required@),
{
    if required.len() == 0 {
        return false;
    }
    let role = match Role::parse(role_str) {
        Some(r) => r,
        None => return false,
    };
    let mut i: usize = 0;
    while i < required.len()
        invariant
            role_from_code(role_str@) == Some(role),
            i <= required@.len(),
            forall|k: int| 0 <= k < i ==> !role_grants(role, #[trigger] required@[k]),
        decreases required.len() - i,
    {
        if role.has_default_permission(required[i]) {
            return true;
        }
        i = i + 1;
    }
    false
}

/// The scope mismatch, if any, between a session and a target resource: the organisation is
/// checked first (a session without one mismatches as `none`), then the branch.
pub open spec fn scope_mismatch(
    session_org: Option<Seq<char>>,
    session_branch: Seq<char>,
    target_org: Option<Seq<char>>,
    target_branch: Option<Seq<char>>,
) -> Option<(Seq<char>, Seq<char>)> {
    match target_org {
        Some(t) => match session_org {
            Some(s) => if s != t {
                Some((t, s))
            } else {
                branch_mismatch(session_branch, target_branch)
            },
            None => Some((t, "none"@)),
        },
        None => branch_mismatch(session_branch, target_branch),
    }
}

pub open spec fn branch_mismatch(session_branch: Seq<char>, target_branch: Option<Seq<char>>) -> Option<(Seq<char>, Seq<char>)> {
    match target_branch {
        Some(t) => if session_branch != t {
            Some((t, session_branch))
        } else {
            None
        },
        None => None,
    }
}

pub open spec fn opt_view(o: Option<&str>) -> Option<Seq<char>> {
    match o {
        Some(s) => Some(s@),
        None => None,
    }
}

/// Validates that the session's organisation and branch match the target resource's scope.
/// Roles never grant cross-organisation or cross-branch access.
pub fn validate_scope(
    session_org_id: Option<&str>,
    session_branch_id: &str,
    target_org_id: Option<&str>,
    target_branch_id: Option<&str>,
) -> (r: Result<(), PermissionError>)
    ensures
        match scope_mismatch(
            opt_view(session_org_id),
            session_branch_id@,
            opt_view(target_org_id),
            opt_view(target_branch_id),
        ) {
            None => r is Ok,
            Some((e, a)) => r matches Err(PermissionError::ScopeMismatch { expected, actual })
                && expected@ == e && actual@ == a,
        },
{
    if let Some(target_org) = target_org_id {
        match session_org_id {
            Some(session_org) => {
                if !str_eq(session_org, target_org) {
                    return Err(
                        PermissionError::ScopeMismatch {
                            expected: owned(target_org),
                            actual: owned(session_org),
                        },
                    );
                }
            },
            None => {
                return Err(
                    PermissionError::ScopeMismatch {
                        expected: owned(target_org),
                        actual: String::from_str("none"),
                    },
                );
            },
        }
    }
    if let Some(target_branch) = target_branch_id {
        if !str_eq(session_branch_id, target_branch) {
            return Err(
                PermissionError::ScopeMismatch {
                    expected: owned(target_branch),
                    actual: owned(session_branch_id),
                },
            );
        }
    }
    Ok(())
}

/// What an explicit user-level override decides: `deny` and `allow` (ASCII case ignored)
/// decide; any other effect, or none, leaves the decision to the role.
pub open spec fn override_decision_spec(effect: Option<Seq<char>>) -> Option<bool> {
    match effect {
        Some(e) => if ascii_lower_seq(e) == "deny"@ {
            Some(false)
        } else if ascii_lower_seq(e) == "allow"@ {
            Some(true)
        } else {
            None
        },
        None => None,
    }
}

/// Decision of a user-level permission override (the first step of permission evaluation).
pub fn override_decision(effect: Option<&str>) -> (r: Option<bool>)
    ensures
        r == override_decision_spec(opt_view(effect)),
{
    match effect {
        Some(e) => {
            let lower = to_ascii_lower(e);
            if str_eq(lower.as_str(), "deny") {
                Some(false)
            } else if str_eq(lower.as_str(), "allow") {
                Some(true)
            } else {
                None
            }
        },
        None => None,
    }
}

/// Effective permission of a user: an override decides first; then a role grant recorded in
/// the database allows; then the built-in role defaults decide; otherwise deny.
pub open spec fn effective_permission_spec(
    effect: Option<Seq<char>>,
    role_allowed_in_db: bool,
    role: Seq<char>,
    perm: Permission,
) -> bool {
    match override_decision_spec(effect) {
        Some(d) => d,
        None => role_allowed_in_db || role_code_grants(role, permission_code(perm)),
    }
}

/// Effective permission of a user from the facts read from the database: the user's override
/// effect for the permission (if any) and whether the role is granted it there.
pub fn decide_user_permission(
    effect: Option<&str>,
    role_allowed_in_db: bool,
    role_str: &str,
    permission: Permission,
) -> (r: bool)
    ensures
        r == effective_permission_spec(opt_view(effect), role_allowed_in_db, role_str@, permission),
{
    match override_decision(effect) {
        Some(d) => d,
        None => role_allowed_in_db || check_role_permission(role_str, permission.as_str()),
    }
}

/// The stored effect of a permission override, from its requested spelling.
pub open spec fn effect_spec(effect: Seq<char>) -> Result<Seq<char>, Seq<char>> {
    if unicode_lower(effect) == "allow"@ {
        Ok("allow"@)
    } else if unicode_lower(effect) == "deny"@ {
        Ok("deny"@)
    } else {
        Err("Invalid permission effect: '"@ + effect + "'. Must be 'allow' or 'deny'"@)
    }
}

/// Normalizes an override effect (letter case ignored) to `allow` or `deny`.
pub fn normalize_permission_effect(effect: &str) -> (r: Result<&'static str, PermissionError>)
    ensures
        match effect_spec(effect@) {
            Ok(e) => r matches Ok(x) && x@ == e,
            Err(m) => r matches Err(PermissionError::Database(rm)) && rm@ == m,
        },
{
    let lower = to_lowercase(effect);
    if str_eq(lower.as_str(), "allow") {
        Ok("allow")
    } else if str_eq(lower.as_str(), "deny") {
        Ok("deny")
    } else {
        let mut msg = String::from_str("Invalid permission effect: '");
        crate::text::push_str(&mut msg, effect);
        crate::text::push_str(&mut msg, "'. Must be 'allow' or 'deny'");
        Err(PermissionError::Database(msg))
    }
}

/// An explicit deny override always wins, whatever the role.
pub proof fn lemma_deny_override_wins(effect: Seq<char>, role_allowed_in_db: bool, role: Seq<char>, perm: Permission)
    requires
        ascii_lower_seq(effect) == "deny"@,
    ensures
        !effective_permission_spec(Some(effect), role_allowed_in_db, role, perm),
{
}

/// Without an override or database grant, an unknown role is denied every permission.
pub proof fn lemma_unknown_role_denied(role: Seq<char>, perm: Permission)
    requires
        role_from_code(role) is None,
    ensures
        !effective_permission_spec(None, false, role, perm),
{
}

/// Roles are ordered: whatever a cashier holds by default a manager holds, and whatever a
/// manager holds an administrator holds. Only administrators manage users and licences; every
/// role may create sales and open and close the cash drawer.
pub proof fn lemma_role_hierarchy(p: Permission)
    ensures
        role_grants(Role::Cashier, p) ==> role_grants(Role::Manager, p),
        role_grants(Role::Manager, p) ==> role_grants(Role::Admin, p),
        role_grants(Role::Admin, p),
        (p == Permission::UsersManage || p == Permission::LicenseManage) ==> !role_grants(
            Role::Manager,
            p,
        ) && !role_grants(Role::Cashier, p),
        (p == Permission::SalesCreate || p == Permission::CashOpen || p == Permission::CashClose)
            ==> role_grants(Role::Cashier, p),
{
}

/// An explicit allow override always grants, whatever the role; without an override, a
/// database grant or a default of a known role grants, and nothing else does.
pub proof fn lemma_override_and_role_decide(
    effect: Option<Seq<char>>,
    role_allowed_in_db: bool,
    role: Seq<char>,
    perm: Permission,
)
    ensures
        effect matches Some(e) ==> (ascii_lower_seq(e) == "allow"@ ==> effective_permission_spec(
            effect,
            role_allowed_in_db,
            role,
            perm,
        )),
        effect is None ==> (effective_permission_spec(effect, role_allowed_in_db, role, perm) <==> (
        role_allowed_in_db || (role_from_code(role) matches Some(r) && role_grants(r, perm)))),
{
    reveal_strlit("allow");
    reveal_strlit("deny");
    assert("allow"@.len() == 5 && "deny"@.len() == 4);
    lemma_permission_code_round_trip(perm);
}

/// The overrides of a user as listed: the stored `(permission code, effect)` rows in order,
/// keeping only the rows whose code names a known permission.
pub open spec fn known_overrides_spec(rows: Seq<(Seq<char>, Seq<char>)>) -> Seq<(Permission, Seq<char>)>
    decreases rows.len(),
{
    if rows.len() == 0 {
        Seq::empty()
    } else {
        let prev = known_overrides_spec(rows.drop_last());
        match permission_from_code(rows.last().0) {
            Some(p) => prev.push((p, rows.last().1)),
            None => prev,
        }
    }
}

/// The `(code, effect)` rows as text.
pub open spec fn override_rows_view(rows: Seq<(String, String)>) -> Seq<(Seq<char>, Seq<char>)> {
    rows.map_values(|x: (String, String)| (x.0@, x.1@))
}

/// The `(permission, effect)` pairs as text.
pub open spec fn override_pairs_view(pairs: Seq<(Permission, String)>) -> Seq<(Permission, Seq<char>)> {
    pairs.map_values(|x: (Permission, String)| (x.0, x.1@))
}

/// Reads the stored override rows of a user (code and effect, in code order) as
/// permissions; rows with an unknown code are left out.
pub fn known_overrides(rows: &Vec<(String, String)>) -> (r: Vec<(Permission, String)>)
    ensures
        override_pairs_view(r@) == known_overrides_spec(override_rows_view(rows@)),
{
    let mut out: Vec<(Permission, String)> = Vec::new();
    let mut i: usize = 0;
    while i < rows.len()
        invariant
            i <= rows@.len(),
            override_pairs_view(out@) == known_overrides_spec(override_rows_view(rows@.take(i as int))),
        decreases rows.len() - i,
    {
        let ghost before = out@;
        let code = rows[i].0.as_str();
        let effect = rows[i].1.as_str();
        proof {
            let t = override_rows_view(rows@.take(i + 1));
            assert(t.drop_last() =~= override_rows_view(rows@.take(i as int)));
            assert(t.last() == (code@, effect@));
        }
        match Permission::parse(code) {
            Some(p) => {
                out.push((p, owned(effect)));
                assert(override_pairs_view(out@) =~= override_pairs_view(before).push((p, effect@)));
            },
            None => {},
        }
        i = i + 1;
    }
    assert(rows@.take(i as int) =~= rows@);
    out
}

} // verus!
