use pos_global::auth::middleware::{
    check_session_id, decide_authorization, map_session_error, AuthMiddlewareError,
    AuthorizeRequest, SessionContext, SessionValidationError,
};
use pos_global::permission::{
    check_role_all_permissions, check_role_any_permission, check_role_permission,
    decide_user_permission, known_overrides, normalize_permission_effect, override_decision, validate_scope,
    Permission, PermissionError, Role,
};

#[test]
fn permission_codes_round_trip() {
    for p in Permission::all() {
        assert_eq!(Permission::parse(p.as_str()), Some(p));
    }
    assert_eq!(Permission::all().len(), 17);
    assert_eq!(Permission::SalesCreate.as_str(), "sales.create");
    assert_eq!(Permission::LicenseManage.as_str(), "license.manage");
    assert_eq!(Permission::parse("Sales.Create"), None);
    assert_eq!(Permission::parse(" sales.create"), None);
}

#[test]
fn role_codes_round_trip() {
    for r in [Role::Admin, Role::Manager, Role::Cashier] {
        assert_eq!(Role::parse(r.as_str()), Some(r));
    }
    assert_eq!(Role::parse("Admin"), None);
    assert_eq!(Role::parse("owner"), None);
}

#[test]
fn default_permissions_per_role() {
    assert_eq!(Role::Admin.default_permissions(), Permission::all());
    let manager = Role::Manager.default_permissions();
    assert_eq!(manager.len(), 15);
    assert!(!manager.contains(&Permission::UsersManage));
    assert!(!manager.contains(&Permission::LicenseManage));
    assert_eq!(
        Role::Cashier.default_permissions(),
        vec![
            Permission::SalesCreate,
            Permission::CustomersManage,
            Permission::ReportsView,
            Permission::CashOpen,
            Permission::CashClose,
        ]
    );
    assert!(Role::Cashier.has_default_permission(Permission::CashOpen));
    assert!(!Role::Cashier.has_default_permission(Permission::SalesRefund));
}

#[test]
fn role_permission_checks_deny_by_default() {
    assert!(check_role_permission("admin", "license.manage"));
    assert!(check_role_permission("manager", "settings.manage"));
    assert!(!check_role_permission("manager", "users.manage"));
    assert!(!check_role_permission("cashier", "sales.void"));
    assert!(!check_role_permission("superuser", "sales.create"));
    assert!(!check_role_permission("admin", "sales.fly"));
}

#[test]
fn all_and_any_permission_checks() {
    let both = [Permission::SalesCreate, Permission::CashOpen];
    let mixed = [Permission::SalesCreate, Permission::SalesRefund];
    let none_granted = [Permission::SalesRefund, Permission::UsersManage];
    assert!(check_role_all_permissions("cashier", &both));
    assert!(!check_role_all_permissions("cashier", &mixed));
    assert!(!check_role_all_permissions("cashier", &[]));
    assert!(!check_role_all_permissions("ghost", &both));
    assert!(check_role_any_permission("cashier", &mixed));
    assert!(!check_role_any_permission("cashier", &none_granted));
    assert!(!check_role_any_permission("cashier", &[]));
    assert!(!check_role_any_permission("ghost", &mixed));
}

#[test]
fn scope_validation() {
    assert_eq!(validate_scope(Some("org1"), "br1", Some("org1"), Some("br1")), Ok(()));
    assert_eq!(validate_scope(None, "br1", None, None), Ok(()));
    assert_eq!(
        validate_scope(Some("org1"), "br1", Some("org2"), None),
        Err(PermissionError::ScopeMismatch { expected: "org2".to_string(), actual: "org1".to_string() })
    );
    assert_eq!(
        validate_scope(None, "br1", Some("org2"), None),
        Err(PermissionError::ScopeMismatch { expected: "org2".to_string(), actual: "none".to_string() })
    );
    assert_eq!(
        validate_scope(Some("org1"), "br1", Some("org1"), Some("br2")),
        Err(PermissionError::ScopeMismatch { expected: "br2".to_string(), actual: "br1".to_string() })
    );
}

#[test]
fn user_overrides_decide_first() {
    assert_eq!(override_decision(Some("DENY")), Some(false));
    assert_eq!(override_decision(Some("Allow")), Some(true));
    assert_eq!(override_decision(Some("maybe")), None);
    assert_eq!(override_decision(None), None);
    // deny override wins over the admin role
    assert!(!decide_user_permission(Some("deny"), true, "admin", Permission::SalesCreate));
    // allow override grants beyond the role
    assert!(decide_user_permission(Some("allow"), false, "cashier", Permission::UsersManage));
    // a database grant allows
    assert!(decide_user_permission(None, true, "cashier", Permission::UsersManage));
    // role defaults decide otherwise
    assert!(decide_user_permission(None, false, "cashier", Permission::SalesCreate));
    assert!(!decide_user_permission(None, false, "cashier", Permission::SalesRefund));
    assert!(!decide_user_permission(None, false, "unknown", Permission::SalesCreate));
}

#[test]
fn permission_effect_normalization() {
    assert_eq!(normalize_permission_effect("ALLOW"), Ok("allow"));
    assert_eq!(normalize_permission_effect("Deny"), Ok("deny"));
    assert_eq!(
        normalize_permission_effect("grant"),
        Err(PermissionError::Database(
            "Invalid permission effect: 'grant'. Must be 'allow' or 'deny'".to_string()
        ))
    );
}

#[test]
fn middleware_error_conversions() {
    assert_eq!(
        AuthMiddlewareError::from_permission_error(PermissionError::InvalidRole("x".to_string())),
        AuthMiddlewareError::Validation("Invalid role: x".to_string())
    );
    assert_eq!(
        AuthMiddlewareError::from_permission_error(PermissionError::InvalidPermission("p".to_string())),
        AuthMiddlewareError::Validation("Invalid permission: p".to_string())
    );
    assert_eq!(
        map_session_error(SessionValidationError::Revoked),
        AuthMiddlewareError::SessionRevoked("Session has been revoked".to_string())
    );
    assert_eq!(
        map_session_error(SessionValidationError::Expired),
        AuthMiddlewareError::SessionExpired("Session has expired".to_string())
    );
    assert_eq!(
        map_session_error(SessionValidationError::InactiveBranch),
        AuthMiddlewareError::Unauthenticated("Branch is inactive".to_string())
    );
    assert_eq!(
        check_session_id("   "),
        Err(AuthMiddlewareError::Unauthenticated("Session ID is required".to_string()))
    );
    assert_eq!(check_session_id("s-1"), Ok(()));
}

fn session(role: &str) -> SessionContext {
    SessionContext {
        session_id: "s-1".to_string(),
        user_id: "u-1".to_string(),
        role: role.to_string(),
        organization_id: Some("org1".to_string()),
        branch_id: "br1".to_string(),
    }
}

#[test]
fn authorization_decisions() {
    let granted = Role::Cashier.default_permissions();
    let s = session("cashier");
    let ok = AuthorizeRequest::new("s-1")
        .with_permission(Permission::SalesCreate)
        .with_organization_scope("org1")
        .with_branch_scope("br1");
    assert_eq!(decide_authorization(&ok, &s, &granted), Ok(()));

    let missing = AuthorizeRequest::new("s-1").with_permission(Permission::SalesRefund);
    assert_eq!(
        decide_authorization(&missing, &s, &granted),
        Err(AuthMiddlewareError::PermissionDenied {
            role: "cashier".to_string(),
            permission: "sales.refund".to_string(),
            reason: "Role or user override does not grant this permission".to_string(),
        })
    );

    // scope is checked before any permission, even for an admin
    let admin = session("admin");
    let all = Permission::all();
    let cross = AuthorizeRequest::new("s-1").with_branch_scope("br9");
    assert_eq!(
        decide_authorization(&cross, &admin, &all),
        Err(AuthMiddlewareError::ScopeMismatch { expected: "br9".to_string(), actual: "br1".to_string() })
    );

    let empty: [Permission; 0] = [];
    let req_empty = AuthorizeRequest::new("s-1").with_all_permissions(&empty);
    assert_eq!(
        decide_authorization(&req_empty, &admin, &all),
        Err(AuthMiddlewareError::PermissionDenied {
            role: "admin".to_string(),
            permission: "none".to_string(),
            reason: "Empty permission list fails closed".to_string(),
        })
    );

    let unknown = session("owner");
    let req_single = AuthorizeRequest::new("s-1").with_permission(Permission::SalesCreate);
    assert_eq!(
        decide_authorization(&req_single, &unknown, &all),
        Err(AuthMiddlewareError::PermissionDenied {
            role: "owner".to_string(),
            permission: "sales.create".to_string(),
            reason: "Unknown or invalid role fails closed".to_string(),
        })
    );

    let any = [Permission::SalesRefund, Permission::UsersManage];
    let req_any = AuthorizeRequest::new("s-1").with_any_permission(&any);
    assert_eq!(
        decide_authorization(&req_any, &s, &granted),
        Err(AuthMiddlewareError::PermissionDenied {
            role: "cashier".to_string(),
            permission: "any".to_string(),
            reason: "User possesses none of the required permissions".to_string(),
        })
    );
    let any_ok = [Permission::SalesRefund, Permission::CashClose];
    let req_any_ok = AuthorizeRequest::new("s-1").with_any_permission(&any_ok);
    assert_eq!(decide_authorization(&req_any_ok, &s, &granted), Ok(()));

    let all_mixed = [Permission::SalesCreate, Permission::CashAdjust, Permission::SalesVoid];
    let req_all = AuthorizeRequest::new("s-1").with_all_permissions(&all_mixed);
    assert_eq!(
        decide_authorization(&req_all, &s, &granted),
        Err(AuthMiddlewareError::PermissionDenied {
            role: "cashier".to_string(),
            permission: "cash.adjust".to_string(),
            reason: "Role or user override does not grant this permission".to_string(),
        })
    );
}

#[test]
fn stored_overrides_keep_known_codes_in_order() {
    let rows = vec![
        ("inventory.adjust".to_string(), "deny".to_string()),
        ("made.up".to_string(), "allow".to_string()),
        ("sales.create".to_string(), "allow".to_string()),
        ("SALES.REFUND".to_string(), "allow".to_string()),
    ];
    let listed = known_overrides(&rows);
    assert_eq!(
        listed,
        vec![
            (Permission::InventoryAdjust, "deny".to_string()),
            (Permission::SalesCreate, "allow".to_string()),
        ]
    );
    assert!(known_overrides(&vec![]).is_empty());
}
