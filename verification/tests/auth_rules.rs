use pos_global::auth::middleware::SessionContext;
use pos_global::commands::auth::auth_state_of;
use pos_global::auth::{
    auth_endpoint, session_from_token_response, TokenResponseFields, TokenUserFields,
    classify_error_response, decode_base64url, extract_jwt_role, is_allowed_localhost_http,
    validate_config, validate_credentials, AuthError, AuthErrorBody, SupabaseAuthConfig,
};

fn config(url: &str, key: &str) -> SupabaseAuthConfig {
    SupabaseAuthConfig { url: url.to_string(), publishable_key: key.to_string() }
}

fn body(description: Option<&str>, message: Option<&str>) -> AuthErrorBody {
    AuthErrorBody {
        error: None,
        error_description: description.map(|s| s.to_string()),
        message: message.map(|s| s.to_string()),
        msg: None,
    }
}

#[test]
fn base64url_decoding() {
    assert_eq!(decode_base64url("aGVsbG8"), Ok(b"hello".to_vec()));
    assert_eq!(decode_base64url(""), Ok(vec![]));
    // URL-safe and standard alphabets decode alike
    assert_eq!(decode_base64url("-_"), decode_base64url("+/"));
    assert_eq!(decode_base64url("aGVsbG8="), Err("invalid base64url character"));
    assert_eq!(decode_base64url("a b"), Err("invalid base64url character"));
    // Decoding an unpadded URL-safe encoding gives the bytes back.
    assert_eq!(decode_base64url("_-8"), Ok(vec![0xFF, 0xEF]));
    assert_eq!(decode_base64url("AAEC"), Ok(vec![0x00, 0x01, 0x02]));
    assert_eq!(decode_base64url("_w"), Ok(vec![0xFF]));
}

#[test]
fn jwt_role_extraction() {
    let service = "eyJhbGciOiJIUzI1NiJ9.eyJyb2xlIjoic2VydmljZV9yb2xlIn0.sig";
    let anon = "eyJhbGciOiJIUzI1NiJ9.eyJyb2xlIjoiYW5vbiJ9.sig";
    let no_role = "h.eyJpc3MiOiJ4In0.s";
    assert_eq!(extract_jwt_role(service), Some("service_role".to_string()));
    assert_eq!(extract_jwt_role(anon), Some("anon".to_string()));
    assert_eq!(extract_jwt_role(no_role), None);
    assert_eq!(extract_jwt_role("only.two"), None);
    assert_eq!(extract_jwt_role("a.b.c.d"), None);
    assert_eq!(extract_jwt_role("a.!!.c"), None);
}

#[test]
fn localhost_http_detection() {
    assert!(is_allowed_localhost_http("http://localhost:54321"));
    assert!(is_allowed_localhost_http("http://127.0.0.1/auth"));
    assert!(is_allowed_localhost_http("http://[::1]:8080"));
    assert!(!is_allowed_localhost_http("https://localhost"));
    assert!(!is_allowed_localhost_http("http://localhost.evil.com"));
    assert!(!is_allowed_localhost_http("http://user@localhost"));
    assert!(!is_allowed_localhost_http("http://[::1]x"));
    assert!(!is_allowed_localhost_http("http://"));
}

#[test]
fn config_guardrails() {
    assert_eq!(validate_config(&config("https://proj.supabase.co", "sb_publishable_abc")), Ok(()));
    assert_eq!(validate_config(&config("http://localhost:54321", "sb_publishable_abc")), Ok(()));
    assert_eq!(
        validate_config(&config("  ", "k")),
        Err(AuthError::Unconfigured("Supabase URL cannot be empty".to_string()))
    );
    assert!(matches!(
        validate_config(&config("http://proj.supabase.co", "k")),
        Err(AuthError::SecurityViolation(_))
    ));
    assert_eq!(
        validate_config(&config("ftp://proj", "k")),
        Err(AuthError::Unconfigured(
            "Supabase URL must start with https:// (or http:// for localhost development only)"
                .to_string()
        ))
    );
    assert_eq!(
        validate_config(&config("https://proj.supabase.co", " ")),
        Err(AuthError::Unconfigured("Supabase publishable key cannot be empty".to_string()))
    );
    assert_eq!(
        validate_config(&config("https://proj.supabase.co", "sb_secret_xyz")),
        Err(AuthError::SecurityViolation(
            "Supabase secret key (sb_secret_*) must never be configured in client application"
                .to_string()
        ))
    );
    assert_eq!(
        validate_config(&config(
            "https://proj.supabase.co",
            "eyJhbGciOiJIUzI1NiJ9.eyJyb2xlIjoic2VydmljZV9yb2xlIn0.sig"
        )),
        Err(AuthError::SecurityViolation(
            "Legacy service_role JWT key must never be configured in client application".to_string()
        ))
    );
    assert_eq!(
        validate_config(&config("https://proj.supabase.co", "my-SERVICE_ROLE-key")),
        Err(AuthError::SecurityViolation(
            "Privileged service-role key or secret must never be configured in client application"
                .to_string()
        ))
    );
    assert_eq!(
        validate_config(&config(
            "https://proj.supabase.co",
            "eyJhbGciOiJIUzI1NiJ9.eyJyb2xlIjoiYW5vbiJ9.sig"
        )),
        Ok(())
    );
}

#[test]
fn credential_checks() {
    assert_eq!(
        validate_credentials("  user@example.com ", "pw"),
        Ok(("user@example.com".to_string(), "pw".to_string()))
    );
    assert_eq!(
        validate_credentials("   ", "pw"),
        Err(AuthError::Validation("Email cannot be empty".to_string()))
    );
    assert_eq!(
        validate_credentials("userexample.com", "pw"),
        Err(AuthError::Validation("Invalid email format".to_string()))
    );
    assert_eq!(validate_credentials("a@", "pw"), Err(AuthError::Validation("Invalid email format".to_string())));
    assert_eq!(validate_credentials("a@b", "pw").map(|p| p.0), Ok("a@b".to_string()));
    assert_eq!(
        validate_credentials("a@b.c", ""),
        Err(AuthError::Validation("Password cannot be empty".to_string()))
    );
}

#[test]
fn error_response_classification() {
    assert_eq!(
        classify_error_response(429, None),
        AuthError::RateLimit("Too many authentication requests. Please wait a moment and try again.".to_string())
    );
    assert!(matches!(classify_error_response(503, None), AuthError::ServiceUnavailable(_)));
    assert_eq!(
        classify_error_response(418, None),
        AuthError::InvalidResponse(
            "Authentication service returned unparseable error response (HTTP 418)".to_string()
        )
    );
    assert_eq!(
        classify_error_response(400, Some(body(Some("Invalid login credentials"), None))),
        AuthError::InvalidCredentials("Invalid email or password".to_string())
    );
    assert_eq!(
        classify_error_response(400, Some(body(None, Some("Password too short")))),
        AuthError::Validation("Password too short".to_string())
    );
    assert_eq!(
        classify_error_response(401, Some(body(None, Some("JWT expired")))),
        AuthError::SessionExpired("Session has expired. Please sign in again.".to_string())
    );
    assert_eq!(
        classify_error_response(401, Some(body(None, None))),
        AuthError::InvalidCredentials("Authentication credentials are invalid or expired".to_string())
    );
    assert_eq!(
        classify_error_response(403, Some(body(Some("nope"), Some("ignored")))),
        AuthError::InvalidResponse("Unexpected authentication error (HTTP 403): nope".to_string())
    );
}

#[test]
fn token_replies_and_endpoints() {
    assert_eq!(
        auth_endpoint("https://proj.supabase.co//", "/auth/v1/logout"),
        "https://proj.supabase.co/auth/v1/logout"
    );
    assert_eq!(
        auth_endpoint("https://proj.supabase.co", "/auth/v1/token?grant_type=password"),
        "https://proj.supabase.co/auth/v1/token?grant_type=password"
    );
    let mut raw = TokenResponseFields {
        access_token: "at".to_string(),
        refresh_token: Some("rt".to_string()),
        expires_at: Some(1700000000),
        expires_in: Some(3600),
        token_type: Some("bearer".to_string()),
        user: None,
    };
    assert_eq!(
        session_from_token_response(&raw),
        Err(AuthError::InvalidResponse("User data missing in auth response".to_string()))
    );
    raw.user = Some(TokenUserFields { id: "u1".to_string(), email: None, created_at: None, last_sign_in_at: None });
    let s = session_from_token_response(&raw).unwrap();
    assert_eq!(s.access_token, "at");
    assert_eq!(s.refresh_token, Some("rt".to_string()));
    assert_eq!(s.expires_in, Some(3600));
    assert_eq!(s.user.id, "u1");
    assert_eq!(s.user.email, "");
}

#[test]
fn auth_state_of_a_session() {
    let signed_out = auth_state_of(None);
    assert!(!signed_out.authenticated);
    assert_eq!(signed_out.session_id, None);
    assert_eq!(signed_out.role, None);
    let state = auth_state_of(Some(SessionContext {
        session_id: "s1".to_string(),
        user_id: "u1".to_string(),
        role: "cashier".to_string(),
        organization_id: None,
        branch_id: "b1".to_string(),
    }));
    assert!(state.authenticated);
    assert_eq!(state.session_id, Some("s1".to_string()));
    assert_eq!(state.user_id, Some("u1".to_string()));
    assert_eq!(state.branch_id, Some("b1".to_string()));
    assert_eq!(state.role, Some("cashier".to_string()));
    assert_eq!(state.organization_id, None);
}
