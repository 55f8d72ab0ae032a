use digital_twin::api::dto::ApiResponse;
use digital_twin::api::error::{map_domain_error, map_result, to_api_error, ErrorCode};
use digital_twin::api::init;
use digital_twin::api::middleware::auth::{parse_auth_header, AuthContext, AuthMiddleware, AuthMiddlewareError, Credentials};
use digital_twin::api::middleware::rate_limit::{rate_limit_key, RateLimitKey, RateLimitMiddlewareError};
use digital_twin::api::middleware::validation::{schema_verdict, ValidationMiddleware, ValidationMiddlewareError};
use digital_twin::json::JsonValue;

#[test]
fn error_codes_have_fixed_texts() {
    assert_eq!(ErrorCode::NotFound.as_str(), "NOT_FOUND");
    assert_eq!(ErrorCode::Internal.as_str(), "INTERNAL_ERROR");
    assert_eq!(ErrorCode::RateLimited.as_str(), "RATE_LIMITED");
}

#[test]
fn domain_failures_map_by_their_words() {
    let e = map_domain_error("Tool not found: x".to_string());
    assert_eq!(e.code, "NOT_FOUND");
    assert_eq!(e.message, "The requested resource was not found");
    assert_eq!(e.details.as_deref(), Some("Tool not found: x"));
    assert_eq!(e.to_string(), "NOT_FOUND: The requested resource was not found");

    assert_eq!(map_domain_error("access forbidden".to_string()).code, "UNAUTHORIZED");
    assert_eq!(map_domain_error("invalid version".to_string()).code, "INVALID_INPUT");
    assert_eq!(map_domain_error("Version already exists".to_string()).code, "CONFLICT");
    assert_eq!(map_domain_error("disk full".to_string()).code, "INTERNAL_ERROR");
    assert_eq!(map_domain_error("invalid: not found".to_string()).code, "NOT_FOUND");
    assert_eq!(map_domain_error("Not Found".to_string()).code, "INTERNAL_ERROR");
}

#[test]
fn results_pass_values_and_map_failures() {
    assert_eq!(map_result::<u8>(Ok(3)).unwrap(), 3);
    let e = map_result::<u8>(Err("validation failed".to_string())).unwrap_err();
    assert_eq!(e.code, "INVALID_INPUT");
    let e = to_api_error("boom");
    assert_eq!(e.code, "INTERNAL_ERROR");
    assert_eq!(e.message, "An unexpected error occurred");
    assert_eq!(e.details.as_deref(), Some("boom"));
    assert!(init().is_ok());
}

#[test]
fn responses_carry_data_or_error() {
    let ok = ApiResponse::success(7u32);
    assert!(ok.success);
    assert_eq!(ok.data, Some(7));
    assert!(ok.error.is_none());
    let err: ApiResponse<u32> = ApiResponse::error(to_api_error("x"));
    assert!(!err.success);
    assert!(err.data.is_none());
    assert_eq!(err.error.unwrap().code, "INTERNAL_ERROR");
}

fn context() -> AuthContext {
    AuthContext {
        user_id: "1".to_string(),
        username: "ana".to_string(),
        roles: vec!["admin".to_string()],
        permissions: vec!["twin:read".to_string(), "twin:write".to_string()],
    }
}

#[test]
fn permissions_and_roles_are_checked() {
    let m = AuthMiddleware::new();
    let ctx = context();
    assert!(m.check_permission(&ctx, "twin:write").is_ok());
    assert!(m.check_role(&ctx, "admin").is_ok());
    match m.check_permission(&ctx, "tool:run") {
        Err(AuthMiddlewareError::Forbidden(msg)) => assert_eq!(msg, "Missing permission: tool:run"),
        _ => panic!("expected a refusal"),
    }
    let e = m.check_role(&ctx, "operator").unwrap_err();
    assert_eq!(e.to_string(), "Forbidden: Missing role: operator");
    assert_eq!(AuthMiddlewareError::Unauthorized.to_string(), "Unauthorized");
    assert_eq!(AuthMiddlewareError::Internal("x".to_string()).to_string(), "Internal error: x");
}

#[test]
fn middleware_failure_messages() {
    assert_eq!(
        RateLimitMiddlewareError::RateLimitExceeded(30).to_string(),
        "Rate limit exceeded. Try again in 30 seconds."
    );
    assert_eq!(
        ValidationMiddlewareError::InvalidInput("bad".to_string()).to_string(),
        "Invalid input: bad"
    );
}

#[test]
fn sanitize_cleans_strings_only() {
    let m = ValidationMiddleware::new();
    let data = JsonValue::Object(vec![
        ("name".to_string(), JsonValue::String("XSS<script>attack</script>".to_string())),
        ("count".to_string(), JsonValue::Number("3".to_string())),
        (
            "tags".to_string(),
            JsonValue::Array(vec![JsonValue::String("<b>bold</b>".to_string()), JsonValue::Bool(true), JsonValue::Null]),
        ),
    ]);
    let clean = m.sanitize(&data);
    match clean {
        JsonValue::Object(members) => {
            assert_eq!(members.len(), 3);
            assert_eq!(members[0].0, "name");
            assert!(matches!(&members[0].1, JsonValue::String(s) if s == "XSS"));
            assert!(matches!(&members[1].1, JsonValue::Number(n) if n == "3"));
            match &members[2].1 {
                JsonValue::Array(items) => {
                    assert!(matches!(&items[0], JsonValue::String(s) if s == "<b>bold</b>"));
                    assert!(matches!(items[1], JsonValue::Bool(true)));
                    assert!(matches!(items[2], JsonValue::Null));
                }
                _ => panic!("expected an array"),
            }
        }
        _ => panic!("expected an object"),
    }
}

fn refusal_message(header: Option<&str>) -> String {
    match parse_auth_header(&header.map(|h| h.to_string())) {
        Err(e) => {
            assert_eq!(e.code, "UNAUTHORIZED");
            e.message
        }
        Ok(c) => panic!("unexpected credentials {:?}", c),
    }
}

#[test]
fn authorization_headers_are_read() {
    match parse_auth_header(&Some("Bearer  key-123 ".to_string())) {
        Ok(Credentials::ApiKey(k)) => assert_eq!(k, "key-123"),
        other => panic!("unexpected {:?}", other),
    }
    match parse_auth_header(&Some("Bearer Bearer tok".to_string())) {
        Ok(Credentials::ApiKey(k)) => assert_eq!(k, "tok"),
        other => panic!("unexpected {:?}", other),
    }
    match parse_auth_header(&Some("Basic dXNlcjpwYXNz".to_string())) {
        Ok(Credentials::Basic { username, password }) => {
            assert_eq!(username, "user");
            assert_eq!(password, "pass");
        }
        other => panic!("unexpected {:?}", other),
    }
    assert_eq!(refusal_message(None), "Authentication required");
    assert_eq!(refusal_message(Some("Token abc")), "Invalid authentication header");
    assert_eq!(refusal_message(Some("Basic !!!")), "Invalid Basic authentication");
    assert_eq!(refusal_message(Some("Basic dXNlcg==")), "Invalid Basic authentication");
    assert_eq!(refusal_message(Some("Basic YTpiOmM=")), "Invalid Basic authentication");
}

#[test]
fn json_is_checked_against_a_schema() {
    let m = ValidationMiddleware::new();
    let schema = r#"{"type":"object","required":["name"]}"#;
    assert!(m.validate_json(r#"{"name":"pump"}"#, schema).is_ok());
    match m.validate_json("{}", schema) {
        Err(ValidationMiddlewareError::ValidationError(text)) => {
            let messages: Vec<String> = serde_json::from_str(&text).unwrap();
            assert_eq!(messages.len(), 1);
            assert!(messages[0].contains("name"));
        }
        other => panic!("unexpected {:?}", other),
    }
    match m.validate_json("{}", r#"{"type": 5}"#) {
        Err(ValidationMiddlewareError::Internal(text)) => assert!(text.starts_with("Failed to compile schema: ")),
        other => panic!("unexpected {:?}", other),
    }
}

#[test]
fn schema_reports_are_answered_exactly() {
    assert!(schema_verdict(Ok(vec![])).is_ok());
    let messages = vec!["\"name\" is a required property".to_string(), "tab\there\u{1}".to_string()];
    match schema_verdict(Ok(messages.clone())) {
        Err(ValidationMiddlewareError::ValidationError(text)) => {
            assert_eq!(text, serde_json::to_string(&messages).unwrap());
            assert_eq!(text, r#"["\"name\" is a required property","tab\there\u0001"]"#);
        }
        other => panic!("unexpected {:?}", other),
    }
    match schema_verdict(Err("bad schema".to_string())) {
        Err(ValidationMiddlewareError::Internal(text)) => assert_eq!(text, "Failed to compile schema: bad schema"),
        other => panic!("unexpected {:?}", other),
    }
}

#[test]
fn rate_limit_keys_follow_the_key_type() {
    assert_eq!(rate_limit_key("ip", "10.0.0.1", true), Ok(RateLimitKey::IpAddress("10.0.0.1".to_string())));
    assert_eq!(rate_limit_key("ip", "nope", false), Err("Invalid IP address".to_string()));
    assert_eq!(rate_limit_key("api", "k", false), Ok(RateLimitKey::ApiKey("k".to_string())));
    assert_eq!(rate_limit_key("user", "u", false), Ok(RateLimitKey::UserId("u".to_string())));
    assert_eq!(rate_limit_key("custom", "c", false), Ok(RateLimitKey::Custom("c".to_string())));
    assert_eq!(rate_limit_key("other", "c", true), Err("Invalid key type".to_string()));
}
