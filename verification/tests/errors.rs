use vtx_sdk::error::{labelled, lift, VtxError, VtxResult};
use vtx_sdk::text::{mentions_phrase, push_decimal, str_contains, strip_prefix_ignoring_case};

#[test]
fn status_table() {
    assert_eq!(VtxError::AuthDenied(401).status_code(), 401);
    assert_eq!(VtxError::AuthDenied(403).status_code(), 403);
    assert_eq!(VtxError::AuthDenied(0).status_code(), 0);
    assert_eq!(VtxError::PermissionDenied("x".to_string()).status_code(), 403);
    assert_eq!(VtxError::NotFound("x".to_string()).status_code(), 404);
    assert_eq!(VtxError::SerializationError("x".to_string()).status_code(), 400);
    assert_eq!(VtxError::DatabaseError("x".to_string()).status_code(), 500);
    assert_eq!(VtxError::Internal("x".to_string()).status_code(), 500);
}

#[test]
fn kind_names() {
    assert_eq!(VtxError::AuthDenied(401).kind_name(), "AuthDenied");
    assert_eq!(VtxError::PermissionDenied(String::new()).kind_name(), "PermissionDenied");
    assert_eq!(VtxError::NotFound(String::new()).kind_name(), "NotFound");
    assert_eq!(VtxError::SerializationError(String::new()).kind_name(), "SerializationError");
    assert_eq!(VtxError::DatabaseError(String::new()).kind_name(), "DatabaseError");
    assert_eq!(VtxError::Internal(String::new()).kind_name(), "Internal");
}

#[test]
fn printed_forms() {
    assert_eq!(VtxError::DatabaseError("locked".to_string()).to_string(), "Database error: locked");
    assert_eq!(
        VtxError::SerializationError("eof".to_string()).to_string(),
        "Data serialization error: eof"
    );
    assert_eq!(VtxError::AuthDenied(401).to_string(), "Authentication denied (Code: 401)");
    assert_eq!(VtxError::AuthDenied(0).to_string(), "Authentication denied (Code: 0)");
    assert_eq!(VtxError::AuthDenied(65535).to_string(), "Authentication denied (Code: 65535)");
    assert_eq!(VtxError::PermissionDenied("ro".to_string()).to_string(), "Permission denied: ro");
    assert_eq!(VtxError::NotFound("v1".to_string()).to_string(), "Resource not found: v1");
    assert_eq!(VtxError::Internal("bug".to_string()).to_string(), "Internal error: bug");
    assert_eq!(VtxError::Internal(String::new()).to_string(), "Internal error: ");
}

#[test]
fn host_messages_are_classified() {
    assert!(matches!(
        VtxError::from_host_message("Permission Denied: read only".to_string()),
        VtxError::PermissionDenied(m) if m == "Permission Denied: read only"
    ));
    assert!(matches!(
        VtxError::from_host_message("x PERMISSION DENIED".to_string()),
        VtxError::PermissionDenied(_)
    ));
    assert!(matches!(
        VtxError::from_host_message("profile not found".to_string()),
        VtxError::Internal(m) if m == "profile not found"
    ));
    assert!(matches!(VtxError::from_host_message(String::new()), VtxError::Internal(_)));
    assert!(matches!(
        VtxError::from_host_message("permission  denied".to_string()),
        VtxError::Internal(_)
    ));
}

#[test]
fn lift_keeps_values_and_classifies_messages() {
    let ok: VtxResult<u8> = lift(Ok(7));
    assert!(matches!(ok, Ok(7)));
    let denied: VtxResult<u8> = lift(Err("permission denied".to_string()));
    assert!(matches!(denied, Err(VtxError::PermissionDenied(_))));
    let other: VtxResult<u8> = lift(Err("boom".to_string()));
    assert!(matches!(other, Err(VtxError::Internal(m)) if m == "boom"));
}

#[test]
fn labelled_joins_lead_and_detail() {
    assert_eq!(labelled("a: ", "b"), "a: b");
    assert_eq!(labelled("", ""), "");
}

#[test]
fn decimal_numerals() {
    for (n, want) in [(0u64, "0"), (7, "7"), (10, "10"), (404, "404"), (65535, "65535"), (u64::MAX, "18446744073709551615")] {
        let mut out = String::from("n=");
        push_decimal(&mut out, n);
        assert_eq!(out, format!("n={}", want));
    }
}

#[test]
fn substring_search() {
    assert!(str_contains("hello world", "lo w"));
    assert!(str_contains("hello", ""));
    assert!(str_contains("", ""));
    assert!(str_contains("abc", "abc"));
    assert!(str_contains("aab", "ab"));
    assert!(!str_contains("abc", "abcd"));
    assert!(!str_contains("", "a"));
    assert!(!str_contains("abc", "ac"));
    assert!(str_contains("d\u{e9}j\u{e0} vu", "j\u{e0} "));
}

#[test]
fn phrases_are_found_in_any_case() {
    assert!(mentions_phrase("ERROR: Invalid Event Payload", "invalid event payload"));
    assert!(!mentions_phrase("invalid payload", "invalid event payload"));
    assert!(!mentions_phrase("abc", "ABC"));
}

#[test]
fn prefix_is_stripped_without_regard_to_case() {
    assert_eq!(strip_prefix_ignoring_case("Bearer x", "bearer "), Some("x"));
    assert_eq!(strip_prefix_ignoring_case("abc", ""), Some("abc"));
    assert_eq!(strip_prefix_ignoring_case("abc", "ABC"), Some(""));
    assert_eq!(strip_prefix_ignoring_case("ab", "abc"), None);
    assert_eq!(strip_prefix_ignoring_case("[x", "{"), None);
    assert_eq!(strip_prefix_ignoring_case("@x", "`"), None);
}
