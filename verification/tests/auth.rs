use taler_merchant::{ClaimToken, SecretToken};

#[test]
fn normalizes_prefix() {
    let a = SecretToken::new("sandbox");
    let b = SecretToken::new("secret-token:sandbox");
    assert_eq!(
        a.authorization_header_value(),
        "Bearer secret-token:sandbox"
    );
    assert_eq!(
        a.authorization_header_value(),
        b.authorization_header_value()
    );
    assert!(a == b);
}

#[test]
fn redacts_debug_and_display() {
    let t = SecretToken::new("super-secret");
    let d = t.to_debug_string();
    let s = t.to_string();
    assert!(!d.contains("super-secret"));
    assert!(!s.contains("super-secret"));
    assert!(d.contains("REDACTED"));
}

#[test]
fn claim_token_redacted_in_debug_and_serde() {
    // The serde impls of the wire types write `serialized_text()` and build a
    // token from the decoded string; both steps run through serde_json here.
    let c = ClaimToken::new("claim-xyz");
    assert!(!c.to_debug_string().contains("claim-xyz"));
    assert_eq!(c.as_str(), "claim-xyz");
    let json = serde_json::to_string(&c.serialized_text()).unwrap();
    assert_eq!(json, "\"[REDACTED]\"");
    assert!(!json.contains("claim-xyz"));
    let decoded: String = serde_json::from_str("\"claim-xyz\"").unwrap();
    let wire = ClaimToken::new(&decoded);
    assert_eq!(wire.as_str(), "claim-xyz");
}

#[test]
fn prefix_is_stripped_only_once() {
    let t = SecretToken::new("secret-token:secret-token:x");
    assert_eq!(t.authorization_header_value(), "Bearer secret-token:secret-token:x");
    assert!(SecretToken::new("").is_empty());
    assert!(SecretToken::new("secret-token:").is_empty());
    assert!(!SecretToken::new("secret-token").is_empty());
    assert!(SecretToken::new("a") != SecretToken::new("b"));
}

#[test]
fn zeroize_empties_tokens() {
    let mut t = SecretToken::new("sandbox");
    t.zeroize();
    assert!(t.is_empty());
    assert_eq!(t.authorization_header_value(), "Bearer secret-token:");
    let mut c = ClaimToken::new("claim");
    c.zeroize();
    assert_eq!(c.as_str(), "");
}

#[test]
fn displayed_forms_are_constant() {
    assert_eq!(SecretToken::new("x").to_string(), "[REDACTED]");
    assert_eq!(SecretToken::new("x").to_debug_string(), "SecretToken([REDACTED])");
    assert_eq!(ClaimToken::new("x").to_string(), "[REDACTED]");
    assert_eq!(ClaimToken::new("x").to_debug_string(), "ClaimToken([REDACTED])");
    let c = ClaimToken::new("keep");
    assert_eq!(c.clone().as_str(), "keep");
}
