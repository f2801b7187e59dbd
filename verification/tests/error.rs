use taler_merchant::MerchantError;

#[test]
fn from_http_reads_hint_and_code() {
    let e = MerchantError::from_http(500, r#"{"code": 7, "hint": "boom"}"#);
    assert_eq!(
        e,
        MerchantError::Http {
            status: 500,
            body: r#"{"code": 7, "hint": "boom"}"#.to_string(),
            hint: Some("boom".to_string()),
            code: Some(7),
        }
    );
    let e = MerchantError::from_http(403, "not json");
    assert_eq!(e, MerchantError::Unauthorized { status: 403, hint: None });
    let e = MerchantError::from_http(502, r#"{"code": "x", "hint": 3}"#);
    assert_eq!(
        e,
        MerchantError::Http {
            status: 502,
            body: r#"{"code": "x", "hint": 3}"#.to_string(),
            hint: None,
            code: None,
        }
    );
    // `as i32` keeps the low 32 bits of a large code.
    let e = MerchantError::from_http(500, r#"{"code": 4294967297}"#);
    assert!(matches!(e, MerchantError::Http { code: Some(1), .. }));
}

#[test]
fn http_body_is_truncated_to_512_chars() {
    let body = "é".repeat(600);
    match MerchantError::from_http(500, &body) {
        MerchantError::Http { body: b, .. } => {
            assert_eq!(b.chars().count(), 513);
            assert!(b.ends_with('…'));
        }
        other => panic!("unexpected {other:?}"),
    }
}

#[test]
fn messages() {
    assert_eq!(
        MerchantError::InvalidAmount("EUR:\"1\"".into()).to_string(),
        "invalid Taler amount: \"EUR:\\\"1\\\"\""
    );
    assert_eq!(
        MerchantError::WeakOrderId { order_id: "42".into(), reason: "short" }.to_string(),
        "weak order_id \"42\" with create_token=false: short"
    );
    assert_eq!(MerchantError::Transport("t".into()).to_string(), "transport error: t");
    assert_eq!(
        MerchantError::Unauthorized { status: 401, hint: Some("no".into()) }.to_string(),
        "unauthorized (HTTP 401): no"
    );
    assert_eq!(
        MerchantError::NotFound { status: 404, hint: None }.to_string(),
        "not found (HTTP 404)"
    );
    assert_eq!(
        MerchantError::Conflict { status: 409, hint: Some("dup".into()) }.to_string(),
        "conflict (HTTP 409): dup"
    );
    assert_eq!(
        MerchantError::Http { status: 500, body: "oops".into(), hint: None, code: Some(-3) }
            .to_string(),
        "merchant backend HTTP 500 (code -3): oops"
    );
    assert_eq!(
        MerchantError::Http { status: 503, body: String::new(), hint: None, code: None }
            .to_string(),
        "merchant backend HTTP 503"
    );
    assert_eq!(MerchantError::Protocol("p".into()).to_string(), "protocol error: p");
    assert_eq!(
        MerchantError::RedirectDisallowed { status: 302, location: Some("https://e/".into()) }
            .to_string(),
        "refusing to follow redirect (HTTP 302) to https://e/"
    );
    assert_eq!(
        MerchantError::UnexpectedOrderStatus {
            order_id: "o".into(),
            got: "paid".into(),
            detail: "d".into()
        }
        .to_string(),
        "order o has unexpected status \"paid\": d"
    );
    assert_eq!(MerchantError::Config("c".into()).to_string(), "configuration error: c");
}

#[test]
fn source_is_the_cause_only_for_orphans() {
    let cause = MerchantError::Transport("x".into());
    let e = MerchantError::CreatedButStatusFailed {
        order_id: "o".into(),
        cause: Box::new(cause.clone()),
    };
    assert_eq!(e.source(), Some(&cause));
    assert_eq!(cause.source(), None);
    assert_eq!(e.clone(), e);
}
