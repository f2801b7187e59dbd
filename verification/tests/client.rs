use std::time::Duration;
use taler_merchant::client::{
    check_base_url_parts, check_fulfillment_url_parts, UrlParts, check_http_status, decode_error, finish_create_order, join_url, order_status_request_url,
    percent_encode_path_segment, percent_encode_query_component, prepare_post_order,
    validate_base_url, validate_fulfillment_url,
};
use taler_merchant::{
    Amount, CheckPaymentClaimed, CheckPaymentUnpaid, ClaimToken, ContractTerms,
    CreateOrderRequest, MerchantConfig, MerchantError, MerchantOrderStatus, PostOrderResponse,
    StatusQuery, Timestamp,
};

/// What creating a client checks: the configuration must validate.
fn with_credentials(base_url: &str, token: &str) -> Result<(), MerchantError> {
    MerchantConfig::new(base_url, token).validate()
}

fn ts(n: i64) -> Timestamp {
    Timestamp { t_s: Some(serde_json::Value::from(n)) }
}

fn unpaid(order_id: &str, pay_uri: &str) -> MerchantOrderStatus {
    MerchantOrderStatus::Unpaid(CheckPaymentUnpaid {
        taler_pay_uri: pay_uri.to_string(),
        order_status_url: format!("https://example.test/orders/{order_id}"),
        creation_time: ts(1700000000),
        pay_deadline: Some(ts(1893456000)),
        summary: Some("Mock order".to_string()),
        proto_contract_terms: None,
        total_amount: Some(Amount::parse("KUDOS:1").unwrap()),
        already_paid_order_id: None,
        already_paid_fulfillment_url: None,
        extra: serde_json::Map::new(),
    })
}

fn claimed(order_id: &str) -> MerchantOrderStatus {
    MerchantOrderStatus::Claimed(CheckPaymentClaimed {
        contract_terms: ContractTerms {
            summary: "Claimed mock".to_string(),
            amount: Some(Amount::parse("KUDOS:1").unwrap()),
            extra: serde_json::Map::new(),
        },
        order_status_url: format!("https://example.test/orders/{order_id}"),
        extra: serde_json::Map::new(),
    })
}

fn posted(order_id: &str) -> PostOrderResponse {
    PostOrderResponse {
        order_id: order_id.to_string(),
        token: None,
        pay_deadline: ts(1893456000),
        extra: serde_json::Map::new(),
    }
}

#[test]
fn join_url_strips_slashes() {
    assert_eq!(
        join_url("https://example.com/instances/sandbox/", "/private/orders"),
        "https://example.com/instances/sandbox/private/orders"
    );
    assert_eq!(
        join_url("https://example.com/instances/sandbox", "config"),
        "https://example.com/instances/sandbox/config"
    );
}

#[test]
fn percent_encodes_unsafe_order_ids() {
    assert_eq!(percent_encode_path_segment("o-abc"), "o-abc");
    assert_eq!(percent_encode_path_segment("a/b"), "a%2Fb");
    assert_eq!(percent_encode_path_segment("a b"), "a%20b");
}

#[test]
fn query_component_uses_plus_for_space() {
    assert_eq!(percent_encode_query_component("a b"), "a+b");
    assert_eq!(percent_encode_query_component("a/b"), "a%2Fb");
}

#[test]
fn rejects_empty_config() {
    let err = with_credentials("", "sandbox").unwrap_err();
    assert!(matches!(err, MerchantError::Config(_)));
    let err = with_credentials("https://x/", "").unwrap_err();
    assert!(matches!(err, MerchantError::Config(_)));
}

#[test]
fn rejects_non_https_non_loopback() {
    let err = with_credentials("http://example.com/m/", "sandbox").unwrap_err();
    assert!(
        matches!(err, MerchantError::Config(ref m) if m.contains("loopback")),
        "{}",
        err.to_string()
    );
    // Homograph-ish bypass attempt
    let err = with_credentials("http://127.0.0.1.evil.com/m/", "t").unwrap_err();
    assert!(matches!(err, MerchantError::Config(_)));
}

#[test]
fn accepts_https_and_loopback_http() {
    assert!(with_credentials("https://backend.example/m/", "t").is_ok());
    assert!(with_credentials("http://127.0.0.1:8080/m/", "t").is_ok());
    assert!(with_credentials("http://localhost:9/m/", "t").is_ok());
}

#[test]
fn rejects_https_without_host() {
    let err = with_credentials("https://", "t").unwrap_err();
    assert!(matches!(err, MerchantError::Config(_)), "{}", err.to_string());
    // `https:///nohost` is parsed by rust-url as host "nohost" (not a missing-host bypass).
    assert!(with_credentials("https://nohost/", "t").is_ok());
}

#[test]
fn fulfillment_url_rules() {
    assert!(validate_fulfillment_url("https://example.com/thanks").is_ok());
    assert!(validate_fulfillment_url("http://example.com/thanks").is_ok());
    assert!(validate_fulfillment_url("").is_err());
    assert!(validate_fulfillment_url("javascript:alert(1)").is_err());
    assert!(validate_fulfillment_url("/relative").is_err());
    assert!(validate_fulfillment_url("https://").is_err());
}

#[test]
fn base_url_error_messages() {
    assert_eq!(
        validate_base_url("   ").unwrap_err(),
        MerchantError::Config("base_url must not be empty".to_string())
    );
    assert_eq!(
        validate_base_url("http://example.com/m/").unwrap_err(),
        MerchantError::Config(
            "http:// base_url only allowed for loopback (127.0.0.1/localhost/::1), got host \"example.com\""
                .to_string()
        )
    );
    assert_eq!(
        validate_base_url("ftp://example.com/").unwrap_err(),
        MerchantError::Config(
            "base_url scheme must be https (or http for loopback tests), got \"ftp\"".to_string()
        )
    );
    match validate_base_url("not a url").unwrap_err() {
        MerchantError::Config(m) => assert!(m.starts_with("base_url is not a valid URL: ")),
        other => panic!("unexpected {other:?}"),
    }
    assert_eq!(
        validate_fulfillment_url("mailto:a@b.c").unwrap_err(),
        MerchantError::Config("fulfillment_url must be an absolute URL with a host".to_string())
    );
}

#[test]
fn config_defaults_and_timeout() {
    let c = MerchantConfig::new(" https://x/ ", "secret-token:abc");
    assert_eq!(c.timeout, Duration::from_secs(30));
    assert_eq!(c.token.authorization_header_value(), "Bearer secret-token:abc");
    let c = c.with_timeout(Duration::from_millis(5));
    assert_eq!(c.timeout, Duration::from_millis(5));
    assert_eq!(c.base_url, " https://x/ ");
    assert!(c.validate().is_ok());
}

#[test]
fn post_order_rejects_weak_id_without_claim_token() {
    let err = prepare_post_order(
        CreateOrderRequest::new(
            "weak",
            Amount::parse("KUDOS:1").unwrap(),
            "https://example.com/thanks",
        )
        .with_order_id("42"),
    )
    .unwrap_err();

    assert!(matches!(err, MerchantError::WeakOrderId { .. }));
}

#[test]
fn post_order_allows_weak_id_when_create_token_true() {
    let body = prepare_post_order(
        CreateOrderRequest::new(
            "tok",
            Amount::parse("KUDOS:1").unwrap(),
            "https://example.com/thanks",
        )
        .with_order_id("42")
        .with_create_token(true),
    )
    .unwrap();
    assert_eq!(body.create_token, Some(true));
    assert_eq!(body.order.order_id.as_deref(), Some("42"));
}

#[test]
fn post_order_sends_bearer_and_body() {
    let order_id = "o-deadbeefdeadbeefdeadbeefdeadbeef";
    let config = MerchantConfig::new("http://127.0.0.1:1/instances/sandbox/", "sandbox");
    assert!(config.validate().is_ok());
    assert_eq!(
        config.token.authorization_header_value(),
        "Bearer secret-token:sandbox"
    );
    assert_eq!(
        join_url(&config.base_url, "private/orders"),
        "http://127.0.0.1:1/instances/sandbox/private/orders"
    );
    let body = prepare_post_order(
        CreateOrderRequest::new(
            "HTTP mock",
            Amount::parse("KUDOS:1").unwrap(),
            "https://example.com/thanks",
        )
        .with_order_id(order_id),
    )
    .unwrap();
    assert_eq!(body.create_token, Some(false));
    assert_eq!(body.order.amount.as_str(), "KUDOS:1");
    assert_eq!(body.order.summary, "HTTP mock");
    assert_eq!(body.order.fulfillment_url, "https://example.com/thanks");
    assert_eq!(body.order.order_id.as_deref(), Some(order_id));
}

#[test]
fn post_order_generates_unguessable_id() {
    let body = prepare_post_order(CreateOrderRequest::new(
        "gen",
        Amount::parse("KUDOS:1").unwrap(),
        "https://example.com/thanks",
    ))
    .unwrap();
    let id = body.order.order_id.unwrap();
    assert!(id.starts_with("o-") && id.len() == 34);
    assert!(taler_merchant::is_unguessable_order_id(&id));
}

#[test]
fn post_order_rejects_empty_summary_and_bad_fulfillment() {
    let err = prepare_post_order(CreateOrderRequest::new(
        "   ",
        Amount::parse("KUDOS:1").unwrap(),
        "https://example.com/thanks",
    ))
    .unwrap_err();
    assert!(matches!(err, MerchantError::Config(_)));

    let err = prepare_post_order(CreateOrderRequest::new(
        "ok",
        Amount::parse("KUDOS:1").unwrap(),
        "javascript:alert(1)",
    ))
    .unwrap_err();
    assert!(matches!(err, MerchantError::Config(_)));
}

#[test]
fn blank_order_id_with_claim_token_is_config_error() {
    let err = prepare_post_order(
        CreateOrderRequest::new("x", Amount::parse("KUDOS:1").unwrap(), "https://e.x/")
            .with_order_id("  ")
            .with_create_token(true),
    )
    .unwrap_err();
    assert_eq!(err, MerchantError::Config("order_id must not be empty".to_string()));
}

#[test]
fn create_order_performs_post_then_status_get() {
    let order_id = "o-aaaaaaaaaaaaaaaaaaaaaaaaaaaaaaaa";
    let expected_uri = format!("taler://pay/example.test/{order_id}/");
    let created = finish_create_order(posted(order_id), Ok(unpaid(order_id, &expected_uri))).unwrap();
    assert_eq!(created.order_id, order_id);
    assert_eq!(created.order_status_str(), "unpaid");
    assert_eq!(created.taler_pay_uri(), expected_uri);
    assert_eq!(
        created.order_status_url(),
        format!("https://example.test/orders/{order_id}")
    );
}

#[test]
fn create_order_keeps_claim_token() {
    let order_id = "42";
    let mut resp = posted(order_id);
    resp.token = Some(ClaimToken::new("claim-secret-value"));
    let created = finish_create_order(resp, Ok(unpaid(order_id, "taler://pay/x/42/"))).unwrap();
    assert_eq!(created.token.as_ref().unwrap().as_str(), "claim-secret-value");
}

#[test]
fn create_order_orphan_when_status_get_fails() {
    let order_id = "o-bbbbbbbbbbbbbbbbbbbbbbbbbbbbbbbb";
    let cause = MerchantError::from_http(500, r#"{"code":1,"hint":"backend down"}"#);
    let err = finish_create_order(posted(order_id), Err(cause)).err().unwrap();

    assert!(err.source().is_some());
    match &err {
        MerchantError::CreatedButStatusFailed {
            order_id: oid,
            cause,
        } => {
            assert_eq!(oid, order_id);
            assert!(
                matches!(cause.as_ref(), MerchantError::Http { status: 500, .. })
                    || cause.to_string().contains("500")
                    || cause.to_string().contains("backend")
            );
        }
        other => panic!("expected CreatedButStatusFailed, got {other:?}"),
    }
    assert_eq!(
        err.to_string(),
        format!(
            "order {order_id} was created but status fetch failed: merchant backend HTTP 500 (code 1): backend down"
        )
    );
}

#[test]
fn create_order_rejects_non_unpaid_status() {
    let order_id = "o-cccccccccccccccccccccccccccccccc";
    let err = finish_create_order(posted(order_id), Ok(claimed(order_id))).err().unwrap();
    match err {
        MerchantError::UnexpectedOrderStatus {
            order_id: oid, got, ..
        } => {
            assert_eq!(oid, order_id);
            assert_eq!(got, "claimed");
        }
        other => panic!("expected UnexpectedOrderStatus, got {other:?}"),
    }
}

#[test]
fn create_order_rejects_empty_pay_uri() {
    let order_id = "o-ffffffffffffffffffffffffffffffff";
    let err = finish_create_order(posted(order_id), Ok(unpaid(order_id, "   "))).err().unwrap();
    assert!(matches!(err, MerchantError::UnexpectedOrderStatus { .. }));
}

#[test]
fn get_order_status_encodes_path_and_maps_paid() {
    let q = StatusQuery {
        timeout_ms: Some(5000),
        session_id: None,
    };
    assert_eq!(
        order_status_request_url("http://127.0.0.1:1/instances/sandbox/", "o-paidpaidpaidpaidpaidpaidpaidpaid", &q)
            .unwrap(),
        "http://127.0.0.1:1/instances/sandbox/private/orders/o-paidpaidpaidpaidpaidpaidpaidpaid?timeout_ms=5000"
    );
}

#[test]
fn get_order_status_encodes_session_id_query() {
    let q = StatusQuery {
        timeout_ms: Some(7),
        session_id: Some("ab c".into()),
    };
    assert_eq!(
        order_status_request_url("https://b.example/i/", "a/b c", &q).unwrap(),
        "https://b.example/i/private/orders/a%2Fb%20c?timeout_ms=7&session_id=ab+c"
    );
    let q = StatusQuery {
        timeout_ms: None,
        session_id: Some("ab c".into()),
    };
    assert_eq!(
        order_status_request_url("https://b.example/i", "x", &q).unwrap(),
        "https://b.example/i/private/orders/x?session_id=ab+c"
    );
    let q = StatusQuery {
        timeout_ms: None,
        session_id: Some(String::new()),
    };
    assert_eq!(
        order_status_request_url("https://b.example/i", "x", &q).unwrap(),
        "https://b.example/i/private/orders/x"
    );
    assert!(order_status_request_url("https://b.example/i", " ", &StatusQuery::default()).is_err());
}

#[test]
fn not_found_maps_to_typed_error() {
    let err = check_http_status(404, None, r#"{ "code": 52, "hint": "unknown order" }"#).unwrap_err();
    match err {
        MerchantError::NotFound { status, hint } => {
            assert_eq!(status, 404);
            assert_eq!(hint.as_deref(), Some("unknown order"));
        }
        other => panic!("expected NotFound, got {other:?}"),
    }
}

#[test]
fn conflict_maps_to_typed_error() {
    let err = check_http_status(409, None, r#"{"code": 53, "hint": "order already exists"}"#).unwrap_err();
    match err {
        MerchantError::Conflict { status, hint } => {
            assert_eq!(status, 409);
            assert_eq!(hint.as_deref(), Some("order already exists"));
        }
        other => panic!("expected Conflict, got {other:?}"),
    }
}

#[test]
fn unauthorized_maps_to_typed_error() {
    let err = check_http_status(401, None, r#"{"code": 50, "hint": "unauthorized"}"#).unwrap_err();
    match err {
        MerchantError::Unauthorized { status, hint } => {
            assert_eq!(status, 401);
            assert_eq!(hint.as_deref(), Some("unauthorized"));
        }
        other => panic!("expected Unauthorized, got {other:?}"),
    }
}

#[test]
fn redirect_is_refused_and_not_followed() {
    let err = check_http_status(302, Some("https://evil.example/steal".to_string()), "").unwrap_err();
    match err {
        MerchantError::RedirectDisallowed { status, location } => {
            assert_eq!(status, 302);
            assert_eq!(location.as_deref(), Some("https://evil.example/steal"));
        }
        other => panic!("expected RedirectDisallowed, got {other:?}"),
    }
    assert!(check_http_status(200, None, "").is_ok());
}

#[test]
fn malformed_json_200_is_protocol_error() {
    let err = decode_error("expected value at line 1 column 1", "not-json{");
    assert!(matches!(err, MerchantError::Protocol(_)));
    assert_eq!(
        err,
        MerchantError::Protocol(
            "failed to decode JSON response: expected value at line 1 column 1; body=not-json{".to_string()
        )
    );
    let long = "x".repeat(300);
    match decode_error("d", &long) {
        MerchantError::Protocol(m) => assert!(m.ends_with(&format!("{}…", "x".repeat(256)))),
        other => panic!("unexpected {other:?}"),
    }
}

#[test]
fn accepts_ipv6_loopback_http() {
    assert_eq!(validate_base_url("http://[::1]:8080/m/"), Ok(()));
    assert!(with_credentials("http://[::1]:8080/m/", "t").is_ok());
    assert!(with_credentials("http://[::1]/", "t").is_ok());
    assert_eq!(
        validate_base_url("http://[::2]/m/").unwrap_err(),
        MerchantError::Config(
            "http:// base_url only allowed for loopback (127.0.0.1/localhost/::1), got host \"[::2]\""
                .to_string()
        )
    );
}

#[test]
fn query_component_is_path_segment_with_plus() {
    for s in ["", "a b", "a+b c", "%20", "  x/y?z#", "caf\u{e9} 20%", "o-abc_1.2~"] {
        let query = percent_encode_query_component(s);
        let path = percent_encode_path_segment(s);
        assert_eq!(query, path.replace("%20", "+"), "{s:?}");
    }
    assert_eq!(percent_encode_query_component("a+b c"), "a%2Bb+c");
    assert_eq!(percent_encode_query_component("%20"), "%2520");
}

#[test]
fn long_poll_read_extra_time() {
    let mut q = StatusQuery::default();
    assert_eq!(taler_merchant::client::long_poll_read_extra_ms(&q), None);
    q.timeout_ms = Some(5000);
    assert_eq!(taler_merchant::client::long_poll_read_extra_ms(&q), Some(6000));
    q.timeout_ms = Some(u64::MAX - 10);
    assert_eq!(taler_merchant::client::long_poll_read_extra_ms(&q), Some(u64::MAX));
}

fn parts(scheme: &str, host: Option<&str>, cannot_be_a_base: bool) -> UrlParts {
    UrlParts { scheme: scheme.to_string(), host: host.map(|h| h.to_string()), cannot_be_a_base }
}

#[test]
fn checks_on_parsed_base_url_parts() {
    assert_eq!(check_base_url_parts(&parts("https", Some("backend.example"), false)), Ok(()));
    assert_eq!(check_base_url_parts(&parts("http", Some("127.0.0.1"), false)), Ok(()));
    assert_eq!(check_base_url_parts(&parts("http", Some("localhost"), false)), Ok(()));
    assert_eq!(check_base_url_parts(&parts("http", Some("[::1]"), false)), Ok(()));
    let no_host = MerchantError::Config(
        "base_url must include a host (e.g. https://backend.example/instances/sandbox/)".to_string(),
    );
    assert_eq!(check_base_url_parts(&parts("https", None, false)), Err(no_host));
    assert!(check_base_url_parts(&parts("https", Some(""), false)).is_err());
    assert!(check_base_url_parts(&parts("https", Some("h"), true)).is_err());
    assert_eq!(
        check_base_url_parts(&parts("http", Some("::1"), false)),
        Err(MerchantError::Config(
            "http:// base_url only allowed for loopback (127.0.0.1/localhost/::1), got host \"::1\""
                .to_string()
        ))
    );
    assert_eq!(
        check_base_url_parts(&parts("ftp", Some("h"), false)),
        Err(MerchantError::Config(
            "base_url scheme must be https (or http for loopback tests), got \"ftp\"".to_string()
        ))
    );
}

#[test]
fn checks_on_parsed_fulfillment_url_parts() {
    assert_eq!(check_fulfillment_url_parts(&parts("https", Some("shop.example"), false)), Ok(()));
    assert_eq!(check_fulfillment_url_parts(&parts("http", Some("shop.example"), false)), Ok(()));
    assert_eq!(
        check_fulfillment_url_parts(&parts("javascript", None, true)),
        Err(MerchantError::Config("fulfillment_url must be an absolute URL with a host".to_string()))
    );
    assert_eq!(
        check_fulfillment_url_parts(&parts("ftp", Some("h"), false)),
        Err(MerchantError::Config("fulfillment_url scheme must be http or https, got \"ftp\"".to_string()))
    );
}
