use taler_merchant::{
    Amount, CheckPaymentPaid, CheckPaymentUnpaid, ContractTerms, MerchantOrderStatus, OrderStatus,
    StatusQuery, Timestamp,
};

fn terms(summary: &str) -> ContractTerms {
    ContractTerms {
        summary: summary.to_string(),
        amount: Some(Amount::parse("KUDOS:1").unwrap()),
        extra: serde_json::Map::new(),
    }
}

fn unpaid(summary: Option<&str>, proto: Option<&str>) -> MerchantOrderStatus {
    MerchantOrderStatus::Unpaid(CheckPaymentUnpaid {
        taler_pay_uri: "taler://pay/x/o/".to_string(),
        order_status_url: "https://x/orders/o".to_string(),
        creation_time: Timestamp { t_s: None },
        pay_deadline: None,
        summary: summary.map(str::to_string),
        proto_contract_terms: proto.map(terms),
        total_amount: None,
        already_paid_order_id: None,
        already_paid_fulfillment_url: None,
        extra: serde_json::Map::new(),
    })
}

fn paid() -> MerchantOrderStatus {
    MerchantOrderStatus::Paid(CheckPaymentPaid {
        refunded: false,
        refund_pending: false,
        wired: true,
        deposit_total: Amount::parse("KUDOS:1").unwrap(),
        exchange_code: 0,
        exchange_http_status: 0,
        refund_amount: Amount::parse("KUDOS:0").unwrap(),
        contract_terms: terms("Paid mock"),
        last_payment: Timestamp { t_s: Some(serde_json::Value::from(1700000100)) },
        wire_details: vec![],
        refund_details: vec![],
        refunds_external: vec![],
        order_status_url: "https://example.test/orders/o-paid".to_string(),
        choice_index: None,
        extra: serde_json::Map::new(),
    })
}

#[test]
fn status_accessors() {
    let u = unpaid(Some("Donation"), Some("Proto"));
    assert_eq!(u.as_str(), "unpaid");
    assert!(!u.is_paid());
    assert_eq!(u.taler_pay_uri(), Some("taler://pay/x/o/"));
    assert_eq!(u.order_status_url(), Some("https://x/orders/o"));
    assert_eq!(u.summary(), Some("Donation"));
    assert_eq!(unpaid(None, Some("Proto")).summary(), Some("Proto"));
    assert_eq!(unpaid(None, None).summary(), None);

    let p = paid();
    assert_eq!(p.as_str(), "paid");
    assert!(p.is_paid());
    assert_eq!(p.taler_pay_uri(), None);
    assert_eq!(p.summary(), Some("Paid mock"));
    assert_eq!(p.order_status_url(), Some("https://example.test/orders/o-paid"));

    let s = OrderStatus {
        order_id: "o".to_string(),
        status: p.clone(),
    };
    assert_eq!(s.order_status(), "paid");
    assert_eq!(s.taler_pay_uri(), None);
    assert_eq!(s.order_status_url(), Some("https://example.test/orders/o-paid"));
    assert_eq!(s.summary(), Some("Paid mock"));
    assert_eq!(s.status, p);
}

#[test]
fn status_query_default_is_empty() {
    let q = StatusQuery::default();
    assert!(q.timeout_ms.is_none());
    assert!(q.session_id.is_none());
}
