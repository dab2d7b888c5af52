use closhell_payment_gateway::gateways::stripe::{
    map_currency, map_stripe_status, StripeCancellation, StripeCurrency, StripeInterval,
    StripeSignatureCheck, StripeSubscriptionFields, StripeSubscriptionStatus,
};
use closhell_payment_gateway::keyed::NameMap;
use closhell_payment_gateway::{
    CheckoutParams, Currency, GatewayError, JsonValue, StripeGateway, SubscriptionInterval,
    SubscriptionStatus, WebhookEventType,
};

fn gateway(secret: &str) -> StripeGateway {
    StripeGateway::new("sk_test_1".to_string(), secret.to_string())
}

fn event(text: &str) -> Result<WebhookEventType, GatewayError> {
    StripeGateway::event_from_json(JsonValue::parse(text).unwrap())
}

#[test]
fn new_keeps_keys() {
    let g = gateway("whsec_1");
    assert_eq!(g.secret_key(), "sk_test_1");
    assert_eq!(g.webhook_secret(), "whsec_1");
    assert!(g.checks_signatures());
    assert!(!gateway("").checks_signatures());
    assert!(!gateway("whsec_placeholder").checks_signatures());
}

#[test]
fn checkout_request_names_product_by_seats() {
    let mut m = NameMap::new();
    m.insert("tier".to_string(), "team".to_string());
    let params = CheckoutParams {
        customer_email: "user@example.com".to_string(),
        customer_id: None,
        plan_name: "Team".to_string(),
        tier: "team".to_string(),
        interval: SubscriptionInterval::Yearly,
        seats: 12,
        unit_amount: 4999,
        currency: Currency::PKR,
        success_url: "https://s".to_string(),
        cancel_url: "https://c".to_string(),
        client_reference_id: "ref".to_string(),
        metadata: m,
    };
    let r = gateway("x").checkout_request(params.clone());
    assert_eq!(r.product_name, "Team (12 Seats)");
    assert_eq!(r.interval, StripeInterval::Year);
    assert_eq!(r.currency, StripeCurrency::USD);
    assert_eq!(r.unit_amount, 4999);
    assert_eq!(r.quantity, 1);
    assert_eq!(r.customer_email, "user@example.com");
    assert_eq!(r.client_reference_id, "ref");
    assert_eq!(r.metadata.get("tier").map(|s| s.as_str()), Some("team"));
    let mut one = params;
    one.seats = 1;
    one.interval = SubscriptionInterval::Monthly;
    one.currency = Currency::EUR;
    let r1 = gateway("x").checkout_request(one);
    assert_eq!(r1.product_name, "Team (1 Seat)");
    assert_eq!(r1.interval, StripeInterval::Month);
    assert_eq!(r1.currency, StripeCurrency::EUR);
}

#[test]
fn currencies_map_with_usd_fallback() {
    assert_eq!(map_currency(&Currency::USD), StripeCurrency::USD);
    assert_eq!(map_currency(&Currency::GBP), StripeCurrency::GBP);
    assert_eq!(map_currency(&Currency::CAD), StripeCurrency::CAD);
    assert_eq!(map_currency(&Currency::AUD), StripeCurrency::AUD);
    assert_eq!(map_currency(&Currency::INR), StripeCurrency::INR);
    assert_eq!(map_currency(&Currency::PKR), StripeCurrency::USD);
    assert_eq!(map_currency(&Currency::Other("jpy".to_string())), StripeCurrency::USD);
}

#[test]
fn statuses_map() {
    assert_eq!(map_stripe_status(StripeSubscriptionStatus::Active), SubscriptionStatus::Active);
    assert_eq!(map_stripe_status(StripeSubscriptionStatus::PastDue), SubscriptionStatus::PastDue);
    assert_eq!(map_stripe_status(StripeSubscriptionStatus::Trialing), SubscriptionStatus::Trialing);
    assert_eq!(map_stripe_status(StripeSubscriptionStatus::Canceled), SubscriptionStatus::Cancelled);
    assert_eq!(map_stripe_status(StripeSubscriptionStatus::Incomplete), SubscriptionStatus::Incomplete);
    assert_eq!(map_stripe_status(StripeSubscriptionStatus::Unpaid), SubscriptionStatus::Unknown("unpaid".to_string()));
    assert_eq!(map_stripe_status(StripeSubscriptionStatus::IncompleteExpired), SubscriptionStatus::Unknown("incomplete_expired".to_string()));
    assert_eq!(map_stripe_status(StripeSubscriptionStatus::Paused), SubscriptionStatus::Unknown("paused".to_string()));
}

#[test]
fn checkout_result_defaults_url() {
    let r = StripeGateway::checkout_result(None, "cs_1".to_string());
    assert_eq!(r.checkout_url, "");
    assert_eq!(r.gateway, "stripe");
    assert_eq!(r.session_id, "cs_1");
    let r2 = StripeGateway::checkout_result(Some("https://pay".to_string()), "cs_2".to_string());
    assert_eq!(r2.checkout_url, "https://pay");
}

#[test]
fn checkout_completed_event() {
    let r = event(r#"{"type":"checkout.session.completed","data":{"object":{"id":"cs_1","customer":"cus_1","subscription":"sub_1","amount_total":2999,"currency":"eur","client_reference_id":"user-1","metadata":{"tier":"team","interval":"yearly","seats":"3"}}}}"#);
    match r {
        Ok(WebhookEventType::CheckoutCompleted(d)) => {
            assert_eq!(d.session_id, "cs_1");
            assert_eq!(d.customer_id.as_deref(), Some("cus_1"));
            assert_eq!(d.subscription_id.as_deref(), Some("sub_1"));
            assert_eq!(d.amount_total, 2999);
            assert_eq!(d.currency, "eur");
            assert_eq!(d.tier, "team");
            assert_eq!(d.interval, "yearly");
            assert_eq!(d.client_reference_id.as_deref(), Some("user-1"));
            assert_eq!(d.seats, Some(3));
            assert_eq!(d.metadata.len(), 3);
        }
        _ => panic!("expected a completed checkout"),
    }
}

#[test]
fn checkout_completed_defaults_and_user_id_fallback() {
    let r = event(r#"{"type":"checkout.session.completed","data":{"object":{"metadata":{"user_id":"u-9","seats":"many"}}}}"#);
    match r {
        Ok(WebhookEventType::CheckoutCompleted(d)) => {
            assert_eq!(d.session_id, "");
            assert!(d.customer_id.is_none());
            assert_eq!(d.amount_total, 0);
            assert_eq!(d.currency, "usd");
            assert_eq!(d.tier, "pro");
            assert_eq!(d.interval, "monthly");
            assert_eq!(d.client_reference_id.as_deref(), Some("u-9"));
            assert_eq!(d.seats, None);
        }
        _ => panic!("expected a completed checkout"),
    }
    let mixed = event(r#"{"type":"checkout.session.completed","data":{"object":{"metadata":{"tier":"gold","n":1}}}}"#);
    match mixed {
        Ok(WebhookEventType::CheckoutCompleted(d)) => {
            assert_eq!(d.tier, "gold");
            assert_eq!(d.metadata.len(), 0);
        }
        _ => panic!("expected a completed checkout"),
    }
}

#[test]
fn checkout_completed_without_object_is_an_error() {
    match event(r#"{"type":"checkout.session.completed","data":{}}"#) {
        Err(GatewayError::WebhookProcessingFailed(m)) => assert_eq!(m, "Missing data.object in checkout.session.completed"),
        _ => panic!("expected an error"),
    }
}

#[test]
fn subscription_events() {
    match event(r#"{"type":"customer.subscription.deleted","data":{"object":{"id":"sub_1"}}}"#) {
        Ok(WebhookEventType::SubscriptionDeleted(d)) => assert_eq!(d.subscription_id, "sub_1"),
        _ => panic!("expected a deletion"),
    }
    match event(r#"{"type":"customer.subscription.deleted"}"#) {
        Ok(WebhookEventType::SubscriptionDeleted(d)) => assert_eq!(d.subscription_id, ""),
        _ => panic!("expected a deletion"),
    }
    match event(r#"{"type":"customer.subscription.updated","data":{"object":{"id":"sub_2","status":"past_due"}}}"#) {
        Ok(WebhookEventType::SubscriptionUpdated { subscription_id, status }) => {
            assert_eq!(subscription_id, "sub_2");
            assert_eq!(status, "past_due");
        }
        _ => panic!("expected an update"),
    }
    match event(r#"{"type":"customer.subscription.updated","data":{"object":{"id":"sub_2"}}}"#) {
        Ok(WebhookEventType::SubscriptionUpdated { status, .. }) => assert_eq!(status, "unknown"),
        _ => panic!("expected an update"),
    }
}

#[test]
fn invoice_events() {
    match event(r#"{"type":"invoice.paid","data":{"object":{"id":"in_1","subscription":"sub_1","amount_paid":500,"currency":"gbp"}}}"#) {
        Ok(WebhookEventType::InvoicePaid { invoice_id, subscription_id, amount_paid, currency }) => {
            assert_eq!(invoice_id, "in_1");
            assert_eq!(subscription_id.as_deref(), Some("sub_1"));
            assert_eq!(amount_paid, 500);
            assert_eq!(currency, "gbp");
        }
        _ => panic!("expected a paid invoice"),
    }
    match event(r#"{"type":"invoice.paid","data":{"object":{"id":"in_2","amount_paid":"500"}}}"#) {
        Ok(WebhookEventType::InvoicePaid { subscription_id, amount_paid, currency, .. }) => {
            assert!(subscription_id.is_none());
            assert_eq!(amount_paid, 0);
            assert_eq!(currency, "usd");
        }
        _ => panic!("expected a paid invoice"),
    }
    match event(r#"{"type":"invoice.payment_failed","data":{"object":{"id":"in_3","subscription":"sub_3"}}}"#) {
        Ok(WebhookEventType::InvoicePaymentFailed { invoice_id, subscription_id }) => {
            assert_eq!(invoice_id, "in_3");
            assert_eq!(subscription_id.as_deref(), Some("sub_3"));
        }
        _ => panic!("expected a failed payment"),
    }
}

#[test]
fn unknown_events_are_forwarded_whole() {
    match event(r#"{"type":"charge.refunded","data":{"object":{"id":"ch_1"}}}"#) {
        Ok(WebhookEventType::Unknown { event_type, raw_data }) => {
            assert_eq!(event_type, "charge.refunded");
            assert_eq!(raw_data.get("data").and_then(|d| d.get("object")).and_then(|o| o.get("id")).and_then(|i| i.as_str()), Some("ch_1"));
        }
        _ => panic!("expected an unknown event"),
    }
    match event(r#"{"id":"evt_1"}"#) {
        Ok(WebhookEventType::Unknown { event_type, .. }) => assert_eq!(event_type, ""),
        _ => panic!("expected an unknown event"),
    }
}

#[test]
fn webhook_checks_in_order() {
    let g = gateway("whsec_1");
    let body = r#"{"type":"invoice.paid","data":{"object":{"id":"in_1"}}}"#;
    match g.parse_webhook(&[0xc3, 0x28], StripeSignatureCheck::Valid) {
        Err(GatewayError::WebhookProcessingFailed(m)) => assert!(!m.is_empty()),
        _ => panic!("expected a UTF-8 failure"),
    }
    match g.parse_webhook(b"not json", StripeSignatureCheck::Valid) {
        Err(GatewayError::WebhookProcessingFailed(m)) => assert!(!m.is_empty()),
        _ => panic!("expected a JSON failure"),
    }
    match g.parse_webhook(body.as_bytes(), StripeSignatureCheck::Rejected("error comparing signatures".to_string())) {
        Err(GatewayError::WebhookVerificationFailed(m)) => assert_eq!(m, "error comparing signatures"),
        _ => panic!("expected a refusal"),
    }
    assert!(matches!(g.parse_webhook(body.as_bytes(), StripeSignatureCheck::EventUnreadable), Ok(WebhookEventType::InvoicePaid { .. })));
    assert!(matches!(g.parse_webhook(body.as_bytes(), StripeSignatureCheck::Valid), Ok(WebhookEventType::InvoicePaid { .. })));
}

#[test]
fn unchecked_webhooks_ignore_the_check() {
    let g = gateway("whsec_placeholder");
    let body = r#"{"type":"invoice.payment_failed","data":{"object":{"id":"in_1"}}}"#;
    assert!(matches!(g.parse_webhook(body.as_bytes(), StripeSignatureCheck::NotChecked), Ok(WebhookEventType::InvoicePaymentFailed { .. })));
    assert!(matches!(g.parse_webhook(body.as_bytes(), StripeSignatureCheck::Rejected("x".to_string())), Ok(WebhookEventType::InvoicePaymentFailed { .. })));
    let completed = r#"{"type":"checkout.session.completed","data":{"object":{"id":"cs_1","metadata":{"tier":"team","seats":"3"}}}}"#;
    let open = gateway("");
    let verdicts = [
        StripeSignatureCheck::NotChecked,
        StripeSignatureCheck::Valid,
        StripeSignatureCheck::EventUnreadable,
        StripeSignatureCheck::Rejected("bad".to_string()),
    ];
    let outcomes: Vec<String> = verdicts
        .iter()
        .map(|c| format!("{:?}", open.parse_webhook(completed.as_bytes(), c.clone())))
        .collect();
    assert!(outcomes.iter().all(|o| o == &outcomes[0]));
    assert!(outcomes[0].starts_with("Ok(CheckoutCompleted"));
}

fn fields(end: i64) -> StripeSubscriptionFields {
    let mut m = NameMap::new();
    m.insert("tier".to_string(), "team".to_string());
    StripeSubscriptionFields {
        id: "sub_1".to_string(),
        customer_id: "cus_1".to_string(),
        status: StripeSubscriptionStatus::Canceled,
        current_period_end: end,
        metadata: m,
        cancel_at_period_end: true,
    }
}

#[test]
fn subscription_details_from_stripe() {
    let info = StripeGateway::subscription_info_at(fields(1_700_000_000), 5);
    assert_eq!(info.subscription_id, "sub_1");
    assert_eq!(info.customer_id, "cus_1");
    assert_eq!(info.status, SubscriptionStatus::Cancelled);
    assert_eq!(info.current_period_end, 1_700_000_000);
    assert_eq!(info.tier.as_deref(), Some("team"));
    assert!(info.cancel_at_period_end);
    let out_of_range = StripeGateway::subscription_info_at(fields(i64::MAX), 5);
    assert_eq!(out_of_range.current_period_end, 5);
    let live = StripeGateway::subscription_info(fields(1_700_000_000));
    assert_eq!(live.current_period_end, 1_700_000_000);
}

#[test]
fn period_end_range_is_that_of_a_timestamp() {
    let latest = 8_210_266_876_799i64;
    let earliest = -8_334_601_228_800i64;
    assert_eq!(StripeGateway::subscription_info_at(fields(latest), 5).current_period_end, latest);
    assert_eq!(StripeGateway::subscription_info_at(fields(latest + 1), 5).current_period_end, 5);
    assert_eq!(StripeGateway::subscription_info_at(fields(earliest), 5).current_period_end, earliest);
    assert_eq!(StripeGateway::subscription_info_at(fields(earliest - 1), 5).current_period_end, 5);
    assert_eq!(chrono::DateTime::<chrono::Utc>::MIN_UTC.timestamp(), earliest);
    assert_eq!(chrono::DateTime::<chrono::Utc>::MAX_UTC.timestamp(), latest);
    let clocked = StripeGateway::subscription_info(fields(i64::MIN));
    assert!(clocked.current_period_end > 1_700_000_000);
}

#[test]
fn cancellation_kinds() {
    assert_eq!(StripeGateway::cancellation(true), StripeCancellation::AtPeriodEnd);
    assert_eq!(StripeGateway::cancellation(false), StripeCancellation::Immediately);
}

#[test]
fn stripe_info() {
    let i = gateway("").gateway_info();
    assert_eq!(i.name, "stripe");
    assert_eq!(i.display_name, "Stripe");
    assert_eq!(i.supported_currencies, &["usd", "eur", "gbp", "cad", "aud", "inr"]);
    assert!(i.supports_subscriptions && i.supports_one_time);
}
