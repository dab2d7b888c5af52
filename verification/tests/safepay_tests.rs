use base64::Engine;
use closhell_payment_gateway::gateways::safepay::{
    SafepayCheckoutStep, SafepayWebhookData, SafepayWebhookPayload,
};
use closhell_payment_gateway::keyed::NameMap;
use closhell_payment_gateway::{
    CheckoutParams, Currency, GatewayError, JsonValue, SafepayGateway, SubscriptionInterval,
    WebhookEventType, WebhookHeaders,
};
use hmac::{Hmac, Mac};
use sha2::Sha256;

const SECRET: &str = "d2ViaG9vay1rZXk=";
const BODY: &str = r#"{"type":"payment.completed"}"#;

fn params(metadata: NameMap<String>) -> CheckoutParams {
    CheckoutParams {
        customer_email: "user@example.com".to_string(),
        customer_id: None,
        plan_name: "Professional".to_string(),
        tier: "professional".to_string(),
        interval: SubscriptionInterval::Monthly,
        seats: 1,
        unit_amount: 2999,
        currency: Currency::PKR,
        success_url: "https://example.com/success".to_string(),
        cancel_url: "https://example.com/cancel".to_string(),
        client_reference_id: "user-1".to_string(),
        metadata,
    }
}

fn headers(ts: &str, sig: &str) -> WebhookHeaders {
    let mut h = WebhookHeaders::new(String::new());
    h.raw.push(("X-SFPY-TIMESTAMP".to_string(), ts.to_string()));
    h.raw.push(("X-SFPY-SIGNATURE".to_string(), sig.to_string()));
    h
}

fn sign(secret_b64: &str, ts: &str, body: &str) -> String {
    let key = base64::prelude::BASE64_STANDARD.decode(secret_b64).unwrap();
    let mut mac = Hmac::<Sha256>::new_from_slice(&key).unwrap();
    mac.update(format!("{}.{}", ts, body).as_bytes());
    hex::encode(mac.finalize().into_bytes())
}

fn verification_message(r: Result<String, GatewayError>) -> Option<String> {
    match r {
        Err(GatewayError::WebhookVerificationFailed(m)) => Some(m),
        _ => None,
    }
}

#[test]
fn new_lowercases_environment() {
    let g = SafepayGateway::new("key".to_string(), "secret".to_string(), "PRODUCTION".to_string());
    assert_eq!(g.environment, "production");
    assert_eq!(g.api_key, "key");
    assert_eq!(g.webhook_secret, "secret");
}

#[test]
fn plan_checkout_redirects_to_hosted_subscription_page() {
    let g = SafepayGateway::new("key".to_string(), String::new(), "sandbox".to_string());
    let mut m = NameMap::new();
    m.insert("plan_id".to_string(), "plan 1".to_string());
    m.insert("safepay_plan_id".to_string(), "plan_123".to_string());
    match g.begin_checkout(&params(m)) {
        SafepayCheckoutStep::Redirect(r) => {
            assert_eq!(
                r.checkout_url,
                "https://sandbox.api.getsafepay.com/checkout/pay?env=sandbox&plan_id=plan_123&planId=plan_123&reference=user-1&redirect_url=https%3A%2F%2Fexample.com%2Fsuccess&cancel_url=https%3A%2F%2Fexample.com%2Fcancel&source=custom&webhooks=true"
            );
            assert_eq!(r.gateway, "safepay");
            assert_eq!(r.session_id, "user-1");
        }
        _ => panic!("expected a redirect"),
    }
}

#[test]
fn plan_id_key_is_the_fallback() {
    let g = SafepayGateway::new("key".to_string(), String::new(), "production".to_string());
    let mut m = NameMap::new();
    m.insert("plan_id".to_string(), "plan é".to_string());
    match g.begin_checkout(&params(m)) {
        SafepayCheckoutStep::Redirect(r) => assert_eq!(
            r.checkout_url,
            "https://getsafepay.com/checkout/pay?env=production&plan_id=plan%20%C3%A9&planId=plan%20%C3%A9&reference=user-1&redirect_url=https%3A%2F%2Fexample.com%2Fsuccess&cancel_url=https%3A%2F%2Fexample.com%2Fcancel&source=custom&webhooks=true"
        ),
        _ => panic!("expected a redirect"),
    }
}

#[test]
fn one_time_checkout_needs_an_order_first() {
    let g = SafepayGateway::new("key".to_string(), String::new(), "Sandbox".to_string());
    match g.begin_checkout(&params(NameMap::new())) {
        SafepayCheckoutStep::InitOrder(o) => {
            assert_eq!(o.url, "https://sandbox.api.getsafepay.com/order/v1/init");
            assert_eq!(o.client, "key");
            assert_eq!(o.unit_amount, 2999);
            assert_eq!(o.currency, "PKR");
            assert_eq!(o.environment, "sandbox");
        }
        _ => panic!("expected an order"),
    }
    let prod = SafepayGateway::new("k".to_string(), String::new(), "production".to_string());
    match prod.begin_checkout(&params(NameMap::new())) {
        SafepayCheckoutStep::InitOrder(o) => {
            assert_eq!(o.url, "https://api.getsafepay.com/order/v1/init");
            assert_eq!(o.environment, "production");
        }
        _ => panic!("expected an order"),
    }
}

#[test]
fn completed_order_checkout_url() {
    let g = SafepayGateway::new("key".to_string(), String::new(), "sandbox".to_string());
    let r = g.complete_checkout(&params(NameMap::new()), "track_1".to_string());
    assert_eq!(
        r.checkout_url,
        "https://sandbox.api.getsafepay.com/checkout/pay?env=sandbox&beacon=track_1&order_id=user-1&redirect_url=https%3A%2F%2Fexample.com%2Fsuccess&cancel_url=https%3A%2F%2Fexample.com%2Fcancel&source=custom&webhooks=true"
    );
    assert_eq!(r.session_id, "track_1");
    assert_eq!(r.gateway, "safepay");
}

#[test]
fn query_values_keep_only_unreserved_bytes() {
    let g = SafepayGateway::new("key".to_string(), String::new(), "sandbox".to_string());
    let r = g.complete_checkout(&params(NameMap::new()), "a-b.c_d~E9+f&g/h ü".to_string());
    assert!(r.checkout_url.contains("beacon=a-b.c_d~E9%2Bf%26g%2Fh%20%C3%BC&order_id="));
}

#[test]
fn init_failure_message() {
    match SafepayGateway::init_failed("https://x/order/v1/init", "bad request") {
        GatewayError::CheckoutFailed(m) => assert_eq!(m, "Safepay init failed (https://x/order/v1/init): bad request"),
        _ => panic!("wrong kind"),
    }
}

#[test]
fn correctly_signed_webhook_is_accepted() {
    let g = SafepayGateway::new("key".to_string(), SECRET.to_string(), "sandbox".to_string());
    let expected = "3d83479f613695ab2f4edfacb4a72e11b9a91862e30de44525aae85e89106015";
    assert_eq!(sign(SECRET, "1700000000", BODY), expected);
    let ok = g.verify_webhook(BODY.as_bytes(), &headers("1700000000", expected));
    assert_eq!(ok.ok().as_deref(), Some(BODY));
    let prefixed = format!("sha256={}", expected);
    let ok2 = g.verify_webhook(BODY.as_bytes(), &headers("1700000000", &prefixed));
    assert_eq!(ok2.ok().as_deref(), Some(BODY));
}

#[test]
fn wrongly_signed_webhook_is_refused() {
    let g = SafepayGateway::new("key".to_string(), SECRET.to_string(), "sandbox".to_string());
    let sig = sign(SECRET, "1700000001", BODY);
    let r = g.verify_webhook(BODY.as_bytes(), &headers("1700000000", &sig));
    assert_eq!(verification_message(r), Some("Signature mismatch".to_string()));
    let upper = sign(SECRET, "1700000000", BODY).to_uppercase();
    let r2 = g.verify_webhook(BODY.as_bytes(), &headers("1700000000", &upper));
    assert_eq!(verification_message(r2), Some("Signature mismatch".to_string()));
}

#[test]
fn missing_headers_are_refused() {
    let g = SafepayGateway::new("key".to_string(), SECRET.to_string(), "sandbox".to_string());
    let r = g.verify_webhook(BODY.as_bytes(), &WebhookHeaders::new(String::new()));
    assert_eq!(verification_message(r), Some("Missing X-SFPY-TIMESTAMP header".to_string()));
    let mut h = WebhookHeaders::new(String::new());
    h.raw.push(("x-sfpy-timestamp".to_string(), "1".to_string()));
    let r2 = g.verify_webhook(BODY.as_bytes(), &h);
    assert_eq!(verification_message(r2), Some("Missing X-SFPY-SIGNATURE header".to_string()));
}

#[test]
fn bad_secret_and_bad_utf8() {
    let g = SafepayGateway::new("key".to_string(), "***".to_string(), "sandbox".to_string());
    let r = g.verify_webhook(BODY.as_bytes(), &headers("1", "00"));
    let m = verification_message(r).unwrap();
    assert!(m.starts_with("Failed to decode webhook secret: "));
    let r2 = g.verify_webhook(&[0xff, 0xfe], &headers("1", "00"));
    match r2 {
        Err(GatewayError::WebhookProcessingFailed(m)) => assert!(m.starts_with("Invalid UTF-8 payload: ")),
        _ => panic!("expected a processing failure"),
    }
}

#[test]
fn no_secret_means_no_check() {
    let g = SafepayGateway::new("key".to_string(), String::new(), "sandbox".to_string());
    let r = g.verify_webhook(BODY.as_bytes(), &headers("1", "whatever"));
    assert_eq!(r.ok().as_deref(), Some(BODY));
}

fn payload(event_type: &str, data: Option<SafepayWebhookData>) -> SafepayWebhookPayload {
    SafepayWebhookPayload {
        event_type: event_type.to_string(),
        id: None,
        tracker: None,
        reference: Some("ref-1".to_string()),
        amount: None,
        currency: None,
        data,
    }
}

#[test]
fn completed_payment_maps_to_checkout_completed() {
    let mut m = NameMap::new();
    m.insert("tier".to_string(), "team".to_string());
    m.insert("seats".to_string(), "5".to_string());
    let data = SafepayWebhookData {
        tracker: Some("track_9".to_string()),
        reference: Some("ignored".to_string()),
        amount: None,
        currency: Some("USD".to_string()),
        metadata: Some(m),
    };
    match SafepayGateway::webhook_event(payload("payment.completed", Some(data)), 150000, JsonValue::Null) {
        WebhookEventType::CheckoutCompleted(d) => {
            assert_eq!(d.session_id, "track_9");
            assert_eq!(d.client_reference_id.as_deref(), Some("ref-1"));
            assert_eq!(d.amount_total, 150000);
            assert_eq!(d.currency, "USD");
            assert_eq!(d.tier, "team");
            assert_eq!(d.interval, "monthly");
            assert_eq!(d.seats, Some(5));
            assert!(d.customer_id.is_none());
            assert!(d.subscription_id.is_none());
            assert_eq!(d.metadata.len(), 2);
        }
        _ => panic!("expected a completed checkout"),
    }
}

#[test]
fn completed_payment_defaults() {
    match SafepayGateway::webhook_event(payload("payment.completed", None), 0, JsonValue::Null) {
        WebhookEventType::CheckoutCompleted(d) => {
            assert_eq!(d.session_id, "");
            assert_eq!(d.currency, "PKR");
            assert_eq!(d.tier, "pro");
            assert_eq!(d.interval, "monthly");
            assert_eq!(d.seats, None);
            assert_eq!(d.metadata.len(), 0);
        }
        _ => panic!("expected a completed checkout"),
    }
}

#[test]
fn failed_and_rejected_payments() {
    for t in ["payment.failed", "payment.rejected"] {
        match SafepayGateway::webhook_event(payload(t, None), 0, JsonValue::Null) {
            WebhookEventType::InvoicePaymentFailed { invoice_id, subscription_id } => {
                assert_eq!(invoice_id, "ref-1");
                assert!(subscription_id.is_none());
            }
            _ => panic!("expected a failed payment"),
        }
    }
}

#[test]
fn other_events_are_forwarded() {
    let raw = JsonValue::parse(r#"{"type":"refund.created"}"#).unwrap();
    match SafepayGateway::webhook_event(payload("refund.created", None), 0, raw) {
        WebhookEventType::Unknown { event_type, raw_data } => {
            assert_eq!(event_type, "refund.created");
            assert_eq!(raw_data.get("type").and_then(|t| t.as_str()), Some("refund.created"));
        }
        _ => panic!("expected an unknown event"),
    }
}

#[test]
fn safepay_subscription_operations_are_unsupported() {
    let g = SafepayGateway::new("k".to_string(), String::new(), "sandbox".to_string());
    match g.get_subscription("sub_2") {
        Err(GatewayError::SubscriptionFailed(m)) => {
            assert_eq!(m, "Safepay does not support retrieving subscription details")
        }
        other => panic!("unexpected {:?}", other),
    }
    for at_end in [true, false] {
        match g.cancel_subscription("sub_2", at_end) {
            Err(GatewayError::SubscriptionFailed(m)) => assert_eq!(
                m,
                "Safepay subscriptions can only be cancelled from the Safepay dashboard"
            ),
            other => panic!("unexpected {:?}", other),
        }
    }
}

#[test]
fn safepay_info() {
    let g = SafepayGateway::new("k".to_string(), String::new(), "sandbox".to_string());
    let i = g.gateway_info();
    assert_eq!(i.name, "safepay");
    assert_eq!(i.display_name, "Safepay");
    assert_eq!(i.supported_currencies, &["pkr", "usd"]);
    assert!(i.supports_subscriptions && i.supports_one_time);
}

#[test]
fn valid_signature_gives_the_same_outcome_as_no_secret() {
    let signed = SafepayGateway::new("key".to_string(), SECRET.to_string(), "sandbox".to_string());
    let open = SafepayGateway::new("key".to_string(), String::new(), "sandbox".to_string());
    let sig = sign(SECRET, "1700000000", BODY);
    let h = headers("1700000000", &format!("sha256={}", sig));
    assert_eq!(
        format!("{:?}", signed.verify_webhook(BODY.as_bytes(), &h)),
        format!("{:?}", open.verify_webhook(BODY.as_bytes(), &h))
    );
}

#[test]
fn environment_hosts() {
    let prod = SafepayGateway::new("k".to_string(), String::new(), "Production".to_string());
    assert_eq!(prod.api_base(), "https://api.getsafepay.com");
    assert_eq!(prod.checkout_base(), "https://getsafepay.com/checkout/pay");
    let sandbox = SafepayGateway::new("k".to_string(), String::new(), "anything".to_string());
    assert_eq!(sandbox.api_base(), "https://sandbox.api.getsafepay.com");
    assert_eq!(sandbox.checkout_base(), "https://sandbox.api.getsafepay.com/checkout/pay");
}
