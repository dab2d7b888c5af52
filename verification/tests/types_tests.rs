use closhell_payment_gateway::clock::{timestamp_of_offset, EARLIEST_TIMESTAMP, LATEST_TIMESTAMP};
use closhell_payment_gateway::keyed::NameMap;
use closhell_payment_gateway::text::{decimal_string, parse_i64, parse_u32};
use closhell_payment_gateway::{
    Currency, GatewayError, SubscriptionInterval, SubscriptionStatus, WebhookHeaders,
};

#[test]
fn retryable_only_internal() {
    assert!(GatewayError::Internal("x".to_string()).is_retryable());
    assert!(!GatewayError::CheckoutFailed("x".to_string()).is_retryable());
    assert!(!GatewayError::GatewayNotConfigured { gateway: "g".to_string() }.is_retryable());
}

#[test]
fn http_status_codes() {
    assert_eq!(GatewayError::GatewayNotConfigured { gateway: "g".to_string() }.http_status_code(), 400);
    assert_eq!(GatewayError::CheckoutFailed("x".to_string()).http_status_code(), 500);
    assert_eq!(GatewayError::WebhookVerificationFailed("x".to_string()).http_status_code(), 400);
    assert_eq!(GatewayError::WebhookProcessingFailed("x".to_string()).http_status_code(), 500);
    assert_eq!(GatewayError::SubscriptionFailed("x".to_string()).http_status_code(), 500);
    assert_eq!(GatewayError::ConfigError("x".to_string()).http_status_code(), 500);
    assert_eq!(GatewayError::Internal("x".to_string()).http_status_code(), 500);
}

#[test]
fn interval_names() {
    assert_eq!(SubscriptionInterval::from_str("yearly"), SubscriptionInterval::Yearly);
    assert_eq!(SubscriptionInterval::from_str("Year"), SubscriptionInterval::Yearly);
    assert_eq!(SubscriptionInterval::from_str("ANNUAL"), SubscriptionInterval::Yearly);
    assert_eq!(SubscriptionInterval::from_str("monthly"), SubscriptionInterval::Monthly);
    assert_eq!(SubscriptionInterval::from_str("weekly"), SubscriptionInterval::Monthly);
    assert_eq!(SubscriptionInterval::from_str(""), SubscriptionInterval::Monthly);
}

#[test]
fn currency_codes() {
    assert_eq!(Currency::USD.as_str(), "usd");
    assert_eq!(Currency::EUR.as_str(), "eur");
    assert_eq!(Currency::GBP.as_str(), "gbp");
    assert_eq!(Currency::PKR.as_str(), "pkr");
    assert_eq!(Currency::INR.as_str(), "inr");
    assert_eq!(Currency::CAD.as_str(), "cad");
    assert_eq!(Currency::AUD.as_str(), "aud");
    assert_eq!(Currency::Other("jpy".to_string()).as_str(), "jpy");
}

#[test]
fn currency_from_code_ignores_case() {
    assert_eq!(Currency::from_str("USD"), Currency::USD);
    assert_eq!(Currency::from_str("Eur"), Currency::EUR);
    assert_eq!(Currency::from_str("pkr"), Currency::PKR);
    assert_eq!(Currency::from_str("JPY"), Currency::Other("jpy".to_string()));
}

#[test]
fn currency_code_round_trips() {
    for c in [Currency::USD, Currency::EUR, Currency::GBP, Currency::PKR, Currency::INR, Currency::CAD, Currency::AUD, Currency::Other("chf".to_string())] {
        assert_eq!(Currency::from_str(c.as_str()), c);
    }
}

#[test]
fn currency_default_is_usd() {
    assert_eq!(Currency::default(), Currency::USD);
}

#[test]
fn status_names() {
    assert_eq!(SubscriptionStatus::Active.as_str(), "active");
    assert_eq!(SubscriptionStatus::PastDue.as_str(), "past_due");
    assert_eq!(SubscriptionStatus::Trialing.as_str(), "trialing");
    assert_eq!(SubscriptionStatus::Expired.as_str(), "expired");
    assert_eq!(SubscriptionStatus::Cancelled.as_str(), "cancelled");
    assert_eq!(SubscriptionStatus::Incomplete.as_str(), "incomplete");
    assert_eq!(SubscriptionStatus::Unknown("paused".to_string()).as_str(), "paused");
}

#[test]
fn headers_new_holds_signature() {
    let h = WebhookHeaders::new("sig".to_string());
    assert_eq!(h.signature, "sig");
    assert!(h.signature_key.is_none());
    assert!(h.raw.is_empty());
    assert_eq!(h.get("anything"), None);
}

#[test]
fn header_lookup_ignores_case_and_takes_first() {
    let mut h = WebhookHeaders::new(String::new());
    h.raw.push(("Content-Type".to_string(), "application/json".to_string()));
    h.raw.push(("X-SFPY-TIMESTAMP".to_string(), "123".to_string()));
    h.raw.push(("x-sfpy-timestamp".to_string(), "456".to_string()));
    assert_eq!(h.get("x-sfpy-timestamp"), Some("123"));
    assert_eq!(h.get("CONTENT-TYPE"), Some("application/json"));
    assert_eq!(h.get("X-Missing"), None);
}

#[test]
fn name_map_insert_get_replace() {
    let mut m: NameMap<String> = NameMap::new();
    assert_eq!(m.len(), 0);
    m.insert("a".to_string(), "1".to_string());
    m.insert("b".to_string(), "2".to_string());
    m.insert("a".to_string(), "3".to_string());
    assert_eq!(m.len(), 2);
    assert_eq!(m.get("a").map(|s| s.as_str()), Some("3"));
    assert_eq!(m.get("b").map(|s| s.as_str()), Some("2"));
    assert_eq!(m.get("c"), None);
    assert!(m.contains_key("b"));
    assert!(!m.contains_key("B"));
    let names: Vec<&str> = m.entries().iter().map(|e| e.0.as_str()).collect();
    assert_eq!(names, vec!["a", "b"]);
    let copy = m.clone();
    assert_eq!(copy.get("a").map(|s| s.as_str()), Some("3"));
    assert_eq!(copy.len(), 2);
}

#[test]
fn parse_u32_accepts_what_std_accepts() {
    for s in ["0", "7", "+7", "0042", "4294967295", "", "+", "-1", " 1", "1 ", "4294967296", "12a", "99999999999999999999", "+-1"] {
        assert_eq!(parse_u32(s), s.parse::<u32>().ok(), "input {:?}", s);
    }
}

#[test]
fn parse_i64_reads_plain_integer_texts() {
    for s in ["0", "-0", "42", "-42", "007", "9223372036854775807", "-9223372036854775808"] {
        assert_eq!(parse_i64(s), s.parse::<i64>().ok(), "input {:?}", s);
    }
    for s in ["", "-", "+1", "9223372036854775808", "-9223372036854775809", "1.0", "1e3", "--1", "1-"] {
        assert_eq!(parse_i64(s), None, "input {:?}", s);
    }
}

#[test]
fn decimal_rendering_matches_display() {
    for n in [0u32, 1, 9, 10, 42, 100, 4294967295] {
        assert_eq!(decimal_string(n), n.to_string());
    }
}

#[test]
fn clock_offsets_clamp_to_the_timestamp_range() {
    assert_eq!(timestamp_of_offset(Ok(1_700_000_000)), 1_700_000_000);
    assert_eq!(timestamp_of_offset(Err(86_400)), -86_400);
    assert_eq!(timestamp_of_offset(Ok(0)), 0);
    assert_eq!(timestamp_of_offset(Ok(u64::MAX)), LATEST_TIMESTAMP);
    assert_eq!(timestamp_of_offset(Err(u64::MAX)), EARLIEST_TIMESTAMP);
    assert_eq!(timestamp_of_offset(Err(8_334_601_228_800)), EARLIEST_TIMESTAMP);
}
