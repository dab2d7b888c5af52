use closhell_payment_gateway::{GatewayError, GatewayRouter};

fn not_configured_name<T>(r: Result<T, GatewayError>) -> Option<String> {
    match r {
        Err(GatewayError::GatewayNotConfigured { gateway }) => Some(gateway),
        _ => None,
    }
}

#[test]
fn new_router_is_empty() {
    let r: GatewayRouter<u32> = GatewayRouter::new();
    assert!(r.is_empty());
    assert_eq!(r.len(), 0);
    assert!(!r.has("stripe"));
    assert_eq!(r.get("stripe"), None);
    assert_eq!(not_configured_name(r.default_gateway()), Some(String::new()));
}

#[test]
fn first_registered_becomes_default() {
    let mut r: GatewayRouter<u32> = GatewayRouter::new();
    r.register("stripe".to_string(), 1);
    r.register("safepay".to_string(), 2);
    assert_eq!(r.default_gateway().ok(), Some(&1));
    assert_eq!(r.len(), 2);
    assert!(r.has("safepay"));
    assert_eq!(r.get("safepay"), Some(&2));
}

#[test]
fn registering_again_replaces() {
    let mut r: GatewayRouter<u32> = GatewayRouter::new();
    r.register("stripe".to_string(), 1);
    r.register("stripe".to_string(), 5);
    assert_eq!(r.len(), 1);
    assert_eq!(r.get("stripe"), Some(&5));
    assert_eq!(r.list_gateways(), vec![&5]);
}

#[test]
fn set_default_switches_and_may_dangle() {
    let mut r: GatewayRouter<u32> = GatewayRouter::new();
    r.register("stripe".to_string(), 1);
    r.register("safepay".to_string(), 2);
    r.set_default("safepay");
    assert_eq!(r.default_gateway().ok(), Some(&2));
    r.set_default("paypal");
    assert_eq!(not_configured_name(r.default_gateway()), Some("paypal".to_string()));
}

#[test]
fn get_or_default_falls_back_on_missing_or_empty_name() {
    let mut r: GatewayRouter<u32> = GatewayRouter::new();
    r.register("stripe".to_string(), 1);
    r.register("safepay".to_string(), 2);
    assert_eq!(r.get_or_default(None).ok(), Some(&1));
    assert_eq!(r.get_or_default(Some("")).ok(), Some(&1));
    assert_eq!(r.get_or_default(Some("safepay")).ok(), Some(&2));
    assert_eq!(not_configured_name(r.get_or_default(Some("paypal"))), Some("paypal".to_string()));
}

#[test]
fn list_gateways_in_registration_order() {
    let mut r: GatewayRouter<u32> = GatewayRouter::new();
    r.register("b".to_string(), 20);
    r.register("a".to_string(), 10);
    r.register("c".to_string(), 30);
    assert_eq!(r.list_gateways(), vec![&20, &10, &30]);
}

#[test]
fn default_router_is_new_router() {
    let r: GatewayRouter<u32> = <GatewayRouter<u32> as Default>::default();
    assert!(r.is_empty());
    assert!(r.list_gateways().is_empty());
    assert_eq!(not_configured_name(r.default_gateway()), Some(String::new()));
}

#[test]
fn cloned_router_keeps_gateways() {
    let mut r: GatewayRouter<u32> = GatewayRouter::new();
    r.register("stripe".to_string(), 1);
    let c = r.clone();
    assert_eq!(c.get("stripe"), Some(&1));
    assert_eq!(c.default_gateway().ok(), Some(&1));
}

#[test]
fn registration_order_is_kept() {
    let mut r: GatewayRouter<u32> = GatewayRouter::new();
    r.register("stripe".to_string(), 1);
    r.register("safepay".to_string(), 2);
    r.register("stripe".to_string(), 3);
    r.set_default("safepay");
    assert_eq!(r.list_gateways(), vec![&3, &2]);
    assert_eq!(r.default_gateway().ok(), Some(&2));
}
