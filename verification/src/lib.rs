//! A unified interface for payment gateways: the gateway-independent types,
//! a router that picks a gateway by name, and the request-building and
//! webhook-checking logic of the Safepay and Stripe gateways.

pub mod error;
pub mod text;
pub mod keyed;
pub mod json;
pub mod codec;
pub mod types;
pub mod router;
pub mod clock;
pub mod gateways;

pub use error::GatewayError;
pub use gateways::safepay::SafepayGateway;
pub use gateways::stripe::StripeGateway;
pub use json::JsonValue;
pub use keyed::NameMap;
pub use router::GatewayRouter;
pub use types::{
    CheckoutCompletedData, CheckoutParams, CheckoutResult, Currency, GatewayInfo,
    SubscriptionDeletedData, SubscriptionInfo, SubscriptionInterval, SubscriptionStatus,
    WebhookEventType, WebhookHeaders,
};
