//! The gateways.

pub mod safepay;
pub mod stripe;
