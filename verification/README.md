# closhell-payment-gateway

A unified interface for payment gateways (Safepay and Stripe), written in
Verus: the request-building, webhook-checking and event-mapping logic is
verified against its contracts.

Layout:

- `src/` — the verified library.
  - `error.rs`, `types.rs`: the gateway-independent types and their laws.
  - `keyed.rs`: `NameMap`, an insertion-ordered map from names to values.
  - `router.rs`: `GatewayRouter`, gateways by name with a default.
  - `text.rs`, `json.rs`, `codec.rs`, `clock.rs`: strings, JSON documents,
    URL/hex/base64/HMAC encodings and time, with the calls into `std`,
    `serde_json`, `urlencoding`, `hex`, `base64`, `hmac`/`sha2` and `chrono`
    behind small trusted wrappers.
  - `gateways/safepay.rs`, `gateways/stripe.rs`: the two gateways.
- `app/` — the asynchronous `PaymentGateway` trait, the HTTP calls
  (`reqwest`, `async-stripe`), environment configuration and the serde
  copies of the library types.
- `tests/` — tests of the library on concrete values.
