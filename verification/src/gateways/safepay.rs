//! The Safepay gateway: hosted-checkout URLs, webhook signature checks and
//! the mapping of Safepay webhook payloads to unified events.

use vstd::prelude::*;
use vstd::utf8::{decode_utf8, encode_utf8, valid_utf8};
use crate::codec::{
    base64_decoded, base64_standard_decode, hex_encode, hex_lower, hmac_sha256, hmac_sha256_tag,
    lemma_query_text_push, pair_texts, percent_encode, query_item, query_string, query_text,
};
use crate::error::{err_view, text_result_view, GatewayError, GatewayErrorView};
use crate::json::JsonValue;
use crate::keyed::NameMap;
use crate::text::{
    concat2, concat3, lowercase, owned, parse_u32, parsed_u32, str_eq, str_from_utf8,
    strip_prefix, to_lowercase, to_uppercase, uppercase, utf8_error_text, without_prefix,
};
use crate::types::{
    currency_code, header_value, texts, CheckoutParams, CheckoutCompletedData, CheckoutResult,
    GatewayInfo, SubscriptionInfo, WebhookEventType, WebhookHeaders,
};

verus! {

/// Safepay payment gateway.
#[derive(Debug, Clone)]
pub struct SafepayGateway {
    pub api_key: String,
    pub webhook_secret: String,
    /// "sandbox" or "production"
    pub environment: String,
}

/// The API host of an environment.
pub open spec fn safepay_api_base(production: bool) -> Seq<char> {
    if production {
        "https://api.getsafepay.com"@
    } else {
        "https://sandbox.api.getsafepay.com"@
    }
}

/// The hosted checkout page of an environment.
pub open spec fn safepay_checkout_base(production: bool) -> Seq<char> {
    if production {
        "https://getsafepay.com/checkout/pay"@
    } else {
        "https://sandbox.api.getsafepay.com/checkout/pay"@
    }
}

/// The name under which an environment is sent to Safepay.
pub open spec fn safepay_env_name(production: bool) -> Seq<char> {
    if production {
        "production"@
    } else {
        "sandbox"@
    }
}

/// The Safepay plan of a checkout, if its metadata names one: under
/// `safepay_plan_id`, or else under `plan_id`.
pub open spec fn plan_id_of(metadata: Map<Seq<char>, String>) -> Option<String> {
    if metadata.contains_key("safepay_plan_id"@) {
        Some(metadata["safepay_plan_id"@])
    } else if metadata.contains_key("plan_id"@) {
        Some(metadata["plan_id"@])
    } else {
        None
    }
}

/// The query of the hosted page for a subscription to `plan`.
pub open spec fn subscription_query(env: Seq<char>, plan: Seq<char>, params: CheckoutParams) -> Seq<
    (Seq<char>, Seq<char>),
> {
    seq![
        ("env"@, env),
        ("plan_id"@, plan),
        ("planId"@, plan),
        ("reference"@, params.client_reference_id@),
        ("redirect_url"@, params.success_url@),
        ("cancel_url"@, params.cancel_url@),
        ("source"@, "custom"@),
        ("webhooks"@, "true"@),
    ]
}

/// The query of the hosted page for the order that Safepay tracks as
/// `tracker`.
pub open spec fn order_query(env: Seq<char>, tracker: Seq<char>, params: CheckoutParams) -> Seq<
    (Seq<char>, Seq<char>),
> {
    seq![
        ("env"@, env),
        ("beacon"@, tracker),
        ("order_id"@, params.client_reference_id@),
        ("redirect_url"@, params.success_url@),
        ("cancel_url"@, params.cancel_url@),
        ("source"@, "custom"@),
        ("webhooks"@, "true"@),
    ]
}

/// The next step of a Safepay checkout.
#[derive(Debug, Clone)]
pub enum SafepayCheckoutStep {
    /// The checkout is ready: redirect the customer.
    Redirect(CheckoutResult),
    /// An order must first be registered with Safepay (an HTTP POST of these
    /// values to `url`); its tracker token then completes the checkout.
    InitOrder(SafepayInitOrder),
}

/// What an order registration sends to Safepay. The amount goes in the
/// currency's main unit, `unit_amount / 100`.
#[derive(Debug, Clone)]
pub struct SafepayInitOrder {
    pub url: String,
    pub client: String,
    pub unit_amount: i64,
    pub currency: String,
    pub environment: String,
}

/// The first step of a checkout for `params` through gateway `g`: the
/// hosted subscription page where the metadata names a plan, otherwise the
/// registration of an order.
pub open spec fn checkout_step(g: SafepayGateway, params: CheckoutParams, r: SafepayCheckoutStep) -> bool {
    match plan_id_of(params.metadata@) {
        Some(plan) => r is Redirect && is_checkout_result(
            r->Redirect_0,
            safepay_checkout_base(g.is_production()) + "?"@ + query_text(
                subscription_query(safepay_env_name(g.is_production()), plan@, params),
            ),
            params.client_reference_id@,
        ),
        None => r is InitOrder && {
            let o = r->InitOrder_0;
            &&& o.url@ == safepay_api_base(g.is_production()) + "/order/v1/init"@
            &&& o.client@ == g.api_key@
            &&& o.unit_amount == params.unit_amount
            &&& o.currency@ == uppercase(currency_code(params.currency))
            &&& o.environment@ == safepay_env_name(g.is_production())
        },
    }
}

/// The checkout result for an order that Safepay registered under
/// `tracker`, through gateway `g`.
pub open spec fn order_checkout(g: SafepayGateway, params: CheckoutParams, tracker: Seq<char>, r: CheckoutResult) -> bool {
    is_checkout_result(
        r,
        safepay_checkout_base(g.is_production()) + "?"@ + query_text(
            order_query(safepay_env_name(g.is_production()), tracker, params),
        ),
        tracker,
    )
}

/// What the hosted-checkout result for a page and session says.
pub open spec fn is_checkout_result(r: CheckoutResult, url: Seq<char>, session: Seq<char>) -> bool {
    &&& r.checkout_url@ == url
    &&& r.gateway@ == "safepay"@
    &&& r.session_id@ == session
}

/// The outcome of checking a Safepay webhook: the body as text, or the error.
///
/// The timestamp and signature headers must be present and the body must be
/// UTF-8. Where a webhook secret is set, it is base64 of the HMAC-SHA256 key,
/// and the signature header (with or without a `sha256=` prefix) must be the
/// lower-case hex of the tag of `timestamp + "." + body`.
pub open spec fn safepay_verification(
    secret: Seq<char>,
    headers: Seq<(String, String)>,
    payload: Seq<u8>,
) -> Result<Seq<char>, GatewayErrorView> {
    match header_value(headers, "X-SFPY-TIMESTAMP"@) {
        None => Err(GatewayErrorView::WebhookVerificationFailed("Missing X-SFPY-TIMESTAMP header"@)),
        Some(timestamp) => match header_value(headers, "X-SFPY-SIGNATURE"@) {
            None => Err(
                GatewayErrorView::WebhookVerificationFailed("Missing X-SFPY-SIGNATURE header"@),
            ),
            Some(signature) => if !valid_utf8(payload) {
                Err(
                    GatewayErrorView::WebhookProcessingFailed(
                        "Invalid UTF-8 payload: "@ + utf8_error_text(payload),
                    ),
                )
            } else {
                let body = decode_utf8(payload);
                if secret.len() == 0 {
                    Ok(body)
                } else {
                    match base64_decoded(secret) {
                        Err(e) => Err(
                            GatewayErrorView::WebhookVerificationFailed(
                                "Failed to decode webhook secret: "@ + e,
                            ),
                        ),
                        Ok(key) => {
                            let signed = encode_utf8(timestamp + "."@ + body);
                            if hex_lower(hmac_sha256_tag(key, signed)) == without_prefix(
                                signature,
                                "sha256="@,
                            ) {
                                Ok(body)
                            } else {
                                Err(GatewayErrorView::WebhookVerificationFailed("Signature mismatch"@))
                            }
                        },
                    }
                }
            },
        },
    }
}

/// A webhook with both headers and a UTF-8 body is accepted, yielding its
/// body, where either no secret is set or the signature (with or without a
/// `sha256=` prefix) is the lower-case hex HMAC-SHA256 tag of
/// `timestamp.body` under the base64-decoded secret.
pub proof fn signed_webhook_is_accepted(
    secret: Seq<char>,
    headers: Seq<(String, String)>,
    payload: Seq<u8>,
    key: Seq<u8>,
)
    requires
        header_value(headers, "X-SFPY-TIMESTAMP"@) is Some,
        header_value(headers, "X-SFPY-SIGNATURE"@) is Some,
        valid_utf8(payload),
        secret.len() > 0 ==> base64_decoded(secret) == Ok::<Seq<u8>, Seq<char>>(key),
        secret.len() > 0 ==> without_prefix(header_value(headers, "X-SFPY-SIGNATURE"@)->Some_0, "sha256="@)
            == hex_lower(
            hmac_sha256_tag(
                key,
                encode_utf8(header_value(headers, "X-SFPY-TIMESTAMP"@)->Some_0 + "."@ + decode_utf8(payload)),
            ),
        ),
    ensures
        safepay_verification(secret, headers, payload) == Ok::<Seq<char>, GatewayErrorView>(
            decode_utf8(payload),
        ),
{
}

/// A valid signature changes nothing: where the secret decodes and the
/// signature (with or without a `sha256=` prefix) is the tag of
/// `timestamp.body`, the outcome is the same as with no secret set.
pub proof fn valid_signature_changes_nothing(
    secret: Seq<char>,
    headers: Seq<(String, String)>,
    payload: Seq<u8>,
    key: Seq<u8>,
)
    requires
        secret.len() > 0,
        base64_decoded(secret) == Ok::<Seq<u8>, Seq<char>>(key),
        header_value(headers, "X-SFPY-TIMESTAMP"@) is Some ==> (header_value(headers, "X-SFPY-SIGNATURE"@) is Some
            ==> without_prefix(header_value(headers, "X-SFPY-SIGNATURE"@)->Some_0, "sha256="@)
            == hex_lower(
            hmac_sha256_tag(
                key,
                encode_utf8(header_value(headers, "X-SFPY-TIMESTAMP"@)->Some_0 + "."@ + decode_utf8(payload)),
            ),
        )),
    ensures
        safepay_verification(secret, headers, payload) == safepay_verification(
            Seq::<char>::empty(),
            headers,
            payload,
        ),
{
}

/// Where a secret is set and decodes, a webhook whose signature is not the
/// tag of `timestamp.body` is refused as a signature mismatch.
pub proof fn forged_webhook_is_refused(
    secret: Seq<char>,
    headers: Seq<(String, String)>,
    payload: Seq<u8>,
    key: Seq<u8>,
)
    requires
        header_value(headers, "X-SFPY-TIMESTAMP"@) is Some,
        header_value(headers, "X-SFPY-SIGNATURE"@) is Some,
        valid_utf8(payload),
        secret.len() > 0,
        base64_decoded(secret) == Ok::<Seq<u8>, Seq<char>>(key),
        without_prefix(header_value(headers, "X-SFPY-SIGNATURE"@)->Some_0, "sha256="@) != hex_lower(
            hmac_sha256_tag(
                key,
                encode_utf8(header_value(headers, "X-SFPY-TIMESTAMP"@)->Some_0 + "."@ + decode_utf8(payload)),
            ),
        ),
    ensures
        safepay_verification(secret, headers, payload) == Err::<Seq<char>, GatewayErrorView>(
            GatewayErrorView::WebhookVerificationFailed("Signature mismatch"@),
        ),
{
}

/// A webhook payload as Safepay sends it.
#[derive(Debug)]
pub struct SafepayWebhookPayload {
    pub event_type: String,
    pub id: Option<String>,
    pub tracker: Option<String>,
    pub reference: Option<String>,
    pub amount: Option<JsonValue>,
    pub currency: Option<String>,
    pub data: Option<SafepayWebhookData>,
}

/// The `data` member of a Safepay webhook payload.
#[derive(Debug)]
pub struct SafepayWebhookData {
    pub tracker: Option<String>,
    pub reference: Option<String>,
    pub amount: Option<JsonValue>,
    pub currency: Option<String>,
    pub metadata: Option<NameMap<String>>,
}

/// The first of two optional texts that is present.
pub open spec fn first_text(a: Option<String>, b: Option<String>) -> Option<Seq<char>> {
    match a {
        Some(s) => Some(s@),
        None => match b {
            Some(s) => Some(s@),
            None => None,
        },
    }
}

/// An optional text, or a default.
pub open spec fn text_or(t: Option<Seq<char>>, default: Seq<char>) -> Seq<char> {
    match t {
        Some(s) => s,
        None => default,
    }
}

/// A field of the payload's `data`, where there is one.
pub open spec fn data_tracker(p: SafepayWebhookPayload) -> Option<String> {
    match p.data {
        Some(d) => d.tracker,
        None => None,
    }
}

/// The `reference` of the payload's `data`, where there is one.
pub open spec fn data_reference(p: SafepayWebhookPayload) -> Option<String> {
    match p.data {
        Some(d) => d.reference,
        None => None,
    }
}

/// The `currency` of the payload's `data`, where there is one.
pub open spec fn data_currency(p: SafepayWebhookPayload) -> Option<String> {
    match p.data {
        Some(d) => d.currency,
        None => None,
    }
}

/// The `metadata` of the payload's `data`, where there is one.
pub open spec fn data_metadata(p: SafepayWebhookPayload) -> Option<NameMap<String>> {
    match p.data {
        Some(d) => d.metadata,
        None => None,
    }
}

/// The text stored under `key`, or a default.
pub open spec fn meta_or(m: Map<Seq<char>, String>, key: Seq<char>, default: Seq<char>) -> Seq<char> {
    if m.contains_key(key) {
        m[key]@
    } else {
        default
    }
}

/// The number of seats that metadata gives, if it gives a valid one.
pub open spec fn seats_of(m: Map<Seq<char>, String>) -> Option<u32> {
    if m.contains_key("seats"@) {
        parsed_u32(m["seats"@]@)
    } else {
        None
    }
}

/// The unified event for a Safepay payload.
///
/// The tracker, reference and currency are taken from the payload, or else
/// from its `data` (defaults: empty, empty, "PKR"). "payment.completed" is a
/// completed checkout of the tracked session with the given amount, tier and
/// interval from the metadata (defaults "pro" and "monthly"), the reference
/// as client reference and the seats from the metadata where they parse.
/// "payment.failed" and "payment.rejected" are a failed payment of the
/// reference. Anything else is forwarded with `raw` as its data.
pub open spec fn safepay_event(
    p: SafepayWebhookPayload,
    amount_cents: i64,
    raw: JsonValue,
    ev: WebhookEventType,
) -> bool {
    let tracker = text_or(first_text(p.tracker, data_tracker(p)), Seq::empty());
    let reference = text_or(first_text(p.reference, data_reference(p)), Seq::empty());
    let currency = text_or(first_text(p.currency, data_currency(p)), "PKR"@);
    if p.event_type@ == "payment.completed"@ {
        &&& ev is CheckoutCompleted
        &&& {
            let d = ev->CheckoutCompleted_0;
            &&& d.session_id@ == tracker
            &&& d.customer_id is None
            &&& d.subscription_id is None
            &&& d.amount_total == amount_cents
            &&& d.currency@ == currency
            &&& (match data_metadata(p) {
                Some(m) => d.metadata == m,
                None => d.metadata@ == Map::<Seq<char>, String>::empty(),
            })
            &&& d.tier@ == meta_or(d.metadata@, "tier"@, "pro"@)
            &&& d.interval@ == meta_or(d.metadata@, "interval"@, "monthly"@)
            &&& d.client_reference_id matches Some(c) && c@ == reference
            &&& d.seats == seats_of(d.metadata@)
        }
    } else if p.event_type@ == "payment.failed"@ || p.event_type@ == "payment.rejected"@ {
        &&& ev is InvoicePaymentFailed
        &&& ev->InvoicePaymentFailed_invoice_id@ == reference
        &&& ev->InvoicePaymentFailed_subscription_id is None
    } else {
        &&& ev is Unknown
        &&& ev->Unknown_event_type@ == p.event_type@
        &&& ev->Unknown_raw_data == raw
    }
}

/// An optional text, or the empty text.
fn text_or_empty(a: Option<String>, b: Option<String>) -> (r: String)
    ensures
        r@ == text_or(first_text(a, b), Seq::empty()),
{
    match a {
        Some(s) => s,
        None => match b {
            Some(s) => s,
            None => String::new(),
        },
    }
}

/// The text stored under `key`, or a default.
fn meta_text(m: &NameMap<String>, key: &str, default: &str) -> (r: String)
    ensures
        r@ == meta_or(m@, key@, default@),
{
    match m.get(key) {
        Some(v) => v.clone(),
        None => owned(default),
    }
}

impl SafepayGateway {
    /// Whether the gateway talks to Safepay's production environment.
    pub open spec fn is_production(self) -> bool {
        self.environment@ == "production"@
    }

    /// Create a new Safepay gateway instance; the environment is kept in
    /// lower case.
    pub fn new(api_key: String, webhook_secret: String, environment: String) -> (r: Self)
        ensures
            r.api_key == api_key,
            r.webhook_secret == webhook_secret,
            r.environment@ == lowercase(environment@),
    {
        let environment = to_lowercase(environment.as_str());
        SafepayGateway { api_key, webhook_secret, environment }
    }

    fn production(&self) -> (r: bool)
        ensures
            r == self.is_production(),
    {
        str_eq(self.environment.as_str(), "production")
    }

    /// The Safepay API host of the gateway's environment.
    pub fn api_base(&self) -> (r: &'static str)
        ensures
            r@ == safepay_api_base(self.is_production()),
    {
        if self.production() {
            "https://api.getsafepay.com"
        } else {
            "https://sandbox.api.getsafepay.com"
        }
    }

    /// The hosted checkout page of the gateway's environment.
    pub fn checkout_base(&self) -> (r: &'static str)
        ensures
            r@ == safepay_checkout_base(self.is_production()),
    {
        if self.production() {
            "https://getsafepay.com/checkout/pay"
        } else {
            "https://sandbox.api.getsafepay.com/checkout/pay"
        }
    }

    fn env_name(&self) -> (r: &'static str)
        ensures
            r@ == safepay_env_name(self.is_production()),
    {
        if self.production() {
            "production"
        } else {
            "sandbox"
        }
    }

    /// The hosted checkout page with the given query.
    fn checkout_url(&self, pairs: &Vec<(String, String)>) -> (r: String)
        ensures
            r@ == safepay_checkout_base(self.is_production()) + "?"@ + query_text(
                pair_texts(pairs@),
            ),
    {
        let query = query_string(pairs);
        concat3(self.checkout_base(), "?", query.as_str())
    }

    /// The Safepay plan named in a checkout's metadata.
    fn plan_id(params: &CheckoutParams) -> (r: Option<String>)
        ensures
            r == plan_id_of(params.metadata@),
    {
        match params.metadata.get("safepay_plan_id") {
            Some(p) => Some(p.clone()),
            None => match params.metadata.get("plan_id") {
                Some(p) => Some(p.clone()),
                None => None,
            },
        }
    }

    /// The first step of a checkout. Where the metadata names a Safepay plan
    /// (under `safepay_plan_id`, or else `plan_id`), the customer is sent to
    /// the hosted page for a subscription to that plan, and the session is
    /// the client reference. Otherwise an order must be registered first.
    pub fn begin_checkout(&self, params: &CheckoutParams) -> (r: SafepayCheckoutStep)
        ensures
            checkout_step(*self, *params, r),
    {
        let env = self.env_name();
        match Self::plan_id(params) {
            Some(plan) => {
                let mut pairs: Vec<(String, String)> = Vec::new();
                pairs.push((owned("env"), owned(env)));
                pairs.push((owned("plan_id"), plan.clone()));
                pairs.push((owned("planId"), plan));
                pairs.push((owned("reference"), params.client_reference_id.clone()));
                pairs.push((owned("redirect_url"), params.success_url.clone()));
                pairs.push((owned("cancel_url"), params.cancel_url.clone()));
                pairs.push((owned("source"), owned("custom")));
                pairs.push((owned("webhooks"), owned("true")));
                let ghost plan_text = plan_id_of(params.metadata@)->Some_0@;
                assert(pair_texts(pairs@) =~= subscription_query(env@, plan_text, *params));
                let checkout_url = self.checkout_url(&pairs);
                SafepayCheckoutStep::Redirect(
                    CheckoutResult {
                        checkout_url,
                        gateway: owned("safepay"),
                        session_id: params.client_reference_id.clone(),
                    },
                )
            },
            None => {
                let url = concat2(self.api_base(), "/order/v1/init");
                SafepayCheckoutStep::InitOrder(
                    SafepayInitOrder {
                        url,
                        client: self.api_key.clone(),
                        unit_amount: params.unit_amount,
                        currency: to_uppercase(params.currency.as_str()),
                        environment: owned(env),
                    },
                )
            },
        }
    }

    /// The checkout for an order that Safepay registered under `tracker`:
    /// the hosted page for that order, with the tracker as the session.
    pub fn complete_checkout(&self, params: &CheckoutParams, tracker: String) -> (r:
        CheckoutResult)
        ensures
            order_checkout(*self, *params, tracker@, r),
    {
        let env = self.env_name();
        let mut pairs: Vec<(String, String)> = Vec::new();
        pairs.push((owned("env"), owned(env)));
        pairs.push((owned("beacon"), tracker.clone()));
        pairs.push((owned("order_id"), params.client_reference_id.clone()));
        pairs.push((owned("redirect_url"), params.success_url.clone()));
        pairs.push((owned("cancel_url"), params.cancel_url.clone()));
        pairs.push((owned("source"), owned("custom")));
        pairs.push((owned("webhooks"), owned("true")));
        assert(pair_texts(pairs@) =~= order_query(env@, tracker@, *params));
        let checkout_url = self.checkout_url(&pairs);
        CheckoutResult { checkout_url, gateway: owned("safepay"), session_id: tracker }
    }

    /// The error for an order registration that Safepay refused: it names
    /// the URL and quotes the response body.
    pub fn init_failed(url: &str, body: &str) -> (r: GatewayError)
        ensures
            r@ == GatewayErrorView::CheckoutFailed(
                "Safepay init failed ("@ + url@ + "): "@ + body@,
            ),
    {
        let head = concat3("Safepay init failed (", url, "): ");
        GatewayError::CheckoutFailed(concat2(head.as_str(), body))
    }

    /// Checks the authenticity of a webhook and returns its body as text.
    pub fn verify_webhook(&self, payload: &[u8], headers: &WebhookHeaders) -> (r: Result<
        String,
        GatewayError,
    >)
        ensures
            text_result_view(r) == safepay_verification(
                self.webhook_secret@,
                headers.raw@,
                payload@,
            ),
    {
        let timestamp = match headers.get("X-SFPY-TIMESTAMP") {
            Some(t) => t,
            None => {
                return Err(
                    GatewayError::WebhookVerificationFailed(
                        owned("Missing X-SFPY-TIMESTAMP header"),
                    ),
                );
            },
        };
        let signature = match headers.get("X-SFPY-SIGNATURE") {
            Some(s) => s,
            None => {
                return Err(
                    GatewayError::WebhookVerificationFailed(
                        owned("Missing X-SFPY-SIGNATURE header"),
                    ),
                );
            },
        };
        let body = match str_from_utf8(payload) {
            Ok(s) => s,
            Err(e) => {
                return Err(
                    GatewayError::WebhookProcessingFailed(
                        concat2("Invalid UTF-8 payload: ", e.as_str()),
                    ),
                );
            },
        };
        let signed = concat3(timestamp, ".", body);
        if !self.webhook_secret.as_str().is_empty() {
            let key = match base64_standard_decode(self.webhook_secret.as_str()) {
                Ok(k) => k,
                Err(e) => {
                    return Err(
                        GatewayError::WebhookVerificationFailed(
                            concat2("Failed to decode webhook secret: ", e.as_str()),
                        ),
                    );
                },
            };
            let tag = match hmac_sha256(key.as_slice(), signed.as_str().as_bytes()) {
                Ok(t) => t,
                Err(e) => {
                    return Err(
                        GatewayError::WebhookVerificationFailed(
                            concat2("HMAC key error: ", e.as_str()),
                        ),
                    );
                },
            };
            let computed = hex_encode(tag.as_slice());
            let expected = strip_prefix(signature, "sha256=");
            if !str_eq(computed.as_str(), expected) {
                return Err(GatewayError::WebhookVerificationFailed(owned("Signature mismatch")));
            }
        }
        Ok(owned(body))
    }

    /// The unified event for a checked and parsed Safepay payload, given the
    /// amount in the smallest currency unit and the payload as JSON (which
    /// unknown events carry).
    pub fn webhook_event(payload: SafepayWebhookPayload, amount_cents: i64, raw_data: JsonValue) -> (r:
        WebhookEventType)
        ensures
            safepay_event(payload, amount_cents, raw_data, r),
    {
        let ghost p = payload;
        let SafepayWebhookPayload { event_type, id: _, tracker, reference, amount: _, currency, data } =
            payload;
        let (d_tracker, d_reference, d_currency, d_metadata) = match data {
            Some(d) => (d.tracker, d.reference, d.currency, d.metadata),
            None => (None, None, None, None),
        };
        let tracker = text_or_empty(tracker, d_tracker);
        let reference = text_or_empty(reference, d_reference);
        let currency = match currency {
            Some(c) => c,
            None => match d_currency {
                Some(c) => c,
                None => owned("PKR"),
            },
        };
        let metadata = match d_metadata {
            Some(m) => m,
            None => NameMap::new(),
        };
        if str_eq(event_type.as_str(), "payment.completed") {
            let tier = meta_text(&metadata, "tier", "pro");
            let interval = meta_text(&metadata, "interval", "monthly");
            let seats = match metadata.get("seats") {
                Some(s) => parse_u32(s.as_str()),
                None => None,
            };
            WebhookEventType::CheckoutCompleted(
                CheckoutCompletedData {
                    session_id: tracker,
                    customer_id: None,
                    subscription_id: None,
                    amount_total: amount_cents,
                    currency,
                    tier,
                    interval,
                    client_reference_id: Some(reference),
                    seats,
                    metadata,
                },
            )
        } else if str_eq(event_type.as_str(), "payment.failed") || str_eq(
            event_type.as_str(),
            "payment.rejected",
        ) {
            WebhookEventType::InvoicePaymentFailed { invoice_id: reference, subscription_id: None }
        } else {
            WebhookEventType::Unknown { event_type, raw_data }
        }
    }

    /// Retrieve details of a subscription. Safepay offers no API that
    /// reports a subscription's details, so nothing can be retrieved: the
    /// result is always an error saying so.
    pub fn get_subscription(&self, subscription_id: &str) -> (r: Result<
        SubscriptionInfo,
        GatewayError,
    >)
        ensures
            err_view(r) == Some(
                GatewayErrorView::SubscriptionFailed(
                    "Safepay does not support retrieving subscription details"@,
                ),
            ),
    {
        Err(
            GatewayError::SubscriptionFailed(
                owned("Safepay does not support retrieving subscription details"),
            ),
        )
    }

    /// Cancel a subscription. Safepay offers no API for cancelling a
    /// subscription (it is done from the Safepay dashboard), so nothing is
    /// cancelled: the result is always an error saying so.
    pub fn cancel_subscription(&self, subscription_id: &str, at_period_end: bool) -> (r: Result<
        (),
        GatewayError,
    >)
        ensures
            err_view(r) == Some(
                GatewayErrorView::SubscriptionFailed(
                    "Safepay subscriptions can only be cancelled from the Safepay dashboard"@,
                ),
            ),
    {
        Err(
            GatewayError::SubscriptionFailed(
                owned("Safepay subscriptions can only be cancelled from the Safepay dashboard"),
            ),
        )
    }

    /// Metadata about this gateway.
    pub fn gateway_info(&self) -> (r: GatewayInfo)
        ensures
            r.name@ == "safepay"@,
            r.display_name@ == "Safepay"@,
            texts(r.supported_currencies@) == seq!["pkr"@, "usd"@],
            r.supports_subscriptions,
            r.supports_one_time,
    {
        let currencies: &'static [&'static str] = &["pkr", "usd"];
        GatewayInfo {
            name: "safepay",
            display_name: "Safepay",
            supported_currencies: currencies,
            supports_subscriptions: true,
            supports_one_time: true,
        }
    }
}

/// The three Safepay event names that the library tells apart are distinct.
proof fn lemma_event_names_differ()
    ensures
        "payment.completed"@ != "payment.failed"@,
        "payment.completed"@ != "payment.rejected"@,
        "payment.failed"@ != "payment.rejected"@,
{
    reveal_strlit("payment.completed");
    reveal_strlit("payment.failed");
    reveal_strlit("payment.rejected");
    assert("payment.completed"@[8] != "payment.failed"@[8]);
    assert("payment.completed"@[8] != "payment.rejected"@[8]);
    assert("payment.failed"@[8] != "payment.rejected"@[8]);
}

/// A completed Safepay payment is reported as a completed checkout read
/// from the payload: the session is the payload's tracker (else its data's,
/// else empty), the amount is the one given, the currency is the payload's
/// (else its data's, else "PKR"), the client reference is the payload's
/// reference (else its data's, else empty), and the metadata is the data's.
/// The tier and interval are the metadata's "tier" and "interval" where it
/// has them, "pro" and "monthly" otherwise; the seats are the metadata's
/// "seats" where they parse as a `u32`.
pub proof fn completed_payment_reads_the_payload(
    p: SafepayWebhookPayload,
    amount_cents: i64,
    raw: JsonValue,
    ev: WebhookEventType,
)
    requires
        safepay_event(p, amount_cents, raw, ev),
        p.event_type@ == "payment.completed"@,
    ensures
        ev is CheckoutCompleted,
        ({
            let d = ev->CheckoutCompleted_0;
            let meta: Option<NameMap<String>> = match p.data {
                Some(x) => x.metadata,
                None => None,
            };
            &&& d.amount_total == amount_cents
            &&& d.customer_id is None
            &&& d.subscription_id is None
            &&& (p.tracker matches Some(t) ==> d.session_id@ == t@)
            &&& (p.tracker is None && (p.data matches Some(x) && x.tracker matches Some(t))
                ==> d.session_id@ == p.data->Some_0.tracker->Some_0@)
            &&& (p.tracker is None && !(p.data matches Some(x) && x.tracker is Some)
                ==> d.session_id@.len() == 0)
            &&& (p.currency matches Some(c) ==> d.currency@ == c@)
            &&& (p.currency is None && (p.data matches Some(x) && x.currency matches Some(c))
                ==> d.currency@ == p.data->Some_0.currency->Some_0@)
            &&& (p.currency is None && !(p.data matches Some(x) && x.currency is Some)
                ==> d.currency@ == "PKR"@)
            &&& d.client_reference_id is Some
            &&& (p.reference matches Some(c) ==> d.client_reference_id->Some_0@ == c@)
            &&& (p.reference is None && (p.data matches Some(x) && x.reference matches Some(c))
                ==> d.client_reference_id->Some_0@ == p.data->Some_0.reference->Some_0@)
            &&& (p.reference is None && !(p.data matches Some(x) && x.reference is Some)
                ==> d.client_reference_id->Some_0@.len() == 0)
            &&& (meta matches Some(m) ==> d.metadata == m)
            &&& (meta is None ==> d.metadata@.dom().len() == 0)
            &&& (d.metadata@.contains_key("interval"@) ==> d.interval@
                == d.metadata@["interval"@]@)
            &&& (!d.metadata@.contains_key("interval"@) ==> d.interval@ == "monthly"@)
            &&& (d.metadata@.contains_key("tier"@) ==> d.tier@ == d.metadata@["tier"@]@)
            &&& (!d.metadata@.contains_key("tier"@) ==> d.tier@ == "pro"@)
            &&& (d.metadata@.contains_key("seats"@) ==> d.seats == parsed_u32(
                d.metadata@["seats"@]@,
            ))
            &&& (!d.metadata@.contains_key("seats"@) ==> d.seats is None)
        }),
{
}

/// A failed or rejected Safepay payment is reported as a failed payment of
/// the payload's reference (else its data's, else empty), with no
/// subscription.
pub proof fn failed_payment_is_reported(
    p: SafepayWebhookPayload,
    amount_cents: i64,
    raw: JsonValue,
    ev: WebhookEventType,
)
    requires
        safepay_event(p, amount_cents, raw, ev),
        p.event_type@ == "payment.failed"@ || p.event_type@ == "payment.rejected"@,
    ensures
        ev is InvoicePaymentFailed,
        ev->InvoicePaymentFailed_subscription_id is None,
        p.reference matches Some(c) ==> ev->InvoicePaymentFailed_invoice_id@ == c@,
        p.reference is None && (p.data matches Some(x) && x.reference matches Some(c))
            ==> ev->InvoicePaymentFailed_invoice_id@ == p.data->Some_0.reference->Some_0@,
        p.reference is None && !(p.data matches Some(x) && x.reference is Some)
            ==> ev->InvoicePaymentFailed_invoice_id@.len() == 0,
{
    lemma_event_names_differ();
}

/// Any other Safepay event is forwarded as unknown, under its own type and
/// with the raw payload; only "payment.completed" gives a completed checkout
/// and only "payment.failed" and "payment.rejected" a failed payment.
pub proof fn other_events_are_forwarded(
    p: SafepayWebhookPayload,
    amount_cents: i64,
    raw: JsonValue,
    ev: WebhookEventType,
)
    requires
        safepay_event(p, amount_cents, raw, ev),
    ensures
        ev is CheckoutCompleted ==> p.event_type@ == "payment.completed"@,
        ev is InvoicePaymentFailed ==> (p.event_type@ == "payment.failed"@ || p.event_type@
            == "payment.rejected"@),
        p.event_type@ != "payment.completed"@ && p.event_type@ != "payment.failed"@
            && p.event_type@ != "payment.rejected"@ ==> {
            &&& ev is Unknown
            &&& ev->Unknown_event_type@ == p.event_type@
            &&& ev->Unknown_raw_data == raw
        },
{
    lemma_event_names_differ();
}

/// A text as a query value: its UTF-8 bytes, percent-encoded.
pub open spec fn url_value(t: Seq<char>) -> Seq<char> {
    percent_encode(encode_utf8(t))
}

/// The query of the hosted page of a registered order, item by item.
pub open spec fn order_page_query(env: Seq<char>, tracker: Seq<char>, params: CheckoutParams) -> Seq<char> {
    ("env"@ + "="@ + url_value(env)) + "&"@ + ("beacon"@ + "="@ + url_value(tracker)) + "&"@ + (
    "order_id"@ + "="@ + url_value(params.client_reference_id@)) + "&"@ + ("redirect_url"@ + "="@
        + url_value(params.success_url@)) + "&"@ + ("cancel_url"@ + "="@ + url_value(
        params.cancel_url@,
    )) + "&"@ + ("source"@ + "="@ + url_value("custom"@)) + "&"@ + ("webhooks"@ + "="@ + url_value(
        "true"@,
    ))
}

/// The hosted page of a registered order is in the gateway's own
/// environment: the production page with `env=production` for a production
/// gateway, the sandbox page with `env=sandbox` otherwise (the environment
/// that the order registration names too). It carries the tracker as
/// `beacon`, the client reference as `order_id`, the two return URLs, and
/// `source=custom` and `webhooks=true`; the session is the tracker.
pub proof fn order_page_is_in_the_gateway_environment(
    g: SafepayGateway,
    params: CheckoutParams,
    tracker: Seq<char>,
    r: CheckoutResult,
)
    requires
        order_checkout(g, params, tracker, r),
    ensures
        r.session_id@ == tracker,
        r.gateway@ == "safepay"@,
        g.environment@ == "production"@ ==> r.checkout_url@ == "https://getsafepay.com/checkout/pay"@
            + "?"@ + order_page_query("production"@, tracker, params),
        g.environment@ != "production"@ ==> r.checkout_url@
            == "https://sandbox.api.getsafepay.com/checkout/pay"@ + "?"@ + order_page_query(
            "sandbox"@,
            tracker,
            params,
        ),
{
    let env = safepay_env_name(g.is_production());
    let a0 = ("env"@, env);
    let a1 = ("beacon"@, tracker);
    let a2 = ("order_id"@, params.client_reference_id@);
    let a3 = ("redirect_url"@, params.success_url@);
    let a4 = ("cancel_url"@, params.cancel_url@);
    let a5 = ("source"@, "custom"@);
    let a6 = ("webhooks"@, "true"@);
    let q1 = seq![a0];
    let q2 = q1.push(a1);
    let q3 = q2.push(a2);
    let q4 = q3.push(a3);
    let q5 = q4.push(a4);
    let q6 = q5.push(a5);
    let q7 = q6.push(a6);
    assert(order_query(env, tracker, params) =~= q7);
    lemma_query_text_push(q1, a1);
    lemma_query_text_push(q2, a2);
    lemma_query_text_push(q3, a3);
    lemma_query_text_push(q4, a4);
    lemma_query_text_push(q5, a5);
    lemma_query_text_push(q6, a6);
    assert(query_text(q1) == query_item(a0));
    assert(query_text(q7) == order_page_query(env, tracker, params));
}

/// The query of the hosted subscription page for a plan, item by item.
pub open spec fn plan_page_query(env: Seq<char>, plan: Seq<char>, params: CheckoutParams) -> Seq<char> {
    ("env"@ + "="@ + url_value(env)) + "&"@ + ("plan_id"@ + "="@ + url_value(plan)) + "&"@ + (
    "planId"@ + "="@ + url_value(plan)) + "&"@ + ("reference"@ + "="@ + url_value(
        params.client_reference_id@,
    )) + "&"@ + ("redirect_url"@ + "="@ + url_value(params.success_url@)) + "&"@ + ("cancel_url"@
        + "="@ + url_value(params.cancel_url@)) + "&"@ + ("source"@ + "="@ + url_value("custom"@))
        + "&"@ + ("webhooks"@ + "="@ + url_value("true"@))
}

/// A checkout whose metadata names a Safepay plan (under
/// "safepay_plan_id", or else "plan_id") goes straight to the hosted
/// subscription page of the gateway's environment for that plan, with the
/// client reference as both the `reference` and the session.
pub proof fn plan_checkout_goes_to_the_plan_page(
    g: SafepayGateway,
    params: CheckoutParams,
    r: SafepayCheckoutStep,
)
    requires
        checkout_step(g, params, r),
        params.metadata@.contains_key("safepay_plan_id"@) || params.metadata@.contains_key(
            "plan_id"@,
        ),
    ensures
        r is Redirect,
        r->Redirect_0.session_id@ == params.client_reference_id@,
        r->Redirect_0.gateway@ == "safepay"@,
        ({
            let plan = if params.metadata@.contains_key("safepay_plan_id"@) {
                params.metadata@["safepay_plan_id"@]@
            } else {
                params.metadata@["plan_id"@]@
            };
            &&& g.environment@ == "production"@ ==> r->Redirect_0.checkout_url@
                == "https://getsafepay.com/checkout/pay"@ + "?"@ + plan_page_query(
                "production"@,
                plan,
                params,
            )
            &&& g.environment@ != "production"@ ==> r->Redirect_0.checkout_url@
                == "https://sandbox.api.getsafepay.com/checkout/pay"@ + "?"@ + plan_page_query(
                "sandbox"@,
                plan,
                params,
            )
        }),
{
    let env = safepay_env_name(g.is_production());
    let plan = plan_id_of(params.metadata@)->Some_0@;
    let a0 = ("env"@, env);
    let a1 = ("plan_id"@, plan);
    let a2 = ("planId"@, plan);
    let a3 = ("reference"@, params.client_reference_id@);
    let a4 = ("redirect_url"@, params.success_url@);
    let a5 = ("cancel_url"@, params.cancel_url@);
    let a6 = ("source"@, "custom"@);
    let a7 = ("webhooks"@, "true"@);
    let q1 = seq![a0];
    let q2 = q1.push(a1);
    let q3 = q2.push(a2);
    let q4 = q3.push(a3);
    let q5 = q4.push(a4);
    let q6 = q5.push(a5);
    let q7 = q6.push(a6);
    let q8 = q7.push(a7);
    assert(subscription_query(env, plan, params) =~= q8);
    lemma_query_text_push(q1, a1);
    lemma_query_text_push(q2, a2);
    lemma_query_text_push(q3, a3);
    lemma_query_text_push(q4, a4);
    lemma_query_text_push(q5, a5);
    lemma_query_text_push(q6, a6);
    lemma_query_text_push(q7, a7);
    assert(query_text(q1) == query_item(a0));
    assert(query_text(q8) == plan_page_query(env, plan, params));
}

/// A checkout whose metadata names no plan first registers an order with
/// the API of the gateway's environment: at `/order/v1/init` of the
/// production or sandbox host, for the gateway's API key, the unit amount,
/// the currency's code in upper case, and the environment's name
/// ("production" or "sandbox", as on the hosted page).
pub proof fn one_time_checkout_registers_an_order(
    g: SafepayGateway,
    params: CheckoutParams,
    r: SafepayCheckoutStep,
)
    requires
        checkout_step(g, params, r),
        !params.metadata@.contains_key("safepay_plan_id"@),
        !params.metadata@.contains_key("plan_id"@),
    ensures
        r is InitOrder,
        r->InitOrder_0.client@ == g.api_key@,
        r->InitOrder_0.unit_amount == params.unit_amount,
        r->InitOrder_0.currency@ == uppercase(currency_code(params.currency)),
        g.environment@ == "production"@ ==> {
            &&& r->InitOrder_0.url@ == "https://api.getsafepay.com"@ + "/order/v1/init"@
            &&& r->InitOrder_0.environment@ == "production"@
        },
        g.environment@ != "production"@ ==> {
            &&& r->InitOrder_0.url@ == "https://sandbox.api.getsafepay.com"@ + "/order/v1/init"@
            &&& r->InitOrder_0.environment@ == "sandbox"@
        },
{
}

/// A webhook is refused before any signature check where a header is
/// missing (first the timestamp, then the signature), and as unprocessable
/// where its body is not UTF-8; with a secret that is not base64, it is
/// refused as unverifiable.
pub proof fn incomplete_webhooks_are_refused(
    secret: Seq<char>,
    headers: Seq<(String, String)>,
    payload: Seq<u8>,
    r: Result<Seq<char>, GatewayErrorView>,
)
    requires
        r == safepay_verification(secret, headers, payload),
    ensures
        header_value(headers, "X-SFPY-TIMESTAMP"@) is None ==> r == Err::<Seq<char>, GatewayErrorView>(
            GatewayErrorView::WebhookVerificationFailed("Missing X-SFPY-TIMESTAMP header"@),
        ),
        header_value(headers, "X-SFPY-TIMESTAMP"@) is Some && header_value(headers, "X-SFPY-SIGNATURE"@) is None
            ==> r == Err::<Seq<char>, GatewayErrorView>(
            GatewayErrorView::WebhookVerificationFailed("Missing X-SFPY-SIGNATURE header"@),
        ),
        header_value(headers, "X-SFPY-TIMESTAMP"@) is Some && header_value(headers, "X-SFPY-SIGNATURE"@) is Some
            && !valid_utf8(payload) ==> r == Err::<Seq<char>, GatewayErrorView>(
            GatewayErrorView::WebhookProcessingFailed(
                "Invalid UTF-8 payload: "@ + utf8_error_text(payload),
            ),
        ),
        header_value(headers, "X-SFPY-TIMESTAMP"@) is Some && header_value(headers, "X-SFPY-SIGNATURE"@) is Some
            && valid_utf8(payload) && secret.len() > 0 && base64_decoded(secret) is Err ==> r
            == Err::<Seq<char>, GatewayErrorView>(
            GatewayErrorView::WebhookVerificationFailed(
                "Failed to decode webhook secret: "@ + base64_decoded(secret)->Err_0,
            ),
        ),
        r matches Ok(body) ==> valid_utf8(payload) && body == decode_utf8(payload),
{
}

} // verus!
