//! The Stripe gateway: the checkout-session request, the reading of Stripe
//! webhook events, and the mapping of Stripe subscriptions and statuses.

use vstd::prelude::*;
use vstd::utf8::{decode_utf8, valid_utf8};
use crate::clock::{now_unix_seconds, timestamp_in_range, EARLIEST_TIMESTAMP, LATEST_TIMESTAMP};
use crate::error::{err_view, GatewayError, GatewayErrorView};
use crate::json::{
    all_strings, json_get, json_i64, json_parse, json_str, opt_get, opt_i64, opt_str,
    JsonValue,
};
use crate::keyed::{entries_map, NameMap};
use crate::text::{
    concat2, decimal, decimal_string, owned, parse_u32, parsed_u32, str_eq, str_from_utf8,
    utf8_error_text,
};
use crate::types::{
    event_result_view, texts, CheckoutCompletedData, CheckoutParams, CheckoutResult, Currency, GatewayInfo,
    SubscriptionDeletedData, SubscriptionInfo, SubscriptionInterval, SubscriptionStatus,
    WebhookEventType,
};

verus! {

/// Stripe payment gateway: the secret API key (from which the API client
/// is made) and the webhook signing secret.
#[derive(Debug, Clone)]
pub struct StripeGateway {
    secret_key: String,
    webhook_secret: String,
}

/// The currencies in which this library charges through Stripe.
#[derive(Debug, Clone, Copy, PartialEq, Eq, Structural)]
pub enum StripeCurrency {
    USD,
    EUR,
    GBP,
    CAD,
    AUD,
    INR,
}

/// The Stripe currency for a currency: the same one where Stripe is used
/// with it here, US dollars for any other.
pub open spec fn stripe_currency_of(c: Currency) -> StripeCurrency {
    match c {
        Currency::EUR => StripeCurrency::EUR,
        Currency::GBP => StripeCurrency::GBP,
        Currency::CAD => StripeCurrency::CAD,
        Currency::AUD => StripeCurrency::AUD,
        Currency::INR => StripeCurrency::INR,
        _ => StripeCurrency::USD,
    }
}

/// Maps a currency to the Stripe currency used to charge it.
pub fn map_currency(currency: &Currency) -> (r: StripeCurrency)
    ensures
        r == stripe_currency_of(*currency),
{
    match currency {
        Currency::USD => StripeCurrency::USD,
        Currency::EUR => StripeCurrency::EUR,
        Currency::GBP => StripeCurrency::GBP,
        Currency::CAD => StripeCurrency::CAD,
        Currency::AUD => StripeCurrency::AUD,
        Currency::INR => StripeCurrency::INR,
        _ => StripeCurrency::USD,
    }
}

/// The status of a Stripe subscription, as Stripe reports it.
#[derive(Debug, Clone, Copy, PartialEq, Eq, Structural)]
pub enum StripeSubscriptionStatus {
    Active,
    Canceled,
    Incomplete,
    IncompleteExpired,
    PastDue,
    Paused,
    Trialing,
    Unpaid,
}

/// Stripe's name for a subscription status.
pub open spec fn stripe_status_name(s: StripeSubscriptionStatus) -> Seq<char> {
    match s {
        StripeSubscriptionStatus::Active => "active"@,
        StripeSubscriptionStatus::Canceled => "canceled"@,
        StripeSubscriptionStatus::Incomplete => "incomplete"@,
        StripeSubscriptionStatus::IncompleteExpired => "incomplete_expired"@,
        StripeSubscriptionStatus::PastDue => "past_due"@,
        StripeSubscriptionStatus::Paused => "paused"@,
        StripeSubscriptionStatus::Trialing => "trialing"@,
        StripeSubscriptionStatus::Unpaid => "unpaid"@,
    }
}

impl StripeSubscriptionStatus {
    /// Stripe's name for the status.
    pub fn as_str(self) -> (r: &'static str)
        ensures
            r@ == stripe_status_name(self),
    {
        match self {
            StripeSubscriptionStatus::Active => "active",
            StripeSubscriptionStatus::Canceled => "canceled",
            StripeSubscriptionStatus::Incomplete => "incomplete",
            StripeSubscriptionStatus::IncompleteExpired => "incomplete_expired",
            StripeSubscriptionStatus::PastDue => "past_due",
            StripeSubscriptionStatus::Paused => "paused",
            StripeSubscriptionStatus::Trialing => "trialing",
            StripeSubscriptionStatus::Unpaid => "unpaid",
        }
    }
}

/// The unified status for a Stripe status: the statuses both know map to
/// each other; any other is `Unknown` with Stripe's name for it.
pub open spec fn maps_stripe_status(s: StripeSubscriptionStatus, r: SubscriptionStatus) -> bool {
    match s {
        StripeSubscriptionStatus::Active => r == SubscriptionStatus::Active,
        StripeSubscriptionStatus::PastDue => r == SubscriptionStatus::PastDue,
        StripeSubscriptionStatus::Trialing => r == SubscriptionStatus::Trialing,
        StripeSubscriptionStatus::Canceled => r == SubscriptionStatus::Cancelled,
        StripeSubscriptionStatus::Incomplete => r == SubscriptionStatus::Incomplete,
        _ => r matches SubscriptionStatus::Unknown(t) && t@ == stripe_status_name(s),
    }
}

/// Maps a Stripe subscription status to the unified status.
pub fn map_stripe_status(status: StripeSubscriptionStatus) -> (r: SubscriptionStatus)
    ensures
        maps_stripe_status(status, r),
{
    match status {
        StripeSubscriptionStatus::Active => SubscriptionStatus::Active,
        StripeSubscriptionStatus::PastDue => SubscriptionStatus::PastDue,
        StripeSubscriptionStatus::Trialing => SubscriptionStatus::Trialing,
        StripeSubscriptionStatus::Canceled => SubscriptionStatus::Cancelled,
        StripeSubscriptionStatus::Incomplete => SubscriptionStatus::Incomplete,
        _ => SubscriptionStatus::Unknown(owned(status.as_str())),
    }
}

/// The billing interval of a Stripe price.
#[derive(Debug, Clone, Copy, PartialEq, Eq, Structural)]
pub enum StripeInterval {
    Month,
    Year,
}

/// What a Stripe checkout session is created with: a subscription to one
/// line item of `quantity` units, priced per unit in the smallest currency
/// unit, recurring every `interval`.
#[derive(Debug, Clone)]
pub struct StripeCheckoutRequest {
    pub customer_email: String,
    pub success_url: String,
    pub cancel_url: String,
    pub client_reference_id: String,
    pub product_name: String,
    pub interval: StripeInterval,
    pub currency: StripeCurrency,
    pub unit_amount: i64,
    pub quantity: u64,
    pub metadata: NameMap<String>,
}

/// The product name of a plan with a number of seats, e.g.
/// "Professional (1 Seat)" or "Team (5 Seats)".
pub open spec fn product_name_of(plan: Seq<char>, seats: u32) -> Seq<char> {
    plan + " ("@ + decimal(seats as nat) + " Seat"@ + (if seats > 1 {
        "s"@
    } else {
        Seq::empty()
    }) + ")"@
}

/// The outcome of Stripe's check of a webhook signature
/// (`stripe::Webhook::construct_event`).
#[derive(Debug, Clone)]
pub enum StripeSignatureCheck {
    /// The signature is valid and the event was read.
    Valid,
    /// The signature is valid but Stripe could not read the event itself.
    EventUnreadable,
    /// The check failed; the text says why.
    Rejected(String),
    /// No check was made.
    NotChecked,
}

/// An optional text as text, or a default.
pub open spec fn str_or(t: Option<Seq<char>>, default: Seq<char>) -> Seq<char> {
    match t {
        Some(s) => s,
        None => default,
    }
}

/// An optional string as an optional text.
pub open spec fn view_opt(o: Option<String>) -> Option<Seq<char>> {
    match o {
        Some(s) => Some(s@),
        None => None,
    }
}

/// `m` is the metadata read from a JSON value: the value's members where
/// it is an object of strings, nothing otherwise.
pub open spec fn metadata_from_json(v: Option<JsonValue>, m: Map<Seq<char>, String>) -> bool {
    match v {
        Some(JsonValue::Object(o)) => if all_strings(o@) {
            &&& m.dom() == entries_map(o@).dom()
            &&& forall|k: Seq<char>| #[trigger]
                m.contains_key(k) ==> json_str(entries_map(o@)[k]) == Some(m[k]@)
        } else {
            m == Map::<Seq<char>, String>::empty()
        },
        _ => m == Map::<Seq<char>, String>::empty(),
    }
}

/// The text stored under `key`, if any.
pub open spec fn meta_get(m: Map<Seq<char>, String>, key: Seq<char>) -> Option<Seq<char>> {
    if m.contains_key(key) {
        Some(m[key]@)
    } else {
        None
    }
}

/// The completed checkout that a `checkout.session.completed` event's
/// `data.object` describes.
pub open spec fn checkout_completed_from(d: JsonValue, c: CheckoutCompletedData) -> bool {
    let metadata = json_get(d, "metadata"@);
    &&& metadata_from_json(metadata, c.metadata@)
    &&& c.session_id@ == str_or(opt_str(json_get(d, "id"@)), Seq::empty())
    &&& view_opt(c.customer_id) == opt_str(json_get(d, "customer"@))
    &&& view_opt(c.subscription_id) == opt_str(json_get(d, "subscription"@))
    &&& c.amount_total == (match opt_i64(json_get(d, "amount_total"@)) {
        Some(a) => a,
        None => 0,
    })
    &&& c.currency@ == str_or(opt_str(json_get(d, "currency"@)), "usd"@)
    &&& c.tier@ == str_or(opt_str(opt_get(metadata, "tier"@)), "pro"@)
    &&& c.interval@ == str_or(opt_str(opt_get(metadata, "interval"@)), "monthly"@)
    &&& view_opt(c.client_reference_id) == (match opt_str(json_get(d, "client_reference_id"@)) {
        Some(s) => Some(s),
        None => meta_get(c.metadata@, "user_id"@),
    })
    &&& c.seats == (match meta_get(c.metadata@, "seats"@) {
        Some(s) => parsed_u32(s),
        None => None,
    })
}

/// `r` reports a deleted subscription, described by `data`.
pub open spec fn deleted_event(data: Option<JsonValue>, r: Result<WebhookEventType, GatewayError>) -> bool {
    &&& r is Ok
    &&& r->Ok_0 is SubscriptionDeleted
    &&& r->Ok_0->SubscriptionDeleted_0.subscription_id@ == str_or(opt_str(opt_get(data, "id"@)), Seq::empty())
}

/// `r` reports an updated subscription, described by `data`.
pub open spec fn updated_event(data: Option<JsonValue>, r: Result<WebhookEventType, GatewayError>) -> bool {
    &&& r is Ok
    &&& r->Ok_0 is SubscriptionUpdated
    &&& r->Ok_0->SubscriptionUpdated_subscription_id@ == str_or(opt_str(opt_get(data, "id"@)), Seq::empty())
    &&& r->Ok_0->SubscriptionUpdated_status@ == str_or(opt_str(opt_get(data, "status"@)), "unknown"@)
}

/// `r` reports a paid invoice, described by `data`.
pub open spec fn paid_event(data: Option<JsonValue>, r: Result<WebhookEventType, GatewayError>) -> bool {
    &&& r is Ok
    &&& r->Ok_0 is InvoicePaid
    &&& r->Ok_0->InvoicePaid_invoice_id@ == str_or(opt_str(opt_get(data, "id"@)), Seq::empty())
    &&& view_opt(r->Ok_0->InvoicePaid_subscription_id) == opt_str(opt_get(data, "subscription"@))
    &&& r->Ok_0->InvoicePaid_amount_paid == (match opt_i64(opt_get(data, "amount_paid"@)) {
        Some(a) => a,
        None => 0,
    })
    &&& r->Ok_0->InvoicePaid_currency@ == str_or(opt_str(opt_get(data, "currency"@)), "usd"@)
}

/// `r` reports a failed invoice payment, described by `data`.
pub open spec fn payment_failed_event(data: Option<JsonValue>, r: Result<WebhookEventType, GatewayError>) -> bool {
    &&& r is Ok
    &&& r->Ok_0 is InvoicePaymentFailed
    &&& r->Ok_0->InvoicePaymentFailed_invoice_id@ == str_or(opt_str(opt_get(data, "id"@)), Seq::empty())
    &&& view_opt(r->Ok_0->InvoicePaymentFailed_subscription_id) == opt_str(opt_get(data, "subscription"@))
}

/// `r` reports a completed checkout, described by `data`; without a
/// description it is an error.
pub open spec fn completed_event(data: Option<JsonValue>, r: Result<WebhookEventType, GatewayError>) -> bool {
    match data {
        None => err_view(r) == Some(
            GatewayErrorView::WebhookProcessingFailed(
                "Missing data.object in checkout.session.completed"@,
            ),
        ),
        Some(d) => {
            &&& r is Ok
            &&& r->Ok_0 is CheckoutCompleted
            &&& checkout_completed_from(d, r->Ok_0->CheckoutCompleted_0)
        },
    }
}

/// The unified event (or error) for a Stripe event document.
///
/// The event's `type` selects the kind; the fields come from
/// `data.object`, with defaults where they are missing. A completed
/// checkout without `data.object` is an error; an unknown type is
/// forwarded with the whole document.
pub open spec fn stripe_event(ev: JsonValue, r: Result<WebhookEventType, GatewayError>) -> bool {
    event_of_kind(
        str_or(opt_str(json_get(ev, "type"@)), Seq::empty()),
        opt_get(json_get(ev, "data"@), "object"@),
        ev,
        r,
    )
}

/// The unified event (or error) for an event of type `kind` that `data`
/// describes, from the document `ev`.
pub open spec fn event_of_kind(
    kind: Seq<char>,
    data: Option<JsonValue>,
    ev: JsonValue,
    r: Result<WebhookEventType, GatewayError>,
) -> bool {
    if kind == "checkout.session.completed"@ {
        completed_event(data, r)
    } else if kind == "customer.subscription.deleted"@ {
        deleted_event(data, r)
    } else if kind == "customer.subscription.updated"@ {
        updated_event(data, r)
    } else if kind == "invoice.paid"@ {
        paid_event(data, r)
    } else if kind == "invoice.payment_failed"@ {
        payment_failed_event(data, r)
    } else {
        &&& r is Ok
        &&& r->Ok_0 is Unknown
        &&& r->Ok_0->Unknown_event_type@ == kind
        &&& r->Ok_0->Unknown_raw_data == ev
    }
}

/// The outcome of reading a Stripe webhook with body `payload`, where
/// `verifies` tells whether signatures are checked and `check` is Stripe's
/// verdict on the signature: a body that is not UTF-8, or not JSON, is a
/// processing error; where signatures are checked, a rejected signature is a
/// verification error; otherwise the event is read from the document.
pub open spec fn webhook_outcome(
    verifies: bool,
    payload: Seq<u8>,
    check: StripeSignatureCheck,
    r: Result<WebhookEventType, GatewayError>,
) -> bool {
    if !valid_utf8(payload) {
        err_view(r) == Some(GatewayErrorView::WebhookProcessingFailed(utf8_error_text(payload)))
    } else {
        match json_parse(decode_utf8(payload)) {
            Err(m) => err_view(r) == Some(GatewayErrorView::WebhookProcessingFailed(m)),
            Ok(ev) => if verifies && check is Rejected {
                err_view(r) == Some(GatewayErrorView::WebhookVerificationFailed(check->Rejected_0@))
            } else {
                stripe_event(ev, r)
            },
        }
    }
}

/// The metadata read from a JSON value is determined by it, text for text.
proof fn lemma_metadata_view(v: Option<JsonValue>, m1: Map<Seq<char>, String>, m2: Map<Seq<char>, String>)
    requires
        metadata_from_json(v, m1),
        metadata_from_json(v, m2),
    ensures
        m1.map_values(|s: String| s@) == m2.map_values(|s: String| s@),
        forall|k: Seq<char>| #[trigger] meta_get(m1, k) == meta_get(m2, k),
{
    assert(m1.dom() == m2.dom());
    assert forall|k: Seq<char>| m1.contains_key(k) implies m1[k]@ == m2[k]@ by {
        match v {
            Some(JsonValue::Object(o)) => {
                if all_strings(o@) {
                    assert(json_str(entries_map(o@)[k]) == Some(m1[k]@));
                    assert(json_str(entries_map(o@)[k]) == Some(m2[k]@));
                }
            },
            _ => {},
        }
    }
    assert(m1.map_values(|s: String| s@) =~= m2.map_values(|s: String| s@));
}

/// The event (or error) read from a Stripe event document is determined by
/// the document: any two results that `stripe_event` admits say the same.
pub proof fn stripe_event_is_determined(
    ev: JsonValue,
    r1: Result<WebhookEventType, GatewayError>,
    r2: Result<WebhookEventType, GatewayError>,
)
    requires
        stripe_event(ev, r1),
        stripe_event(ev, r2),
    ensures
        event_result_view(r1) == event_result_view(r2),
{
    let data = opt_get(json_get(ev, "data"@), "object"@);
    let kind = str_or(opt_str(json_get(ev, "type"@)), Seq::empty());
    if kind == "checkout.session.completed"@ {
        if let Some(d) = data {
            let c1 = r1->Ok_0->CheckoutCompleted_0;
            let c2 = r2->Ok_0->CheckoutCompleted_0;
            lemma_metadata_view(json_get(d, "metadata"@), c1.metadata@, c2.metadata@);
            assert(meta_get(c1.metadata@, "user_id"@) == meta_get(c2.metadata@, "user_id"@));
            assert(meta_get(c1.metadata@, "seats"@) == meta_get(c2.metadata@, "seats"@));
            assert(c1@ == c2@);
        }
    }
}

/// Where signatures are not checked, the signature verdict handed in does
/// not matter: any two outcomes for the same body say the same, and none is
/// a verification error.
pub proof fn unchecked_signature_verdict_is_ignored(
    payload: Seq<u8>,
    check1: StripeSignatureCheck,
    check2: StripeSignatureCheck,
    r1: Result<WebhookEventType, GatewayError>,
    r2: Result<WebhookEventType, GatewayError>,
)
    requires
        webhook_outcome(false, payload, check1, r1),
        webhook_outcome(false, payload, check2, r2),
    ensures
        event_result_view(r1) == event_result_view(r2),
        !(event_result_view(r1) matches Err(GatewayErrorView::WebhookVerificationFailed(_))),
{
    if valid_utf8(payload) {
        if let Ok(ev) = json_parse(decode_utf8(payload)) {
            stripe_event_is_determined(ev, r1, r2);
        }
    }
}

/// The member `key` of a value that may be missing.
fn field<'a>(v: Option<&'a JsonValue>, key: &str) -> (r: Option<&'a JsonValue>)
    ensures
        crate::json::deref_opt(r) == opt_get(crate::json::deref_opt(v), key@),
{
    match v {
        Some(x) => x.get(key),
        None => None,
    }
}

/// The text of a value that may be missing, or a default.
fn text_field(v: Option<&JsonValue>, default: &str) -> (r: String)
    ensures
        r@ == str_or(opt_str(crate::json::deref_opt(v)), default@),
{
    match v {
        Some(x) => match x.as_str() {
            Some(s) => owned(s),
            None => owned(default),
        },
        None => owned(default),
    }
}

/// The text of a value that may be missing, or the empty text.
fn empty_or_text(v: Option<&JsonValue>) -> (r: String)
    ensures
        r@ == str_or(opt_str(crate::json::deref_opt(v)), Seq::empty()),
{
    match v {
        Some(x) => match x.as_str() {
            Some(s) => owned(s),
            None => String::new(),
        },
        None => String::new(),
    }
}

/// The text of a value that may be missing, if it is a string.
fn opt_text_field(v: Option<&JsonValue>) -> (r: Option<String>)
    ensures
        view_opt(r) == opt_str(crate::json::deref_opt(v)),
{
    match v {
        Some(x) => match x.as_str() {
            Some(s) => Some(owned(s)),
            None => None,
        },
        None => None,
    }
}

/// The integer of a value that may be missing, or 0.
fn int_field(v: Option<&JsonValue>) -> (r: i64)
    ensures
        r == (match opt_i64(crate::json::deref_opt(v)) {
            Some(a) => a,
            None => 0,
        }),
{
    match v {
        Some(x) => match x.as_i64() {
            Some(a) => a,
            None => 0,
        },
        None => 0,
    }
}

/// The fields of a Stripe subscription that the library reads.
#[derive(Debug, Clone)]
pub struct StripeSubscriptionFields {
    pub id: String,
    /// The customer's ID (whether Stripe sent the ID or the whole customer).
    pub customer_id: String,
    pub status: StripeSubscriptionStatus,
    /// Seconds since 1970-01-01 00:00:00 UTC.
    pub current_period_end: i64,
    pub metadata: NameMap<String>,
    pub cancel_at_period_end: bool,
}

/// What Stripe's cancellation request asks for.
#[derive(Debug, Clone, Copy, PartialEq, Eq, Structural)]
pub enum StripeCancellation {
    /// Keep the subscription until the end of the current period.
    AtPeriodEnd,
    /// End the subscription now.
    Immediately,
}

/// The subscription details for a Stripe subscription.
pub open spec fn subscription_info_from(sub: StripeSubscriptionFields, r: SubscriptionInfo) -> bool {
    &&& r.subscription_id@ == sub.id@
    &&& r.customer_id@ == sub.customer_id@
    &&& maps_stripe_status(sub.status, r.status)
    &&& view_opt(r.tier) == meta_get(sub.metadata@, "tier"@)
    &&& r.cancel_at_period_end == sub.cancel_at_period_end
}

impl StripeGateway {
    /// The secret API key.
    pub closed spec fn key(self) -> Seq<char> {
        self.secret_key@
    }

    /// The webhook signing secret.
    pub closed spec fn signing_secret(self) -> Seq<char> {
        self.webhook_secret@
    }

    /// Create a new Stripe gateway instance.
    ///
    /// * `secret_key` - Your Stripe secret key (starts with `sk_`)
    /// * `webhook_secret` - Your Stripe webhook signing secret (starts with `whsec_`)
    pub fn new(secret_key: String, webhook_secret: String) -> (r: Self)
        ensures
            r.key() == secret_key@,
            r.signing_secret() == webhook_secret@,
    {
        StripeGateway { secret_key, webhook_secret }
    }

    /// The secret API key, from which the API client is made.
    pub fn secret_key(&self) -> (r: &str)
        ensures
            r@ == self.key(),
    {
        self.secret_key.as_str()
    }

    /// The webhook signing secret.
    pub fn webhook_secret(&self) -> (r: &str)
        ensures
            r@ == self.signing_secret(),
    {
        self.webhook_secret.as_str()
    }

    /// Webhook signatures are checked unless the signing secret is empty or
    /// the placeholder "whsec_placeholder".
    pub open spec fn verifies_signatures(self) -> bool {
        self.signing_secret().len() > 0 && self.signing_secret() != "whsec_placeholder"@
    }

    /// Whether webhook signatures are checked.
    pub fn checks_signatures(&self) -> (r: bool)
        ensures
            r == self.verifies_signatures(),
    {
        !self.webhook_secret.as_str().is_empty() && !str_eq(
            self.webhook_secret.as_str(),
            "whsec_placeholder",
        )
    }

    /// The checkout session to create for a purchase: a monthly or yearly
    /// subscription to one unit of a product named after the plan and the
    /// number of seats, at the unit amount in the Stripe currency for the
    /// purchase's currency, with the purchase's metadata.
    pub fn checkout_request(&self, params: CheckoutParams) -> (r: StripeCheckoutRequest)
        ensures
            r.customer_email == params.customer_email,
            r.success_url == params.success_url,
            r.cancel_url == params.cancel_url,
            r.client_reference_id == params.client_reference_id,
            r.product_name@ == product_name_of(params.plan_name@, params.seats),
            r.interval == (if params.interval == SubscriptionInterval::Yearly {
                StripeInterval::Year
            } else {
                StripeInterval::Month
            }),
            r.currency == stripe_currency_of(params.currency),
            r.unit_amount == params.unit_amount,
            r.quantity == 1,
            r.metadata == params.metadata,
    {
        let mut name = concat2(params.plan_name.as_str(), " (");
        let seats = decimal_string(params.seats);
        name.append(seats.as_str());
        name.append(" Seat");
        if params.seats > 1 {
            name.append("s");
        }
        name.append(")");
        let interval = match params.interval {
            SubscriptionInterval::Yearly => StripeInterval::Year,
            SubscriptionInterval::Monthly => StripeInterval::Month,
        };
        let currency = map_currency(&params.currency);
        StripeCheckoutRequest {
            customer_email: params.customer_email,
            success_url: params.success_url,
            cancel_url: params.cancel_url,
            client_reference_id: params.client_reference_id,
            product_name: name,
            interval,
            currency,
            unit_amount: params.unit_amount,
            quantity: 1,
            metadata: params.metadata,
        }
    }

    /// The checkout result for a session that Stripe created: its URL (empty
    /// where Stripe gave none) and its ID.
    pub fn checkout_result(url: Option<String>, session_id: String) -> (r: CheckoutResult)
        ensures
            r.checkout_url@ == str_or(view_opt(url), Seq::empty()),
            r.gateway@ == "stripe"@,
            r.session_id == session_id,
    {
        let checkout_url = match url {
            Some(u) => u,
            None => String::new(),
        };
        CheckoutResult { checkout_url, gateway: owned("stripe"), session_id }
    }

    /// The completed checkout that a `checkout.session.completed` event's
    /// `data.object` describes.
    fn checkout_completed(d: &JsonValue) -> (r: CheckoutCompletedData)
        ensures
            checkout_completed_from(*d, r),
    {
        let metadata = match d.get("metadata") {
            Some(m) => match m.to_string_map() {
                Some(map) => map,
                None => NameMap::new(),
            },
            None => NameMap::new(),
        };
        let client_reference_id = match opt_text_field(d.get("client_reference_id")) {
            Some(c) => Some(c),
            None => match metadata.get("user_id") {
                Some(u) => Some(u.clone()),
                None => None,
            },
        };
        let seats = match metadata.get("seats") {
            Some(s) => parse_u32(s.as_str()),
            None => None,
        };
        let completed = CheckoutCompletedData {
            session_id: empty_or_text(d.get("id")),
            customer_id: opt_text_field(d.get("customer")),
            subscription_id: opt_text_field(d.get("subscription")),
            amount_total: int_field(d.get("amount_total")),
            currency: text_field(d.get("currency"), "usd"),
            tier: text_field(field(d.get("metadata"), "tier"), "pro"),
            interval: text_field(field(d.get("metadata"), "interval"), "monthly"),
            client_reference_id,
            seats,
            metadata,
        };
        completed
    }

    /// The unified event for a Stripe event document.
    pub fn event_from_json(event: JsonValue) -> (r: Result<WebhookEventType, GatewayError>)
        ensures
            stripe_event(event, r),
    {
        let kind = empty_or_text(event.get("type"));
        let data = field(event.get("data"), "object");
        if str_eq(kind.as_str(), "checkout.session.completed") {
            let d = match data {
                Some(d) => d,
                None => {
                    return Err(
                        GatewayError::WebhookProcessingFailed(
                            owned("Missing data.object in checkout.session.completed"),
                        ),
                    );
                },
            };
            let completed = Self::checkout_completed(d);
            Ok(WebhookEventType::CheckoutCompleted(completed))
        } else if str_eq(kind.as_str(), "customer.subscription.deleted") {
            Ok(
                WebhookEventType::SubscriptionDeleted(
                    SubscriptionDeletedData { subscription_id: empty_or_text(field(data, "id")) },
                ),
            )
        } else if str_eq(kind.as_str(), "customer.subscription.updated") {
            Ok(
                WebhookEventType::SubscriptionUpdated {
                    subscription_id: empty_or_text(field(data, "id")),
                    status: text_field(field(data, "status"), "unknown"),
                },
            )
        } else if str_eq(kind.as_str(), "invoice.paid") {
            Ok(
                WebhookEventType::InvoicePaid {
                    invoice_id: empty_or_text(field(data, "id")),
                    subscription_id: opt_text_field(field(data, "subscription")),
                    amount_paid: int_field(field(data, "amount_paid")),
                    currency: text_field(field(data, "currency"), "usd"),
                },
            )
        } else if str_eq(kind.as_str(), "invoice.payment_failed") {
            Ok(
                WebhookEventType::InvoicePaymentFailed {
                    invoice_id: empty_or_text(field(data, "id")),
                    subscription_id: opt_text_field(field(data, "subscription")),
                },
            )
        } else {
            Ok(WebhookEventType::Unknown { event_type: kind, raw_data: event })
        }
    }

    /// Reads a Stripe webhook, given the outcome of Stripe's signature check
    /// of it (which is needed, and used, only where signatures are checked
    /// and the body is UTF-8).
    ///
    /// The body must be UTF-8 and JSON. Where signatures are checked, a
    /// rejected signature fails the webhook; a valid signature on an event
    /// that Stripe itself could not read does not. The event is then read
    /// from the document.
    pub fn parse_webhook(&self, payload: &[u8], signature_check: StripeSignatureCheck) -> (r:
        Result<WebhookEventType, GatewayError>)
        requires
            self.verifies_signatures() && valid_utf8(payload@) ==> !(signature_check is NotChecked),
        ensures
            webhook_outcome(self.verifies_signatures(), payload@, signature_check, r),
    {
        let text = match str_from_utf8(payload) {
            Ok(s) => s,
            Err(e) => {
                return Err(GatewayError::WebhookProcessingFailed(e));
            },
        };
        let event = match JsonValue::parse(text) {
            Ok(v) => v,
            Err(e) => {
                return Err(GatewayError::WebhookProcessingFailed(e));
            },
        };
        if self.checks_signatures() {
            match signature_check {
                StripeSignatureCheck::Rejected(m) => {
                    return Err(GatewayError::WebhookVerificationFailed(m));
                },
                _ => {},
            }
        }
        Self::event_from_json(event)
    }

    /// The subscription details for a Stripe subscription at time `now`
    /// (seconds since the epoch): its current period ends when Stripe says,
    /// or, where that instant is out of the range of a timestamp, at `now`.
    pub fn subscription_info_at(sub: StripeSubscriptionFields, now: i64) -> (r: SubscriptionInfo)
        ensures
            subscription_info_from(sub, r),
            r.current_period_end == (if EARLIEST_TIMESTAMP <= sub.current_period_end
                <= LATEST_TIMESTAMP {
                sub.current_period_end
            } else {
                now
            }),
    {
        let tier = match sub.metadata.get("tier") {
            Some(t) => Some(t.clone()),
            None => None,
        };
        let end = sub.current_period_end;
        let current_period_end = if timestamp_in_range(end) {
            end
        } else {
            now
        };
        SubscriptionInfo {
            subscription_id: sub.id,
            customer_id: sub.customer_id,
            status: map_stripe_status(sub.status),
            current_period_end,
            tier,
            cancel_at_period_end: sub.cancel_at_period_end,
        }
    }

    /// The subscription details for a Stripe subscription; the clock is read
    /// only where Stripe's period end is out of range.
    pub fn subscription_info(sub: StripeSubscriptionFields) -> (r: SubscriptionInfo)
        ensures
            subscription_info_from(sub, r),
            EARLIEST_TIMESTAMP <= sub.current_period_end <= LATEST_TIMESTAMP
                ==> r.current_period_end == sub.current_period_end,
            EARLIEST_TIMESTAMP <= r.current_period_end <= LATEST_TIMESTAMP,
    {
        let end = sub.current_period_end;
        let now = if timestamp_in_range(end) {
            end
        } else {
            now_unix_seconds()
        };
        Self::subscription_info_at(sub, now)
    }

    /// How to cancel: at the end of the current period, or immediately.
    pub fn cancellation(at_period_end: bool) -> (r: StripeCancellation)
        ensures
            r == (if at_period_end {
                StripeCancellation::AtPeriodEnd
            } else {
                StripeCancellation::Immediately
            }),
    {
        if at_period_end {
            StripeCancellation::AtPeriodEnd
        } else {
            StripeCancellation::Immediately
        }
    }

    /// Metadata about this gateway.
    pub fn gateway_info(&self) -> (r: GatewayInfo)
        ensures
            r.name@ == "stripe"@,
            r.display_name@ == "Stripe"@,
            texts(r.supported_currencies@) == seq!["usd"@, "eur"@, "gbp"@, "cad"@, "aud"@, "inr"@],
            r.supports_subscriptions,
            r.supports_one_time,
    {
        let currencies: &'static [&'static str] = &["usd", "eur", "gbp", "cad", "aud", "inr"];
        GatewayInfo {
            name: "stripe",
            display_name: "Stripe",
            supported_currencies: currencies,
            supports_subscriptions: true,
            supports_one_time: true,
        }
    }
}

/// The text of an optional JSON value that is a string.
pub open spec fn string_member(v: Option<JsonValue>) -> Option<Seq<char>> {
    match v {
        Some(JsonValue::String(s)) => Some(s@),
        _ => None,
    }
}

/// The integer of an optional JSON value that is an integer in the range of
/// `i64`, or 0.
pub open spec fn integer_member_or_zero(v: Option<JsonValue>) -> i64 {
    match v {
        Some(x) => match json_i64(x) {
            Some(n) => n,
            None => 0,
        },
        None => 0,
    }
}

/// The five Stripe event types that the library reads are distinct.
proof fn lemma_stripe_kinds_differ()
    ensures
        "checkout.session.completed"@ != "customer.subscription.deleted"@,
        "checkout.session.completed"@ != "customer.subscription.updated"@,
        "checkout.session.completed"@ != "invoice.paid"@,
        "checkout.session.completed"@ != "invoice.payment_failed"@,
        "customer.subscription.deleted"@ != "customer.subscription.updated"@,
        "customer.subscription.deleted"@ != "invoice.paid"@,
        "customer.subscription.deleted"@ != "invoice.payment_failed"@,
        "customer.subscription.updated"@ != "invoice.paid"@,
        "customer.subscription.updated"@ != "invoice.payment_failed"@,
        "invoice.paid"@ != "invoice.payment_failed"@,
{
    reveal_strlit("checkout.session.completed");
    reveal_strlit("customer.subscription.deleted");
    reveal_strlit("customer.subscription.updated");
    reveal_strlit("invoice.paid");
    reveal_strlit("invoice.payment_failed");
    assert("customer.subscription.deleted"@[22] != "customer.subscription.updated"@[22]);
    assert("checkout.session.completed"@[0] != "invoice.paid"@[0]);
    assert("invoice.paid"@[10] != "invoice.payment_failed"@[10]);
    assert("checkout.session.completed"@[0] != "invoice.payment_failed"@[0]);
}

/// The kind of event reported is the event's `type`: a completed checkout
/// only for "checkout.session.completed", a deleted subscription only for
/// "customer.subscription.deleted", an updated one only for
/// "customer.subscription.updated", a paid invoice only for "invoice.paid",
/// a failed payment only for "invoice.payment_failed"; any other type (or
/// none) is forwarded as unknown under that type, with the whole document.
pub proof fn stripe_event_kind_is_its_type(ev: JsonValue, r: Result<WebhookEventType, GatewayError>)
    requires
        stripe_event(ev, r),
    ensures
        ({
            let kind = match string_member(json_get(ev, "type"@)) {
                Some(k) => k,
                None => Seq::<char>::empty(),
            };
            &&& (r matches Ok(WebhookEventType::CheckoutCompleted(_)) ==> kind
                == "checkout.session.completed"@)
            &&& (r matches Ok(WebhookEventType::SubscriptionDeleted(_)) ==> kind
                == "customer.subscription.deleted"@)
            &&& (r matches Ok(WebhookEventType::SubscriptionUpdated { .. }) ==> kind
                == "customer.subscription.updated"@)
            &&& (r matches Ok(WebhookEventType::InvoicePaid { .. }) ==> kind == "invoice.paid"@)
            &&& (r matches Ok(WebhookEventType::InvoicePaymentFailed { .. }) ==> kind
                == "invoice.payment_failed"@)
            &&& (kind != "checkout.session.completed"@ && kind != "customer.subscription.deleted"@
                && kind != "customer.subscription.updated"@ && kind != "invoice.paid"@ && kind
                != "invoice.payment_failed"@ ==> (r matches Ok(
                WebhookEventType::Unknown { event_type, raw_data },
            ) && event_type@ == kind && raw_data == ev))
        }),
{
    lemma_stripe_kinds_differ();
}

/// A "checkout.session.completed" event with a `data.object` is a completed
/// checkout read from that object: its `id` (else empty), its `customer` and
/// `subscription` where they are strings, its `amount_total` where it is an
/// integer (else 0), its `currency` (else "usd"), and the `tier` and
/// `interval` of its `metadata` (else "pro" and "monthly").
pub proof fn completed_checkout_reads_the_object(
    ev: JsonValue,
    d: JsonValue,
    r: Result<WebhookEventType, GatewayError>,
)
    requires
        stripe_event(ev, r),
        string_member(json_get(ev, "type"@)) == Some("checkout.session.completed"@),
        json_get(ev, "data"@) matches Some(x) && json_get(x, "object"@) == Some(d),
    ensures
        r matches Ok(WebhookEventType::CheckoutCompleted(_)),
        ({
            let c = r->Ok_0->CheckoutCompleted_0;
            let meta = json_get(d, "metadata"@);
            &&& c.amount_total == integer_member_or_zero(json_get(d, "amount_total"@))
            &&& c.session_id@ == (match string_member(json_get(d, "id"@)) {
                Some(t) => t,
                None => Seq::<char>::empty(),
            })
            &&& view_opt(c.customer_id) == string_member(json_get(d, "customer"@))
            &&& view_opt(c.subscription_id) == string_member(json_get(d, "subscription"@))
            &&& c.currency@ == (match string_member(json_get(d, "currency"@)) {
                Some(t) => t,
                None => "usd"@,
            })
            &&& c.tier@ == (match meta {
                Some(m) => match string_member(json_get(m, "tier"@)) {
                    Some(t) => t,
                    None => "pro"@,
                },
                None => "pro"@,
            })
            &&& c.interval@ == (match meta {
                Some(m) => match string_member(json_get(m, "interval"@)) {
                    Some(t) => t,
                    None => "monthly"@,
                },
                None => "monthly"@,
            })
        }),
{
}

/// Where signatures are checked and the body is a UTF-8 JSON document, a
/// signature that Stripe rejects fails the webhook as unverified, with
/// Stripe's reason.
pub proof fn rejected_signature_fails_the_webhook(
    payload: Seq<u8>,
    reason: String,
    r: Result<WebhookEventType, GatewayError>,
)
    requires
        webhook_outcome(true, payload, StripeSignatureCheck::Rejected(reason), r),
        valid_utf8(payload),
        json_parse(decode_utf8(payload)) is Ok,
    ensures
        r matches Err(GatewayError::WebhookVerificationFailed(m)) && m@ == reason@,
{
}

/// The details of a Stripe subscription are Stripe's own: the same ID and
/// customer, `cancel_at_period_end` exactly as Stripe says it, the tier from
/// its metadata where it has one, and the status mapped by kind (active,
/// past due, trialing, cancelled and incomplete to their own kind, any other
/// to an unknown status under Stripe's name).
pub proof fn subscription_details_are_stripes(sub: StripeSubscriptionFields, r: SubscriptionInfo)
    requires
        subscription_info_from(sub, r),
    ensures
        r.subscription_id@ == sub.id@,
        r.customer_id@ == sub.customer_id@,
        r.cancel_at_period_end == sub.cancel_at_period_end,
        sub.metadata@.contains_key("tier"@) ==> (r.tier matches Some(t) && t@
            == sub.metadata@["tier"@]@),
        !sub.metadata@.contains_key("tier"@) ==> r.tier is None,
        sub.status == StripeSubscriptionStatus::Active ==> r.status == SubscriptionStatus::Active,
        sub.status == StripeSubscriptionStatus::PastDue ==> r.status == SubscriptionStatus::PastDue,
        sub.status == StripeSubscriptionStatus::Trialing ==> r.status
            == SubscriptionStatus::Trialing,
        sub.status == StripeSubscriptionStatus::Canceled ==> r.status
            == SubscriptionStatus::Cancelled,
        sub.status == StripeSubscriptionStatus::Incomplete ==> r.status
            == SubscriptionStatus::Incomplete,
        sub.status == StripeSubscriptionStatus::IncompleteExpired ==> (r.status matches SubscriptionStatus::Unknown(t)
            && t@ == "incomplete_expired"@),
        sub.status == StripeSubscriptionStatus::Paused ==> (r.status matches SubscriptionStatus::Unknown(t)
            && t@ == "paused"@),
        sub.status == StripeSubscriptionStatus::Unpaid ==> (r.status matches SubscriptionStatus::Unknown(t)
            && t@ == "unpaid"@),
{
}

/// Purchases in US dollars, euros, pounds, Canadian and Australian dollars
/// and rupees are charged in that currency; any other currency is charged in
/// US dollars.
pub proof fn stripe_charges_in_the_purchase_currency(c: Currency, r: StripeCurrency)
    requires
        r == stripe_currency_of(c),
    ensures
        c == Currency::USD ==> r == StripeCurrency::USD,
        c == Currency::EUR ==> r == StripeCurrency::EUR,
        c == Currency::GBP ==> r == StripeCurrency::GBP,
        c == Currency::CAD ==> r == StripeCurrency::CAD,
        c == Currency::AUD ==> r == StripeCurrency::AUD,
        c == Currency::INR ==> r == StripeCurrency::INR,
        (c == Currency::PKR || c is Other) ==> r == StripeCurrency::USD,
{
}

/// The text of a member of an optional JSON object, or a default.
pub open spec fn member_text_or(obj: Option<JsonValue>, key: Seq<char>, default: Seq<char>) -> Seq<char> {
    match obj {
        Some(o) => match string_member(json_get(o, key)) {
            Some(t) => t,
            None => default,
        },
        None => default,
    }
}

/// The subscription and invoice events are read from `data.object` (which
/// may be missing): the `id` (else empty), the subscription's `status` (else
/// "unknown"), the invoice's `subscription` where it is a string, its
/// `amount_paid` where it is an integer (else 0) and its `currency` (else
/// "usd").
pub proof fn subscription_and_invoice_events_read_the_object(
    ev: JsonValue,
    r: Result<WebhookEventType, GatewayError>,
)
    requires
        stripe_event(ev, r),
    ensures
        ({
            let kind = string_member(json_get(ev, "type"@));
            let obj = match json_get(ev, "data"@) {
                Some(x) => json_get(x, "object"@),
                None => None,
            };
            let sub = match obj {
                Some(o) => string_member(json_get(o, "subscription"@)),
                None => None,
            };
            let paid = match obj {
                Some(o) => integer_member_or_zero(json_get(o, "amount_paid"@)),
                None => 0,
            };
            &&& (kind == Some("customer.subscription.deleted"@) ==> (r matches Ok(
                WebhookEventType::SubscriptionDeleted(d),
            ) && d.subscription_id@ == member_text_or(obj, "id"@, Seq::empty())))
            &&& (kind == Some("customer.subscription.updated"@) ==> (r matches Ok(
                WebhookEventType::SubscriptionUpdated { subscription_id, status },
            ) && subscription_id@ == member_text_or(obj, "id"@, Seq::empty()) && status@
                == member_text_or(obj, "status"@, "unknown"@)))
            &&& (kind == Some("invoice.paid"@) ==> (r matches Ok(
                WebhookEventType::InvoicePaid { invoice_id, subscription_id, amount_paid, currency },
            ) && invoice_id@ == member_text_or(obj, "id"@, Seq::empty()) && view_opt(
                subscription_id,
            ) == sub && amount_paid == paid && currency@ == member_text_or(
                obj,
                "currency"@,
                "usd"@,
            )))
            &&& (kind == Some("invoice.payment_failed"@) ==> (r matches Ok(
                WebhookEventType::InvoicePaymentFailed { invoice_id, subscription_id },
            ) && invoice_id@ == member_text_or(obj, "id"@, Seq::empty()) && view_opt(
                subscription_id,
            ) == sub))
            &&& (kind == Some("checkout.session.completed"@) && obj is None ==> (r matches Err(
                GatewayError::WebhookProcessingFailed(m),
            ) && m@ == "Missing data.object in checkout.session.completed"@))
        }),
{
    lemma_stripe_kinds_differ();
}

/// A body that is not UTF-8, or not a JSON document, fails the webhook as
/// unprocessable (with the decoder's or parser's message), whatever the
/// signature verdict.
pub proof fn unreadable_bodies_fail_the_webhook(
    verifies: bool,
    payload: Seq<u8>,
    check: StripeSignatureCheck,
    r: Result<WebhookEventType, GatewayError>,
)
    requires
        webhook_outcome(verifies, payload, check, r),
    ensures
        !valid_utf8(payload) ==> (r matches Err(GatewayError::WebhookProcessingFailed(m)) && m@
            == utf8_error_text(payload)),
        valid_utf8(payload) && json_parse(decode_utf8(payload)) is Err ==> (r matches Err(
            GatewayError::WebhookProcessingFailed(m),
        ) && m@ == json_parse(decode_utf8(payload))->Err_0),
{
}

/// The product is named after the plan and the number of seats: one seat
/// reads "Plan (1 Seat)", more seats read "Plan (N Seats)", and no seats
/// reads "Plan (0 Seat)".
pub proof fn product_names_count_seats(plan: Seq<char>, seats: u32, r: Seq<char>)
    requires
        r == product_name_of(plan, seats),
    ensures
        seats == 1 ==> r == plan + " (1 Seat)"@,
        seats == 0 ==> r == plan + " (0 Seat)"@,
        seats > 1 ==> r == plan + " ("@ + decimal(seats as nat) + " Seats)"@,
{
    reveal_strlit(" (");
    reveal_strlit(" Seat");
    reveal_strlit("s");
    reveal_strlit(")");
    reveal_strlit(" Seats)");
    reveal_strlit(" (1 Seat)");
    reveal_strlit(" (0 Seat)");
    if seats == 1 {
        assert(decimal(1) =~= seq!['1']);
        assert(r =~= plan + " (1 Seat)"@);
    } else if seats == 0 {
        assert(decimal(0) =~= seq!['0']);
        assert(r =~= plan + " (0 Seat)"@);
    } else {
        assert(r =~= plan + " ("@ + decimal(seats as nat) + " Seats)"@);
    }
}

} // verus!
