//! The gateway-independent types: currencies, billing intervals, checkout
//! parameters and results, webhook headers and events, subscriptions.

use vstd::prelude::*;
use crate::error::{GatewayError, GatewayErrorView};
use crate::json::{view_opt_str, JsonValue};
use crate::keyed::NameMap;
use crate::text::{lowercase, str_eq, to_lowercase};

verus! {

// ── Enums ────────────────────────────────────────────

/// Billing interval for subscriptions.
#[derive(Debug, Clone, Copy, PartialEq, Eq, Structural)]
pub enum SubscriptionInterval {
    Monthly,
    Yearly,
}

/// The interval that a lower-cased name stands for: "yearly", "year" and
/// "annual" mean yearly, anything else monthly.
pub open spec fn interval_named(lower: Seq<char>) -> SubscriptionInterval {
    if lower == "yearly"@ || lower == "year"@ || lower == "annual"@ {
        SubscriptionInterval::Yearly
    } else {
        SubscriptionInterval::Monthly
    }
}

impl SubscriptionInterval {
    /// The interval named by `s`, ignoring case.
    pub fn from_str(s: &str) -> (r: Self)
        ensures
            r == interval_named(lowercase(s@)),
    {
        let lower = to_lowercase(s);
        Self::from_lowercased(lower.as_str())
    }

    /// The interval named by an already lower-cased name.
    pub fn from_lowercased(lower: &str) -> (r: Self)
        ensures
            r == interval_named(lower@),
    {
        if str_eq(lower, "yearly") || str_eq(lower, "year") || str_eq(lower, "annual") {
            SubscriptionInterval::Yearly
        } else {
            SubscriptionInterval::Monthly
        }
    }
}

/// Currency codes supported by the gateway interface.
#[derive(Debug, Clone, PartialEq, Eq)]
pub enum Currency {
    USD,
    EUR,
    GBP,
    PKR,
    INR,
    CAD,
    AUD,
    Other(String),
}

impl Default for Currency {
    fn default() -> (r: Self)
        ensures
            r == Currency::USD,
    {
        Currency::USD
    }
}

/// The lower-case code of a currency.
pub open spec fn currency_code(c: Currency) -> Seq<char> {
    match c {
        Currency::USD => "usd"@,
        Currency::EUR => "eur"@,
        Currency::GBP => "gbp"@,
        Currency::PKR => "pkr"@,
        Currency::INR => "inr"@,
        Currency::CAD => "cad"@,
        Currency::AUD => "aud"@,
        Currency::Other(s) => s@,
    }
}

/// The named currency that a lower-case code stands for, if any.
pub open spec fn known_currency(code: Seq<char>) -> Option<Currency> {
    if code == "usd"@ {
        Some(Currency::USD)
    } else if code == "eur"@ {
        Some(Currency::EUR)
    } else if code == "gbp"@ {
        Some(Currency::GBP)
    } else if code == "pkr"@ {
        Some(Currency::PKR)
    } else if code == "inr"@ {
        Some(Currency::INR)
    } else if code == "cad"@ {
        Some(Currency::CAD)
    } else if code == "aud"@ {
        Some(Currency::AUD)
    } else {
        None
    }
}

/// `c` is what the lower-case code `code` stands for: a named currency
/// where the code is one of theirs, `Other` holding the code otherwise.
pub open spec fn currency_for_code(code: Seq<char>, c: Currency) -> bool {
    match known_currency(code) {
        Some(k) => c == k,
        None => c matches Currency::Other(s) && s@ == code,
    }
}

impl Currency {
    /// The lower-case code of the currency.
    pub fn as_str(&self) -> (r: &str)
        ensures
            r@ == currency_code(*self),
    {
        match self {
            Currency::USD => "usd",
            Currency::EUR => "eur",
            Currency::GBP => "gbp",
            Currency::PKR => "pkr",
            Currency::INR => "inr",
            Currency::CAD => "cad",
            Currency::AUD => "aud",
            Currency::Other(s) => s.as_str(),
        }
    }

    /// The currency with code `s`, ignoring case; an unknown code becomes
    /// `Other` with the lower-cased code.
    pub fn from_str(s: &str) -> (r: Self)
        ensures
            currency_for_code(lowercase(s@), r),
    {
        let lower = to_lowercase(s);
        Self::from_lowercased(lower)
    }

    /// The currency with an already lower-cased code.
    pub fn from_lowercased(lower: String) -> (r: Self)
        ensures
            currency_for_code(lower@, r),
    {
        let l = lower.as_str();
        if str_eq(l, "usd") {
            Currency::USD
        } else if str_eq(l, "eur") {
            Currency::EUR
        } else if str_eq(l, "gbp") {
            Currency::GBP
        } else if str_eq(l, "pkr") {
            Currency::PKR
        } else if str_eq(l, "inr") {
            Currency::INR
        } else if str_eq(l, "cad") {
            Currency::CAD
        } else if str_eq(l, "aud") {
            Currency::AUD
        } else {
            Currency::Other(lower)
        }
    }
}

/// Reading back the code of a currency read from a lower-case code gives the
/// code again.
pub proof fn currency_code_round_trip(code: Seq<char>, c: Currency)
    requires
        currency_for_code(code, c),
    ensures
        currency_code(c) == code,
{
}

/// Reading the code of a currency gives back that currency, unless it is an
/// `Other` whose code belongs to a named currency.
pub proof fn currency_read_back(c: Currency, d: Currency)
    requires
        currency_for_code(currency_code(c), d),
        !(c is Other && known_currency(currency_code(c)) is Some),
    ensures
        c is Other ==> (d is Other && currency_code(d) == currency_code(c)),
        !(c is Other) ==> d == c,
{
    lemma_currency_codes_differ();
}

/// Subscription status values.
#[derive(Debug, Clone, PartialEq, Eq)]
pub enum SubscriptionStatus {
    Active,
    PastDue,
    Trialing,
    Expired,
    Cancelled,
    Incomplete,
    Unknown(String),
}

/// The name of a subscription status.
pub open spec fn status_name(s: SubscriptionStatus) -> Seq<char> {
    match s {
        SubscriptionStatus::Active => "active"@,
        SubscriptionStatus::PastDue => "past_due"@,
        SubscriptionStatus::Trialing => "trialing"@,
        SubscriptionStatus::Expired => "expired"@,
        SubscriptionStatus::Cancelled => "cancelled"@,
        SubscriptionStatus::Incomplete => "incomplete"@,
        SubscriptionStatus::Unknown(t) => t@,
    }
}

impl SubscriptionStatus {
    /// The name of the status.
    pub fn as_str(&self) -> (r: &str)
        ensures
            r@ == status_name(*self),
    {
        match self {
            SubscriptionStatus::Active => "active",
            SubscriptionStatus::PastDue => "past_due",
            SubscriptionStatus::Trialing => "trialing",
            SubscriptionStatus::Expired => "expired",
            SubscriptionStatus::Cancelled => "cancelled",
            SubscriptionStatus::Incomplete => "incomplete",
            SubscriptionStatus::Unknown(t) => t.as_str(),
        }
    }
}

// ── Checkout ─────────────────────────────────────────

/// Parameters for creating a checkout session.
#[derive(Debug, Clone)]
pub struct CheckoutParams {
    /// Customer's email address
    pub customer_email: String,
    /// Optional existing customer ID on the gateway
    pub customer_id: Option<String>,
    /// Display name of the plan/product
    pub plan_name: String,
    /// Internal tier identifier
    pub tier: String,
    /// Billing interval
    pub interval: SubscriptionInterval,
    /// Number of seats/licenses
    pub seats: u32,
    /// Unit amount in the smallest currency unit (e.g., cents for USD)
    pub unit_amount: i64,
    /// Currency for the transaction
    pub currency: Currency,
    /// URL to redirect after successful payment
    pub success_url: String,
    /// URL to redirect after cancelled payment
    pub cancel_url: String,
    /// A reference ID to identify the customer in your system
    pub client_reference_id: String,
    /// Arbitrary metadata to attach to the checkout
    pub metadata: NameMap<String>,
}

/// Result of creating a checkout session.
#[derive(Debug, Clone)]
pub struct CheckoutResult {
    /// The URL to redirect the customer to for payment
    pub checkout_url: String,
    /// The gateway that processed this checkout (e.g., "stripe")
    pub gateway: String,
    /// The gateway's session/checkout ID
    pub session_id: String,
}

// ── Webhook ──────────────────────────────────────────

/// Headers extracted from an incoming webhook request.
#[derive(Debug, Clone)]
pub struct WebhookHeaders {
    /// Gateway-specific signature header value
    pub signature: String,
    /// Optional signature version/key identifier
    pub signature_key: Option<String>,
    /// Raw header map for gateway-specific needs
    pub raw: Vec<(String, String)>,
}

/// Header `i` is the first whose name equals `name` ignoring case.
pub open spec fn first_header_match(raw: Seq<(String, String)>, name: Seq<char>, i: int) -> bool {
    &&& 0 <= i < raw.len()
    &&& lowercase(raw[i].0@) == lowercase(name)
    &&& forall|j: int| 0 <= j < i ==> lowercase(#[trigger] raw[j].0@) != lowercase(name)
}

/// The value of the first header whose name equals `name` ignoring case.
pub open spec fn header_value(raw: Seq<(String, String)>, name: Seq<char>) -> Option<Seq<char>> {
    if exists|i: int| first_header_match(raw, name, i) {
        Some(raw[choose|i: int| first_header_match(raw, name, i)].1@)
    } else {
        None
    }
}

/// There is at most one first match.
pub proof fn lemma_first_header_match_unique(raw: Seq<(String, String)>, name: Seq<char>, i: int, j: int)
    requires
        first_header_match(raw, name, i),
        first_header_match(raw, name, j),
    ensures
        i == j,
{
    if i < j {
        assert(lowercase(raw[i].0@) != lowercase(name));
    } else if j < i {
        assert(lowercase(raw[j].0@) != lowercase(name));
    }
}

/// Header lookup ignores the case of names and takes the first match: where
/// header `i` is the first whose name equals `name` ignoring case, the
/// lookup gives its value; where no name matches, it gives nothing.
pub proof fn header_lookup_takes_first_case_insensitive_match(
    raw: Seq<(String, String)>,
    name: Seq<char>,
    r: Option<Seq<char>>,
)
    requires
        r == header_value(raw, name),
    ensures
        forall|i: int|
            0 <= i < raw.len() && lowercase(#[trigger] raw[i].0@) == lowercase(name) && (forall|j: int|
                0 <= j < i ==> lowercase(raw[j].0@) != lowercase(name)) ==> r == Some(raw[i].1@),
        (forall|i: int| 0 <= i < raw.len() ==> lowercase(#[trigger] raw[i].0@) != lowercase(name))
            ==> r is None,
{
    assert forall|i: int|
        0 <= i < raw.len() && lowercase(#[trigger] raw[i].0@) == lowercase(name) && (forall|j: int|
            0 <= j < i ==> lowercase(raw[j].0@) != lowercase(name)) implies r == Some(raw[i].1@) by {
        assert(first_header_match(raw, name, i));
        let c = choose|c: int| first_header_match(raw, name, c);
        lemma_first_header_match_unique(raw, name, i, c);
    }
    if forall|i: int| 0 <= i < raw.len() ==> lowercase(#[trigger] raw[i].0@) != lowercase(name) {
        if exists|c: int| first_header_match(raw, name, c) {
            let c = choose|c: int| first_header_match(raw, name, c);
            assert(lowercase(raw[c].0@) != lowercase(name));
        }
    }
}

impl WebhookHeaders {
    /// Create from a signature header value.
    pub fn new(signature: String) -> (r: Self)
        ensures
            r.signature == signature,
            r.signature_key is None,
            r.raw@.len() == 0,
    {
        WebhookHeaders { signature, signature_key: None, raw: Vec::new() }
    }

    /// Get a specific header value by name (case-insensitive): the value of
    /// the first header whose name matches.
    pub fn get(&self, name: &str) -> (r: Option<&str>)
        ensures
            view_opt_str(r) == header_value(self.raw@, name@),
    {
        let name_lower = to_lowercase(name);
        let n = self.raw.len();
        let mut i: usize = 0;
        while i < n
            invariant
                n == self.raw@.len(),
                i <= n,
                name_lower@ == lowercase(name@),
                forall|j: int| 0 <= j < i ==> lowercase(#[trigger] self.raw@[j].0@) != lowercase(name@),
            decreases n - i,
        {
            let key_lower = to_lowercase(self.raw[i].0.as_str());
            if str_eq(key_lower.as_str(), name_lower.as_str()) {
                proof {
                    assert(first_header_match(self.raw@, name@, i as int));
                    let c = choose|c: int| first_header_match(self.raw@, name@, c);
                    lemma_first_header_match_unique(self.raw@, name@, i as int, c);
                }
                return Some(self.raw[i].1.as_str());
            }
            i = i + 1;
        }
        assert(!exists|c: int| first_header_match(self.raw@, name@, c)) by {
            if exists|c: int| first_header_match(self.raw@, name@, c) {
                let c = choose|c: int| first_header_match(self.raw@, name@, c);
                assert(lowercase(self.raw@[c].0@) != lowercase(name@));
            }
        }
        None
    }
}

/// Data extracted from a `checkout.session.completed` webhook event.
#[derive(Debug, Clone)]
pub struct CheckoutCompletedData {
    /// Gateway's session/checkout ID
    pub session_id: String,
    /// Gateway's customer ID
    pub customer_id: Option<String>,
    /// Gateway's subscription ID (if mode=subscription)
    pub subscription_id: Option<String>,
    /// Total amount in smallest currency unit (e.g., cents)
    pub amount_total: i64,
    /// Currency code
    pub currency: String,
    /// Plan tier from metadata
    pub tier: String,
    /// Billing interval from metadata
    pub interval: String,
    /// Your system's user/client reference ID
    pub client_reference_id: Option<String>,
    /// Number of seats from metadata
    pub seats: Option<u32>,
    /// All metadata attached to the checkout
    pub metadata: NameMap<String>,
}

/// Data extracted from a `customer.subscription.deleted` webhook event.
#[derive(Debug, Clone)]
pub struct SubscriptionDeletedData {
    /// Gateway's subscription ID that was deleted/cancelled
    pub subscription_id: String,
}

/// Unified webhook event types that all gateways should map to.
#[derive(Debug, Clone)]
pub enum WebhookEventType {
    /// A checkout session was completed successfully
    CheckoutCompleted(CheckoutCompletedData),
    /// A subscription was deleted/cancelled
    SubscriptionDeleted(SubscriptionDeletedData),
    /// A subscription was updated (e.g., plan change)
    SubscriptionUpdated { subscription_id: String, status: String },
    /// An invoice payment succeeded
    InvoicePaid {
        invoice_id: String,
        subscription_id: Option<String>,
        amount_paid: i64,
        currency: String,
    },
    /// An invoice payment failed
    InvoicePaymentFailed { invoice_id: String, subscription_id: Option<String> },
    /// An unrecognized event (gateway-specific, forwarded as raw data)
    Unknown { event_type: String, raw_data: JsonValue },
}

/// What a completed checkout says: its texts as character sequences and its
/// metadata as a map from names to texts.
pub struct CheckoutCompletedView {
    pub session_id: Seq<char>,
    pub customer_id: Option<Seq<char>>,
    pub subscription_id: Option<Seq<char>>,
    pub amount_total: i64,
    pub currency: Seq<char>,
    pub tier: Seq<char>,
    pub interval: Seq<char>,
    pub client_reference_id: Option<Seq<char>>,
    pub seats: Option<u32>,
    pub metadata: Map<Seq<char>, Seq<char>>,
}

/// What a webhook event says, field for field.
pub enum WebhookEventView {
    CheckoutCompleted(CheckoutCompletedView),
    SubscriptionDeleted { subscription_id: Seq<char> },
    SubscriptionUpdated { subscription_id: Seq<char>, status: Seq<char> },
    InvoicePaid {
        invoice_id: Seq<char>,
        subscription_id: Option<Seq<char>>,
        amount_paid: i64,
        currency: Seq<char>,
    },
    InvoicePaymentFailed { invoice_id: Seq<char>, subscription_id: Option<Seq<char>> },
    Unknown { event_type: Seq<char>, raw_data: JsonValue },
}

/// An optional string as optional text.
pub open spec fn opt_text(o: Option<String>) -> Option<Seq<char>> {
    match o {
        Some(s) => Some(s@),
        None => None,
    }
}

impl View for CheckoutCompletedData {
    type V = CheckoutCompletedView;

    open spec fn view(&self) -> CheckoutCompletedView {
        CheckoutCompletedView {
            session_id: self.session_id@,
            customer_id: opt_text(self.customer_id),
            subscription_id: opt_text(self.subscription_id),
            amount_total: self.amount_total,
            currency: self.currency@,
            tier: self.tier@,
            interval: self.interval@,
            client_reference_id: opt_text(self.client_reference_id),
            seats: self.seats,
            metadata: self.metadata@.map_values(|s: String| s@),
        }
    }
}

impl View for WebhookEventType {
    type V = WebhookEventView;

    open spec fn view(&self) -> WebhookEventView {
        match self {
            WebhookEventType::CheckoutCompleted(d) => WebhookEventView::CheckoutCompleted(d@),
            WebhookEventType::SubscriptionDeleted(d) => WebhookEventView::SubscriptionDeleted {
                subscription_id: d.subscription_id@,
            },
            WebhookEventType::SubscriptionUpdated { subscription_id, status } =>
                WebhookEventView::SubscriptionUpdated {
                subscription_id: subscription_id@,
                status: status@,
            },
            WebhookEventType::InvoicePaid { invoice_id, subscription_id, amount_paid, currency } =>
                WebhookEventView::InvoicePaid {
                invoice_id: invoice_id@,
                subscription_id: opt_text(*subscription_id),
                amount_paid: *amount_paid,
                currency: currency@,
            },
            WebhookEventType::InvoicePaymentFailed { invoice_id, subscription_id } =>
                WebhookEventView::InvoicePaymentFailed {
                invoice_id: invoice_id@,
                subscription_id: opt_text(*subscription_id),
            },
            WebhookEventType::Unknown { event_type, raw_data } => WebhookEventView::Unknown {
                event_type: event_type@,
                raw_data: *raw_data,
            },
        }
    }
}

/// An event, or an error, as what it says.
pub open spec fn event_result_view(r: Result<WebhookEventType, GatewayError>) -> Result<
    WebhookEventView,
    GatewayErrorView,
> {
    match r {
        Ok(e) => Ok(e@),
        Err(e) => Err(e@),
    }
}

// ── Subscription ─────────────────────────────────────

/// Information about a subscription retrieved from the gateway.
#[derive(Debug, Clone)]
pub struct SubscriptionInfo {
    /// Gateway's subscription ID
    pub subscription_id: String,
    /// Customer ID on the gateway
    pub customer_id: String,
    /// Current status
    pub status: SubscriptionStatus,
    /// When the current period ends, in seconds since 1970-01-01 00:00:00 UTC
    pub current_period_end: i64,
    /// Plan/product tier
    pub tier: Option<String>,
    /// Whether it will auto-renew
    pub cancel_at_period_end: bool,
}

// ── Gateway Info ─────────────────────────────────────

/// Information about a payment gateway implementation.
#[derive(Debug, Clone, Copy)]
pub struct GatewayInfo {
    /// Unique identifier for this gateway (e.g., "stripe", "payfast")
    pub name: &'static str,
    /// Human-readable display name (e.g., "Stripe", "PayFast")
    pub display_name: &'static str,
    /// Supported currencies
    pub supported_currencies: &'static [&'static str],
    /// Whether this gateway supports subscription mode
    pub supports_subscriptions: bool,
    /// Whether this gateway supports one-time payments
    pub supports_one_time: bool,
}

/// The texts of a list of string slices.
pub open spec fn texts(s: Seq<&str>) -> Seq<Seq<char>> {
    s.map_values(|x: &str| x@)
}

/// The names of the billing intervals: "yearly", "year" and "annual" name
/// the yearly interval; every other name, the monthly one.
pub proof fn interval_names(lower: Seq<char>, r: SubscriptionInterval)
    requires
        r == interval_named(lower),
    ensures
        (lower == "yearly"@ || lower == "year"@ || lower == "annual"@) ==> r
            == SubscriptionInterval::Yearly,
        !(lower == "yearly"@ || lower == "year"@ || lower == "annual"@) ==> r
            == SubscriptionInterval::Monthly,
{
}

/// The codes of the currencies: the seven named ones have their lower-case
/// ISO 4217 codes, and `Other` has the code it holds.
pub proof fn currency_codes(c: Currency, r: Seq<char>)
    requires
        r == currency_code(c),
    ensures
        c == Currency::USD ==> r == "usd"@,
        c == Currency::EUR ==> r == "eur"@,
        c == Currency::GBP ==> r == "gbp"@,
        c == Currency::PKR ==> r == "pkr"@,
        c == Currency::INR ==> r == "inr"@,
        c == Currency::CAD ==> r == "cad"@,
        c == Currency::AUD ==> r == "aud"@,
        c matches Currency::Other(s) ==> r == s@,
{
}

/// Reading a lower-case code: each of the seven codes gives its currency,
/// and any other code gives `Other` holding the code.
pub proof fn currencies_read_from_codes(code: Seq<char>, c: Currency)
    requires
        currency_for_code(code, c),
    ensures
        code == "usd"@ ==> c == Currency::USD,
        code == "eur"@ ==> c == Currency::EUR,
        code == "gbp"@ ==> c == Currency::GBP,
        code == "pkr"@ ==> c == Currency::PKR,
        code == "inr"@ ==> c == Currency::INR,
        code == "cad"@ ==> c == Currency::CAD,
        code == "aud"@ ==> c == Currency::AUD,
        code != "usd"@ && code != "eur"@ && code != "gbp"@ && code != "pkr"@ && code != "inr"@
            && code != "cad"@ && code != "aud"@ ==> (c matches Currency::Other(s) && s@ == code),
{
    lemma_currency_codes_differ();
}

/// The seven currency codes are distinct.
proof fn lemma_currency_codes_differ()
    ensures
        "usd"@ != "eur"@ && "usd"@ != "gbp"@ && "usd"@ != "pkr"@ && "usd"@ != "inr"@ && "usd"@
            != "cad"@ && "usd"@ != "aud"@,
        "eur"@ != "gbp"@ && "eur"@ != "pkr"@ && "eur"@ != "inr"@ && "eur"@ != "cad"@ && "eur"@
            != "aud"@,
        "gbp"@ != "pkr"@ && "gbp"@ != "inr"@ && "gbp"@ != "cad"@ && "gbp"@ != "aud"@,
        "pkr"@ != "inr"@ && "pkr"@ != "cad"@ && "pkr"@ != "aud"@,
        "inr"@ != "cad"@ && "inr"@ != "aud"@,
        "cad"@ != "aud"@,
{
    reveal_strlit("usd");
    reveal_strlit("eur");
    reveal_strlit("gbp");
    reveal_strlit("pkr");
    reveal_strlit("inr");
    reveal_strlit("cad");
    reveal_strlit("aud");
    assert("usd"@[0] == 'u' && "eur"@[0] == 'e' && "gbp"@[0] == 'g' && "pkr"@[0] == 'p'
        && "inr"@[0] == 'i' && "cad"@[0] == 'c' && "aud"@[0] == 'a');
}

/// The names of the subscription statuses, in snake case; an unknown
/// status has the name it holds.
pub proof fn status_names(st: SubscriptionStatus, r: Seq<char>)
    requires
        r == status_name(st),
    ensures
        st == SubscriptionStatus::Active ==> r == "active"@,
        st == SubscriptionStatus::PastDue ==> r == "past_due"@,
        st == SubscriptionStatus::Trialing ==> r == "trialing"@,
        st == SubscriptionStatus::Expired ==> r == "expired"@,
        st == SubscriptionStatus::Cancelled ==> r == "cancelled"@,
        st == SubscriptionStatus::Incomplete ==> r == "incomplete"@,
        st matches SubscriptionStatus::Unknown(t) ==> r == t@,
{
}

} // verus!
