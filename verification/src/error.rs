use vstd::prelude::*;

verus! {

/// Unified error type for all payment gateway operations.
#[derive(Debug, Clone)]
pub enum GatewayError {
    /// The named gateway is not configured or not active.
    GatewayNotConfigured { gateway: String },
    /// Checkout creation failed.
    CheckoutFailed(String),
    /// The authenticity of a webhook could not be established.
    WebhookVerificationFailed(String),
    /// A webhook was authentic (or unchecked) but could not be processed.
    WebhookProcessingFailed(String),
    /// A subscription operation failed.
    SubscriptionFailed(String),
    /// The gateway is misconfigured.
    ConfigError(String),
    /// An internal, transient gateway error.
    Internal(String),
}

/// What an error says: its kind and its message.
pub enum GatewayErrorView {
    GatewayNotConfigured(Seq<char>),
    CheckoutFailed(Seq<char>),
    WebhookVerificationFailed(Seq<char>),
    WebhookProcessingFailed(Seq<char>),
    SubscriptionFailed(Seq<char>),
    ConfigError(Seq<char>),
    Internal(Seq<char>),
}

impl View for GatewayError {
    type V = GatewayErrorView;

    open spec fn view(&self) -> GatewayErrorView {
        match self {
            GatewayError::GatewayNotConfigured { gateway } => GatewayErrorView::GatewayNotConfigured(
                gateway@,
            ),
            GatewayError::CheckoutFailed(m) => GatewayErrorView::CheckoutFailed(m@),
            GatewayError::WebhookVerificationFailed(m) => GatewayErrorView::WebhookVerificationFailed(
                m@,
            ),
            GatewayError::WebhookProcessingFailed(m) => GatewayErrorView::WebhookProcessingFailed(m@),
            GatewayError::SubscriptionFailed(m) => GatewayErrorView::SubscriptionFailed(m@),
            GatewayError::ConfigError(m) => GatewayErrorView::ConfigError(m@),
            GatewayError::Internal(m) => GatewayErrorView::Internal(m@),
        }
    }
}

/// A text result, or an error, as what it says.
pub open spec fn text_result_view(r: Result<String, GatewayError>) -> Result<Seq<char>, GatewayErrorView> {
    match r {
        Ok(s) => Ok(s@),
        Err(e) => Err(e@),
    }
}

/// The error of a result, as what it says; `None` for a success.
pub open spec fn err_view<T>(r: Result<T, GatewayError>) -> Option<GatewayErrorView> {
    match r {
        Ok(_) => None,
        Err(e) => Some(e@),
    }
}

/// The HTTP status code that belongs to each kind of error: the caller's
/// mistakes are answered with 400, everything else with 500.
pub open spec fn status_of(e: GatewayError) -> u16 {
    match e {
        GatewayError::GatewayNotConfigured { .. } => 400,
        GatewayError::WebhookVerificationFailed(_) => 400,
        _ => 500,
    }
}

/// `r` is the error that names `gateway` as not configured.
pub open spec fn not_configured<T>(r: Result<T, GatewayError>, gateway: Seq<char>) -> bool {
    r matches Err(GatewayError::GatewayNotConfigured { gateway: g }) && g@ == gateway
}

impl GatewayError {
    /// Returns true if this is a transient error that can be retried.
    pub fn is_retryable(&self) -> (r: bool)
        ensures
            r == (*self is Internal),
    {
        match self {
            GatewayError::Internal(_) => true,
            _ => false,
        }
    }

    /// Returns the HTTP status code that should be returned for this error.
    pub fn http_status_code(&self) -> (r: u16)
        ensures
            r == status_of(*self),
    {
        match self {
            GatewayError::GatewayNotConfigured { .. } => 400,
            GatewayError::CheckoutFailed(_) => 500,
            GatewayError::WebhookVerificationFailed(_) => 400,
            GatewayError::WebhookProcessingFailed(_) => 500,
            GatewayError::SubscriptionFailed(_) => 500,
            GatewayError::ConfigError(_) => 500,
            GatewayError::Internal(_) => 500,
        }
    }
}

/// A retryable error is always reported as a server error (500), never as a
/// client error.
pub proof fn retryable_errors_are_server_errors(e: GatewayError)
    ensures
        e is Internal ==> status_of(e) == 500,
{
}

/// The HTTP status of each kind of error: 400 for an unconfigured gateway
/// and for a webhook that fails verification, 500 for every other kind.
pub proof fn error_status_codes(e: GatewayError, r: u16)
    requires
        r == status_of(e),
    ensures
        e is GatewayNotConfigured ==> r == 400,
        e is WebhookVerificationFailed ==> r == 400,
        e is CheckoutFailed ==> r == 500,
        e is WebhookProcessingFailed ==> r == 500,
        e is SubscriptionFailed ==> r == 500,
        e is ConfigError ==> r == 500,
        e is Internal ==> r == 500,
{
}

} // verus!
