//! The checkout-sessions API: the request body for a hosted-page payment, the
//! reply the service reads back, and the texts that name what went wrong.

use vstd::prelude::*;

use crate::model::{PaymentPage, ProcessPayload};

verus! {

/// Request body for `POST /v1/checkout-sessions`.
#[derive(Debug, Clone)]
pub struct CheckoutRequest {
    pub merchant_reference: String,
    pub mode: String,
    pub objective: Objective,
    pub experience: Experience,
    pub return_urls: ReturnUrls,
}

/// What the session is for; `kind` is the JSON field `type`.
#[derive(Debug, Clone)]
pub struct Objective {
    pub kind: String,
    pub payment: Payment,
}

#[derive(Debug, Clone)]
pub struct Payment {
    pub merchant_id: String,
    pub amount: Amount,
    pub processing_mode: String,
    pub payment_purpose: String,
    pub payment_channel: String,
}

#[derive(Debug, Clone)]
pub struct Amount {
    pub currency: String,
    pub value: String,
}

#[derive(Debug, Clone)]
pub struct Experience {
    pub branding_profile: String,
}

#[derive(Debug, Clone)]
pub struct ReturnUrls {
    pub default: String,
}

/// Reply of the checkout API; only the session id is read, and it may be absent.
#[derive(Debug, Clone)]
pub struct CheckoutResponse {
    pub id: Option<String>,
}

impl Default for CheckoutResponse {
    fn default() -> (r: Self)
        ensures
            r.id is None,
    {
        CheckoutResponse { id: None }
    }
}

pub const HOSTED_PAGE: &'static str = "HOSTED_PAGE";
pub const PAYMENT: &'static str = "PAYMENT";
pub const AUTH_AND_CAPTURE: &'static str = "AUTH_AND_CAPTURE";
pub const ECOMMERCE: &'static str = "ECOMMERCE";

/// `r` is the hosted-page, authorise-and-capture e-commerce payment request
/// built from the given values.
pub open spec fn is_request_for(
    r: CheckoutRequest,
    amount: Seq<char>,
    currency: Seq<char>,
    merchant_id: Seq<char>,
    return_url: Seq<char>,
    branding_profile: Seq<char>,
    merchant_reference: Seq<char>,
) -> bool {
    &&& r.merchant_reference@ == merchant_reference
    &&& r.mode@ == HOSTED_PAGE@
    &&& r.objective.kind@ == PAYMENT@
    &&& r.objective.payment.merchant_id@ == merchant_id
    &&& r.objective.payment.amount.currency@ == currency
    &&& r.objective.payment.amount.value@ == amount
    &&& r.objective.payment.processing_mode@ == AUTH_AND_CAPTURE@
    &&& r.objective.payment.payment_purpose@ == PAYMENT@
    &&& r.objective.payment.payment_channel@ == ECOMMERCE@
    &&& r.experience.branding_profile@ == branding_profile
    &&& r.return_urls.default@ == return_url
}

/// A request built for given values carries each of them in its own field,
/// unchanged, and the fixed values of a hosted-page, authorise-and-capture
/// e-commerce payment in the others.
pub proof fn lemma_request_carries_its_values(
    r: CheckoutRequest,
    amount: Seq<char>,
    currency: Seq<char>,
    merchant_id: Seq<char>,
    return_url: Seq<char>,
    branding_profile: Seq<char>,
    merchant_reference: Seq<char>,
)
    requires
        is_request_for(
            r,
            amount,
            currency,
            merchant_id,
            return_url,
            branding_profile,
            merchant_reference,
        ),
    ensures
        r.objective.payment.amount.value@ == amount,
        r.objective.payment.amount.currency@ == currency,
        r.objective.payment.merchant_id@ == merchant_id,
        r.return_urls.default@ == return_url,
        r.experience.branding_profile@ == branding_profile,
        r.merchant_reference@ == merchant_reference,
        r.mode@ == "HOSTED_PAGE"@,
        r.objective.kind@ == "PAYMENT"@,
        r.objective.payment.processing_mode@ == "AUTH_AND_CAPTURE"@,
        r.objective.payment.payment_purpose@ == "PAYMENT"@,
        r.objective.payment.payment_channel@ == "ECOMMERCE"@,
{
}

/// Two requests built for the same values agree in every field; requests
/// built for different currencies (or amounts) differ there.
pub proof fn lemma_request_follows_currency(
    r1: CheckoutRequest,
    r2: CheckoutRequest,
    amount: Seq<char>,
    c1: Seq<char>,
    c2: Seq<char>,
    merchant_id: Seq<char>,
    return_url: Seq<char>,
    branding_profile: Seq<char>,
    merchant_reference: Seq<char>,
)
    requires
        is_request_for(r1, amount, c1, merchant_id, return_url, branding_profile, merchant_reference),
        is_request_for(r2, amount, c2, merchant_id, return_url, branding_profile, merchant_reference),
    ensures
        (r1.objective.payment.amount.currency@ == r2.objective.payment.amount.currency@) <==> c1 == c2,
{
}

/// Assembles a HOSTED_PAGE / AUTH_AND_CAPTURE payment checkout request.
pub fn build_request(
    amount: &str,
    currency: &str,
    merchant_id: &str,
    return_url: &str,
    branding_profile: &str,
    merchant_reference: &str,
) -> (r: CheckoutRequest)
    ensures
        is_request_for(
            r,
            amount@,
            currency@,
            merchant_id@,
            return_url@,
            branding_profile@,
            merchant_reference@,
        ),
{
    CheckoutRequest {
        merchant_reference: String::from_str(merchant_reference),
        mode: String::from_str(HOSTED_PAGE),
        objective: Objective {
            kind: String::from_str(PAYMENT),
            payment: Payment {
                merchant_id: String::from_str(merchant_id),
                amount: Amount {
                    currency: String::from_str(currency),
                    value: String::from_str(amount),
                },
                processing_mode: String::from_str(AUTH_AND_CAPTURE),
                payment_purpose: String::from_str(PAYMENT),
                payment_channel: String::from_str(ECOMMERCE),
            },
        },
        experience: Experience { branding_profile: String::from_str(branding_profile) },
        return_urls: ReturnUrls { default: String::from_str(return_url) },
    }
}

/// The request for a payment of `amount` in `currency` on behalf of the
/// merchant of `sample`: its merchant id and return url, and its client id as
/// the branding profile.
pub fn request_for_merchant(
    sample: &PaymentPage,
    amount: &str,
    currency: &str,
    merchant_reference: &str,
) -> (r: CheckoutRequest)
    ensures
        is_request_for(
            r,
            amount@,
            currency@,
            sample.init.merchant_id@,
            sample.init.return_url@,
            sample.init.client_id@,
            merchant_reference@,
        ),
{
    build_request(
        amount,
        currency,
        sample.init.merchant_id.as_str(),
        sample.init.return_url.as_str(),
        sample.init.client_id.as_str(),
        merchant_reference,
    )
}

/// The payment page for a created session: `sample` with the entered amount
/// and currency and the session id as its order id; nothing when the reply
/// carries no session id.
pub fn page_for_session(
    sample: PaymentPage,
    amount: String,
    currency: String,
    reply: CheckoutResponse,
) -> (p: Option<PaymentPage>)
    ensures
        p == match reply.id {
            None => None,
            Some(id) => Some(
                PaymentPage {
                    init: sample.init,
                    process: ProcessPayload {
                        amount: amount,
                        currency: currency,
                        order_id: id,
                        ..sample.process
                    },
                },
            ),
        },
{
    match reply.id {
        None => None,
        Some(id) => {
            let mut page = sample;
            page.process.amount = amount;
            page.process.currency = currency;
            page.process.order_id = id;
            Some(page)
        },
    }
}

pub const SESSIONS_PATH: &'static str = "/v1/checkout-sessions";

/// The sessions endpoint under `base_url`.
pub fn sessions_url(base_url: &str) -> (u: String)
    ensures
        u@ == base_url@ + SESSIONS_PATH@,
{
    String::from_str(base_url).concat(SESSIONS_PATH)
}

pub const API_KEY_HEADER: &'static str = "X-API-Key";
pub const IDEMPOTENCY_HEADER: &'static str = "Idempotency-Key";

/// The headers of a session request: the API key and the idempotency key.
pub fn session_headers(api_key: &str, idempotency_key: &str) -> (h: Vec<(&'static str, String)>)
    ensures
        h@.len() == 2,
        h@[0].0@ == API_KEY_HEADER@,
        h@[0].1@ == api_key@,
        h@[1].0@ == IDEMPOTENCY_HEADER@,
        h@[1].1@ == idempotency_key@,
{
    let mut h: Vec<(&'static str, String)> = Vec::new();
    h.push((API_KEY_HEADER, String::from_str(api_key)));
    h.push((IDEMPOTENCY_HEADER, String::from_str(idempotency_key)));
    h
}

/// The session endpoint is `/v1/checkout-sessions` under the base url, and a
/// session request carries the API key as `X-API-Key` and the idempotency key
/// as `Idempotency-Key`.
pub proof fn lemma_session_request_names()
    ensures
        SESSIONS_PATH@ == "/v1/checkout-sessions"@,
        API_KEY_HEADER@ == "X-API-Key"@,
        IDEMPOTENCY_HEADER@ == "Idempotency-Key"@,
{
}

/// The error text for a request that could not be sent or answered.
pub fn request_failed_message(url: &str, cause: &str) -> (m: String)
    ensures
        m@ == send_failed_text(url@, cause@),
{
    String::from_str("checkout request to ").concat(url).concat(" failed: ").concat(cause)
}

/// The error text for a reply whose status is not a success.
pub fn rejected_message(status: &str, body: &str) -> (m: String)
    ensures
        m@ == rejected_text(status@, body@),
{
    String::from_str("checkout API returned ").concat(status).concat(": ").concat(body)
}

/// The error text for a successful reply that could not be decoded.
pub fn undecodable_message(cause: &str) -> (m: String)
    ensures
        m@ == undecodable_text(cause@),
{
    String::from_str("decoding checkout response failed: ").concat(cause)
}

/// Where a session request stands between two outside steps.
#[derive(Debug, Clone)]
pub enum SessionState {
    /// The request is being sent.
    Sending,
    /// The API answered with `status`, not a success; its body is being read.
    ReadingRejection { status: String },
    /// The API answered with a success; its body is being decoded.
    Decoding,
}

/// What an outside step reports back.
#[derive(Debug, Clone)]
pub enum SessionEvent {
    /// The request could not be sent or got no answer.
    SendFailed { cause: String },
    /// The API answered; `success` tells whether the status is a 2xx one.
    Answered { success: bool, status: String },
    /// The body of a rejected reply (empty when it could not be read).
    RejectionRead { body: String },
    /// The body of a successful reply, decoded.
    Decoded { reply: CheckoutResponse },
    /// The body of a successful reply could not be decoded.
    DecodeFailed { cause: String },
}

/// What to do next: wait for the next step in the given state, or finish.
#[derive(Debug)]
pub enum SessionStep {
    Next(SessionState),
    Finished(Result<CheckoutResponse, String>),
}

/// The error texts of a session request to `url`.
pub open spec fn send_failed_text(url: Seq<char>, cause: Seq<char>) -> Seq<char> {
    "checkout request to "@ + url + " failed: "@ + cause
}

pub open spec fn rejected_text(status: Seq<char>, body: Seq<char>) -> Seq<char> {
    "checkout API returned "@ + status + ": "@ + body
}

pub open spec fn undecodable_text(cause: Seq<char>) -> Seq<char> {
    "decoding checkout response failed: "@ + cause
}

/// The decision a session request to `url` takes on `event` in `state`:
/// a failed send ends in its error; a 2xx answer moves on to decoding, any
/// other answer to reading the rejection; the rejection body ends in the
/// rejection error; the decoded reply is the result, an undecodable one ends
/// in its error. An event that does not belong to the state leaves the state
/// as it is.
pub open spec fn is_session_step(
    url: Seq<char>,
    state: SessionState,
    event: SessionEvent,
    step: SessionStep,
) -> bool {
    match (state, event) {
        (SessionState::Sending, SessionEvent::SendFailed { cause }) => step matches SessionStep::Finished(Err(m))
            && m@ == send_failed_text(url, cause@),
        (SessionState::Sending, SessionEvent::Answered { success, status }) => if success {
            step matches SessionStep::Next(SessionState::Decoding)
        } else {
            step matches SessionStep::Next(SessionState::ReadingRejection { status: s })
                && s@ == status@
        },
        (SessionState::ReadingRejection { status }, SessionEvent::RejectionRead { body }) => step matches SessionStep::Finished(Err(m))
            && m@ == rejected_text(status@, body@),
        (SessionState::Decoding, SessionEvent::Decoded { reply }) => step == SessionStep::Finished(Ok(reply)),
        (SessionState::Decoding, SessionEvent::DecodeFailed { cause }) => step matches SessionStep::Finished(Err(m))
            && m@ == undecodable_text(cause@),
        _ => step == SessionStep::Next(state),
    }
}

/// One decision of a session request to `url`.
pub fn session_step(url: &str, state: SessionState, event: SessionEvent) -> (step: SessionStep)
    ensures
        is_session_step(url@, state, event, step),
{
    match (state, event) {
        (SessionState::Sending, SessionEvent::SendFailed { cause }) => SessionStep::Finished(
            Err(request_failed_message(url, cause.as_str())),
        ),
        (SessionState::Sending, SessionEvent::Answered { success, status }) => {
            if success {
                SessionStep::Next(SessionState::Decoding)
            } else {
                SessionStep::Next(SessionState::ReadingRejection { status })
            }
        },
        (SessionState::ReadingRejection { status }, SessionEvent::RejectionRead { body }) => SessionStep::Finished(
            Err(rejected_message(status.as_str(), body.as_str())),
        ),
        (SessionState::Decoding, SessionEvent::Decoded { reply }) => SessionStep::Finished(Ok(reply)),
        (SessionState::Decoding, SessionEvent::DecodeFailed { cause }) => SessionStep::Finished(
            Err(undecodable_message(cause.as_str())),
        ),
        (state, _) => SessionStep::Next(state),
    }
}

/// The events that an outside step can report in a state.
pub open spec fn fits(state: SessionState, event: SessionEvent) -> bool {
    match state {
        SessionState::Sending => event is SendFailed || event is Answered,
        SessionState::ReadingRejection { .. } => event is RejectionRead,
        SessionState::Decoding => event is Decoded || event is DecodeFailed,
    }
}

/// Where a run of at most two steps ends: the first step if it finished, else the second.
pub open spec fn run_end(first: SessionStep, second: SessionStep) -> SessionStep {
    if first is Next {
        second
    } else {
        first
    }
}

/// A whole session request, begun in `Sending` and fed events that belong to
/// their states, finishes within two steps; it succeeds exactly when the
/// request was answered with a 2xx status and the reply was decoded, and then
/// yields that reply; otherwise it fails with the text of what went wrong.
pub proof fn lemma_session_run(
    url: Seq<char>,
    e1: SessionEvent,
    s1: SessionStep,
    e2: SessionEvent,
    s2: SessionStep,
)
    requires
        fits(SessionState::Sending, e1),
        is_session_step(url, SessionState::Sending, e1, s1),
        s1 matches SessionStep::Next(st) ==> fits(st, e2) && is_session_step(url, st, e2, s2),
    ensures
        run_end(s1, s2) is Finished,
        (run_end(s1, s2) matches SessionStep::Finished(Ok(_))) <==> (e1 matches SessionEvent::Answered {
            success,
            ..
        } && success && e2 is Decoded),
        run_end(s1, s2) matches SessionStep::Finished(Ok(r)) ==> e2 == (SessionEvent::Decoded {
            reply: r,
        }),
        e1 matches SessionEvent::SendFailed { cause } ==> run_end(s1, s2) matches SessionStep::Finished(
            Err(m),
        ) && m@ == send_failed_text(url, cause@),
        e1 matches SessionEvent::Answered { success, status } ==> (!success ==> (e2 matches SessionEvent::RejectionRead { body }
            && run_end(s1, s2) matches SessionStep::Finished(Err(m)) && m@ == rejected_text(
            status@,
            body@,
        ))),
        e1 matches SessionEvent::Answered { success, .. } ==> (success ==> (e2 matches SessionEvent::DecodeFailed {
            cause,
        } ==> run_end(s1, s2) matches SessionStep::Finished(Err(m)) && m@ == undecodable_text(
            cause@,
        ))),
{
}

} // verus!
