use pp_ss_r::checkout::{
    page_for_session, rejected_message, session_headers, request_failed_message, request_for_merchant,
    session_step, sessions_url, undecodable_message, CheckoutResponse, SessionEvent,
    SessionState, SessionStep,
};
use pp_ss_r::model::{InitPayload, PaymentPage, ProcessPayload, TenantInfo};
use pp_ss_r::{order_data_url, page_headers, push_decimal};

fn sample_page() -> PaymentPage {
    PaymentPage {
        init: InitPayload {
            client_auth_token: "tkn_c01ec4e522b74886a4a5eb713daa4b16".to_string(),
            client_id: "defaultclient".to_string(),
            environment: "production".to_string(),
            merchant_id: "hamishtest".to_string(),
            return_url: "https://merchant.example.com/checkout/return".to_string(),
            language: "english".to_string(),
            is_payment_link: true,
            tenant: TenantInfo {
                assets_domain: "https://secure.barclaycardpayments.com".to_string(),
                tenant_id: "barclays".to_string(),
            },
        },
        process: ProcessPayload {
            amount: "0.01".to_string(),
            currency: "GBP".to_string(),
            order_id: "pay_7ee8d7f469d343ecbeef25ae6a04142c".to_string(),
            description: "Test payment".to_string(),
            order_type: "ORDER_PAYMENT".to_string(),
            payment_links_expiry: "2026-09-24T17:14:02Z".to_string(),
            source_object: "ADAPTER_BARCLAYS".to_string(),
            merchant_id: "hamishtest".to_string(),
            metadata: "{}".to_string(),
        },
    }
}

#[test]
fn sessions_url_appends_the_path() {
    assert_eq!(
        sessions_url("http://127.0.0.1:8100"),
        "http://127.0.0.1:8100/v1/checkout-sessions"
    );
}

#[test]
fn order_data_url_appends_the_id() {
    assert_eq!(
        order_data_url("http://127.0.0.1:8080", "demo_order_42", None),
        "http://127.0.0.1:8080/api/orders/demo_order_42"
    );
}

#[test]
fn order_data_url_forwards_the_delay() {
    assert_eq!(
        order_data_url("http://127.0.0.1:8080", "abc", Some(250)),
        "http://127.0.0.1:8080/api/orders/abc?delay_ms=250"
    );
    assert_eq!(order_data_url("b", "x", Some(0)), "b/api/orders/x?delay_ms=0");
    assert_eq!(
        order_data_url("b", "x", Some(u64::MAX)),
        "b/api/orders/x?delay_ms=18446744073709551615"
    );
}

#[test]
fn decimal_numerals() {
    let mut s = String::from("n=");
    push_decimal(&mut s, 1090);
    assert_eq!(s, "n=1090");
}

#[test]
fn session_headers_carry_the_keys() {
    let h = session_headers("Basic test", "idem-1");
    assert_eq!(
        h,
        vec![("X-API-Key", "Basic test".to_string()), ("Idempotency-Key", "idem-1".to_string())]
    );
}

#[test]
fn messages_name_the_failure() {
    assert_eq!(
        request_failed_message("http://x/v1/checkout-sessions", "refused"),
        "checkout request to http://x/v1/checkout-sessions failed: refused"
    );
    assert_eq!(
        rejected_message("401 Unauthorized", "bad key"),
        "checkout API returned 401 Unauthorized: bad key"
    );
    assert_eq!(
        undecodable_message("expected value"),
        "decoding checkout response failed: expected value"
    );
}

#[test]
fn send_failure_finishes_with_its_error() {
    match session_step("u", SessionState::Sending, SessionEvent::SendFailed { cause: "down".to_string() }) {
        SessionStep::Finished(Err(m)) => assert_eq!(m, "checkout request to u failed: down"),
        other => panic!("unexpected {:?}", other),
    }
}

#[test]
fn success_moves_on_to_decoding_then_finishes() {
    let step = session_step(
        "u",
        SessionState::Sending,
        SessionEvent::Answered { success: true, status: "200 OK".to_string() },
    );
    assert!(matches!(step, SessionStep::Next(SessionState::Decoding)));
    let reply = CheckoutResponse { id: Some("sess_test_123".to_string()) };
    match session_step("u", SessionState::Decoding, SessionEvent::Decoded { reply }) {
        SessionStep::Finished(Ok(r)) => assert_eq!(r.id.as_deref(), Some("sess_test_123")),
        other => panic!("unexpected {:?}", other),
    }
    match session_step("u", SessionState::Decoding, SessionEvent::DecodeFailed { cause: "eof".to_string() }) {
        SessionStep::Finished(Err(m)) => assert_eq!(m, "decoding checkout response failed: eof"),
        other => panic!("unexpected {:?}", other),
    }
}

#[test]
fn rejection_reads_the_body_then_fails() {
    let step = session_step(
        "u",
        SessionState::Sending,
        SessionEvent::Answered { success: false, status: "502 Bad Gateway".to_string() },
    );
    let state = match step {
        SessionStep::Next(s) => s,
        other => panic!("unexpected {:?}", other),
    };
    match session_step("u", state, SessionEvent::RejectionRead { body: "oops".to_string() }) {
        SessionStep::Finished(Err(m)) => assert_eq!(m, "checkout API returned 502 Bad Gateway: oops"),
        other => panic!("unexpected {:?}", other),
    }
}

#[test]
fn unrelated_event_leaves_the_state() {
    let step = session_step("u", SessionState::Decoding, SessionEvent::RejectionRead { body: String::new() });
    assert!(matches!(step, SessionStep::Next(SessionState::Decoding)));
}

#[test]
fn merchant_request_uses_the_sample_merchant() {
    let req = request_for_merchant(&sample_page(), "5.00", "GBP", "ref-1");
    assert_eq!(req.objective.payment.merchant_id, "hamishtest");
    assert_eq!(req.return_urls.default, "https://merchant.example.com/checkout/return");
    assert_eq!(req.experience.branding_profile, "defaultclient");
    assert_eq!(req.objective.payment.amount.value, "5.00");
    assert_eq!(req.merchant_reference, "ref-1");
}

#[test]
fn session_page_carries_amount_and_session_id() {
    let reply = CheckoutResponse { id: Some("sess_test_123".to_string()) };
    let page = page_for_session(sample_page(), "5.00".to_string(), "GBP".to_string(), reply).unwrap();
    assert_eq!(page.process.order_id, "sess_test_123");
    assert_eq!(page.process.amount, "5.00");
    let html = pp_ss_r::render::render_payment_page(&page).into_string();
    assert!(html.contains("£5.00"));
    assert!(html.contains("sess_test_123"));
    let none = page_for_session(sample_page(), "5.00".to_string(), "GBP".to_string(), CheckoutResponse::default());
    assert!(none.is_none());
}

#[test]
fn page_headers_are_the_security_headers() {
    let h = page_headers();
    assert_eq!(h.len(), 4);
    assert!(h.contains(&("cache-control", "no-store")));
    assert!(h.contains(&("x-content-type-options", "nosniff")));
    assert!(h.contains(&("referrer-policy", "no-referrer")));
    assert!(h.iter().any(|(n, v)| *n == "content-security-policy" && v.contains("script-src 'none'")));
}

#[test]
fn whole_run_success_and_decode_failure() {
    let first = session_step(
        "u",
        SessionState::Sending,
        SessionEvent::Answered { success: true, status: "201 Created".to_string() },
    );
    let state = match first {
        SessionStep::Next(s) => s,
        other => panic!("unexpected {:?}", other),
    };
    match session_step("u", state.clone(), SessionEvent::DecodeFailed { cause: "expected value".to_string() }) {
        SessionStep::Finished(Err(m)) => assert!(m.starts_with("decoding checkout response failed: ")),
        other => panic!("unexpected {:?}", other),
    }
    match session_step("u", state, SessionEvent::Decoded { reply: CheckoutResponse { id: None } }) {
        SessionStep::Finished(Ok(r)) => assert!(r.id.is_none()),
        other => panic!("unexpected {:?}", other),
    }
}
