use pp_ss_r::model::{InitPayload, PaymentPage, ProcessPayload, TenantInfo};
use pp_ss_r::render::{format_amount, render_payment_page};

fn sample_page() -> PaymentPage {
    PaymentPage {
        init: InitPayload {
            client_auth_token: "tkn_c01ec4e522b74886a4a5eb713daa4b16".to_string(),
            client_id: "defaultclient".to_string(),
            environment: "production".to_string(),
            merchant_id: "hamishtest".to_string(),
            return_url: "https://merchant.example.com/checkout/return".to_string(),
            language: "english".to_string(),
            is_payment_link: true,
            tenant: TenantInfo {
                assets_domain: "https://secure.barclaycardpayments.com".to_string(),
                tenant_id: "barclays".to_string(),
            },
        },
        process: ProcessPayload {
            amount: "0.01".to_string(),
            currency: "GBP".to_string(),
            order_id: "pay_7ee8d7f469d343ecbeef25ae6a04142c".to_string(),
            description: "Test payment".to_string(),
            order_type: "ORDER_PAYMENT".to_string(),
            payment_links_expiry: "2026-09-24T17:14:02Z".to_string(),
            source_object: "ADAPTER_BARCLAYS".to_string(),
            merchant_id: "hamishtest".to_string(),
            metadata: "{}".to_string(),
        },
    }
}

#[test]
fn format_amount_known_and_unknown_currency() {
    assert_eq!(format_amount("GBP", "0.01"), "£0.01");
    assert_eq!(format_amount("USD", "5.00"), "$5.00");
    // unknown currency: keep the number, no symbol, no panic
    assert_eq!(format_amount("JPY", "500"), "500");
}

#[test]
fn page_contains_amount_and_fields() {
    let page = sample_page();
    let html = render_payment_page(&page).into_string();
    assert!(html.contains("£0.01"), "amount must render");
    assert!(html.contains("Test payment"), "description must render");
    assert!(html.contains("id=\"card-number\""), "card number field");
    assert!(html.contains("id=\"card-expiry\""), "expiry field");
    assert!(html.contains("id=\"card-cvc\""), "cvc field");
    assert!(html.contains("action=\"/pay\""), "form posts to /pay");
    assert!(html.contains("/assets/img/barclaycard-logo.png"), "logo");
    assert!(html.contains("<!DOCTYPE html>"), "full document");
}

#[test]
fn empty_description_is_omitted() {
    let mut page = sample_page();
    page.process.description = String::new();
    let html = render_payment_page(&page).into_string();
    assert!(!html.contains("class=\"pp-desc\""), "no empty description element");
}
