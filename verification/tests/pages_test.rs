use pp_ss_r::model::{with_order_id, InitPayload, PaymentPage, ProcessPayload, TenantInfo};
use pp_ss_r::render::{
    page_response, PageKind, format_amount, lang_code, render_checkout_form, render_confirmation, render_error,
    render_payment_page,
};

fn sample_page() -> PaymentPage {
    PaymentPage {
        init: InitPayload {
            client_auth_token: "tkn_c01ec4e522b74886a4a5eb713daa4b16".to_string(),
            client_id: "defaultclient".to_string(),
            environment: "production".to_string(),
            merchant_id: "hamishtest".to_string(),
            return_url: "https://merchant.example.com/checkout/return".to_string(),
            language: "english".to_string(),
            is_payment_link: true,
            tenant: TenantInfo {
                assets_domain: "https://secure.barclaycardpayments.com".to_string(),
                tenant_id: "barclays".to_string(),
            },
        },
        process: ProcessPayload {
            amount: "0.01".to_string(),
            currency: "GBP".to_string(),
            order_id: "pay_7ee8d7f469d343ecbeef25ae6a04142c".to_string(),
            description: "Test payment".to_string(),
            order_type: "ORDER_PAYMENT".to_string(),
            payment_links_expiry: "2026-09-24T17:14:02Z".to_string(),
            source_object: "ADAPTER_BARCLAYS".to_string(),
            merchant_id: "hamishtest".to_string(),
            metadata: "{}".to_string(),
        },
    }
}

#[test]
fn order_id_is_echoed_and_escaped() {
    let page = with_order_id(sample_page(), "ord_<b>x".to_string());
    let html = render_payment_page(&page).into_string();
    assert!(html.contains("<p class=\"pp-order-id\">Order: ord_&lt;b&gt;x</p>"));
    assert!(!html.contains("ord_<b>x"), "must not emit raw tags");
}

#[test]
fn fields_are_escaped_everywhere() {
    let mut page = sample_page();
    page.process.merchant_id = "a&b".to_string();
    page.process.description = "say \"hi\" <now>".to_string();
    let html = render_payment_page(&page).into_string();
    assert!(html.contains("<p class=\"pp-merchant\">a&amp;b</p>"));
    assert!(html.contains("<p class=\"pp-desc\">say &quot;hi&quot; &lt;now&gt;</p>"));
}

#[test]
fn amount_renders_in_summary_and_button() {
    let html = render_payment_page(&sample_page()).into_string();
    assert!(html.contains("<p class=\"pp-amount\">£0.01</p>"));
    assert!(html.contains("<button class=\"pp-pay\" type=\"submit\">Pay £0.01</button>"));
    assert!(html.contains("<p class=\"pp-merchant\">hamishtest</p>"));
    assert!(html.contains("<html lang=\"en\">"));
    assert!(html.contains("<title>Barclaycard Payment</title>"));
    assert!(html.ends_with("</footer></body></html>"));
}

#[test]
fn whole_payment_page_with_empty_description() {
    let mut page = sample_page();
    page.process.description = String::new();
    page.process.order_id = "o1".to_string();
    let html = render_payment_page(&page).into_string();
    let expected: String = [
        "<!DOCTYPE html><html lang=\"en\"><head><meta charset=\"utf-8\">",
        "<meta name=\"viewport\" content=\"width=device-width, initial-scale=1\">",
        "<title>Barclaycard Payment</title><link rel=\"stylesheet\" href=\"/assets/style.css\"></head>",
        "<body><header class=\"pp-header\"><img class=\"pp-logo\" src=\"/assets/img/barclaycard-logo.png\" alt=\"Barclaycard\"></header>",
        "<main class=\"pp-main\"><section class=\"pp-summary\"><h1 class=\"pp-title\">Order summary</h1>",
        "<p class=\"pp-merchant\">hamishtest</p><p class=\"pp-amount\">£0.01</p>",
        "<p class=\"pp-order-id\">Order: o1</p></section>",
        "<form class=\"pp-form\" method=\"post\" action=\"/pay\">",
        "<label for=\"card-name\">Name on card</label>",
        "<input id=\"card-name\" name=\"card-name\" type=\"text\" autocomplete=\"cc-name\" required>",
        "<label for=\"card-number\">Card number</label>",
        "<input id=\"card-number\" name=\"card-number\" type=\"text\" inputmode=\"numeric\" autocomplete=\"cc-number\" placeholder=\"1234 5678 9012 3456\" required>",
        "<div class=\"pp-row\"><div class=\"pp-col\"><label for=\"card-expiry\">Expiry</label>",
        "<input id=\"card-expiry\" name=\"card-expiry\" type=\"text\" inputmode=\"numeric\" autocomplete=\"cc-exp\" placeholder=\"MM/YY\" required></div>",
        "<div class=\"pp-col\"><label for=\"card-cvc\">CVC</label>",
        "<input id=\"card-cvc\" name=\"card-cvc\" type=\"text\" inputmode=\"numeric\" autocomplete=\"cc-csc\" placeholder=\"123\" required></div></div>",
        "<button class=\"pp-pay\" type=\"submit\">Pay £0.01</button></form></main>",
        "<footer class=\"pp-footer\"><img class=\"pp-secured\" src=\"/assets/img/secured.png\" alt=\"Secured\">",
        "<span>Payments are secure and encrypted</span></footer></body></html>",
    ]
    .concat();
    assert_eq!(html, expected);
}

#[test]
fn pay_returns_confirmation() {
    let html = render_confirmation(&sample_page()).into_string();
    assert!(html.to_lowercase().contains("received"), "confirmation text");
    assert!(html.contains("£0.01"), "echoes amount");
    assert!(html.contains("Order: pay_7ee8d7f469d343ecbeef25ae6a04142c"));
    assert!(html.contains("<title>Payment received</title>"));
    assert!(html.contains("No real payment was processed."));
}

#[test]
fn error_page_is_a_full_document() {
    let html = render_error().into_string();
    assert!(html.starts_with("<!DOCTYPE html><html lang=\"en\">"));
    assert!(html.contains("<title>Something went wrong</title>"));
    assert!(html.contains("We couldn't load this order"));
}

#[test]
fn checkout_form_renders() {
    let html = render_checkout_form().into_string();
    assert!(html.contains("action=\"/checkout\""), "form posts to /checkout");
    assert!(html.contains("name=\"amount\""), "amount input present");
    assert!(html.contains("name=\"currency\""), "currency input present");
}

#[test]
fn euro_and_language() {
    assert_eq!(format_amount("EUR", "7"), "€7");
    assert_eq!(format_amount("gbp", "7"), "7");
    assert_eq!(format_amount("", ""), "");
    assert_eq!(lang_code("english"), "en");
    assert_eq!(lang_code("french"), "en");
}

#[test]
fn with_order_id_changes_only_the_order_id() {
    let page = with_order_id(sample_page(), "demo_order_42".to_string());
    assert_eq!(page.process.order_id, "demo_order_42");
    assert_eq!(page.process.amount, "0.01");
    assert_eq!(page.init.merchant_id, "hamishtest");
}

#[test]
fn description_class_occurs_once_or_not_at_all() {
    let html = render_payment_page(&sample_page()).into_string();
    assert_eq!(html.matches("class=\"pp-desc\"").count(), 1);
    let mut page = sample_page();
    page.process.description = String::new();
    page.process.merchant_id = "class=\"pp-desc\"".to_string();
    let html = render_payment_page(&page).into_string();
    assert_eq!(html.matches("class=\"pp-desc\"").count(), 0);
}

#[test]
fn confirmation_holds_no_form() {
    let mut page = sample_page();
    page.process.order_id = "<form><input>".to_string();
    let html = render_confirmation(&page).into_string();
    assert!(!html.contains("<form"));
    assert!(!html.contains("<input"));
    assert!(html.contains("<title>Payment received</title>"));
    assert!(html.contains("<p class=\"pp-order-id\">Order: &lt;form&gt;&lt;input&gt;</p>"));
}

#[test]
fn layout_shape() {
    let html = render_error().into_string();
    assert!(html.starts_with("<!DOCTYPE html>"));
    assert!(html.contains("<link rel=\"stylesheet\" href=\"/assets/style.css\">"));
    assert!(html.contains("<img class=\"pp-logo\" src=\"/assets/img/barclaycard-logo.png\" alt=\"Barclaycard\">"));
    assert!(html.ends_with("Please try again.</p></section></main></body></html>"));
}

#[test]
fn page_response_status() {
    let (code, m) = page_response(PageKind::Payment, &Ok(sample_page()));
    assert_eq!(code, 200);
    assert!(m.into_string().contains("Order summary"));
    let (code, m) = page_response(PageKind::Confirmation, &Ok(sample_page()));
    assert_eq!(code, 200);
    assert!(m.into_string().contains("Payment received (demo)"));
    let (code, m) = page_response(PageKind::Payment, &Err("down".to_string()));
    assert_eq!(code, 502);
    assert_eq!(m.into_string(), render_error().into_string());
}
