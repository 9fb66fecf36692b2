use pp_ss_r::checkout::{build_request, CheckoutRequest};
use serde_json::Value;

fn text(s: &str) -> Value {
    Value::String(s.to_string())
}

fn object(fields: Vec<(&str, Value)>) -> Value {
    let mut map = serde_json::Map::new();
    for (k, v) in fields {
        map.insert(k.to_string(), v);
    }
    Value::Object(map)
}

/// The request's JSON form, as the service sends it (the `kind` field is named `type`).
fn to_value(req: &CheckoutRequest) -> Value {
    let p = &req.objective.payment;
    object(vec![
        ("merchant_reference", text(&req.merchant_reference)),
        ("mode", text(&req.mode)),
        (
            "objective",
            object(vec![
                ("type", text(&req.objective.kind)),
                (
                    "payment",
                    object(vec![
                        ("merchant_id", text(&p.merchant_id)),
                        (
                            "amount",
                            object(vec![
                                ("currency", text(&p.amount.currency)),
                                ("value", text(&p.amount.value)),
                            ]),
                        ),
                        ("processing_mode", text(&p.processing_mode)),
                        ("payment_purpose", text(&p.payment_purpose)),
                        ("payment_channel", text(&p.payment_channel)),
                    ]),
                ),
            ]),
        ),
        (
            "experience",
            object(vec![("branding_profile", text(&req.experience.branding_profile))]),
        ),
        ("return_urls", object(vec![("default", text(&req.return_urls.default))])),
    ])
}

#[test]
fn builds_checkout_request_matching_the_api_shape() {
    let req = build_request(
        "00.01",
        "GBP",
        "hamishtest",
        "https://merchant.example.com/checkout/return",
        "defaultclient",
        "ORDER-abc123",
    );
    let v = to_value(&req);

    assert_eq!(v["merchant_reference"], "ORDER-abc123");
    assert_eq!(v["mode"], "HOSTED_PAGE");
    assert_eq!(v["objective"]["type"], "PAYMENT");
    assert_eq!(v["objective"]["payment"]["merchant_id"], "hamishtest");
    assert_eq!(v["objective"]["payment"]["amount"]["currency"], "GBP");
    assert_eq!(v["objective"]["payment"]["amount"]["value"], "00.01");
    assert_eq!(v["objective"]["payment"]["processing_mode"], "AUTH_AND_CAPTURE");
    assert_eq!(v["objective"]["payment"]["payment_purpose"], "PAYMENT");
    assert_eq!(v["objective"]["payment"]["payment_channel"], "ECOMMERCE");
    assert_eq!(v["experience"]["branding_profile"], "defaultclient");
    assert_eq!(
        v["return_urls"]["default"],
        "https://merchant.example.com/checkout/return"
    );
}
