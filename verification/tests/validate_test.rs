use pp_ss_r::model::{InitPayload, PaymentPage, ProcessPayload, RequiredField, TenantInfo};

fn sample_page() -> PaymentPage {
    PaymentPage {
        init: InitPayload {
            client_auth_token: "tkn_c01ec4e522b74886a4a5eb713daa4b16".to_string(),
            client_id: "defaultclient".to_string(),
            environment: "production".to_string(),
            merchant_id: "hamishtest".to_string(),
            return_url: "https://merchant.example.com/checkout/return".to_string(),
            language: "english".to_string(),
            is_payment_link: true,
            tenant: TenantInfo {
                assets_domain: "https://secure.barclaycardpayments.com".to_string(),
                tenant_id: "barclays".to_string(),
            },
        },
        process: ProcessPayload {
            amount: "0.01".to_string(),
            currency: "GBP".to_string(),
            order_id: "pay_7ee8d7f469d343ecbeef25ae6a04142c".to_string(),
            description: "Test payment".to_string(),
            order_type: "ORDER_PAYMENT".to_string(),
            payment_links_expiry: "2026-09-24T17:14:02Z".to_string(),
            source_object: "ADAPTER_BARCLAYS".to_string(),
            merchant_id: "hamishtest".to_string(),
            metadata: "{}".to_string(),
        },
    }
}

#[test]
fn valid_sample_passes_validation() {
    assert!(
        sample_page().validate().is_ok(),
        "the bundled sample payload must validate"
    );
}

#[test]
fn blank_required_field_is_rejected() {
    let mut page = sample_page();
    page.process.amount = String::new();
    assert!(
        page.validate().is_err(),
        "a blank required field must be rejected"
    );
}

#[test]
fn whitespace_only_field_is_blank() {
    let mut page = sample_page();
    page.process.currency = " \t\r\n".to_string();
    assert_eq!(page.validate(), Err(RequiredField::Currency));
}

#[test]
fn first_blank_field_in_checking_order_is_named() {
    let mut page = sample_page();
    page.process.order_id = String::new();
    page.init.return_url = String::new();
    let err = page.validate().unwrap_err();
    assert_eq!(err, RequiredField::ReturnUrl);
    assert_eq!(err.name(), "init.return_url");
}

#[test]
fn optional_fields_may_be_empty() {
    let mut page = sample_page();
    page.process.description = String::new();
    page.process.metadata = String::new();
    page.init.client_auth_token = String::new();
    assert_eq!(page.validate(), Ok(()));
}

#[test]
fn every_required_field_is_checked() {
    let fields = [
        RequiredField::ClientId,
        RequiredField::InitMerchantId,
        RequiredField::ReturnUrl,
        RequiredField::Language,
        RequiredField::TenantId,
        RequiredField::Amount,
        RequiredField::Currency,
        RequiredField::OrderId,
        RequiredField::ProcessMerchantId,
    ];
    for f in fields {
        let mut page = sample_page();
        match f {
            RequiredField::ClientId => page.init.client_id.clear(),
            RequiredField::InitMerchantId => page.init.merchant_id.clear(),
            RequiredField::ReturnUrl => page.init.return_url.clear(),
            RequiredField::Language => page.init.language.clear(),
            RequiredField::TenantId => page.init.tenant.tenant_id.clear(),
            RequiredField::Amount => page.process.amount.clear(),
            RequiredField::Currency => page.process.currency.clear(),
            RequiredField::OrderId => page.process.order_id.clear(),
            RequiredField::ProcessMerchantId => page.process.merchant_id.clear(),
        }
        assert_eq!(page.validate(), Err(f));
    }
}
