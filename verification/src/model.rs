//! The payment payload: what the pages are rendered from, and the check that
//! a payload carries every field a page or a checkout request relies on.

use vstd::prelude::*;

use crate::text::{blank, is_blank};

verus! {

/// The payload a payment page is rendered from.
#[derive(Debug, Clone)]
pub struct PaymentPage {
    pub init: InitPayload,
    pub process: ProcessPayload,
}

/// Merchant and client settings of the payload.
#[derive(Debug, Clone)]
pub struct InitPayload {
    pub client_auth_token: String,
    pub client_id: String,
    pub environment: String,
    pub merchant_id: String,
    pub return_url: String,
    pub language: String,
    pub is_payment_link: bool,
    pub tenant: TenantInfo,
}

/// The tenant the page is served for.
#[derive(Debug, Clone)]
pub struct TenantInfo {
    pub assets_domain: String,
    pub tenant_id: String,
}

/// The order being paid.
#[derive(Debug, Clone)]
pub struct ProcessPayload {
    pub amount: String,
    pub currency: String,
    pub order_id: String,
    pub description: String,
    pub order_type: String,
    pub payment_links_expiry: String,
    pub source_object: String,
    pub merchant_id: String,
    pub metadata: String,
}

/// The fields that must not be blank, in the order in which they are checked.
#[derive(Debug, Clone, Copy, PartialEq, Eq, Structural)]
pub enum RequiredField {
    ClientId,
    InitMerchantId,
    ReturnUrl,
    Language,
    TenantId,
    Amount,
    Currency,
    OrderId,
    ProcessMerchantId,
}

/// The text of a required field of `page`.
pub open spec fn field_text(page: PaymentPage, field: RequiredField) -> Seq<char> {
    match field {
        RequiredField::ClientId => page.init.client_id@,
        RequiredField::InitMerchantId => page.init.merchant_id@,
        RequiredField::ReturnUrl => page.init.return_url@,
        RequiredField::Language => page.init.language@,
        RequiredField::TenantId => page.init.tenant.tenant_id@,
        RequiredField::Amount => page.process.amount@,
        RequiredField::Currency => page.process.currency@,
        RequiredField::OrderId => page.process.order_id@,
        RequiredField::ProcessMerchantId => page.process.merchant_id@,
    }
}

/// The required fields, in checking order.
pub open spec fn required_fields() -> Seq<RequiredField> {
    seq![
        RequiredField::ClientId,
        RequiredField::InitMerchantId,
        RequiredField::ReturnUrl,
        RequiredField::Language,
        RequiredField::TenantId,
        RequiredField::Amount,
        RequiredField::Currency,
        RequiredField::OrderId,
        RequiredField::ProcessMerchantId,
    ]
}

/// A payload is complete when none of its required fields is blank.
pub open spec fn complete(page: PaymentPage) -> bool {
    forall|i: int| 0 <= i < required_fields().len() ==> !blank(#[trigger] field_text(page, required_fields()[i]))
}

/// The first required field, in checking order, that is blank in `page`, if any.
pub open spec fn first_blank_from(page: PaymentPage, i: nat) -> Option<RequiredField>
    decreases required_fields().len() - i,
{
    if i >= required_fields().len() {
        None
    } else if blank(field_text(page, required_fields()[i as int])) {
        Some(required_fields()[i as int])
    } else {
        first_blank_from(page, i + 1)
    }
}

pub open spec fn first_blank(page: PaymentPage) -> Option<RequiredField> {
    first_blank_from(page, 0)
}

proof fn lemma_first_blank_from(page: PaymentPage, i: nat)
    requires
        i <= required_fields().len(),
    ensures
        first_blank_from(page, i) is None <==> (forall|j: int|
            i <= j < required_fields().len() ==> !blank(#[trigger] field_text(page, required_fields()[j]))),
        first_blank_from(page, i) matches Some(f) ==> blank(field_text(page, f)),
    decreases required_fields().len() - i,
{
    if i < required_fields().len() {
        lemma_first_blank_from(page, i + 1);
    }
}

/// Validation passes exactly on complete payloads, and the field that it
/// names on failure is blank.
pub proof fn lemma_validation_is_completeness(page: PaymentPage)
    ensures
        first_blank(page) is None <==> complete(page),
        first_blank(page) matches Some(f) ==> blank(field_text(page, f)),
{
    lemma_first_blank_from(page, 0);
}

/// A payload each of whose required fields holds a character that is not
/// ASCII whitespace passes validation, whatever the rest of the field holds.
pub proof fn lemma_nonblank_fields_validate(page: PaymentPage)
    requires
        forall|f: int|
            0 <= f < required_fields().len() ==> exists|k: int|
                0 <= k < field_text(page, #[trigger] required_fields()[f]).len() && !(field_text(
                    page,
                    required_fields()[f],
                )[k] == ' ' || field_text(page, required_fields()[f])[k] == '\t' || field_text(
                    page,
                    required_fields()[f],
                )[k] == '\n' || field_text(page, required_fields()[f])[k] == '\x0C' || field_text(
                    page,
                    required_fields()[f],
                )[k] == '\r'),
    ensures
        first_blank(page) is None,
{
    assert forall|f: int| 0 <= f < required_fields().len() implies !blank(
        #[trigger] field_text(page, required_fields()[f]),
    ) by {
        let k = choose|k: int|
            0 <= k < field_text(page, required_fields()[f]).len() && !(field_text(
                page,
                required_fields()[f],
            )[k] == ' ' || field_text(page, required_fields()[f])[k] == '\t' || field_text(
                page,
                required_fields()[f],
            )[k] == '\n' || field_text(page, required_fields()[f])[k] == '\x0C' || field_text(
                page,
                required_fields()[f],
            )[k] == '\r');
        crate::text::lemma_blank_laws(field_text(page, required_fields()[f]), Seq::empty(), ' ', k);
    }
    lemma_validation_is_completeness(page);
}

/// The payload with its order id replaced by `order_id`.
pub fn with_order_id(page: PaymentPage, order_id: String) -> (p: PaymentPage)
    ensures
        p == (PaymentPage {
            init: page.init,
            process: ProcessPayload { order_id: order_id, ..page.process },
        }),
{
    let mut page = page;
    page.process.order_id = order_id;
    page
}

impl RequiredField {
    /// The field's path in the payload's JSON form.
    pub fn name(&self) -> (n: &'static str)
        ensures
            n@ == field_path(*self),
    {
        match self {
            RequiredField::ClientId => "init.client_id",
            RequiredField::InitMerchantId => "init.merchant_id",
            RequiredField::ReturnUrl => "init.return_url",
            RequiredField::Language => "init.language",
            RequiredField::TenantId => "init.tenant.tenant_id",
            RequiredField::Amount => "process.amount",
            RequiredField::Currency => "process.currency",
            RequiredField::OrderId => "process.order_id",
            RequiredField::ProcessMerchantId => "process.merchant_id",
        }
    }
}

/// The path of a required field in the payload's JSON form.
pub open spec fn field_path(field: RequiredField) -> Seq<char> {
    match field {
        RequiredField::ClientId => "init.client_id"@,
        RequiredField::InitMerchantId => "init.merchant_id"@,
        RequiredField::ReturnUrl => "init.return_url"@,
        RequiredField::Language => "init.language"@,
        RequiredField::TenantId => "init.tenant.tenant_id"@,
        RequiredField::Amount => "process.amount"@,
        RequiredField::Currency => "process.currency"@,
        RequiredField::OrderId => "process.order_id"@,
        RequiredField::ProcessMerchantId => "process.merchant_id"@,
    }
}

impl PaymentPage {
    /// Checks that no required field is blank; on failure names the first
    /// blank one in checking order.
    pub fn validate(&self) -> (r: Result<(), RequiredField>)
        ensures
            r == match first_blank(*self) {
                None => Ok(()),
                Some(f) => Err(f),
            },
    {
        proof {
            reveal_with_fuel(first_blank_from, 10);
        }
        if is_blank(self.init.client_id.as_str()) {
            return Err(RequiredField::ClientId);
        }
        if is_blank(self.init.merchant_id.as_str()) {
            return Err(RequiredField::InitMerchantId);
        }
        if is_blank(self.init.return_url.as_str()) {
            return Err(RequiredField::ReturnUrl);
        }
        if is_blank(self.init.language.as_str()) {
            return Err(RequiredField::Language);
        }
        if is_blank(self.init.tenant.tenant_id.as_str()) {
            return Err(RequiredField::TenantId);
        }
        if is_blank(self.process.amount.as_str()) {
            return Err(RequiredField::Amount);
        }
        if is_blank(self.process.currency.as_str()) {
            return Err(RequiredField::Currency);
        }
        if is_blank(self.process.order_id.as_str()) {
            return Err(RequiredField::OrderId);
        }
        if is_blank(self.process.merchant_id.as_str()) {
            return Err(RequiredField::ProcessMerchantId);
        }
        Ok(())
    }
}

} // verus!
