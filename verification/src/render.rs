//! The HTML documents of the service: the payment page, the confirmation
//! page and the error page, each a complete document around a shared shell.

use vstd::prelude::*;

use crate::model::PaymentPage;
use crate::text::{
    contains, html_escape, lemma_contains_self, lemma_contains_trans, lemma_contains_within,
    push_escaped, same_text,
};

verus! {

/// A rendered block of HTML, already escaped.
pub struct Markup(pub String);

impl View for Markup {
    type V = Seq<char>;

    open spec fn view(&self) -> Seq<char> {
        self.0@
    }
}

impl Markup {
    /// The HTML text.
    pub fn into_string(self) -> (s: String)
        ensures
            s@ == self@,
    {
        self.0
    }
}

/// Currency codes that have a display symbol.
pub const GBP: &'static str = "GBP";
pub const USD: &'static str = "USD";
pub const EUR: &'static str = "EUR";

/// The display symbol of a currency code: `£`, `$` or `€` for GBP, USD and
/// EUR, and nothing for any other code.
pub open spec fn currency_symbol(currency: Seq<char>) -> Seq<char> {
    if currency == GBP@ {
        "£"@
    } else if currency == USD@ {
        "$"@
    } else if currency == EUR@ {
        "€"@
    } else {
        Seq::empty()
    }
}

/// The display form of an amount: the currency's symbol followed by the amount as given.
pub open spec fn amount_text(currency: Seq<char>, amount: Seq<char>) -> Seq<char> {
    currency_symbol(currency) + amount
}

/// Formats an amount for display, e.g. `£0.01` for GBP and `0.01`.
pub fn format_amount(currency: &str, amount: &str) -> (s: String)
    ensures
        s@ == amount_text(currency@, amount@),
{
    let symbol = if same_text(currency, GBP) {
        String::from_str("£")
    } else if same_text(currency, USD) {
        String::from_str("$")
    } else if same_text(currency, EUR) {
        String::from_str("€")
    } else {
        String::new()
    };
    symbol.concat(amount)
}

/// An amount in a currency without a symbol is shown as given, with nothing added or lost.
pub proof fn lemma_unknown_currency_keeps_amount(currency: Seq<char>, amount: Seq<char>)
    requires
        currency != GBP@,
        currency != USD@,
        currency != EUR@,
    ensures
        amount_text(currency, amount) == amount,
{
    assert(Seq::<char>::empty() + amount =~= amount);
}

/// The displayed amount is the currency's symbol followed by the whole
/// amount, unchanged: it starts with the symbol, ends with the amount, and is
/// exactly as long as the two together; the symbols are `£`, `$` and `€` for
/// GBP, USD and EUR and nothing for any other code.
pub proof fn lemma_amount_text_keeps_amount(currency: Seq<char>, amount: Seq<char>)
    ensures
        amount_text(currency, amount).len() == currency_symbol(currency).len() + amount.len(),
        amount_text(currency, amount).subrange(0, currency_symbol(currency).len() as int)
            == currency_symbol(currency),
        amount_text(currency, amount).subrange(
            currency_symbol(currency).len() as int,
            amount_text(currency, amount).len() as int,
        ) == amount,
        amount_text(currency, amount) == currency_symbol(currency) + amount,
        currency == "GBP"@ ==> currency_symbol(currency) == seq!['£'],
        currency == "USD"@ ==> currency_symbol(currency) == seq!['$'],
        currency == "EUR"@ ==> currency_symbol(currency) == seq!['€'],
        currency != "GBP"@ && currency != "USD"@ && currency != "EUR"@ ==> amount_text(
            currency,
            amount,
        ) == amount,
{
    reveal_strlit("£");
    reveal_strlit("$");
    reveal_strlit("€");
    reveal_strlit("GBP");
    reveal_strlit("USD");
    reveal_strlit("EUR");
    assert("GBP"@[0] != "USD"@[0] && "GBP"@[0] != "EUR"@[0] && "USD"@[0] != "EUR"@[0]);
    let t = amount_text(currency, amount);
    let sym = currency_symbol(currency);
    assert(t =~= sym + amount);
    assert(t.subrange(0, sym.len() as int) =~= sym);
    assert(t.subrange(sym.len() as int, t.len() as int) =~= amount);
    assert(Seq::<char>::empty() + amount =~= amount);
}

/// The language tag of the document; every payload language is served as `en`.
pub open spec fn lang_tag(language: Seq<char>) -> Seq<char> {
    "en"@
}

/// Every page is served with the language tag `en`.
pub proof fn lemma_lang_tag_is_en(language: Seq<char>)
    ensures
        lang_tag(language) == seq!['e', 'n'],
{
    reveal_strlit("en");
    assert(lang_tag(language) =~= seq!['e', 'n']);
}

/// The document language for the payload's `language` (`english` and any other value give `en`).
pub fn lang_code(language: &str) -> (tag: &'static str)
    ensures
        tag@ == lang_tag(language@),
{
    if same_text(language, "english") {
        "en"
    } else {
        "en"
    }
}

// Fixed pieces of the documents.
pub const DOCTYPE: &'static str = "<!DOCTYPE html>";
pub const HTML_OPEN: &'static str = "<html lang=\"";
pub const LANG_CLOSE: &'static str = "\">";
pub const HEAD_META: &'static str = "<head><meta charset=\"utf-8\"><meta name=\"viewport\" content=\"width=device-width, initial-scale=1\">";
pub const TITLE_OPEN: &'static str = "<title>";
pub const TITLE_CLOSE: &'static str = "</title>";
pub const STYLESHEET: &'static str = "<link rel=\"stylesheet\" href=\"/assets/style.css\">";
pub const BODY_OPEN: &'static str = "</head><body>";
pub const HEADER_OPEN: &'static str = "<header class=\"pp-header\">";
pub const LOGO: &'static str = "<img class=\"pp-logo\" src=\"/assets/img/barclaycard-logo.png\" alt=\"Barclaycard\">";
pub const HEADER_CLOSE: &'static str = "</header>";
pub const DOC_CLOSE: &'static str = "</body></html>";
pub const MAIN_OPEN: &'static str = "<main class=\"pp-main\">";
pub const MAIN_CLOSE: &'static str = "</main>";
pub const SUMMARY_HEAD: &'static str = "<section class=\"pp-summary\"><h1 class=\"pp-title\">Order summary</h1>";
pub const SECTION_CLOSE: &'static str = "</section>";
pub const MERCHANT_OPEN: &'static str = "<p class=\"pp-merchant\">";
pub const DESC_OPEN: &'static str = "<p class=\"pp-desc\">";
pub const AMOUNT_OPEN: &'static str = "<p class=\"pp-amount\">";
pub const ORDER_OPEN: &'static str = "<p class=\"pp-order-id\">Order: ";
pub const P_CLOSE: &'static str = "</p>";
pub const CARD_FORM_OPEN: &'static str = "<form class=\"pp-form\" method=\"post\" action=\"/pay\"><label for=\"card-name\">Name on card</label><input id=\"card-name\" name=\"card-name\" type=\"text\" autocomplete=\"cc-name\" required><label for=\"card-number\">Card number</label><input id=\"card-number\" name=\"card-number\" type=\"text\" inputmode=\"numeric\" autocomplete=\"cc-number\" placeholder=\"1234 5678 9012 3456\" required><div class=\"pp-row\"><div class=\"pp-col\"><label for=\"card-expiry\">Expiry</label><input id=\"card-expiry\" name=\"card-expiry\" type=\"text\" inputmode=\"numeric\" autocomplete=\"cc-exp\" placeholder=\"MM/YY\" required></div><div class=\"pp-col\"><label for=\"card-cvc\">CVC</label><input id=\"card-cvc\" name=\"card-cvc\" type=\"text\" inputmode=\"numeric\" autocomplete=\"cc-csc\" placeholder=\"123\" required></div></div><button class=\"pp-pay\" type=\"submit\">Pay ";
pub const CARD_FORM_CLOSE: &'static str = "</button></form>";
pub const FOOTER: &'static str = "<footer class=\"pp-footer\"><img class=\"pp-secured\" src=\"/assets/img/secured.png\" alt=\"Secured\"><span>Payments are secure and encrypted</span></footer>";
pub const CONFIRM_HEAD: &'static str = "<section class=\"pp-summary\"><h1 class=\"pp-title\">Payment received (demo)</h1>";
pub const DEMO_NOTE: &'static str = "<p>This is a demo confirmation. No real payment was processed.</p>";
pub const ERROR_CONTENT: &'static str = "<main class=\"pp-main\"><section class=\"pp-summary\"><h1 class=\"pp-title\">We couldn't load this order</h1><p>Something went wrong fetching the payment details. Please try again.</p></section></main>";
pub const CHECKOUT_FORM_CONTENT: &'static str = "<main class=\"pp-main\"><form class=\"pp-form\" method=\"post\" action=\"/checkout\"><label for=\"amount\">Amount</label><input id=\"amount\" name=\"amount\" type=\"text\" inputmode=\"decimal\" placeholder=\"0.01\" required><label for=\"currency\">Currency</label><select id=\"currency\" name=\"currency\"><option value=\"GBP\">GBP</option><option value=\"USD\">USD</option><option value=\"EUR\">EUR</option></select><button class=\"pp-pay\" type=\"submit\">Continue to payment</button></form></main>";
pub const CHECKOUT_TITLE: &'static str = "Start a payment";
pub const PAYMENT_TITLE: &'static str = "Barclaycard Payment";
pub const CONFIRMATION_TITLE: &'static str = "Payment received";
pub const ERROR_TITLE: &'static str = "Something went wrong";

/// The shared document shell: doctype, head with `title`, and the header;
/// `content` follows the header inside `<body>`. Title and language are escaped.
pub open spec fn layout_html(title: Seq<char>, lang: Seq<char>, content: Seq<char>) -> Seq<char> {
    layout_head(title, lang) + content + DOC_CLOSE@
}

/// Everything of the shell that comes before the content.
pub open spec fn layout_head(title: Seq<char>, lang: Seq<char>) -> Seq<char> {
    DOCTYPE@ + HTML_OPEN@ + html_escape(lang) + LANG_CLOSE@ + HEAD_META@ + TITLE_OPEN@ + html_escape(
        title,
    ) + TITLE_CLOSE@ + STYLESHEET@ + BODY_OPEN@ + HEADER_OPEN@ + LOGO@ + HEADER_CLOSE@
}

/// A paragraph: its opening tag, the escaped text, and `</p>`.
pub open spec fn paragraph(open: Seq<char>, text: Seq<char>) -> Seq<char> {
    open + html_escape(text) + P_CLOSE@
}

/// The description paragraph, absent when the description is empty.
pub open spec fn description_html(description: Seq<char>) -> Seq<char> {
    if description.len() == 0 {
        Seq::empty()
    } else {
        paragraph(DESC_OPEN@, description)
    }
}

/// The order summary of the payment page.
pub open spec fn summary_html(page: PaymentPage) -> Seq<char> {
    SUMMARY_HEAD@ + paragraph(MERCHANT_OPEN@, page.process.merchant_id@) + description_html(
        page.process.description@,
    ) + paragraph(AMOUNT_OPEN@, amount_text(page.process.currency@, page.process.amount@))
        + paragraph(ORDER_OPEN@, page.process.order_id@) + SECTION_CLOSE@
}

/// The card form, whose button shows the amount.
pub open spec fn card_form_html(amount: Seq<char>) -> Seq<char> {
    CARD_FORM_OPEN@ + html_escape(amount) + CARD_FORM_CLOSE@
}

/// The body content of the payment page.
pub open spec fn payment_content(page: PaymentPage) -> Seq<char> {
    MAIN_OPEN@ + summary_html(page) + card_form_html(
        amount_text(page.process.currency@, page.process.amount@),
    ) + MAIN_CLOSE@ + FOOTER@
}

/// The payment page document.
pub open spec fn payment_page_html(page: PaymentPage) -> Seq<char> {
    layout_html(PAYMENT_TITLE@, lang_tag(page.init.language@), payment_content(page))
}

/// The body content of the confirmation page.
pub open spec fn confirmation_content(page: PaymentPage) -> Seq<char> {
    MAIN_OPEN@ + CONFIRM_HEAD@ + paragraph(
        AMOUNT_OPEN@,
        amount_text(page.process.currency@, page.process.amount@),
    ) + paragraph(ORDER_OPEN@, page.process.order_id@) + DEMO_NOTE@ + SECTION_CLOSE@
        + MAIN_CLOSE@
}

/// The confirmation page document.
pub open spec fn confirmation_html(page: PaymentPage) -> Seq<char> {
    layout_html(CONFIRMATION_TITLE@, lang_tag(page.init.language@), confirmation_content(page))
}

/// The error page document.
pub open spec fn error_html() -> Seq<char> {
    layout_html(ERROR_TITLE@, "en"@, ERROR_CONTENT@)
}

/// Whatever occurs in the body content occurs in the document.
pub proof fn lemma_layout_contains(title: Seq<char>, lang: Seq<char>, content: Seq<char>, x: Seq<char>)
    requires
        contains(content, x),
    ensures
        contains(layout_html(title, lang, content), x),
{
    lemma_contains_within(layout_head(title, lang), content, DOC_CLOSE@, x);
}

/// The shell: the document starts with the doctype; it carries the escaped
/// language on `<html>`, the escaped title, the stylesheet link and the
/// header with the logo; and it ends with the content, as given, followed by
/// `</body></html>`.
pub proof fn lemma_layout_shape(title: Seq<char>, lang: Seq<char>, content: Seq<char>)
    ensures
        layout_html(title, lang, content).subrange(0, DOCTYPE@.len() as int) == DOCTYPE@,
        DOCTYPE@ == "<!DOCTYPE html>"@,
        DOC_CLOSE@ == "</body></html>"@,
        HTML_OPEN@ + html_escape(lang) + LANG_CLOSE@ == "<html lang=\""@ + html_escape(lang) + "\">"@,
        TITLE_OPEN@ + html_escape(title) + TITLE_CLOSE@ == "<title>"@ + html_escape(title) + "</title>"@,
        STYLESHEET@ == "<link rel=\"stylesheet\" href=\"/assets/style.css\">"@,
        LOGO@ == "<img class=\"pp-logo\" src=\"/assets/img/barclaycard-logo.png\" alt=\"Barclaycard\">"@,
        contains(layout_html(title, lang, content), HTML_OPEN@ + html_escape(lang) + LANG_CLOSE@),
        contains(layout_html(title, lang, content), TITLE_OPEN@ + html_escape(title) + TITLE_CLOSE@),
        contains(layout_html(title, lang, content), STYLESHEET@),
        contains(layout_html(title, lang, content), HEADER_OPEN@ + LOGO@ + HEADER_CLOSE@),
        layout_html(title, lang, content).subrange(
            layout_html(title, lang, content).len() - content.len() - DOC_CLOSE@.len(),
            layout_html(title, lang, content).len() as int,
        ) == content + DOC_CLOSE@,
{
    let doc = layout_html(title, lang, content);
    let tail = content + DOC_CLOSE@;
    let l = HTML_OPEN@ + html_escape(lang) + LANG_CLOSE@;
    let t = TITLE_OPEN@ + html_escape(title) + TITLE_CLOSE@;
    let h = HEADER_OPEN@ + LOGO@ + HEADER_CLOSE@;
    assert(doc =~= DOCTYPE@ + l + (HEAD_META@ + t + STYLESHEET@ + BODY_OPEN@ + h + tail));
    assert(doc.subrange(0, DOCTYPE@.len() as int) =~= DOCTYPE@);
    lemma_contains_self(l);
    lemma_contains_within(DOCTYPE@, l, HEAD_META@ + t + STYLESHEET@ + BODY_OPEN@ + h + tail, l);
    assert(doc =~= DOCTYPE@ + l + HEAD_META@ + t + (STYLESHEET@ + BODY_OPEN@ + h + tail));
    lemma_contains_self(t);
    lemma_contains_within(DOCTYPE@ + l + HEAD_META@, t, STYLESHEET@ + BODY_OPEN@ + h + tail, t);
    assert(doc =~= DOCTYPE@ + l + HEAD_META@ + t + STYLESHEET@ + (BODY_OPEN@ + h + tail));
    lemma_contains_self(STYLESHEET@);
    lemma_contains_within(DOCTYPE@ + l + HEAD_META@ + t, STYLESHEET@, BODY_OPEN@ + h + tail, STYLESHEET@);
    assert(doc =~= DOCTYPE@ + l + HEAD_META@ + t + STYLESHEET@ + BODY_OPEN@ + h + tail);
    lemma_contains_self(h);
    lemma_contains_within(DOCTYPE@ + l + HEAD_META@ + t + STYLESHEET@ + BODY_OPEN@, h, tail, h);
    assert(doc.subrange(doc.len() - content.len() - DOC_CLOSE@.len(), doc.len() as int) =~= tail);
}

/// The payment page shows the order id, escaped, in the order-id paragraph.
pub proof fn lemma_payment_page_shows_order_id(page: PaymentPage)
    ensures
        contains(payment_page_html(page), paragraph(ORDER_OPEN@, page.process.order_id@)),
        contains(payment_page_html(page), html_escape(page.process.order_id@)),
        contains(
            payment_page_html(page),
            "<p class=\"pp-order-id\">Order: "@ + html_escape(page.process.order_id@) + "</p>"@,
        ),
{
    let id = page.process.order_id@;
    let p = paragraph(ORDER_OPEN@, id);
    let amount = amount_text(page.process.currency@, page.process.amount@);
    lemma_contains_self(p);
    lemma_contains_within(
        SUMMARY_HEAD@ + paragraph(MERCHANT_OPEN@, page.process.merchant_id@) + description_html(
            page.process.description@,
        ) + paragraph(AMOUNT_OPEN@, amount),
        p,
        SECTION_CLOSE@,
        p,
    );
    lemma_payment_content_contains_summary_part(page, p);
    lemma_contains_self(html_escape(id));
    lemma_contains_within(ORDER_OPEN@, html_escape(id), P_CLOSE@, html_escape(id));
    lemma_contains_trans(payment_page_html(page), p, html_escape(id));
}

/// The payment page shows the displayed amount, escaped, both in the amount
/// paragraph of the summary and on the pay button.
pub proof fn lemma_payment_page_shows_amount(page: PaymentPage)
    ensures
        contains(
            payment_page_html(page),
            paragraph(AMOUNT_OPEN@, amount_text(page.process.currency@, page.process.amount@)),
        ),
        contains(
            payment_page_html(page),
            card_form_html(amount_text(page.process.currency@, page.process.amount@)),
        ),
        contains(
            payment_page_html(page),
            html_escape(amount_text(page.process.currency@, page.process.amount@)),
        ),
        contains(
            payment_page_html(page),
            "<p class=\"pp-amount\">"@ + html_escape(
                amount_text(page.process.currency@, page.process.amount@),
            ) + "</p>"@,
        ),
{
    let amount = amount_text(page.process.currency@, page.process.amount@);
    let p = paragraph(AMOUNT_OPEN@, amount);
    lemma_contains_self(p);
    lemma_contains_within(
        SUMMARY_HEAD@ + paragraph(MERCHANT_OPEN@, page.process.merchant_id@) + description_html(
            page.process.description@,
        ),
        p,
        paragraph(ORDER_OPEN@, page.process.order_id@) + SECTION_CLOSE@,
        p,
    );
    assert(summary_html(page) =~= SUMMARY_HEAD@ + paragraph(MERCHANT_OPEN@, page.process.merchant_id@)
        + description_html(page.process.description@) + p + (paragraph(
        ORDER_OPEN@,
        page.process.order_id@,
    ) + SECTION_CLOSE@));
    lemma_payment_content_contains_summary_part(page, p);
    let f = card_form_html(amount);
    lemma_contains_self(f);
    lemma_contains_within(MAIN_OPEN@ + summary_html(page), f, MAIN_CLOSE@, f);
    lemma_contains_within(Seq::empty(), MAIN_OPEN@ + summary_html(page) + f + MAIN_CLOSE@, FOOTER@, f);
    lemma_layout_contains(PAYMENT_TITLE@, lang_tag(page.init.language@), payment_content(page), f);
    lemma_contains_self(html_escape(amount));
    lemma_contains_within(AMOUNT_OPEN@, html_escape(amount), P_CLOSE@, html_escape(amount));
    lemma_contains_trans(payment_page_html(page), p, html_escape(amount));
}

/// The payment page shows the merchant, escaped, in the merchant paragraph.
pub proof fn lemma_payment_page_shows_merchant(page: PaymentPage)
    ensures
        contains(payment_page_html(page), paragraph(MERCHANT_OPEN@, page.process.merchant_id@)),
{
    let p = paragraph(MERCHANT_OPEN@, page.process.merchant_id@);
    let amount = amount_text(page.process.currency@, page.process.amount@);
    lemma_contains_self(p);
    lemma_contains_within(
        SUMMARY_HEAD@,
        p,
        description_html(page.process.description@) + paragraph(AMOUNT_OPEN@, amount)
            + paragraph(ORDER_OPEN@, page.process.order_id@) + SECTION_CLOSE@,
        p,
    );
    assert(summary_html(page) =~= SUMMARY_HEAD@ + p + (description_html(page.process.description@)
        + paragraph(AMOUNT_OPEN@, amount) + paragraph(ORDER_OPEN@, page.process.order_id@)
        + SECTION_CLOSE@));
    lemma_payment_content_contains_summary_part(page, p);
}

/// A non-empty description is shown, escaped, in the description paragraph.
pub proof fn lemma_payment_page_shows_description(page: PaymentPage)
    requires
        page.process.description@.len() > 0,
    ensures
        contains(
            payment_page_html(page),
            paragraph(DESC_OPEN@, page.process.description@),
        ),
{
    let p = paragraph(DESC_OPEN@, page.process.description@);
    let amount = amount_text(page.process.currency@, page.process.amount@);
    lemma_contains_self(p);
    lemma_contains_within(
        SUMMARY_HEAD@ + paragraph(MERCHANT_OPEN@, page.process.merchant_id@),
        p,
        paragraph(AMOUNT_OPEN@, amount) + paragraph(ORDER_OPEN@, page.process.order_id@)
            + SECTION_CLOSE@,
        p,
    );
    assert(summary_html(page) =~= SUMMARY_HEAD@ + paragraph(MERCHANT_OPEN@, page.process.merchant_id@)
        + p + (paragraph(AMOUNT_OPEN@, amount) + paragraph(ORDER_OPEN@, page.process.order_id@)
        + SECTION_CLOSE@));
    lemma_payment_content_contains_summary_part(page, p);
}

/// In the summary, the merchant paragraph is followed by the description
/// paragraph and then the amount paragraph; with an empty description the
/// merchant paragraph is followed directly by the amount paragraph, so no
/// description element, empty or not, is rendered there.
pub proof fn lemma_payment_page_description_placement(page: PaymentPage)
    ensures
        contains(
            payment_page_html(page),
            paragraph(MERCHANT_OPEN@, page.process.merchant_id@) + description_html(
                page.process.description@,
            ) + paragraph(AMOUNT_OPEN@, amount_text(page.process.currency@, page.process.amount@)),
        ),
        page.process.description@.len() == 0 ==> contains(
            payment_page_html(page),
            paragraph(MERCHANT_OPEN@, page.process.merchant_id@) + paragraph(
                AMOUNT_OPEN@,
                amount_text(page.process.currency@, page.process.amount@),
            ),
        ),
{
    let m = paragraph(MERCHANT_OPEN@, page.process.merchant_id@);
    let d = description_html(page.process.description@);
    let a = paragraph(AMOUNT_OPEN@, amount_text(page.process.currency@, page.process.amount@));
    let run = m + d + a;
    let rest = paragraph(ORDER_OPEN@, page.process.order_id@) + SECTION_CLOSE@;
    assert(summary_html(page) =~= SUMMARY_HEAD@ + run + rest);
    lemma_contains_self(run);
    lemma_contains_within(SUMMARY_HEAD@, run, rest, run);
    lemma_payment_content_contains_summary_part(page, run);
    if page.process.description@.len() == 0 {
        assert(run =~= m + a);
    }
}

/// The confirmation page shows the displayed amount and the order id, escaped.
pub proof fn lemma_confirmation_shows_amount_and_order(page: PaymentPage)
    ensures
        contains(
            confirmation_html(page),
            paragraph(AMOUNT_OPEN@, amount_text(page.process.currency@, page.process.amount@)),
        ),
        contains(confirmation_html(page), paragraph(ORDER_OPEN@, page.process.order_id@)),
{
    let a = paragraph(AMOUNT_OPEN@, amount_text(page.process.currency@, page.process.amount@));
    let o = paragraph(ORDER_OPEN@, page.process.order_id@);
    let rest = DEMO_NOTE@ + SECTION_CLOSE@ + MAIN_CLOSE@;
    assert(confirmation_content(page) =~= MAIN_OPEN@ + CONFIRM_HEAD@ + a + (o + rest));
    assert(confirmation_content(page) =~= MAIN_OPEN@ + CONFIRM_HEAD@ + a + o + rest);
    lemma_contains_self(a);
    lemma_contains_within(MAIN_OPEN@ + CONFIRM_HEAD@, a, o + rest, a);
    lemma_contains_self(o);
    lemma_contains_within(MAIN_OPEN@ + CONFIRM_HEAD@ + a, o, rest, o);
    lemma_layout_contains(
        CONFIRMATION_TITLE@,
        lang_tag(page.init.language@),
        confirmation_content(page),
        a,
    );
    lemma_layout_contains(
        CONFIRMATION_TITLE@,
        lang_tag(page.init.language@),
        confirmation_content(page),
        o,
    );
}

/// Whatever occurs in the order summary occurs in the payment page.
proof fn lemma_payment_content_contains_summary_part(page: PaymentPage, x: Seq<char>)
    requires
        contains(summary_html(page), x),
    ensures
        contains(payment_page_html(page), x),
{
    let amount = amount_text(page.process.currency@, page.process.amount@);
    lemma_contains_within(MAIN_OPEN@, summary_html(page), card_form_html(amount), x);
    lemma_contains_within(Seq::empty(), MAIN_OPEN@ + summary_html(page) + card_form_html(amount), MAIN_CLOSE@, x);
    lemma_contains_within(Seq::empty(), MAIN_OPEN@ + summary_html(page) + card_form_html(amount) + MAIN_CLOSE@, FOOTER@, x);
    lemma_layout_contains(PAYMENT_TITLE@, lang_tag(page.init.language@), payment_content(page), x);
}

/// The checkout form document.
pub open spec fn checkout_form_html() -> Seq<char> {
    layout_html(CHECKOUT_TITLE@, "en"@, CHECKOUT_FORM_CONTENT@)
}

/// Wraps `content` in the shared document shell.
fn layout(title: &str, lang: &str, content: &str) -> (m: Markup)
    ensures
        m@ == layout_html(title@, lang@, content@),
{
    let mut out = String::from_str(DOCTYPE);
    out.append(HTML_OPEN);
    push_escaped(&mut out, lang);
    out.append(LANG_CLOSE);
    out.append(HEAD_META);
    out.append(TITLE_OPEN);
    push_escaped(&mut out, title);
    out.append(TITLE_CLOSE);
    out.append(STYLESHEET);
    out.append(BODY_OPEN);
    out.append(HEADER_OPEN);
    out.append(LOGO);
    out.append(HEADER_CLOSE);
    out.append(content);
    out.append(DOC_CLOSE);
    Markup(out)
}

/// Appends a paragraph.
fn push_paragraph(out: &mut String, open: &str, text: &str)
    ensures
        final(out)@ == old(out)@ + paragraph(open@, text@),
{
    let ghost before = out@;
    out.append(open);
    push_escaped(out, text);
    out.append(P_CLOSE);
    assert(out@ =~= before + paragraph(open@, text@));
}

/// Appends the order summary, given the displayed amount.
fn push_summary(out: &mut String, page: &PaymentPage, amount: &str)
    requires
        amount@ == amount_text(page.process.currency@, page.process.amount@),
    ensures
        final(out)@ == old(out)@ + summary_html(*page),
{
    let ghost before = out@;
    out.append(SUMMARY_HEAD);
    push_paragraph(out, MERCHANT_OPEN, page.process.merchant_id.as_str());
    let ghost with_merchant = out@;
    if !page.process.description.as_str().is_empty() {
        push_paragraph(out, DESC_OPEN, page.process.description.as_str());
    } else {
        assert(with_merchant + description_html(page.process.description@) =~= with_merchant);
    }
    push_paragraph(out, AMOUNT_OPEN, amount);
    push_paragraph(out, ORDER_OPEN, page.process.order_id.as_str());
    out.append(SECTION_CLOSE);
    assert(out@ =~= before + summary_html(*page));
}

/// Appends the card form, given the displayed amount.
fn push_card_form(out: &mut String, amount: &str)
    ensures
        final(out)@ == old(out)@ + card_form_html(amount@),
{
    let ghost before = out@;
    out.append(CARD_FORM_OPEN);
    push_escaped(out, amount);
    out.append(CARD_FORM_CLOSE);
    assert(out@ =~= before + card_form_html(amount@));
}

/// Rendered when the order data cannot be fetched.
pub fn render_error() -> (m: Markup)
    ensures
        m@ == error_html(),
{
    layout(ERROR_TITLE, "en", ERROR_CONTENT)
}

/// The demo confirmation page: the amount and the order id, no processing.
pub fn render_confirmation(page: &PaymentPage) -> (m: Markup)
    ensures
        m@ == confirmation_html(*page),
{
    let amount = format_amount(page.process.currency.as_str(), page.process.amount.as_str());
    let mut content = String::from_str(MAIN_OPEN);
    content.append(CONFIRM_HEAD);
    push_paragraph(&mut content, AMOUNT_OPEN, amount.as_str());
    push_paragraph(&mut content, ORDER_OPEN, page.process.order_id.as_str());
    content.append(DEMO_NOTE);
    content.append(SECTION_CLOSE);
    content.append(MAIN_CLOSE);
    layout(CONFIRMATION_TITLE, lang_code(page.init.language.as_str()), content.as_str())
}

/// The payment page: order summary (merchant, description when there is one,
/// amount, order id), the card form posting to `/pay`, and the footer.
pub fn render_payment_page(page: &PaymentPage) -> (m: Markup)
    ensures
        m@ == payment_page_html(*page),
{
    let amount = format_amount(page.process.currency.as_str(), page.process.amount.as_str());
    let mut content = String::from_str(MAIN_OPEN);
    push_summary(&mut content, page, amount.as_str());
    push_card_form(&mut content, amount.as_str());
    content.append(MAIN_CLOSE);
    content.append(FOOTER);
    layout(PAYMENT_TITLE, lang_code(page.init.language.as_str()), content.as_str())
}

/// The precursor form: an amount and a currency, posted to `/checkout`.
pub fn render_checkout_form() -> (m: Markup)
    ensures
        m@ == checkout_form_html(),
{
    layout(CHECKOUT_TITLE, "en", CHECKOUT_FORM_CONTENT)
}

/// The pages rendered from a payload.
#[derive(Debug, Clone, Copy, PartialEq, Eq, Structural)]
pub enum PageKind {
    Payment,
    Confirmation,
}

/// The document of a page kind for a payload.
pub open spec fn page_html(kind: PageKind, page: PaymentPage) -> Seq<char> {
    match kind {
        PageKind::Payment => payment_page_html(page),
        PageKind::Confirmation => confirmation_html(page),
    }
}

/// The status and document answered for a page: 200 and the page when its
/// data is at hand, 502 and the error page when it could not be had.
pub fn page_response(kind: PageKind, page: &Result<PaymentPage, String>) -> (r: (u16, Markup))
    ensures
        match page {
            Ok(p) => r.0 == 200 && r.1@ == page_html(kind, *p),
            Err(_) => r.0 == 502 && r.1@ == error_html(),
        },
{
    match page {
        Ok(p) => match kind {
            PageKind::Payment => (200, render_payment_page(p)),
            PageKind::Confirmation => (200, render_confirmation(p)),
        },
        Err(_) => (502, render_error()),
    }
}

} // verus!
