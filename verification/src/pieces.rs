//! What the pages do not contain: guardedness of each fixed piece of the
//! documents against a few needles, established by evaluating the decision
//! procedure `guarded_range` on the piece.

use vstd::prelude::*;

use crate::render::{
    amount_text, card_form_html, description_html, lang_tag, layout_head, layout_html, paragraph,
    payment_content, payment_page_html, summary_html, PAYMENT_TITLE,
    lemma_payment_page_shows_description, confirmation_html, confirmation_content, CONFIRMATION_TITLE,
    lemma_layout_shape, lemma_confirmation_shows_amount_and_order, checkout_form_html,
    CHECKOUT_FORM_CONTENT, CHECKOUT_TITLE, lemma_layout_contains,
    AMOUNT_OPEN, BODY_OPEN, CARD_FORM_CLOSE, CARD_FORM_OPEN, CONFIRM_HEAD, DEMO_NOTE, DESC_OPEN, DOCTYPE, DOC_CLOSE, FOOTER, HEADER_CLOSE, HEADER_OPEN, HEAD_META, HTML_OPEN, LANG_CLOSE, LOGO, MAIN_CLOSE, MAIN_OPEN, MERCHANT_OPEN, ORDER_OPEN, P_CLOSE, SECTION_CLOSE, STYLESHEET, SUMMARY_HEAD, TITLE_CLOSE, TITLE_OPEN,
};
use crate::model::PaymentPage;
use crate::text::{
    contains, lemma_contains_self, lemma_contains_within, guarded, guarded_range, html_escape, lemma_contains_trans, lemma_escape_guarded,
    lemma_guarded_concat, lemma_guarded_excludes, lemma_guarded_free, lemma_guarded_only_at,
    lemma_escape_plain, lemma_guarded_range, mismatch_from, occurs_at, shifted,
};

verus! {

/// `class="pp-desc"`: the class of the description paragraph.
pub const DESC_CLASS: &'static str = "class=\"pp-desc\"";
/// The opening of a form element.
pub const FORM_TAG: &'static str = "<form";
/// The opening of an input element.
pub const INPUT_TAG: &'static str = "<input";

proof fn lemma_doctype_guarded_desc_class()
    ensures
        guarded(DOCTYPE@, DESC_CLASS@, 6, None),
{
    reveal_strlit("<!DOCTYPE html>");
    reveal_strlit("class=\"pp-desc\"");
    reveal_with_fuel(guarded_range, 52);
    reveal_with_fuel(mismatch_from, 17);
    assert(guarded_range(DOCTYPE@, DESC_CLASS@, 6, 0, 15));
    lemma_guarded_range(DOCTYPE@, DESC_CLASS@, 6, 0, 15);
}

proof fn lemma_html_open_guarded_desc_class()
    ensures
        guarded(HTML_OPEN@, DESC_CLASS@, 6, None),
{
    reveal_strlit("<html lang=\"");
    reveal_strlit("class=\"pp-desc\"");
    reveal_with_fuel(guarded_range, 52);
    reveal_with_fuel(mismatch_from, 17);
    assert(guarded_range(HTML_OPEN@, DESC_CLASS@, 6, 0, 12));
    lemma_guarded_range(HTML_OPEN@, DESC_CLASS@, 6, 0, 12);
}

proof fn lemma_lang_close_guarded_desc_class()
    ensures
        guarded(LANG_CLOSE@, DESC_CLASS@, 6, None),
{
    reveal_strlit("\">");
    reveal_strlit("class=\"pp-desc\"");
    reveal_with_fuel(guarded_range, 52);
    reveal_with_fuel(mismatch_from, 17);
    assert(guarded_range(LANG_CLOSE@, DESC_CLASS@, 6, 0, 2));
    lemma_guarded_range(LANG_CLOSE@, DESC_CLASS@, 6, 0, 2);
}

proof fn lemma_head_meta_guarded_desc_class()
    ensures
        guarded(HEAD_META@, DESC_CLASS@, 6, None),
{
    reveal_strlit("<head><meta charset=\"utf-8\"><meta name=\"viewport\" content=\"width=device-width, initial-scale=1\">");
    reveal_strlit("class=\"pp-desc\"");
    reveal_with_fuel(guarded_range, 52);
    reveal_with_fuel(mismatch_from, 17);
    assert(guarded_range(HEAD_META@, DESC_CLASS@, 6, 0, 50));
    lemma_guarded_range(HEAD_META@, DESC_CLASS@, 6, 0, 50);
    assert(guarded_range(HEAD_META@, DESC_CLASS@, 6, 50, 96));
    lemma_guarded_range(HEAD_META@, DESC_CLASS@, 6, 50, 96);
}

proof fn lemma_title_open_guarded_desc_class()
    ensures
        guarded(TITLE_OPEN@, DESC_CLASS@, 6, None),
{
    reveal_strlit("<title>");
    reveal_strlit("class=\"pp-desc\"");
    reveal_with_fuel(guarded_range, 52);
    reveal_with_fuel(mismatch_from, 17);
    assert(guarded_range(TITLE_OPEN@, DESC_CLASS@, 6, 0, 7));
    lemma_guarded_range(TITLE_OPEN@, DESC_CLASS@, 6, 0, 7);
}

proof fn lemma_title_close_guarded_desc_class()
    ensures
        guarded(TITLE_CLOSE@, DESC_CLASS@, 6, None),
{
    reveal_strlit("</title>");
    reveal_strlit("class=\"pp-desc\"");
    reveal_with_fuel(guarded_range, 52);
    reveal_with_fuel(mismatch_from, 17);
    assert(guarded_range(TITLE_CLOSE@, DESC_CLASS@, 6, 0, 8));
    lemma_guarded_range(TITLE_CLOSE@, DESC_CLASS@, 6, 0, 8);
}

proof fn lemma_stylesheet_guarded_desc_class()
    ensures
        guarded(STYLESHEET@, DESC_CLASS@, 6, None),
{
    reveal_strlit("<link rel=\"stylesheet\" href=\"/assets/style.css\">");
    reveal_strlit("class=\"pp-desc\"");
    reveal_with_fuel(guarded_range, 52);
    reveal_with_fuel(mismatch_from, 17);
    assert(guarded_range(STYLESHEET@, DESC_CLASS@, 6, 0, 48));
    lemma_guarded_range(STYLESHEET@, DESC_CLASS@, 6, 0, 48);
}

proof fn lemma_body_open_guarded_desc_class()
    ensures
        guarded(BODY_OPEN@, DESC_CLASS@, 6, None),
{
    reveal_strlit("</head><body>");
    reveal_strlit("class=\"pp-desc\"");
    reveal_with_fuel(guarded_range, 52);
    reveal_with_fuel(mismatch_from, 17);
    assert(guarded_range(BODY_OPEN@, DESC_CLASS@, 6, 0, 13));
    lemma_guarded_range(BODY_OPEN@, DESC_CLASS@, 6, 0, 13);
}

proof fn lemma_header_open_guarded_desc_class()
    ensures
        guarded(HEADER_OPEN@, DESC_CLASS@, 6, None),
{
    reveal_strlit("<header class=\"pp-header\">");
    reveal_strlit("class=\"pp-desc\"");
    reveal_with_fuel(guarded_range, 52);
    reveal_with_fuel(mismatch_from, 17);
    assert(guarded_range(HEADER_OPEN@, DESC_CLASS@, 6, 0, 26));
    lemma_guarded_range(HEADER_OPEN@, DESC_CLASS@, 6, 0, 26);
}

proof fn lemma_logo_guarded_desc_class()
    ensures
        guarded(LOGO@, DESC_CLASS@, 6, None),
{
    reveal_strlit("<img class=\"pp-logo\" src=\"/assets/img/barclaycard-logo.png\" alt=\"Barclaycard\">");
    reveal_strlit("class=\"pp-desc\"");
    reveal_with_fuel(guarded_range, 52);
    reveal_with_fuel(mismatch_from, 17);
    assert(guarded_range(LOGO@, DESC_CLASS@, 6, 0, 50));
    lemma_guarded_range(LOGO@, DESC_CLASS@, 6, 0, 50);
    assert(guarded_range(LOGO@, DESC_CLASS@, 6, 50, 78));
    lemma_guarded_range(LOGO@, DESC_CLASS@, 6, 50, 78);
}

proof fn lemma_header_close_guarded_desc_class()
    ensures
        guarded(HEADER_CLOSE@, DESC_CLASS@, 6, None),
{
    reveal_strlit("</header>");
    reveal_strlit("class=\"pp-desc\"");
    reveal_with_fuel(guarded_range, 52);
    reveal_with_fuel(mismatch_from, 17);
    assert(guarded_range(HEADER_CLOSE@, DESC_CLASS@, 6, 0, 9));
    lemma_guarded_range(HEADER_CLOSE@, DESC_CLASS@, 6, 0, 9);
}

proof fn lemma_doc_close_guarded_desc_class()
    ensures
        guarded(DOC_CLOSE@, DESC_CLASS@, 6, None),
{
    reveal_strlit("</body></html>");
    reveal_strlit("class=\"pp-desc\"");
    reveal_with_fuel(guarded_range, 52);
    reveal_with_fuel(mismatch_from, 17);
    assert(guarded_range(DOC_CLOSE@, DESC_CLASS@, 6, 0, 14));
    lemma_guarded_range(DOC_CLOSE@, DESC_CLASS@, 6, 0, 14);
}

proof fn lemma_main_open_guarded_desc_class()
    ensures
        guarded(MAIN_OPEN@, DESC_CLASS@, 6, None),
{
    reveal_strlit("<main class=\"pp-main\">");
    reveal_strlit("class=\"pp-desc\"");
    reveal_with_fuel(guarded_range, 52);
    reveal_with_fuel(mismatch_from, 17);
    assert(guarded_range(MAIN_OPEN@, DESC_CLASS@, 6, 0, 22));
    lemma_guarded_range(MAIN_OPEN@, DESC_CLASS@, 6, 0, 22);
}

proof fn lemma_summary_head_guarded_desc_class()
    ensures
        guarded(SUMMARY_HEAD@, DESC_CLASS@, 6, None),
{
    reveal_strlit("<section class=\"pp-summary\"><h1 class=\"pp-title\">Order summary</h1>");
    reveal_strlit("class=\"pp-desc\"");
    reveal_with_fuel(guarded_range, 52);
    reveal_with_fuel(mismatch_from, 17);
    assert(guarded_range(SUMMARY_HEAD@, DESC_CLASS@, 6, 0, 50));
    lemma_guarded_range(SUMMARY_HEAD@, DESC_CLASS@, 6, 0, 50);
    assert(guarded_range(SUMMARY_HEAD@, DESC_CLASS@, 6, 50, 67));
    lemma_guarded_range(SUMMARY_HEAD@, DESC_CLASS@, 6, 50, 67);
}

proof fn lemma_merchant_open_guarded_desc_class()
    ensures
        guarded(MERCHANT_OPEN@, DESC_CLASS@, 6, None),
{
    reveal_strlit("<p class=\"pp-merchant\">");
    reveal_strlit("class=\"pp-desc\"");
    reveal_with_fuel(guarded_range, 52);
    reveal_with_fuel(mismatch_from, 17);
    assert(guarded_range(MERCHANT_OPEN@, DESC_CLASS@, 6, 0, 23));
    lemma_guarded_range(MERCHANT_OPEN@, DESC_CLASS@, 6, 0, 23);
}

proof fn lemma_p_close_guarded_desc_class()
    ensures
        guarded(P_CLOSE@, DESC_CLASS@, 6, None),
{
    reveal_strlit("</p>");
    reveal_strlit("class=\"pp-desc\"");
    reveal_with_fuel(guarded_range, 52);
    reveal_with_fuel(mismatch_from, 17);
    assert(guarded_range(P_CLOSE@, DESC_CLASS@, 6, 0, 4));
    lemma_guarded_range(P_CLOSE@, DESC_CLASS@, 6, 0, 4);
}

proof fn lemma_amount_open_guarded_desc_class()
    ensures
        guarded(AMOUNT_OPEN@, DESC_CLASS@, 6, None),
{
    reveal_strlit("<p class=\"pp-amount\">");
    reveal_strlit("class=\"pp-desc\"");
    reveal_with_fuel(guarded_range, 52);
    reveal_with_fuel(mismatch_from, 17);
    assert(guarded_range(AMOUNT_OPEN@, DESC_CLASS@, 6, 0, 21));
    lemma_guarded_range(AMOUNT_OPEN@, DESC_CLASS@, 6, 0, 21);
}

proof fn lemma_order_open_guarded_desc_class()
    ensures
        guarded(ORDER_OPEN@, DESC_CLASS@, 6, None),
{
    reveal_strlit("<p class=\"pp-order-id\">Order: ");
    reveal_strlit("class=\"pp-desc\"");
    reveal_with_fuel(guarded_range, 52);
    reveal_with_fuel(mismatch_from, 17);
    assert(guarded_range(ORDER_OPEN@, DESC_CLASS@, 6, 0, 30));
    lemma_guarded_range(ORDER_OPEN@, DESC_CLASS@, 6, 0, 30);
}

proof fn lemma_section_close_guarded_desc_class()
    ensures
        guarded(SECTION_CLOSE@, DESC_CLASS@, 6, None),
{
    reveal_strlit("</section>");
    reveal_strlit("class=\"pp-desc\"");
    reveal_with_fuel(guarded_range, 52);
    reveal_with_fuel(mismatch_from, 17);
    assert(guarded_range(SECTION_CLOSE@, DESC_CLASS@, 6, 0, 10));
    lemma_guarded_range(SECTION_CLOSE@, DESC_CLASS@, 6, 0, 10);
}

proof fn lemma_card_form_open_guarded_desc_class()
    ensures
        guarded(CARD_FORM_OPEN@, DESC_CLASS@, 6, None),
{
    reveal_strlit("<form class=\"pp-form\" method=\"post\" action=\"/pay\"><label for=\"card-name\">Name on card</label><input id=\"card-name\" name=\"card-name\" type=\"text\" autocomplete=\"cc-name\" required><label for=\"card-number\">Card number</label><input id=\"card-number\" name=\"card-number\" type=\"text\" inputmode=\"numeric\" autocomplete=\"cc-number\" placeholder=\"1234 5678 9012 3456\" required><div class=\"pp-row\"><div class=\"pp-col\"><label for=\"card-expiry\">Expiry</label><input id=\"card-expiry\" name=\"card-expiry\" type=\"text\" inputmode=\"numeric\" autocomplete=\"cc-exp\" placeholder=\"MM/YY\" required></div><div class=\"pp-col\"><label for=\"card-cvc\">CVC</label><input id=\"card-cvc\" name=\"card-cvc\" type=\"text\" inputmode=\"numeric\" autocomplete=\"cc-csc\" placeholder=\"123\" required></div></div><button class=\"pp-pay\" type=\"submit\">Pay ");
    reveal_strlit("class=\"pp-desc\"");
    reveal_with_fuel(guarded_range, 52);
    reveal_with_fuel(mismatch_from, 17);
    assert(guarded_range(CARD_FORM_OPEN@, DESC_CLASS@, 6, 0, 50));
    lemma_guarded_range(CARD_FORM_OPEN@, DESC_CLASS@, 6, 0, 50);
    assert(guarded_range(CARD_FORM_OPEN@, DESC_CLASS@, 6, 50, 100));
    lemma_guarded_range(CARD_FORM_OPEN@, DESC_CLASS@, 6, 50, 100);
    assert(guarded_range(CARD_FORM_OPEN@, DESC_CLASS@, 6, 100, 150));
    lemma_guarded_range(CARD_FORM_OPEN@, DESC_CLASS@, 6, 100, 150);
    assert(guarded_range(CARD_FORM_OPEN@, DESC_CLASS@, 6, 150, 200));
    lemma_guarded_range(CARD_FORM_OPEN@, DESC_CLASS@, 6, 150, 200);
    assert(guarded_range(CARD_FORM_OPEN@, DESC_CLASS@, 6, 200, 250));
    lemma_guarded_range(CARD_FORM_OPEN@, DESC_CLASS@, 6, 200, 250);
    assert(guarded_range(CARD_FORM_OPEN@, DESC_CLASS@, 6, 250, 300));
    lemma_guarded_range(CARD_FORM_OPEN@, DESC_CLASS@, 6, 250, 300);
    assert(guarded_range(CARD_FORM_OPEN@, DESC_CLASS@, 6, 300, 350));
    lemma_guarded_range(CARD_FORM_OPEN@, DESC_CLASS@, 6, 300, 350);
    assert(guarded_range(CARD_FORM_OPEN@, DESC_CLASS@, 6, 350, 400));
    lemma_guarded_range(CARD_FORM_OPEN@, DESC_CLASS@, 6, 350, 400);
    assert(guarded_range(CARD_FORM_OPEN@, DESC_CLASS@, 6, 400, 450));
    lemma_guarded_range(CARD_FORM_OPEN@, DESC_CLASS@, 6, 400, 450);
    assert(guarded_range(CARD_FORM_OPEN@, DESC_CLASS@, 6, 450, 500));
    lemma_guarded_range(CARD_FORM_OPEN@, DESC_CLASS@, 6, 450, 500);
    assert(guarded_range(CARD_FORM_OPEN@, DESC_CLASS@, 6, 500, 550));
    lemma_guarded_range(CARD_FORM_OPEN@, DESC_CLASS@, 6, 500, 550);
    assert(guarded_range(CARD_FORM_OPEN@, DESC_CLASS@, 6, 550, 600));
    lemma_guarded_range(CARD_FORM_OPEN@, DESC_CLASS@, 6, 550, 600);
    assert(guarded_range(CARD_FORM_OPEN@, DESC_CLASS@, 6, 600, 650));
    lemma_guarded_range(CARD_FORM_OPEN@, DESC_CLASS@, 6, 600, 650);
    assert(guarded_range(CARD_FORM_OPEN@, DESC_CLASS@, 6, 650, 700));
    lemma_guarded_range(CARD_FORM_OPEN@, DESC_CLASS@, 6, 650, 700);
    assert(guarded_range(CARD_FORM_OPEN@, DESC_CLASS@, 6, 700, 750));
    lemma_guarded_range(CARD_FORM_OPEN@, DESC_CLASS@, 6, 700, 750);
    assert(guarded_range(CARD_FORM_OPEN@, DESC_CLASS@, 6, 750, 798));
    lemma_guarded_range(CARD_FORM_OPEN@, DESC_CLASS@, 6, 750, 798);
}

proof fn lemma_card_form_close_guarded_desc_class()
    ensures
        guarded(CARD_FORM_CLOSE@, DESC_CLASS@, 6, None),
{
    reveal_strlit("</button></form>");
    reveal_strlit("class=\"pp-desc\"");
    reveal_with_fuel(guarded_range, 52);
    reveal_with_fuel(mismatch_from, 17);
    assert(guarded_range(CARD_FORM_CLOSE@, DESC_CLASS@, 6, 0, 16));
    lemma_guarded_range(CARD_FORM_CLOSE@, DESC_CLASS@, 6, 0, 16);
}

proof fn lemma_main_close_guarded_desc_class()
    ensures
        guarded(MAIN_CLOSE@, DESC_CLASS@, 6, None),
{
    reveal_strlit("</main>");
    reveal_strlit("class=\"pp-desc\"");
    reveal_with_fuel(guarded_range, 52);
    reveal_with_fuel(mismatch_from, 17);
    assert(guarded_range(MAIN_CLOSE@, DESC_CLASS@, 6, 0, 7));
    lemma_guarded_range(MAIN_CLOSE@, DESC_CLASS@, 6, 0, 7);
}

proof fn lemma_footer_guarded_desc_class()
    ensures
        guarded(FOOTER@, DESC_CLASS@, 6, None),
{
    reveal_strlit("<footer class=\"pp-footer\"><img class=\"pp-secured\" src=\"/assets/img/secured.png\" alt=\"Secured\"><span>Payments are secure and encrypted</span></footer>");
    reveal_strlit("class=\"pp-desc\"");
    reveal_with_fuel(guarded_range, 22);
    reveal_with_fuel(mismatch_from, 17);
    assert(guarded_range(FOOTER@, DESC_CLASS@, 6, 0, 20));
    lemma_guarded_range(FOOTER@, DESC_CLASS@, 6, 0, 20);
    assert(guarded_range(FOOTER@, DESC_CLASS@, 6, 20, 40));
    lemma_guarded_range(FOOTER@, DESC_CLASS@, 6, 20, 40);
    assert(guarded_range(FOOTER@, DESC_CLASS@, 6, 40, 60));
    lemma_guarded_range(FOOTER@, DESC_CLASS@, 6, 40, 60);
    assert(guarded_range(FOOTER@, DESC_CLASS@, 6, 60, 80));
    lemma_guarded_range(FOOTER@, DESC_CLASS@, 6, 60, 80);
    assert(guarded_range(FOOTER@, DESC_CLASS@, 6, 80, 100));
    lemma_guarded_range(FOOTER@, DESC_CLASS@, 6, 80, 100);
    assert(guarded_range(FOOTER@, DESC_CLASS@, 6, 100, 120));
    lemma_guarded_range(FOOTER@, DESC_CLASS@, 6, 100, 120);
    assert(guarded_range(FOOTER@, DESC_CLASS@, 6, 120, 140));
    lemma_guarded_range(FOOTER@, DESC_CLASS@, 6, 120, 140);
    assert(guarded_range(FOOTER@, DESC_CLASS@, 6, 140, 149));
    lemma_guarded_range(FOOTER@, DESC_CLASS@, 6, 140, 149);
}

proof fn lemma_desc_open_guarded_desc_class()
    ensures
        guarded(DESC_OPEN@, DESC_CLASS@, 6, Some(9)),
{
    reveal_strlit("<p class=\"pp-desc\">");
    reveal_strlit("class=\"pp-desc\"");
    reveal_with_fuel(guarded_range, 52);
    reveal_with_fuel(mismatch_from, 17);
    assert(guarded_range(DESC_OPEN@, DESC_CLASS@, 6, 0, 9));
    lemma_guarded_range(DESC_OPEN@, DESC_CLASS@, 6, 0, 9);
    assert(guarded_range(DESC_OPEN@, DESC_CLASS@, 6, 10, 19));
    lemma_guarded_range(DESC_OPEN@, DESC_CLASS@, 6, 10, 19);
}

proof fn lemma_doctype_guarded_form_tag()
    ensures
        guarded(DOCTYPE@, FORM_TAG@, 0, None),
{
    reveal_strlit("<!DOCTYPE html>");
    reveal_strlit("<form");
    reveal_with_fuel(guarded_range, 52);
    reveal_with_fuel(mismatch_from, 7);
    assert(guarded_range(DOCTYPE@, FORM_TAG@, 0, 0, 15));
    lemma_guarded_range(DOCTYPE@, FORM_TAG@, 0, 0, 15);
}

proof fn lemma_html_open_guarded_form_tag()
    ensures
        guarded(HTML_OPEN@, FORM_TAG@, 0, None),
{
    reveal_strlit("<html lang=\"");
    reveal_strlit("<form");
    reveal_with_fuel(guarded_range, 52);
    reveal_with_fuel(mismatch_from, 7);
    assert(guarded_range(HTML_OPEN@, FORM_TAG@, 0, 0, 12));
    lemma_guarded_range(HTML_OPEN@, FORM_TAG@, 0, 0, 12);
}

proof fn lemma_lang_close_guarded_form_tag()
    ensures
        guarded(LANG_CLOSE@, FORM_TAG@, 0, None),
{
    reveal_strlit("\">");
    reveal_strlit("<form");
    reveal_with_fuel(guarded_range, 52);
    reveal_with_fuel(mismatch_from, 7);
    assert(guarded_range(LANG_CLOSE@, FORM_TAG@, 0, 0, 2));
    lemma_guarded_range(LANG_CLOSE@, FORM_TAG@, 0, 0, 2);
}

proof fn lemma_head_meta_guarded_form_tag()
    ensures
        guarded(HEAD_META@, FORM_TAG@, 0, None),
{
    reveal_strlit("<head><meta charset=\"utf-8\"><meta name=\"viewport\" content=\"width=device-width, initial-scale=1\">");
    reveal_strlit("<form");
    reveal_with_fuel(guarded_range, 52);
    reveal_with_fuel(mismatch_from, 7);
    assert(guarded_range(HEAD_META@, FORM_TAG@, 0, 0, 50));
    lemma_guarded_range(HEAD_META@, FORM_TAG@, 0, 0, 50);
    assert(guarded_range(HEAD_META@, FORM_TAG@, 0, 50, 96));
    lemma_guarded_range(HEAD_META@, FORM_TAG@, 0, 50, 96);
}

proof fn lemma_title_open_guarded_form_tag()
    ensures
        guarded(TITLE_OPEN@, FORM_TAG@, 0, None),
{
    reveal_strlit("<title>");
    reveal_strlit("<form");
    reveal_with_fuel(guarded_range, 52);
    reveal_with_fuel(mismatch_from, 7);
    assert(guarded_range(TITLE_OPEN@, FORM_TAG@, 0, 0, 7));
    lemma_guarded_range(TITLE_OPEN@, FORM_TAG@, 0, 0, 7);
}

proof fn lemma_title_close_guarded_form_tag()
    ensures
        guarded(TITLE_CLOSE@, FORM_TAG@, 0, None),
{
    reveal_strlit("</title>");
    reveal_strlit("<form");
    reveal_with_fuel(guarded_range, 52);
    reveal_with_fuel(mismatch_from, 7);
    assert(guarded_range(TITLE_CLOSE@, FORM_TAG@, 0, 0, 8));
    lemma_guarded_range(TITLE_CLOSE@, FORM_TAG@, 0, 0, 8);
}

proof fn lemma_stylesheet_guarded_form_tag()
    ensures
        guarded(STYLESHEET@, FORM_TAG@, 0, None),
{
    reveal_strlit("<link rel=\"stylesheet\" href=\"/assets/style.css\">");
    reveal_strlit("<form");
    reveal_with_fuel(guarded_range, 52);
    reveal_with_fuel(mismatch_from, 7);
    assert(guarded_range(STYLESHEET@, FORM_TAG@, 0, 0, 48));
    lemma_guarded_range(STYLESHEET@, FORM_TAG@, 0, 0, 48);
}

proof fn lemma_body_open_guarded_form_tag()
    ensures
        guarded(BODY_OPEN@, FORM_TAG@, 0, None),
{
    reveal_strlit("</head><body>");
    reveal_strlit("<form");
    reveal_with_fuel(guarded_range, 52);
    reveal_with_fuel(mismatch_from, 7);
    assert(guarded_range(BODY_OPEN@, FORM_TAG@, 0, 0, 13));
    lemma_guarded_range(BODY_OPEN@, FORM_TAG@, 0, 0, 13);
}

proof fn lemma_header_open_guarded_form_tag()
    ensures
        guarded(HEADER_OPEN@, FORM_TAG@, 0, None),
{
    reveal_strlit("<header class=\"pp-header\">");
    reveal_strlit("<form");
    reveal_with_fuel(guarded_range, 52);
    reveal_with_fuel(mismatch_from, 7);
    assert(guarded_range(HEADER_OPEN@, FORM_TAG@, 0, 0, 26));
    lemma_guarded_range(HEADER_OPEN@, FORM_TAG@, 0, 0, 26);
}

proof fn lemma_logo_guarded_form_tag()
    ensures
        guarded(LOGO@, FORM_TAG@, 0, None),
{
    reveal_strlit("<img class=\"pp-logo\" src=\"/assets/img/barclaycard-logo.png\" alt=\"Barclaycard\">");
    reveal_strlit("<form");
    reveal_with_fuel(guarded_range, 52);
    reveal_with_fuel(mismatch_from, 7);
    assert(guarded_range(LOGO@, FORM_TAG@, 0, 0, 50));
    lemma_guarded_range(LOGO@, FORM_TAG@, 0, 0, 50);
    assert(guarded_range(LOGO@, FORM_TAG@, 0, 50, 78));
    lemma_guarded_range(LOGO@, FORM_TAG@, 0, 50, 78);
}

proof fn lemma_header_close_guarded_form_tag()
    ensures
        guarded(HEADER_CLOSE@, FORM_TAG@, 0, None),
{
    reveal_strlit("</header>");
    reveal_strlit("<form");
    reveal_with_fuel(guarded_range, 52);
    reveal_with_fuel(mismatch_from, 7);
    assert(guarded_range(HEADER_CLOSE@, FORM_TAG@, 0, 0, 9));
    lemma_guarded_range(HEADER_CLOSE@, FORM_TAG@, 0, 0, 9);
}

proof fn lemma_doc_close_guarded_form_tag()
    ensures
        guarded(DOC_CLOSE@, FORM_TAG@, 0, None),
{
    reveal_strlit("</body></html>");
    reveal_strlit("<form");
    reveal_with_fuel(guarded_range, 52);
    reveal_with_fuel(mismatch_from, 7);
    assert(guarded_range(DOC_CLOSE@, FORM_TAG@, 0, 0, 14));
    lemma_guarded_range(DOC_CLOSE@, FORM_TAG@, 0, 0, 14);
}

proof fn lemma_main_open_guarded_form_tag()
    ensures
        guarded(MAIN_OPEN@, FORM_TAG@, 0, None),
{
    reveal_strlit("<main class=\"pp-main\">");
    reveal_strlit("<form");
    reveal_with_fuel(guarded_range, 52);
    reveal_with_fuel(mismatch_from, 7);
    assert(guarded_range(MAIN_OPEN@, FORM_TAG@, 0, 0, 22));
    lemma_guarded_range(MAIN_OPEN@, FORM_TAG@, 0, 0, 22);
}

proof fn lemma_confirm_head_guarded_form_tag()
    ensures
        guarded(CONFIRM_HEAD@, FORM_TAG@, 0, None),
{
    reveal_strlit("<section class=\"pp-summary\"><h1 class=\"pp-title\">Payment received (demo)</h1>");
    reveal_strlit("<form");
    reveal_with_fuel(guarded_range, 52);
    reveal_with_fuel(mismatch_from, 7);
    assert(guarded_range(CONFIRM_HEAD@, FORM_TAG@, 0, 0, 50));
    lemma_guarded_range(CONFIRM_HEAD@, FORM_TAG@, 0, 0, 50);
    assert(guarded_range(CONFIRM_HEAD@, FORM_TAG@, 0, 50, 77));
    lemma_guarded_range(CONFIRM_HEAD@, FORM_TAG@, 0, 50, 77);
}

proof fn lemma_amount_open_guarded_form_tag()
    ensures
        guarded(AMOUNT_OPEN@, FORM_TAG@, 0, None),
{
    reveal_strlit("<p class=\"pp-amount\">");
    reveal_strlit("<form");
    reveal_with_fuel(guarded_range, 52);
    reveal_with_fuel(mismatch_from, 7);
    assert(guarded_range(AMOUNT_OPEN@, FORM_TAG@, 0, 0, 21));
    lemma_guarded_range(AMOUNT_OPEN@, FORM_TAG@, 0, 0, 21);
}

proof fn lemma_p_close_guarded_form_tag()
    ensures
        guarded(P_CLOSE@, FORM_TAG@, 0, None),
{
    reveal_strlit("</p>");
    reveal_strlit("<form");
    reveal_with_fuel(guarded_range, 52);
    reveal_with_fuel(mismatch_from, 7);
    assert(guarded_range(P_CLOSE@, FORM_TAG@, 0, 0, 4));
    lemma_guarded_range(P_CLOSE@, FORM_TAG@, 0, 0, 4);
}

proof fn lemma_order_open_guarded_form_tag()
    ensures
        guarded(ORDER_OPEN@, FORM_TAG@, 0, None),
{
    reveal_strlit("<p class=\"pp-order-id\">Order: ");
    reveal_strlit("<form");
    reveal_with_fuel(guarded_range, 52);
    reveal_with_fuel(mismatch_from, 7);
    assert(guarded_range(ORDER_OPEN@, FORM_TAG@, 0, 0, 30));
    lemma_guarded_range(ORDER_OPEN@, FORM_TAG@, 0, 0, 30);
}

proof fn lemma_demo_note_guarded_form_tag()
    ensures
        guarded(DEMO_NOTE@, FORM_TAG@, 0, None),
{
    reveal_strlit("<p>This is a demo confirmation. No real payment was processed.</p>");
    reveal_strlit("<form");
    reveal_with_fuel(guarded_range, 52);
    reveal_with_fuel(mismatch_from, 7);
    assert(guarded_range(DEMO_NOTE@, FORM_TAG@, 0, 0, 50));
    lemma_guarded_range(DEMO_NOTE@, FORM_TAG@, 0, 0, 50);
    assert(guarded_range(DEMO_NOTE@, FORM_TAG@, 0, 50, 66));
    lemma_guarded_range(DEMO_NOTE@, FORM_TAG@, 0, 50, 66);
}

proof fn lemma_section_close_guarded_form_tag()
    ensures
        guarded(SECTION_CLOSE@, FORM_TAG@, 0, None),
{
    reveal_strlit("</section>");
    reveal_strlit("<form");
    reveal_with_fuel(guarded_range, 52);
    reveal_with_fuel(mismatch_from, 7);
    assert(guarded_range(SECTION_CLOSE@, FORM_TAG@, 0, 0, 10));
    lemma_guarded_range(SECTION_CLOSE@, FORM_TAG@, 0, 0, 10);
}

proof fn lemma_main_close_guarded_form_tag()
    ensures
        guarded(MAIN_CLOSE@, FORM_TAG@, 0, None),
{
    reveal_strlit("</main>");
    reveal_strlit("<form");
    reveal_with_fuel(guarded_range, 52);
    reveal_with_fuel(mismatch_from, 7);
    assert(guarded_range(MAIN_CLOSE@, FORM_TAG@, 0, 0, 7));
    lemma_guarded_range(MAIN_CLOSE@, FORM_TAG@, 0, 0, 7);
}

proof fn lemma_doctype_guarded_input_tag()
    ensures
        guarded(DOCTYPE@, INPUT_TAG@, 0, None),
{
    reveal_strlit("<!DOCTYPE html>");
    reveal_strlit("<input");
    reveal_with_fuel(guarded_range, 52);
    reveal_with_fuel(mismatch_from, 8);
    assert(guarded_range(DOCTYPE@, INPUT_TAG@, 0, 0, 15));
    lemma_guarded_range(DOCTYPE@, INPUT_TAG@, 0, 0, 15);
}

proof fn lemma_html_open_guarded_input_tag()
    ensures
        guarded(HTML_OPEN@, INPUT_TAG@, 0, None),
{
    reveal_strlit("<html lang=\"");
    reveal_strlit("<input");
    reveal_with_fuel(guarded_range, 52);
    reveal_with_fuel(mismatch_from, 8);
    assert(guarded_range(HTML_OPEN@, INPUT_TAG@, 0, 0, 12));
    lemma_guarded_range(HTML_OPEN@, INPUT_TAG@, 0, 0, 12);
}

proof fn lemma_lang_close_guarded_input_tag()
    ensures
        guarded(LANG_CLOSE@, INPUT_TAG@, 0, None),
{
    reveal_strlit("\">");
    reveal_strlit("<input");
    reveal_with_fuel(guarded_range, 52);
    reveal_with_fuel(mismatch_from, 8);
    assert(guarded_range(LANG_CLOSE@, INPUT_TAG@, 0, 0, 2));
    lemma_guarded_range(LANG_CLOSE@, INPUT_TAG@, 0, 0, 2);
}

proof fn lemma_head_meta_guarded_input_tag()
    ensures
        guarded(HEAD_META@, INPUT_TAG@, 0, None),
{
    reveal_strlit("<head><meta charset=\"utf-8\"><meta name=\"viewport\" content=\"width=device-width, initial-scale=1\">");
    reveal_strlit("<input");
    reveal_with_fuel(guarded_range, 52);
    reveal_with_fuel(mismatch_from, 8);
    assert(guarded_range(HEAD_META@, INPUT_TAG@, 0, 0, 50));
    lemma_guarded_range(HEAD_META@, INPUT_TAG@, 0, 0, 50);
    assert(guarded_range(HEAD_META@, INPUT_TAG@, 0, 50, 96));
    lemma_guarded_range(HEAD_META@, INPUT_TAG@, 0, 50, 96);
}

proof fn lemma_title_open_guarded_input_tag()
    ensures
        guarded(TITLE_OPEN@, INPUT_TAG@, 0, None),
{
    reveal_strlit("<title>");
    reveal_strlit("<input");
    reveal_with_fuel(guarded_range, 52);
    reveal_with_fuel(mismatch_from, 8);
    assert(guarded_range(TITLE_OPEN@, INPUT_TAG@, 0, 0, 7));
    lemma_guarded_range(TITLE_OPEN@, INPUT_TAG@, 0, 0, 7);
}

proof fn lemma_title_close_guarded_input_tag()
    ensures
        guarded(TITLE_CLOSE@, INPUT_TAG@, 0, None),
{
    reveal_strlit("</title>");
    reveal_strlit("<input");
    reveal_with_fuel(guarded_range, 52);
    reveal_with_fuel(mismatch_from, 8);
    assert(guarded_range(TITLE_CLOSE@, INPUT_TAG@, 0, 0, 8));
    lemma_guarded_range(TITLE_CLOSE@, INPUT_TAG@, 0, 0, 8);
}

proof fn lemma_stylesheet_guarded_input_tag()
    ensures
        guarded(STYLESHEET@, INPUT_TAG@, 0, None),
{
    reveal_strlit("<link rel=\"stylesheet\" href=\"/assets/style.css\">");
    reveal_strlit("<input");
    reveal_with_fuel(guarded_range, 52);
    reveal_with_fuel(mismatch_from, 8);
    assert(guarded_range(STYLESHEET@, INPUT_TAG@, 0, 0, 48));
    lemma_guarded_range(STYLESHEET@, INPUT_TAG@, 0, 0, 48);
}

proof fn lemma_body_open_guarded_input_tag()
    ensures
        guarded(BODY_OPEN@, INPUT_TAG@, 0, None),
{
    reveal_strlit("</head><body>");
    reveal_strlit("<input");
    reveal_with_fuel(guarded_range, 52);
    reveal_with_fuel(mismatch_from, 8);
    assert(guarded_range(BODY_OPEN@, INPUT_TAG@, 0, 0, 13));
    lemma_guarded_range(BODY_OPEN@, INPUT_TAG@, 0, 0, 13);
}

proof fn lemma_header_open_guarded_input_tag()
    ensures
        guarded(HEADER_OPEN@, INPUT_TAG@, 0, None),
{
    reveal_strlit("<header class=\"pp-header\">");
    reveal_strlit("<input");
    reveal_with_fuel(guarded_range, 52);
    reveal_with_fuel(mismatch_from, 8);
    assert(guarded_range(HEADER_OPEN@, INPUT_TAG@, 0, 0, 26));
    lemma_guarded_range(HEADER_OPEN@, INPUT_TAG@, 0, 0, 26);
}

proof fn lemma_logo_guarded_input_tag()
    ensures
        guarded(LOGO@, INPUT_TAG@, 0, None),
{
    reveal_strlit("<img class=\"pp-logo\" src=\"/assets/img/barclaycard-logo.png\" alt=\"Barclaycard\">");
    reveal_strlit("<input");
    reveal_with_fuel(guarded_range, 52);
    reveal_with_fuel(mismatch_from, 8);
    assert(guarded_range(LOGO@, INPUT_TAG@, 0, 0, 50));
    lemma_guarded_range(LOGO@, INPUT_TAG@, 0, 0, 50);
    assert(guarded_range(LOGO@, INPUT_TAG@, 0, 50, 78));
    lemma_guarded_range(LOGO@, INPUT_TAG@, 0, 50, 78);
}

proof fn lemma_header_close_guarded_input_tag()
    ensures
        guarded(HEADER_CLOSE@, INPUT_TAG@, 0, None),
{
    reveal_strlit("</header>");
    reveal_strlit("<input");
    reveal_with_fuel(guarded_range, 52);
    reveal_with_fuel(mismatch_from, 8);
    assert(guarded_range(HEADER_CLOSE@, INPUT_TAG@, 0, 0, 9));
    lemma_guarded_range(HEADER_CLOSE@, INPUT_TAG@, 0, 0, 9);
}

proof fn lemma_doc_close_guarded_input_tag()
    ensures
        guarded(DOC_CLOSE@, INPUT_TAG@, 0, None),
{
    reveal_strlit("</body></html>");
    reveal_strlit("<input");
    reveal_with_fuel(guarded_range, 52);
    reveal_with_fuel(mismatch_from, 8);
    assert(guarded_range(DOC_CLOSE@, INPUT_TAG@, 0, 0, 14));
    lemma_guarded_range(DOC_CLOSE@, INPUT_TAG@, 0, 0, 14);
}

proof fn lemma_main_open_guarded_input_tag()
    ensures
        guarded(MAIN_OPEN@, INPUT_TAG@, 0, None),
{
    reveal_strlit("<main class=\"pp-main\">");
    reveal_strlit("<input");
    reveal_with_fuel(guarded_range, 52);
    reveal_with_fuel(mismatch_from, 8);
    assert(guarded_range(MAIN_OPEN@, INPUT_TAG@, 0, 0, 22));
    lemma_guarded_range(MAIN_OPEN@, INPUT_TAG@, 0, 0, 22);
}

proof fn lemma_confirm_head_guarded_input_tag()
    ensures
        guarded(CONFIRM_HEAD@, INPUT_TAG@, 0, None),
{
    reveal_strlit("<section class=\"pp-summary\"><h1 class=\"pp-title\">Payment received (demo)</h1>");
    reveal_strlit("<input");
    reveal_with_fuel(guarded_range, 52);
    reveal_with_fuel(mismatch_from, 8);
    assert(guarded_range(CONFIRM_HEAD@, INPUT_TAG@, 0, 0, 50));
    lemma_guarded_range(CONFIRM_HEAD@, INPUT_TAG@, 0, 0, 50);
    assert(guarded_range(CONFIRM_HEAD@, INPUT_TAG@, 0, 50, 77));
    lemma_guarded_range(CONFIRM_HEAD@, INPUT_TAG@, 0, 50, 77);
}

proof fn lemma_amount_open_guarded_input_tag()
    ensures
        guarded(AMOUNT_OPEN@, INPUT_TAG@, 0, None),
{
    reveal_strlit("<p class=\"pp-amount\">");
    reveal_strlit("<input");
    reveal_with_fuel(guarded_range, 52);
    reveal_with_fuel(mismatch_from, 8);
    assert(guarded_range(AMOUNT_OPEN@, INPUT_TAG@, 0, 0, 21));
    lemma_guarded_range(AMOUNT_OPEN@, INPUT_TAG@, 0, 0, 21);
}

proof fn lemma_p_close_guarded_input_tag()
    ensures
        guarded(P_CLOSE@, INPUT_TAG@, 0, None),
{
    reveal_strlit("</p>");
    reveal_strlit("<input");
    reveal_with_fuel(guarded_range, 52);
    reveal_with_fuel(mismatch_from, 8);
    assert(guarded_range(P_CLOSE@, INPUT_TAG@, 0, 0, 4));
    lemma_guarded_range(P_CLOSE@, INPUT_TAG@, 0, 0, 4);
}

proof fn lemma_order_open_guarded_input_tag()
    ensures
        guarded(ORDER_OPEN@, INPUT_TAG@, 0, None),
{
    reveal_strlit("<p class=\"pp-order-id\">Order: ");
    reveal_strlit("<input");
    reveal_with_fuel(guarded_range, 52);
    reveal_with_fuel(mismatch_from, 8);
    assert(guarded_range(ORDER_OPEN@, INPUT_TAG@, 0, 0, 30));
    lemma_guarded_range(ORDER_OPEN@, INPUT_TAG@, 0, 0, 30);
}

proof fn lemma_demo_note_guarded_input_tag()
    ensures
        guarded(DEMO_NOTE@, INPUT_TAG@, 0, None),
{
    reveal_strlit("<p>This is a demo confirmation. No real payment was processed.</p>");
    reveal_strlit("<input");
    reveal_with_fuel(guarded_range, 52);
    reveal_with_fuel(mismatch_from, 8);
    assert(guarded_range(DEMO_NOTE@, INPUT_TAG@, 0, 0, 50));
    lemma_guarded_range(DEMO_NOTE@, INPUT_TAG@, 0, 0, 50);
    assert(guarded_range(DEMO_NOTE@, INPUT_TAG@, 0, 50, 66));
    lemma_guarded_range(DEMO_NOTE@, INPUT_TAG@, 0, 50, 66);
}

proof fn lemma_section_close_guarded_input_tag()
    ensures
        guarded(SECTION_CLOSE@, INPUT_TAG@, 0, None),
{
    reveal_strlit("</section>");
    reveal_strlit("<input");
    reveal_with_fuel(guarded_range, 52);
    reveal_with_fuel(mismatch_from, 8);
    assert(guarded_range(SECTION_CLOSE@, INPUT_TAG@, 0, 0, 10));
    lemma_guarded_range(SECTION_CLOSE@, INPUT_TAG@, 0, 0, 10);
}

proof fn lemma_main_close_guarded_input_tag()
    ensures
        guarded(MAIN_CLOSE@, INPUT_TAG@, 0, None),
{
    reveal_strlit("</main>");
    reveal_strlit("<input");
    reveal_with_fuel(guarded_range, 52);
    reveal_with_fuel(mismatch_from, 8);
    assert(guarded_range(MAIN_CLOSE@, INPUT_TAG@, 0, 0, 7));
    lemma_guarded_range(MAIN_CLOSE@, INPUT_TAG@, 0, 0, 7);
}

/// The fixed pieces of the layout are guarded for the needle `n` anchored at `a`.
pub open spec fn layout_pieces_guarded(n: Seq<char>, a: int) -> bool {
    guarded(DOCTYPE@, n, a, None)
        && guarded(HTML_OPEN@, n, a, None)
        && guarded(LANG_CLOSE@, n, a, None)
        && guarded(HEAD_META@, n, a, None)
        && guarded(TITLE_OPEN@, n, a, None)
        && guarded(TITLE_CLOSE@, n, a, None)
        && guarded(STYLESHEET@, n, a, None)
        && guarded(BODY_OPEN@, n, a, None)
        && guarded(HEADER_OPEN@, n, a, None)
        && guarded(LOGO@, n, a, None)
        && guarded(HEADER_CLOSE@, n, a, None)
        && guarded(DOC_CLOSE@, n, a, None)
}

proof fn lemma_layout_pieces_guarded_desc_class()
    ensures
        layout_pieces_guarded(DESC_CLASS@, 6),
{
    lemma_doctype_guarded_desc_class();
    lemma_html_open_guarded_desc_class();
    lemma_lang_close_guarded_desc_class();
    lemma_head_meta_guarded_desc_class();
    lemma_title_open_guarded_desc_class();
    lemma_title_close_guarded_desc_class();
    lemma_stylesheet_guarded_desc_class();
    lemma_body_open_guarded_desc_class();
    lemma_header_open_guarded_desc_class();
    lemma_logo_guarded_desc_class();
    lemma_header_close_guarded_desc_class();
    lemma_doc_close_guarded_desc_class();
}

/// The fixed pieces of the payment are guarded for the needle `n` anchored at `a`.
pub open spec fn payment_pieces_guarded(n: Seq<char>, a: int) -> bool {
    guarded(MAIN_OPEN@, n, a, None)
        && guarded(SUMMARY_HEAD@, n, a, None)
        && guarded(MERCHANT_OPEN@, n, a, None)
        && guarded(P_CLOSE@, n, a, None)
        && guarded(AMOUNT_OPEN@, n, a, None)
        && guarded(ORDER_OPEN@, n, a, None)
        && guarded(SECTION_CLOSE@, n, a, None)
        && guarded(CARD_FORM_OPEN@, n, a, None)
        && guarded(CARD_FORM_CLOSE@, n, a, None)
        && guarded(MAIN_CLOSE@, n, a, None)
        && guarded(FOOTER@, n, a, None)
}

proof fn lemma_payment_pieces_guarded_desc_class()
    ensures
        payment_pieces_guarded(DESC_CLASS@, 6),
{
    lemma_main_open_guarded_desc_class();
    lemma_summary_head_guarded_desc_class();
    lemma_merchant_open_guarded_desc_class();
    lemma_p_close_guarded_desc_class();
    lemma_amount_open_guarded_desc_class();
    lemma_order_open_guarded_desc_class();
    lemma_section_close_guarded_desc_class();
    lemma_card_form_open_guarded_desc_class();
    lemma_card_form_close_guarded_desc_class();
    lemma_main_close_guarded_desc_class();
    lemma_footer_guarded_desc_class();
}

proof fn lemma_layout_pieces_guarded_form_tag()
    ensures
        layout_pieces_guarded(FORM_TAG@, 0),
{
    lemma_doctype_guarded_form_tag();
    lemma_html_open_guarded_form_tag();
    lemma_lang_close_guarded_form_tag();
    lemma_head_meta_guarded_form_tag();
    lemma_title_open_guarded_form_tag();
    lemma_title_close_guarded_form_tag();
    lemma_stylesheet_guarded_form_tag();
    lemma_body_open_guarded_form_tag();
    lemma_header_open_guarded_form_tag();
    lemma_logo_guarded_form_tag();
    lemma_header_close_guarded_form_tag();
    lemma_doc_close_guarded_form_tag();
}

/// The fixed pieces of the confirmation are guarded for the needle `n` anchored at `a`.
pub open spec fn confirmation_pieces_guarded(n: Seq<char>, a: int) -> bool {
    guarded(MAIN_OPEN@, n, a, None)
        && guarded(CONFIRM_HEAD@, n, a, None)
        && guarded(AMOUNT_OPEN@, n, a, None)
        && guarded(P_CLOSE@, n, a, None)
        && guarded(ORDER_OPEN@, n, a, None)
        && guarded(DEMO_NOTE@, n, a, None)
        && guarded(SECTION_CLOSE@, n, a, None)
        && guarded(MAIN_CLOSE@, n, a, None)
}

proof fn lemma_confirmation_pieces_guarded_form_tag()
    ensures
        confirmation_pieces_guarded(FORM_TAG@, 0),
{
    lemma_main_open_guarded_form_tag();
    lemma_confirm_head_guarded_form_tag();
    lemma_amount_open_guarded_form_tag();
    lemma_p_close_guarded_form_tag();
    lemma_order_open_guarded_form_tag();
    lemma_demo_note_guarded_form_tag();
    lemma_section_close_guarded_form_tag();
    lemma_main_close_guarded_form_tag();
}

proof fn lemma_layout_pieces_guarded_input_tag()
    ensures
        layout_pieces_guarded(INPUT_TAG@, 0),
{
    lemma_doctype_guarded_input_tag();
    lemma_html_open_guarded_input_tag();
    lemma_lang_close_guarded_input_tag();
    lemma_head_meta_guarded_input_tag();
    lemma_title_open_guarded_input_tag();
    lemma_title_close_guarded_input_tag();
    lemma_stylesheet_guarded_input_tag();
    lemma_body_open_guarded_input_tag();
    lemma_header_open_guarded_input_tag();
    lemma_logo_guarded_input_tag();
    lemma_header_close_guarded_input_tag();
    lemma_doc_close_guarded_input_tag();
}

proof fn lemma_confirmation_pieces_guarded_input_tag()
    ensures
        confirmation_pieces_guarded(INPUT_TAG@, 0),
{
    lemma_main_open_guarded_input_tag();
    lemma_confirm_head_guarded_input_tag();
    lemma_amount_open_guarded_input_tag();
    lemma_p_close_guarded_input_tag();
    lemma_order_open_guarded_input_tag();
    lemma_demo_note_guarded_input_tag();
    lemma_section_close_guarded_input_tag();
    lemma_main_close_guarded_input_tag();
}

/// The needle `n` is anchored at `a` on a character that escaping removes.
pub open spec fn escape_anchored(n: Seq<char>, a: int) -> bool {
    0 <= a < n.len() && (n[a] == '<' || n[a] == '"')
}

proof fn lemma_layout_head_guarded(title: Seq<char>, lang: Seq<char>, n: Seq<char>, a: int)
    requires
        escape_anchored(n, a),
        layout_pieces_guarded(n, a),
    ensures
        guarded(layout_head(title, lang), n, a, None),
{
    lemma_escape_guarded(lang, n, a);
    lemma_escape_guarded(title, n, a);
    lemma_guarded_concat(DOCTYPE@, HTML_OPEN@, n, a, None, None);
    lemma_guarded_concat(DOCTYPE@ + HTML_OPEN@, html_escape(lang), n, a, None, None);
    lemma_guarded_concat(DOCTYPE@ + HTML_OPEN@ + html_escape(lang), LANG_CLOSE@, n, a, None, None);
    lemma_guarded_concat(DOCTYPE@ + HTML_OPEN@ + html_escape(lang) + LANG_CLOSE@, HEAD_META@, n, a, None, None);
    lemma_guarded_concat(DOCTYPE@ + HTML_OPEN@ + html_escape(lang) + LANG_CLOSE@ + HEAD_META@, TITLE_OPEN@, n, a, None, None);
    lemma_guarded_concat(DOCTYPE@ + HTML_OPEN@ + html_escape(lang) + LANG_CLOSE@ + HEAD_META@ + TITLE_OPEN@, html_escape(title), n, a, None, None);
    lemma_guarded_concat(DOCTYPE@ + HTML_OPEN@ + html_escape(lang) + LANG_CLOSE@ + HEAD_META@ + TITLE_OPEN@ + html_escape(title), TITLE_CLOSE@, n, a, None, None);
    lemma_guarded_concat(DOCTYPE@ + HTML_OPEN@ + html_escape(lang) + LANG_CLOSE@ + HEAD_META@ + TITLE_OPEN@ + html_escape(title) + TITLE_CLOSE@, STYLESHEET@, n, a, None, None);
    lemma_guarded_concat(DOCTYPE@ + HTML_OPEN@ + html_escape(lang) + LANG_CLOSE@ + HEAD_META@ + TITLE_OPEN@ + html_escape(title) + TITLE_CLOSE@ + STYLESHEET@, BODY_OPEN@, n, a, None, None);
    lemma_guarded_concat(DOCTYPE@ + HTML_OPEN@ + html_escape(lang) + LANG_CLOSE@ + HEAD_META@ + TITLE_OPEN@ + html_escape(title) + TITLE_CLOSE@ + STYLESHEET@ + BODY_OPEN@, HEADER_OPEN@, n, a, None, None);
    lemma_guarded_concat(DOCTYPE@ + HTML_OPEN@ + html_escape(lang) + LANG_CLOSE@ + HEAD_META@ + TITLE_OPEN@ + html_escape(title) + TITLE_CLOSE@ + STYLESHEET@ + BODY_OPEN@ + HEADER_OPEN@, LOGO@, n, a, None, None);
    lemma_guarded_concat(DOCTYPE@ + HTML_OPEN@ + html_escape(lang) + LANG_CLOSE@ + HEAD_META@ + TITLE_OPEN@ + html_escape(title) + TITLE_CLOSE@ + STYLESHEET@ + BODY_OPEN@ + HEADER_OPEN@ + LOGO@, HEADER_CLOSE@, n, a, None, None);
}

/// The shell keeps the guardedness of its content, the exemption moved past the head.
proof fn lemma_layout_guarded(
    title: Seq<char>,
    lang: Seq<char>,
    content: Seq<char>,
    n: Seq<char>,
    a: int,
    skip: Option<int>,
)
    requires
        escape_anchored(n, a),
        layout_pieces_guarded(n, a),
        guarded(content, n, a, skip),
        skip matches Some(k) ==> 0 <= k < content.len(),
    ensures
        guarded(
            layout_html(title, lang, content),
            n,
            a,
            shifted(skip, layout_head(title, lang).len() as int),
        ),
{
    let head = layout_head(title, lang);
    lemma_layout_head_guarded(title, lang, n, a);
    lemma_guarded_concat(head, content, n, a, None, skip);
    lemma_guarded_concat(head + content, DOC_CLOSE@, n, a, shifted(skip, head.len() as int), None);
}

proof fn lemma_paragraph_guarded(open: Seq<char>, text: Seq<char>, n: Seq<char>, a: int)
    requires
        escape_anchored(n, a),
        guarded(open, n, a, None),
        guarded(P_CLOSE@, n, a, None),
    ensures
        guarded(paragraph(open, text), n, a, None),
{
    lemma_escape_guarded(text, n, a);
    lemma_guarded_concat(open, html_escape(text), n, a, None, None);
    lemma_guarded_concat(open + html_escape(text), P_CLOSE@, n, a, None, None);
}

/// Where, in the payment page, the anchor of `class="pp-desc"` inside the
/// description paragraph stands.
pub open spec fn desc_anchor(page: PaymentPage) -> int {
    (layout_head(PAYMENT_TITLE@, lang_tag(page.init.language@)).len() + MAIN_OPEN@.len()
        + SUMMARY_HEAD@.len() + paragraph(MERCHANT_OPEN@, page.process.merchant_id@).len() + 9) as int
}

/// The payment page is guarded for `class="pp-desc"`, exempt only at the
/// description paragraph when there is one.
proof fn lemma_payment_page_guarded(page: PaymentPage)
    ensures
        guarded(
            payment_page_html(page),
            DESC_CLASS@,
            6,
            if page.process.description@.len() == 0 {
                None
            } else {
                Some(desc_anchor(page))
            },
        ),
{
    reveal_strlit("class=\"pp-desc\"");
    reveal_strlit("<p class=\"pp-desc\">");
    let n = DESC_CLASS@;
    lemma_layout_pieces_guarded_desc_class();
    lemma_payment_pieces_guarded_desc_class();
    lemma_desc_open_guarded_desc_class();
    let d = page.process.description@;
    let amount = amount_text(page.process.currency@, page.process.amount@);
    let m = paragraph(MERCHANT_OPEN@, page.process.merchant_id@);
    let dh = description_html(d);
    let ap = paragraph(AMOUNT_OPEN@, amount);
    let op = paragraph(ORDER_OPEN@, page.process.order_id@);
    lemma_paragraph_guarded(MERCHANT_OPEN@, page.process.merchant_id@, n, 6);
    lemma_paragraph_guarded(AMOUNT_OPEN@, amount, n, 6);
    lemma_paragraph_guarded(ORDER_OPEN@, page.process.order_id@, n, 6);
    let ds: Option<int> = if d.len() == 0 { None } else { Some(9) };
    if d.len() == 0 {
        lemma_guarded_free(dh, n, 6);
    } else {
        lemma_escape_guarded(d, n, 6);
        lemma_guarded_concat(DESC_OPEN@, html_escape(d), n, 6, Some(9), None);
        lemma_guarded_concat(DESC_OPEN@ + html_escape(d), P_CLOSE@, n, 6, Some(9), None);
    }
    assert(guarded(dh, n, 6, ds));
    let hm = SUMMARY_HEAD@ + m;
    lemma_guarded_concat(SUMMARY_HEAD@, m, n, 6, None, None);
    lemma_guarded_concat(hm, dh, n, 6, None, ds);
    let s1 = shifted(ds, hm.len() as int);
    lemma_guarded_concat(hm + dh, ap, n, 6, s1, None);
    lemma_guarded_concat(hm + dh + ap, op, n, 6, s1, None);
    lemma_guarded_concat(hm + dh + ap + op, SECTION_CLOSE@, n, 6, s1, None);
    let summary = summary_html(page);
    assert(summary == hm + dh + ap + op + SECTION_CLOSE@);
    lemma_guarded_concat(MAIN_OPEN@, summary, n, 6, None, s1);
    let s2 = shifted(s1, MAIN_OPEN@.len() as int);
    lemma_escape_guarded(amount, n, 6);
    lemma_guarded_concat(CARD_FORM_OPEN@, html_escape(amount), n, 6, None, None);
    lemma_guarded_concat(CARD_FORM_OPEN@ + html_escape(amount), CARD_FORM_CLOSE@, n, 6, None, None);
    lemma_guarded_concat(MAIN_OPEN@ + summary, card_form_html(amount), n, 6, s2, None);
    lemma_guarded_concat(MAIN_OPEN@ + summary + card_form_html(amount), MAIN_CLOSE@, n, 6, s2, None);
    lemma_guarded_concat(
        MAIN_OPEN@ + summary + card_form_html(amount) + MAIN_CLOSE@,
        FOOTER@,
        n,
        6,
        s2,
        None,
    );
    lemma_layout_guarded(
        PAYMENT_TITLE@,
        lang_tag(page.init.language@),
        payment_content(page),
        n,
        6,
        s2,
    );
}

/// `class="pp-desc"` occurs in the payment page exactly when the description
/// is non-empty, and then exactly once; the description paragraph, too,
/// occurs at most once.
pub proof fn lemma_description_class_exactly_when_nonempty(page: PaymentPage)
    ensures
        contains(payment_page_html(page), DESC_CLASS@) <==> page.process.description@.len() > 0,
        forall|k1: int, k2: int|
            occurs_at(payment_page_html(page), DESC_CLASS@, k1) && occurs_at(
                payment_page_html(page),
                DESC_CLASS@,
                k2,
            ) ==> k1 == k2,
        forall|k1: int, k2: int|
            occurs_at(
                payment_page_html(page),
                paragraph(DESC_OPEN@, page.process.description@),
                k1,
            ) && occurs_at(
                payment_page_html(page),
                paragraph(DESC_OPEN@, page.process.description@),
                k2,
            ) ==> k1 == k2,
{
    reveal_strlit("class=\"pp-desc\"");
    reveal_strlit("<p class=\"pp-desc\">");
    let doc = payment_page_html(page);
    let n = DESC_CLASS@;
    let p = paragraph(DESC_OPEN@, page.process.description@);
    lemma_payment_page_guarded(page);
    if page.process.description@.len() == 0 {
        lemma_guarded_excludes(doc, n, 6);
        assert forall|k: int| !occurs_at(doc, n, k) by {
            if occurs_at(doc, n, k) {
                assert(doc.subrange(k, k + n.len()) == n);
            }
        }
        assert forall|k: int| !occurs_at(doc, p, k) by {
            if occurs_at(doc, p, k) {
                assert(doc.subrange(k + 3, k + 3 + n.len()) =~= n) by {
                    assert forall|i: int| 0 <= i < n.len() implies doc.subrange(k + 3, k + 3 + n.len())[i]
                        == n[i] by {
                        assert(doc.subrange(k, k + p.len())[3 + i] == p[3 + i]);
                    }
                }
                assert(occurs_at(doc, n, k + 3));
            }
        }
    } else {
        lemma_payment_page_shows_description(page);
        let k: int = 3;
        assert(p.subrange(k, k + n.len()) =~= n);
        lemma_contains_trans(doc, p, n);
        assert forall|k1: int, k2: int|
            occurs_at(doc, n, k1) && occurs_at(doc, n, k2) implies k1 == k2 by {
            lemma_guarded_only_at(doc, n, 6, desc_anchor(page), k1);
            lemma_guarded_only_at(doc, n, 6, desc_anchor(page), k2);
        }
        assert forall|k1: int, k2: int|
            occurs_at(doc, p, k1) && occurs_at(doc, p, k2) implies k1 == k2 by {
            assert forall|kk: int| occurs_at(doc, p, kk) implies occurs_at(doc, n, kk + 3) by {
                assert(doc.subrange(kk + 3, kk + 3 + n.len()) =~= n) by {
                    assert forall|i: int| 0 <= i < n.len() implies doc.subrange(kk + 3, kk + 3 + n.len())[i]
                        == n[i] by {
                        assert(doc.subrange(kk, kk + p.len())[3 + i] == p[3 + i]);
                    }
                }
            }
            lemma_guarded_only_at(doc, n, 6, desc_anchor(page), k1 + 3);
            lemma_guarded_only_at(doc, n, 6, desc_anchor(page), k2 + 3);
        }
    }
}

proof fn lemma_confirmation_guarded(page: PaymentPage, n: Seq<char>, a: int)
    requires
        escape_anchored(n, a),
        layout_pieces_guarded(n, a),
        confirmation_pieces_guarded(n, a),
    ensures
        guarded(confirmation_html(page), n, a, None),
{
    let amount = amount_text(page.process.currency@, page.process.amount@);
    let ap = paragraph(AMOUNT_OPEN@, amount);
    let op = paragraph(ORDER_OPEN@, page.process.order_id@);
    lemma_paragraph_guarded(AMOUNT_OPEN@, amount, n, a);
    lemma_paragraph_guarded(ORDER_OPEN@, page.process.order_id@, n, a);
    lemma_guarded_concat(MAIN_OPEN@, CONFIRM_HEAD@, n, a, None, None);
    lemma_guarded_concat(MAIN_OPEN@ + CONFIRM_HEAD@, ap, n, a, None, None);
    lemma_guarded_concat(MAIN_OPEN@ + CONFIRM_HEAD@ + ap, op, n, a, None, None);
    lemma_guarded_concat(MAIN_OPEN@ + CONFIRM_HEAD@ + ap + op, DEMO_NOTE@, n, a, None, None);
    lemma_guarded_concat(MAIN_OPEN@ + CONFIRM_HEAD@ + ap + op + DEMO_NOTE@, SECTION_CLOSE@, n, a, None, None);
    lemma_guarded_concat(
        MAIN_OPEN@ + CONFIRM_HEAD@ + ap + op + DEMO_NOTE@ + SECTION_CLOSE@,
        MAIN_CLOSE@,
        n,
        a,
        None,
        None,
    );
    lemma_layout_guarded(
        CONFIRMATION_TITLE@,
        lang_tag(page.init.language@),
        confirmation_content(page),
        n,
        a,
        None,
    );
}

/// The confirmation page is a full document titled "Payment received"; it
/// shows the amount and the order id, and holds no form and no input.
pub proof fn lemma_confirmation_is_not_a_form(page: PaymentPage)
    ensures
        !contains(confirmation_html(page), FORM_TAG@),
        !contains(confirmation_html(page), INPUT_TAG@),
        contains(confirmation_html(page), TITLE_OPEN@ + CONFIRMATION_TITLE@ + TITLE_CLOSE@),
        confirmation_html(page).subrange(0, DOCTYPE@.len() as int) == DOCTYPE@,
        contains(
            confirmation_html(page),
            paragraph(AMOUNT_OPEN@, amount_text(page.process.currency@, page.process.amount@)),
        ),
        contains(confirmation_html(page), paragraph(ORDER_OPEN@, page.process.order_id@)),
{
    reveal_strlit("<form");
    reveal_strlit("<input");
    lemma_layout_pieces_guarded_form_tag();
    lemma_confirmation_pieces_guarded_form_tag();
    lemma_confirmation_guarded(page, FORM_TAG@, 0);
    lemma_guarded_excludes(confirmation_html(page), FORM_TAG@, 0);
    lemma_layout_pieces_guarded_input_tag();
    lemma_confirmation_pieces_guarded_input_tag();
    lemma_confirmation_guarded(page, INPUT_TAG@, 0);
    lemma_guarded_excludes(confirmation_html(page), INPUT_TAG@, 0);
    lemma_layout_shape(CONFIRMATION_TITLE@, lang_tag(page.init.language@), confirmation_content(page));
    reveal_strlit("Payment received");
    lemma_escape_plain(CONFIRMATION_TITLE@);
    lemma_confirmation_shows_amount_and_order(page);
}

proof fn lemma_checkout_form_content_guarded_form_tag()
    ensures
        guarded(CHECKOUT_FORM_CONTENT@, FORM_TAG@, 0, Some(22)),
{
    reveal_strlit("<main class=\"pp-main\"><form class=\"pp-form\" method=\"post\" action=\"/checkout\"><label for=\"amount\">Amount</label><input id=\"amount\" name=\"amount\" type=\"text\" inputmode=\"decimal\" placeholder=\"0.01\" required><label for=\"currency\">Currency</label><select id=\"currency\" name=\"currency\"><option value=\"GBP\">GBP</option><option value=\"USD\">USD</option><option value=\"EUR\">EUR</option></select><button class=\"pp-pay\" type=\"submit\">Continue to payment</button></form></main>");
    reveal_strlit("<form");
    reveal_with_fuel(guarded_range, 52);
    reveal_with_fuel(mismatch_from, 7);
    assert(guarded_range(CHECKOUT_FORM_CONTENT@, FORM_TAG@, 0, 0, 22));
    lemma_guarded_range(CHECKOUT_FORM_CONTENT@, FORM_TAG@, 0, 0, 22);
    assert(guarded_range(CHECKOUT_FORM_CONTENT@, FORM_TAG@, 0, 23, 50));
    lemma_guarded_range(CHECKOUT_FORM_CONTENT@, FORM_TAG@, 0, 23, 50);
    assert(guarded_range(CHECKOUT_FORM_CONTENT@, FORM_TAG@, 0, 50, 100));
    lemma_guarded_range(CHECKOUT_FORM_CONTENT@, FORM_TAG@, 0, 50, 100);
    assert(guarded_range(CHECKOUT_FORM_CONTENT@, FORM_TAG@, 0, 100, 150));
    lemma_guarded_range(CHECKOUT_FORM_CONTENT@, FORM_TAG@, 0, 100, 150);
    assert(guarded_range(CHECKOUT_FORM_CONTENT@, FORM_TAG@, 0, 150, 200));
    lemma_guarded_range(CHECKOUT_FORM_CONTENT@, FORM_TAG@, 0, 150, 200);
    assert(guarded_range(CHECKOUT_FORM_CONTENT@, FORM_TAG@, 0, 200, 250));
    lemma_guarded_range(CHECKOUT_FORM_CONTENT@, FORM_TAG@, 0, 200, 250);
    assert(guarded_range(CHECKOUT_FORM_CONTENT@, FORM_TAG@, 0, 250, 300));
    lemma_guarded_range(CHECKOUT_FORM_CONTENT@, FORM_TAG@, 0, 250, 300);
    assert(guarded_range(CHECKOUT_FORM_CONTENT@, FORM_TAG@, 0, 300, 350));
    lemma_guarded_range(CHECKOUT_FORM_CONTENT@, FORM_TAG@, 0, 300, 350);
    assert(guarded_range(CHECKOUT_FORM_CONTENT@, FORM_TAG@, 0, 350, 400));
    lemma_guarded_range(CHECKOUT_FORM_CONTENT@, FORM_TAG@, 0, 350, 400);
    assert(guarded_range(CHECKOUT_FORM_CONTENT@, FORM_TAG@, 0, 400, 450));
    lemma_guarded_range(CHECKOUT_FORM_CONTENT@, FORM_TAG@, 0, 400, 450);
    assert(guarded_range(CHECKOUT_FORM_CONTENT@, FORM_TAG@, 0, 450, 464));
    lemma_guarded_range(CHECKOUT_FORM_CONTENT@, FORM_TAG@, 0, 450, 464);
}

/// The checkout form page holds exactly one form, and it is posted to
/// `/checkout`: every `<form` in the document opens
/// `<form class="pp-form" method="post" action="/checkout">`, and that tag occurs.
#[verifier::rlimit(30)]
pub proof fn lemma_checkout_form_posts_to_checkout()
    ensures
        contains(checkout_form_html(), "<form class=\"pp-form\" method=\"post\" action=\"/checkout\">"@),
        forall|k: int|
            occurs_at(checkout_form_html(), FORM_TAG@, k) ==> occurs_at(
                checkout_form_html(),
                "<form class=\"pp-form\" method=\"post\" action=\"/checkout\">"@,
                k,
            ),
        forall|k1: int, k2: int|
            occurs_at(checkout_form_html(), FORM_TAG@, k1) && occurs_at(
                checkout_form_html(),
                FORM_TAG@,
                k2,
            ) ==> k1 == k2,
{
    reveal_strlit("<form");
    reveal_strlit("<form class=\"pp-form\" method=\"post\" action=\"/checkout\">");
    reveal_strlit("<main class=\"pp-main\"><form class=\"pp-form\" method=\"post\" action=\"/checkout\"><label for=\"amount\">Amount</label><input id=\"amount\" name=\"amount\" type=\"text\" inputmode=\"decimal\" placeholder=\"0.01\" required><label for=\"currency\">Currency</label><select id=\"currency\" name=\"currency\"><option value=\"GBP\">GBP</option><option value=\"USD\">USD</option><option value=\"EUR\">EUR</option></select><button class=\"pp-pay\" type=\"submit\">Continue to payment</button></form></main>");
    let post = "<form class=\"pp-form\" method=\"post\" action=\"/checkout\">"@;
    let content = CHECKOUT_FORM_CONTENT@;
    let head = layout_head(CHECKOUT_TITLE@, "en"@);
    let doc = checkout_form_html();
    let p: int = 22;
    lemma_layout_pieces_guarded_form_tag();
    lemma_checkout_form_content_guarded_form_tag();
    lemma_layout_guarded(CHECKOUT_TITLE@, "en"@, content, FORM_TAG@, 0, Some(p));
    assert(content.subrange(p, p + post.len()) =~= post);
    lemma_contains_self(post);
    lemma_contains_within(content.subrange(0, p), post, content.subrange(p + post.len(), content.len() as int), post);
    assert(content =~= content.subrange(0, p) + post + content.subrange(p + post.len(), content.len() as int));
    lemma_layout_contains(CHECKOUT_TITLE@, "en"@, content, post);
    assert(doc =~= head + content + DOC_CLOSE@);
    assert forall|k: int| occurs_at(doc, FORM_TAG@, k) implies occurs_at(doc, post, k) by {
        lemma_guarded_only_at(doc, FORM_TAG@, 0, head.len() + p, k);
        assert forall|i: int| 0 <= i < post.len() implies doc.subrange(k, k + post.len())[i] == post[i] by {
            assert(doc[k + i] == content[p + i]);
            assert(content.subrange(p, p + post.len())[i] == content[p + i]);
        }
        assert(doc.subrange(k, k + post.len()) =~= post);
    }
    assert forall|k1: int, k2: int|
        occurs_at(doc, FORM_TAG@, k1) && occurs_at(doc, FORM_TAG@, k2) implies k1 == k2 by {
        lemma_guarded_only_at(doc, FORM_TAG@, 0, head.len() + p, k1);
        lemma_guarded_only_at(doc, FORM_TAG@, 0, head.len() + p, k2);
    }
}

} // verus!
