# pp_ss_r — server-side rendered payment page

A payment page service: an actix-web server renders a hosted payment page
from a JSON payload modeled on a Barclaycard/Juspay order, and can create a
checkout session through the checkout-sessions API.

The logic is a Verus library, verified:

- `src/model.rs` — the payload (`PaymentPage` and its parts), `validate`
  (no required field may be blank; the first blank one is named), and
  `with_order_id`.
- `src/render.rs` — `format_amount`, `lang_code`, and the HTML documents
  (payment page, confirmation, error page, checkout form). Each renderer's
  contract gives the exact document; lemmas show that the page carries the
  escaped order id, amount, merchant and (non-empty) description.
- `src/pieces.rs` — what the pages do not contain: each fixed piece of the
  documents is shown, by evaluating a decision procedure, to rule out a
  needle; composed with the escaped fields this proves that
  `class="pp-desc"` occurs exactly when the description is non-empty (and
  then once), and that the confirmation page holds no form and no input.
- `src/text.rs` — character helpers and HTML escaping (maud's escaper behind
  one trusted wrapper), with lemmas that escaped text holds no `<`, `>`, `"`.
- `src/checkout.rs` — the checkout request body (`build_request`), the page
  for a created session, and `session_step`, the decisions of a session
  request between its outside steps, its headers, and a law over a whole run.
- `src/lib.rs` — bind address, delay clamp, security headers, data url
  (with the forwarded delay as a decimal numeral).

`app/` is the server around it (routes, HTTP client calls, JSON forms of the
payload via serde, the bundled sample, logging). `tests/` run the library.
