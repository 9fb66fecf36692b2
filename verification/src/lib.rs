//! Server-side rendering of a hosted payment page: the payment payload model,
//! its validation, the HTML documents rendered from it, and the request sent
//! to the checkout-sessions API.

use vstd::prelude::*;

pub mod checkout;
pub mod model;
pub mod pieces;
pub mod render;
pub mod text;

verus! {

/// Address the server binds to when no override is given.
pub open spec fn default_bind_addr() -> Seq<char> {
    "127.0.0.1:8080"@
}

/// The bind address: the override when one is given, else `127.0.0.1:8080`.
pub fn bind_addr_from(override_addr: Option<String>) -> (addr: String)
    ensures
        addr@ == match override_addr {
            Some(a) => a@,
            None => default_bind_addr(),
        },
{
    match override_addr {
        Some(a) => a,
        None => String::from_str("127.0.0.1:8080"),
    }
}

/// Without an override the server binds to 127.0.0.1, port 8080; with one it
/// binds where the override says.
pub proof fn lemma_bind_default()
    ensures
        default_bind_addr() == "127.0.0.1:8080"@,
        MAX_DELAY_MS == 30_000,
{
}

/// Upper bound, in milliseconds, of the simulated upstream delay.
pub const MAX_DELAY_MS: u64 = 30_000;

/// Clamps a requested delay to at most `MAX_DELAY_MS`.
pub fn clamp_delay(requested: u64) -> (delay: u64)
    ensures
        delay == if requested <= MAX_DELAY_MS { requested } else { MAX_DELAY_MS },
{
    if requested <= MAX_DELAY_MS {
        requested
    } else {
        MAX_DELAY_MS
    }
}

/// Content type of every rendered page.
pub const HTML_CONTENT_TYPE: &'static str = "text/html; charset=utf-8";

/// Content-Security-Policy of the rendered pages: everything same-origin, no scripts, no framing.
pub const PAGE_CSP: &'static str = "default-src 'self'; script-src 'none'; frame-ancestors 'none'";

/// The security headers of a rendered page, as (name, value) pairs.
pub open spec fn page_headers_spec() -> Seq<(Seq<char>, Seq<char>)> {
    seq![
        ("cache-control"@, "no-store"@),
        ("x-content-type-options"@, "nosniff"@),
        ("referrer-policy"@, "no-referrer"@),
        ("content-security-policy"@, PAGE_CSP@),
    ]
}

/// The security headers every rendered page is served with: never cached,
/// no content sniffing, no referrer, and a strict same-origin policy.
pub fn page_headers() -> (h: Vec<(&'static str, &'static str)>)
    ensures
        h@.len() == page_headers_spec().len(),
        forall|i: int|
            0 <= i < h@.len() ==> (#[trigger] h@[i]).0@ == page_headers_spec()[i].0 && h@[i].1@
                == page_headers_spec()[i].1,
{
    let mut h: Vec<(&'static str, &'static str)> = Vec::new();
    h.push(("cache-control", "no-store"));
    h.push(("x-content-type-options", "nosniff"));
    h.push(("referrer-policy", "no-referrer"));
    h.push(("content-security-policy", PAGE_CSP));
    h
}

/// Path of the order data under the data service's base url.
pub const ORDERS_PATH: &'static str = "/api/orders/";

/// The query that asks the data service for a delay.
pub const DELAY_QUERY: &'static str = "?delay_ms=";

/// The decimal digit character of `d` (for `d < 10`).
pub open spec fn digit_char(d: nat) -> char {
    if d == 0 {
        '0'
    } else if d == 1 {
        '1'
    } else if d == 2 {
        '2'
    } else if d == 3 {
        '3'
    } else if d == 4 {
        '4'
    } else if d == 5 {
        '5'
    } else if d == 6 {
        '6'
    } else if d == 7 {
        '7'
    } else if d == 8 {
        '8'
    } else {
        '9'
    }
}

/// The decimal numeral of `n`, without leading zeros.
pub open spec fn decimal(n: nat) -> Seq<char>
    decreases n,
{
    if n < 10 {
        seq![digit_char(n)]
    } else {
        decimal(n / 10) + seq![digit_char(n % 10)]
    }
}

fn digit_str(d: u64) -> (s: &'static str)
    requires
        d < 10,
    ensures
        s@ == seq![digit_char(d as nat)],
{
    proof {
        reveal_strlit("0");
        reveal_strlit("1");
        reveal_strlit("2");
        reveal_strlit("3");
        reveal_strlit("4");
        reveal_strlit("5");
        reveal_strlit("6");
        reveal_strlit("7");
        reveal_strlit("8");
        reveal_strlit("9");
    }
    if d == 0 {
        "0"
    } else if d == 1 {
        "1"
    } else if d == 2 {
        "2"
    } else if d == 3 {
        "3"
    } else if d == 4 {
        "4"
    } else if d == 5 {
        "5"
    } else if d == 6 {
        "6"
    } else if d == 7 {
        "7"
    } else if d == 8 {
        "8"
    } else {
        "9"
    }
}

/// Appends the decimal numeral of `n`.
pub fn push_decimal(out: &mut String, n: u64)
    ensures
        final(out)@ == old(out)@ + decimal(n as nat),
    decreases n,
{
    if n >= 10 {
        push_decimal(out, n / 10);
    }
    out.append(digit_str(n % 10));
}

/// The data-service url of the order `order_id`, asking for `delay_ms` of
/// delay when one is given.
pub open spec fn order_data_url_spec(base_url: Seq<char>, order_id: Seq<char>, delay_ms: Option<u64>) -> Seq<char> {
    base_url + ORDERS_PATH@ + order_id + match delay_ms {
        Some(d) => DELAY_QUERY@ + decimal(d as nat),
        None => Seq::empty(),
    }
}

/// Where the order data of `order_id` is fetched from; a requested delay is
/// passed on to the data service.
pub fn order_data_url(base_url: &str, order_id: &str, delay_ms: Option<u64>) -> (u: String)
    ensures
        u@ == order_data_url_spec(base_url@, order_id@, delay_ms),
{
    let mut u = String::from_str(base_url).concat(ORDERS_PATH).concat(order_id);
    let ghost before = u@;
    match delay_ms {
        Some(d) => {
            u.append(DELAY_QUERY);
            push_decimal(&mut u, d);
            assert(u@ =~= before + (DELAY_QUERY@ + decimal(d as nat)));
        },
        None => {
            assert(u@ =~= before + Seq::<char>::empty());
        },
    }
    u
}

/// Whether `c` is a decimal digit.
pub open spec fn is_digit(c: char) -> bool {
    '0' <= c && c <= '9'
}

/// The number a string of decimal digits denotes.
pub open spec fn numeral_value(s: Seq<char>) -> int
    decreases s.len(),
{
    if s.len() == 0 {
        0
    } else {
        numeral_value(s.drop_last()) * 10 + (s.last() as int - '0' as int)
    }
}

/// The decimal numeral of `n` is a non-empty string of digits, without a
/// leading zero unless `n` is zero, and it denotes `n`.
pub proof fn lemma_decimal_denotes(n: nat)
    ensures
        decimal(n).len() > 0,
        forall|i: int| 0 <= i < decimal(n).len() ==> is_digit(#[trigger] decimal(n)[i]),
        numeral_value(decimal(n)) == n,
        n > 0 ==> decimal(n)[0] != '0',
    decreases n,
{
    lemma_digit_char_value((n % 10) as nat);
    if n < 10 {
        assert(decimal(n).drop_last() =~= Seq::<char>::empty());
        assert(n % 10 == n);
        assert(numeral_value(decimal(n)) == numeral_value(decimal(n).drop_last()) * 10 + (
        decimal(n).last() as int - '0' as int));
    } else {
        lemma_decimal_denotes(n / 10);
        let d = decimal(n);
        let h = decimal(n / 10);
        assert(d.drop_last() =~= h);
        assert(d[0] == h[0]);
        assert forall|i: int| 0 <= i < d.len() implies is_digit(#[trigger] d[i]) by {
            if i < h.len() {
                assert(d[i] == h[i]);
            }
        }
        assert(d.last() == digit_char((n % 10) as nat));
        assert(numeral_value(d) == numeral_value(h) * 10 + (d.last() as int - '0' as int));
        assert((n / 10) * 10 + n % 10 == n);
    }
}

proof fn lemma_digit_char_value(d: nat)
    requires
        d < 10,
    ensures
        is_digit(digit_char(d)),
        digit_char(d) as int - '0' as int == d,
        d > 0 ==> digit_char(d) != '0',
{
}

/// The data-service url is the base url, `/api/orders/`, the whole order id,
/// and, when a delay is asked for, `?delay_ms=` and the delay in decimal.
pub proof fn lemma_order_data_url(base_url: Seq<char>, order_id: Seq<char>, delay_ms: Option<u64>)
    ensures
        order_data_url_spec(base_url, order_id, None) == base_url + "/api/orders/"@ + order_id,
        forall|d: u64|
            #[trigger] order_data_url_spec(base_url, order_id, Some(d)) == base_url
                + "/api/orders/"@ + order_id + "?delay_ms="@ + decimal(d as nat),
        order_data_url_spec(base_url, order_id, delay_ms).subrange(
            base_url.len() + 12int,
            base_url.len() + 12int + order_id.len(),
        ) == order_id,
        order_data_url_spec(base_url, order_id, delay_ms).subrange(0, base_url.len() as int)
            == base_url,
{
    reveal_strlit("/api/orders/");
    let u = order_data_url_spec(base_url, order_id, delay_ms);
    let tail = match delay_ms {
        Some(d) => DELAY_QUERY@ + decimal(d as nat),
        None => Seq::empty(),
    };
    assert(u =~= base_url + "/api/orders/"@ + order_id + tail);
    assert(u.subrange(base_url.len() + 12int, base_url.len() + 12int + order_id.len()) =~= order_id);
    assert(u.subrange(0, base_url.len() as int) =~= base_url);
    assert(order_data_url_spec(base_url, order_id, None) =~= base_url + "/api/orders/"@ + order_id);
    assert forall|d: u64|
        #[trigger] order_data_url_spec(base_url, order_id, Some(d)) == base_url + "/api/orders/"@
            + order_id + "?delay_ms="@ + decimal(d as nat) by {
        assert(order_data_url_spec(base_url, order_id, Some(d)) =~= base_url + "/api/orders/"@
            + order_id + "?delay_ms="@ + decimal(d as nat));
    }
}

} // verus!
