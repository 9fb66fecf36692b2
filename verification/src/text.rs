//! Character-level helpers on strings: equality, blankness and HTML escaping.

use vstd::prelude::*;

verus! {

/// The characters of `s`, in order.
pub fn chars_of(s: &str) -> (v: Vec<char>)
    ensures
        v@ == s@,
{
    let mut v: Vec<char> = Vec::new();
    for c in it: s.chars()
        invariant
            it.seq() == s@,
            v@ == it.seq().take(it.index() as int),
    {
        v.push(c);
    }
    v
}

/// Whether two texts hold the same characters.
pub fn same_text(a: &str, b: &str) -> (eq: bool)
    ensures
        eq == (a@ == b@),
{
    let va = chars_of(a);
    let vb = chars_of(b);
    if va.len() != vb.len() {
        return false;
    }
    let n = va.len();
    let mut i: usize = 0;
    while i < n
        invariant
            n == va@.len(),
            n == vb@.len(),
            va@ == a@,
            vb@ == b@,
            i <= n,
            forall|j: int| 0 <= j < i ==> va@[j] == vb@[j],
        decreases n - i,
    {
        if va[i] != vb[i] {
            return false;
        }
        i = i + 1;
    }
    assert(va@ =~= vb@);
    true
}

/// Whether `c` is ASCII whitespace (space, tab, line feed, form feed, carriage return).
pub open spec fn is_ascii_ws(c: char) -> bool {
    c == ' ' || c == '\t' || c == '\n' || c == '\x0C' || c == '\r'
}

/// A text is blank when it holds nothing but ASCII whitespace (the empty text included).
pub open spec fn blank(s: Seq<char>) -> bool {
    forall|i: int| 0 <= i < s.len() ==> is_ascii_ws(#[trigger] s[i])
}

/// Blankness goes character by character: the empty text is blank, one
/// character is blank exactly when it is one of the five ASCII whitespace
/// characters, a joined text is blank exactly when both parts are, and a text
/// with a non-whitespace character anywhere (the last one included) is not
/// blank.
pub proof fn lemma_blank_laws(s: Seq<char>, t: Seq<char>, c: char, i: int)
    ensures
        blank(Seq::empty()),
        blank(seq![c]) <==> (c == ' ' || c == '\t' || c == '\n' || c == '\x0C' || c == '\r'),
        blank(s + t) <==> blank(s) && blank(t),
        0 <= i < s.len() && !(s[i] == ' ' || s[i] == '\t' || s[i] == '\n' || s[i] == '\x0C' || s[i]
            == '\r') ==> !blank(s),
        blank(s) ==> forall|k: int| 0 <= k < s.len() ==> is_ascii_ws(#[trigger] s[k]),
        ('0' <= c && c <= '9') || ('a' <= c && c <= 'z') || ('A' <= c && c <= 'Z') ==> !blank(seq![c]),
{
    assert(seq![c][0] == c);
    if blank(s) && blank(t) {
        assert forall|k: int| 0 <= k < (s + t).len() implies is_ascii_ws(#[trigger] (s + t)[k]) by {
            if k < s.len() {
                assert((s + t)[k] == s[k]);
            } else {
                assert((s + t)[k] == t[k - s.len()]);
            }
        }
    }
    if blank(s + t) {
        assert forall|k: int| 0 <= k < s.len() implies is_ascii_ws(#[trigger] s[k]) by {
            assert((s + t)[k] == s[k]);
        }
        assert forall|k: int| 0 <= k < t.len() implies is_ascii_ws(#[trigger] t[k]) by {
            assert((s + t)[k + s.len()] == t[k]);
        }
    }
}

/// Decides `blank`.
pub fn is_blank(s: &str) -> (b: bool)
    ensures
        b == blank(s@),
{
    let v = chars_of(s);
    let n = v.len();
    let mut i: usize = 0;
    while i < n
        invariant
            n == s@.len(),
            v@ == s@,
            i <= n,
            forall|j: int| 0 <= j < i ==> is_ascii_ws(#[trigger] s@[j]),
        decreases n - i,
    {
        let c = v[i];
        if !(c == ' ' || c == '\t' || c == '\n' || c == '\x0C' || c == '\r') {
            return false;
        }
        i = i + 1;
    }
    true
}

/// What one character becomes in HTML text or in a quoted attribute value:
/// `&`, `<`, `>` and `"` turn into their entities, every other character stays.
pub open spec fn escape_char(c: char) -> Seq<char> {
    if c == '&' {
        seq!['&', 'a', 'm', 'p', ';']
    } else if c == '<' {
        seq!['&', 'l', 't', ';']
    } else if c == '>' {
        seq!['&', 'g', 't', ';']
    } else if c == '"' {
        seq!['&', 'q', 'u', 'o', 't', ';']
    } else {
        seq![c]
    }
}

/// The HTML-escaped form of a text: each character escaped in turn.
pub open spec fn html_escape(s: Seq<char>) -> Seq<char>
    decreases s.len(),
{
    if s.len() == 0 {
        Seq::empty()
    } else {
        html_escape(s.drop_last()) + escape_char(s.last())
    }
}

/// Escaped text holds no `<`, `>` or `"`: whatever a field holds, it cannot
/// open or close a tag or leave a quoted attribute value.
pub proof fn lemma_escape_has_no_markup(s: Seq<char>)
    ensures
        forall|i: int|
            0 <= i < html_escape(s).len() ==> #[trigger] html_escape(s)[i] != '<'
                && html_escape(s)[i] != '>' && html_escape(s)[i] != '"',
    decreases s.len(),
{
    if s.len() > 0 {
        lemma_escape_has_no_markup(s.drop_last());
        let e = html_escape(s.drop_last());
        let c = escape_char(s.last());
        assert forall|i: int| 0 <= i < html_escape(s).len() implies #[trigger] html_escape(s)[i]
            != '<' && html_escape(s)[i] != '>' && html_escape(s)[i] != '"' by {
            if i >= e.len() {
                assert(html_escape(s)[i] == c[i - e.len()]);
            } else {
                assert(html_escape(s)[i] == e[i]);
            }
        }
    }
}

/// A text without `&`, `<`, `>` or `"` is its own escaped form.
pub proof fn lemma_escape_plain(s: Seq<char>)
    requires
        forall|i: int|
            0 <= i < s.len() ==> #[trigger] s[i] != '&' && s[i] != '<' && s[i] != '>' && s[i]
                != '"',
    ensures
        html_escape(s) == s,
    decreases s.len(),
{
    if s.len() > 0 {
        let t = s.drop_last();
        assert forall|i: int| 0 <= i < t.len() implies #[trigger] t[i] != '&' && t[i] != '<'
            && t[i] != '>' && t[i] != '"' by {
            assert(t[i] == s[i]);
        }
        lemma_escape_plain(t);
        assert(s =~= t + seq![s.last()]);
    }
}

/// Appends `text`, HTML-escaped, to `out`.
///
/// Calls maud's `Render::render_to` for `str`, which writes each byte of the
/// text to the buffer with `&`, `<`, `>` and `"` replaced by `&amp;`, `&lt;`,
/// `&gt;` and `&quot;`. As those four are ASCII, and no other byte of a UTF-8
/// text is one of them, this is `html_escape` of the text's characters; that
/// is what the contract claims.
#[verifier::external_body]
pub(crate) fn push_escaped(out: &mut String, text: &str)
    ensures
        final(out)@ == old(out)@ + html_escape(text@),
{
    maud::Render::render_to(text, out);
}

/// Whether `needle` occurs in `hay` as a contiguous run of characters.
pub open spec fn contains(hay: Seq<char>, needle: Seq<char>) -> bool {
    exists|k: int|
        0 <= k && k + needle.len() <= hay.len() && #[trigger] hay.subrange(k, k + needle.len())
            == needle
}

/// A text contains its first part.
pub proof fn lemma_contains_prefix(a: Seq<char>, b: Seq<char>)
    ensures
        contains(a + b, a),
{
    let k: int = 0;
    assert((a + b).subrange(k, k + a.len()) =~= a);
}

/// A text contains its last part.
pub proof fn lemma_contains_suffix(a: Seq<char>, b: Seq<char>)
    ensures
        contains(a + b, b),
{
    let k: int = a.len() as int;
    assert((a + b).subrange(k, k + b.len()) =~= b);
}

/// Occurrence is transitive.
pub proof fn lemma_contains_trans(x: Seq<char>, y: Seq<char>, z: Seq<char>)
    requires
        contains(x, y),
        contains(y, z),
    ensures
        contains(x, z),
{
    let k1 = choose|k: int|
        0 <= k && k + y.len() <= x.len() && #[trigger] x.subrange(k, k + y.len()) == y;
    let k2 = choose|k: int|
        0 <= k && k + z.len() <= y.len() && #[trigger] y.subrange(k, k + z.len()) == z;
    assert forall|i: int| 0 <= i < z.len() implies x.subrange(k1 + k2, k1 + k2 + z.len())[i]
        == z[i] by {
        assert(y.subrange(k2, k2 + z.len())[i] == y[k2 + i]);
        assert(x.subrange(k1, k1 + y.len())[k2 + i] == x[k1 + k2 + i]);
    }
    assert(x.subrange(k1 + k2, k1 + k2 + z.len()) =~= z);
}

/// Whatever occurs in a part also occurs in the whole that the part is extended to.
pub proof fn lemma_contains_within(l: Seq<char>, y: Seq<char>, r: Seq<char>, x: Seq<char>)
    requires
        contains(y, x),
    ensures
        contains(l + y, x),
        contains(y + r, x),
        contains(l + y + r, x),
{
    lemma_contains_suffix(l, y);
    lemma_contains_trans(l + y, y, x);
    lemma_contains_prefix(y, r);
    lemma_contains_trans(y + r, y, x);
    lemma_contains_prefix(l + y, r);
    lemma_contains_trans(l + y + r, l + y, x);
}

/// A text contains itself.
pub proof fn lemma_contains_self(x: Seq<char>)
    ensures
        contains(x, x),
{
    let k: int = 0;
    assert(x.subrange(k, k + x.len()) =~= x);
}

/// `needle` occurs in `hay` starting at `k`.
pub open spec fn occurs_at(hay: Seq<char>, needle: Seq<char>, k: int) -> bool {
    0 <= k && k + needle.len() <= hay.len() && hay.subrange(k, k + needle.len()) == needle
}

/// Some character of `needle` differs from the character of `s` that an
/// occurrence starting at `k` would put there (only positions inside `s` count).
pub open spec fn mismatch(s: Seq<char>, needle: Seq<char>, k: int) -> bool {
    exists|i: int| 0 <= i < needle.len() && 0 <= k + i < s.len() && #[trigger] s[k + i] != needle[i]
}

/// Every position of `s` holding the anchor character `needle[a]` rules out,
/// within `s`, an occurrence of `needle` that has its anchor there; the
/// position `skip`, if any, is exempt.
pub open spec fn guarded(s: Seq<char>, needle: Seq<char>, a: int, skip: Option<int>) -> bool {
    forall|j: int|
        0 <= j < s.len() && #[trigger] s[j] == needle[a] && skip != Some(j) ==> mismatch(
            s,
            needle,
            j - a,
        )
}

/// Decides `mismatch` from offset `i` of the needle on.
pub open spec fn mismatch_from(s: Seq<char>, needle: Seq<char>, k: int, i: nat) -> bool
    decreases needle.len() - i,
{
    if i >= needle.len() {
        false
    } else if 0 <= k + i < s.len() && s[k + i] != needle[i as int] {
        true
    } else {
        mismatch_from(s, needle, k, i + 1)
    }
}

/// Decides `guarded` (without exemption) on the positions `j .. hi` of `s`.
pub open spec fn guarded_range(s: Seq<char>, needle: Seq<char>, a: int, j: int, hi: int) -> bool
    decreases hi - j,
{
    if j >= hi || j >= s.len() || j < 0 {
        true
    } else {
        (s[j] != needle[a] || mismatch_from(s, needle, j - a, 0)) && guarded_range(
            s,
            needle,
            a,
            j + 1,
            hi,
        )
    }
}

proof fn lemma_mismatch_from(s: Seq<char>, needle: Seq<char>, k: int, i: nat)
    requires
        mismatch_from(s, needle, k, i),
    ensures
        mismatch(s, needle, k),
    decreases needle.len() - i,
{
    if i < needle.len() {
        if 0 <= k + i < s.len() && s[k + i] != needle[i as int] {
            assert(s[k + i as int] != needle[i as int]);
        } else {
            lemma_mismatch_from(s, needle, k, i + 1);
        }
    }
}

pub proof fn lemma_guarded_range(s: Seq<char>, needle: Seq<char>, a: int, j: int, hi: int)
    requires
        0 <= j,
        guarded_range(s, needle, a, j, hi),
    ensures
        forall|p: int|
            j <= p < hi && p < s.len() && #[trigger] s[p] == needle[a] ==> mismatch(s, needle, p - a),
    decreases hi - j,
{
    if j < hi && j < s.len() {
        lemma_guarded_range(s, needle, a, j + 1, hi);
        if s[j] == needle[a] {
            lemma_mismatch_from(s, needle, j - a, 0);
        }
    }
}

/// A text none of whose characters is the anchor is guarded.
pub proof fn lemma_guarded_free(s: Seq<char>, needle: Seq<char>, a: int)
    requires
        forall|i: int| 0 <= i < s.len() ==> #[trigger] s[i] != needle[a],
    ensures
        guarded(s, needle, a, None),
{
}

/// Escaped text is guarded for any needle anchored on `<`, `>` or `"`.
pub proof fn lemma_escape_guarded(x: Seq<char>, needle: Seq<char>, a: int)
    requires
        needle[a] == '<' || needle[a] == '>' || needle[a] == '"',
    ensures
        guarded(html_escape(x), needle, a, None),
{
    lemma_escape_has_no_markup(x);
    assert forall|i: int| 0 <= i < html_escape(x).len() implies #[trigger] html_escape(x)[i]
        != needle[a] by {
        assert(html_escape(x)[i] != '<' && html_escape(x)[i] != '>' && html_escape(x)[i] != '"');
    }
}

/// The exemption moved by `d` positions.
pub open spec fn shifted(skip: Option<int>, d: int) -> Option<int> {
    match skip {
        Some(k) => Some(k + d),
        None => None,
    }
}

/// Guardedness is kept by concatenation, at most one side having an exemption.
pub proof fn lemma_guarded_concat(
    x: Seq<char>,
    y: Seq<char>,
    needle: Seq<char>,
    a: int,
    sx: Option<int>,
    sy: Option<int>,
)
    requires
        guarded(x, needle, a, sx),
        guarded(y, needle, a, sy),
        sx is None || sy is None,
        sx matches Some(k) ==> 0 <= k < x.len(),
    ensures
        guarded(x + y, needle, a, if sx is Some { sx } else { shifted(sy, x.len() as int) }),
{
    let s = x + y;
    let sk = if sx is Some { sx } else { shifted(sy, x.len() as int) };
    assert forall|j: int|
        0 <= j < s.len() && #[trigger] s[j] == needle[a] && sk != Some(j) implies mismatch(
        s,
        needle,
        j - a,
    ) by {
        if j < x.len() {
            assert(x[j] == needle[a]);
            assert(sx != Some(j));
            let i = choose|i: int|
                0 <= i < needle.len() && 0 <= j - a + i < x.len() && #[trigger] x[j - a + i]
                    != needle[i];
            assert(s[j - a + i] == x[j - a + i]);
        } else {
            let jy = j - x.len();
            assert(y[jy] == needle[a]);
            assert(sy != Some(jy));
            let i = choose|i: int|
                0 <= i < needle.len() && 0 <= jy - a + i < y.len() && #[trigger] y[jy - a + i]
                    != needle[i];
            assert(s[j - a + i] == y[jy - a + i]);
        }
    }
}

/// A guarded text without exemption does not contain the needle.
pub proof fn lemma_guarded_excludes(s: Seq<char>, needle: Seq<char>, a: int)
    requires
        0 <= a < needle.len(),
        guarded(s, needle, a, None),
    ensures
        !contains(s, needle),
{
    if contains(s, needle) {
        let k = choose|k: int|
            0 <= k && k + needle.len() <= s.len() && #[trigger] s.subrange(k, k + needle.len())
                == needle;
        assert(s[k + a] == s.subrange(k, k + needle.len())[a]);
        let i = choose|i: int|
            0 <= i < needle.len() && 0 <= k + a - a + i < s.len() && #[trigger] s[k + a - a + i]
                != needle[i];
        assert(s[k + i] == s.subrange(k, k + needle.len())[i]);
    }
}

/// In a text guarded except at `j`, the needle can only occur with its anchor at `j`.
pub proof fn lemma_guarded_only_at(s: Seq<char>, needle: Seq<char>, a: int, j: int, k: int)
    requires
        0 <= a < needle.len(),
        guarded(s, needle, a, Some(j)),
        occurs_at(s, needle, k),
    ensures
        k == j - a,
{
    assert(s[k + a] == s.subrange(k, k + needle.len())[a]);
    if k + a != j {
        let i = choose|i: int|
            0 <= i < needle.len() && 0 <= k + a - a + i < s.len() && #[trigger] s[k + a - a + i]
                != needle[i];
        assert(s[k + i] == s.subrange(k, k + needle.len())[i]);
    }
}

} // verus!
