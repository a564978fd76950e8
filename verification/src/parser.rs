//! Extraction of the `og:title` metadata from a fetched HTML page: a
//! verified scanner for the meta tag, plus entity decoding through the
//! decoding crate.
//!
//! The recognized shape is `<meta`, whitespace, `property="og:title"`,
//! whitespace, `content="`, a non-empty run of characters other than a
//! quote, the closing quote, optional whitespace and an optional `/`
//! before the closing `>`. Whitespace here is ASCII whitespace.

use vstd::prelude::*;
use vstd::string::StrSliceExecFns;

verus! {

/// ASCII whitespace, as accepted between the fields of the meta tag.
pub open spec fn is_ws(c: char) -> bool {
    c == ' ' || c == '\t' || c == '\n' || c == '\r' || c == '\u{b}' || c == '\u{c}'
}

/// The first position at or after `i` that does not hold whitespace.
pub open spec fn skip_ws(s: Seq<char>, i: int) -> int
    decreases s.len() - i when 0 <= i <= s.len()
{
    if i < s.len() && is_ws(s[i]) {
        skip_ws(s, i + 1)
    } else {
        i
    }
}

/// Whether `lit` occurs in `s` starting exactly at `i`.
pub open spec fn has_lit(s: Seq<char>, i: int, lit: Seq<char>) -> bool {
    0 <= i && i + lit.len() <= s.len() && s.subrange(i, i + lit.len()) == lit
}

/// The first position at or after `i` holding a quote, or the length of
/// `s` if there is none.
pub open spec fn scan_quote(s: Seq<char>, i: int) -> int
    decreases s.len() - i when 0 <= i <= s.len()
{
    if i < s.len() && s[i] != '"' {
        scan_quote(s, i + 1)
    } else {
        i
    }
}

/// The capture bounds of a meta-tag match starting exactly at `i`:
/// the content between the quotes, or nothing if the tag shape does not
/// match here.
pub open spec fn og_capture_at(s: Seq<char>, i: int) -> Option<(int, int)> {
    if !has_lit(s, i, "<meta"@) {
        None
    } else {
        let a1 = i + "<meta"@.len();
        let b = skip_ws(s, a1);
        if b == a1 || !has_lit(s, b, "property=\"og:title\""@) {
            None
        } else {
            let c0 = b + "property=\"og:title\""@.len();
            let d = skip_ws(s, c0);
            if d == c0 || !has_lit(s, d, "content=\""@) {
                None
            } else {
                let e = d + "content=\""@.len();
                let f = scan_quote(s, e);
                if f == e || f >= s.len() {
                    None
                } else {
                    let g = skip_ws(s, f + 1);
                    if g < s.len() && s[g] == '>' {
                        Some((e, f))
                    } else if g + 1 < s.len() && s[g] == '/' && s[g + 1] == '>' {
                        Some((e, f))
                    } else {
                        None
                    }
                }
            }
        }
    }
}

/// The leftmost meta-tag match at or after `i`.
pub open spec fn find_og(s: Seq<char>, i: int) -> Option<(int, int)>
    decreases s.len() - i when 0 <= i <= s.len()
{
    if i >= s.len() {
        None
    } else if og_capture_at(s, i) is Some {
        og_capture_at(s, i)
    } else {
        find_og(s, i + 1)
    }
}

/// The raw captured title of the leftmost meta-tag match, before entity
/// decoding.
pub open spec fn og_title_capture(s: Seq<char>) -> Option<Seq<char>> {
    match find_og(s, 0) {
        Some((a, b)) => Some(s.subrange(a, b)),
        None => None,
    }
}

/// What the entity decoder returns for a given text; a function of the
/// characters alone.
pub uninterp spec fn html_decoded(s: Seq<char>) -> Seq<char>;

/// Relies on `html_escape::decode_html_entities`: the result depends on
/// the input text alone, and text holding no `&` holds no entity and is
/// returned unchanged.
#[verifier::external_body]
fn decode_entities(s: &str) -> (r: String)
    ensures
        r@ == html_decoded(s@),
        (forall|i: int| 0 <= i < s@.len() ==> s@[i] != '&') ==> r@ == s@,
{
    html_escape::decode_html_entities(s).into_owned()
}

/// Skipping whitespace from a position it already skipped to changes
/// nothing more; used to relate the scanning loop to `skip_ws`.
proof fn lemma_skip_ws_step(s: Seq<char>, i: int, j: int)
    requires
        0 <= i <= j <= s.len(),
        skip_ws(s, i) == skip_ws(s, j),
        j < s.len(),
        is_ws(s[j]),
    ensures
        skip_ws(s, i) == skip_ws(s, j + 1),
{
}

fn is_ws_exec(c: char) -> (r: bool)
    ensures
        r == is_ws(c),
{
    c == ' ' || c == '\t' || c == '\n' || c == '\r' || c == '\u{b}' || c == '\u{c}'
}

fn skip_ws_exec(s: &str, i: usize, n: usize) -> (r: usize)
    requires
        n == s@.len(),
        i <= n,
    ensures
        r == skip_ws(s@, i as int),
        i <= r <= n,
{
    let mut j = i;
    while j < n && is_ws_exec(s.get_char(j))
        invariant
            n == s@.len(),
            i <= j <= n,
            skip_ws(s@, i as int) == skip_ws(s@, j as int),
        decreases n - j,
    {
        proof {
            lemma_skip_ws_step(s@, i as int, j as int);
        }
        j = j + 1;
    }
    j
}

fn scan_quote_exec(s: &str, i: usize, n: usize) -> (r: usize)
    requires
        n == s@.len(),
        i <= n,
    ensures
        r == scan_quote(s@, i as int),
        i <= r <= n,
{
    let mut j = i;
    while j < n && s.get_char(j) != '"'
        invariant
            n == s@.len(),
            i <= j <= n,
            scan_quote(s@, i as int) == scan_quote(s@, j as int),
        decreases n - j,
    {
        j = j + 1;
    }
    j
}

fn has_lit_exec(s: &str, i: usize, n: usize, lit: &str) -> (r: bool)
    requires
        n == s@.len(),
        i <= n,
    ensures
        r == has_lit(s@, i as int, lit@),
{
    let m = lit.unicode_len();
    if m > n - i {
        return false;
    }
    let mut j: usize = 0;
    while j < m
        invariant
            n == s@.len(),
            m == lit@.len(),
            i + m <= n,
            j <= m,
            forall|k: int| 0 <= k < j ==> s@[i + k] == lit@[k],
        decreases m - j,
    {
        if s.get_char(i + j) != lit.get_char(j) {
            proof {
                assert(s@.subrange(i as int, i + m) != lit@) by {
                    assert(s@.subrange(i as int, i + m)[j as int] == s@[i + j]);
                }
            }
            return false;
        }
        j = j + 1;
    }
    proof {
        assert(s@.subrange(i as int, i + m) =~= lit@);
    }
    true
}

fn og_capture_at_exec(s: &str, i: usize, n: usize) -> (r: Option<(usize, usize)>)
    requires
        n == s@.len(),
        i <= n,
    ensures
        match r {
            Some(p) => og_capture_at(s@, i as int) == Some((p.0 as int, p.1 as int)) && p.0
                <= p.1 <= n,
            None => og_capture_at(s@, i as int) is None,
        },
{
    let lit_meta = "<meta";
    if !has_lit_exec(s, i, n, lit_meta) {
        return None;
    }
    let a1 = i + lit_meta.unicode_len();
    let b = skip_ws_exec(s, a1, n);
    let lit_prop = "property=\"og:title\"";
    if b == a1 || !has_lit_exec(s, b, n, lit_prop) {
        return None;
    }
    let c0 = b + lit_prop.unicode_len();
    let d = skip_ws_exec(s, c0, n);
    let lit_content = "content=\"";
    if d == c0 || !has_lit_exec(s, d, n, lit_content) {
        return None;
    }
    let e = d + lit_content.unicode_len();
    let f = scan_quote_exec(s, e, n);
    if f == e || f == n {
        return None;
    }
    let g = skip_ws_exec(s, f + 1, n);
    if g < n && s.get_char(g) == '>' {
        return Some((e, f));
    }
    if g < n && s.get_char(g) == '/' && g + 1 < n && s.get_char(g + 1) == '>' {
        return Some((e, f));
    }
    None
}

/// Positions before one where no match starts do not move the leftmost
/// match.
proof fn lemma_find_og_skip(s: Seq<char>, i: int)
    requires
        0 <= i <= s.len(),
        forall|j: int| 0 <= j < i ==> og_capture_at(s, j) is None,
    ensures
        find_og(s, 0) == find_og(s, i),
    decreases i,
{
    if i > 0 {
        lemma_find_og_skip(s, i - 1);
    }
}

/// The decoded `og:title` of a fetched page, if its markup holds the
/// meta tag; the leftmost match wins, and the raw capture is decoded
/// through the entity decoder.
pub fn get_og_title(html: &str) -> (r: Option<String>)
    ensures
        match og_title_capture(html@) {
            Some(cap) => match r {
                Some(t) => t@ == html_decoded(cap),
                None => false,
            },
            None => r is None,
        },
{
    let n = html.unicode_len();
    let mut i: usize = 0;
    while i < n
        invariant
            n == html@.len(),
            i <= n,
            forall|j: int| 0 <= j < i ==> og_capture_at(html@, j) is None,
        decreases n - i,
    {
        match og_capture_at_exec(html, i, n) {
            Some(p) => {
                proof {
                    lemma_find_og_skip(html@, i as int);
                }
                let cap = html.substring_char(p.0, p.1);
                let decoded = decode_entities(cap);
                return Some(decoded);
            },
            None => {
                i = i + 1;
            },
        }
    }
    proof {
        lemma_find_og_skip(html@, n as int);
    }
    None
}

} // verus!
