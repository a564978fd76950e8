//! Small verified string-building helpers shared by the rest of the
//! library: appending a character and per-character rewrites.

use vstd::prelude::*;
use vstd::string::StrSliceExecFns;

verus! {

/// The character sequences of a sequence of strings: the view of each
/// element in order.
pub open spec fn seq_views(v: Seq<String>) -> Seq<Seq<char>> {
    Seq::new(v.len(), |i: int| v[i]@)
}

/// Relies on `String::push`: appends the character to the end of the string.
#[verifier::external_body]
pub fn push_char(s: &mut String, c: char)
    ensures
        final(s)@ == old(s)@.push(c),
{
    s.push(c)
}

/// The rewrite applied to a push credential embedded in an SRT address:
/// `&` and `?` both become `,`.
pub open spec fn srt_key_char(c: char) -> char {
    if c == '&' || c == '?' {
        ','
    } else {
        c
    }
}

/// The rewrite that keeps a session title filesystem-safe: `/` becomes
/// the full-width solidus.
pub open spec fn safe_title_char(c: char) -> char {
    if c == '/' {
        '\u{ff0f}'
    } else {
        c
    }
}

/// Rewrites a credential for embedding in an SRT address.
pub fn map_srt_key(s: &str) -> (r: String)
    ensures
        r@ == s@.map_values(|c: char| srt_key_char(c)),
{
    let n: usize = s.unicode_len();
    let mut r = String::new();
    let mut i: usize = 0;
    while i < n
        invariant
            n == s@.len(),
            i <= n,
            r@ == s@.subrange(0, i as int).map_values(|c: char| srt_key_char(c)),
        decreases n - i,
    {
        let c = s.get_char(i);
        let m = if c == '&' || c == '?' {
            ','
        } else {
            c
        };
        push_char(&mut r, m);
        proof {
            assert(s@.subrange(0, i + 1) =~= s@.subrange(0, i as int).push(s@[i as int]));
            assert(s@.subrange(0, i + 1).map_values(|c: char| srt_key_char(c)) =~= s@.subrange(
                0,
                i as int,
            ).map_values(|c: char| srt_key_char(c)).push(srt_key_char(s@[i as int])));
        }
        i = i + 1;
    }
    proof {
        assert(s@.subrange(0, n as int) =~= s@);
    }
    r
}

/// Rewrites a title so that it holds no path separator.
pub fn map_safe_title(s: &str) -> (r: String)
    ensures
        r@ == s@.map_values(|c: char| safe_title_char(c)),
{
    let n: usize = s.unicode_len();
    let mut r = String::new();
    let mut i: usize = 0;
    while i < n
        invariant
            n == s@.len(),
            i <= n,
            r@ == s@.subrange(0, i as int).map_values(|c: char| safe_title_char(c)),
        decreases n - i,
    {
        let c = s.get_char(i);
        let m = if c == '/' {
            '\u{ff0f}'
        } else {
            c
        };
        push_char(&mut r, m);
        proof {
            assert(s@.subrange(0, i + 1) =~= s@.subrange(0, i as int).push(s@[i as int]));
            assert(s@.subrange(0, i + 1).map_values(|c: char| safe_title_char(c)) =~= s@.subrange(
                0,
                i as int,
            ).map_values(|c: char| safe_title_char(c)).push(safe_title_char(s@[i as int])));
        }
        i = i + 1;
    }
    proof {
        assert(s@.subrange(0, n as int) =~= s@);
    }
    r
}

} // verus!
