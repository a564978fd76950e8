//! The fallback session title: the current UTC time, formatted as
//! `YYYY-MM-DD HH:MM:SS` by verified code; only the clock reading itself
//! is trusted.

use crate::strutil::push_char;
use vstd::prelude::*;
use vstd::string::StrSliceExecFns;
use vstd::string::StringExecFns;

verus! {

/// Relies on `chrono::Utc::now` for the clock reading, and on the
/// `chrono::Datelike` and `chrono::Timelike` accessors of the result to
/// convert it to plain values: year, then month (1 to 12), day of month
/// (1 to 31), hour (0 to 23), minute (0 to 59) and second (0 to 59);
/// nothing is promised of the year.
#[verifier::external_body]
fn now_parts() -> (r: (i32, u32, u32, u32, u32, u32))
    ensures
        1 <= r.1 <= 12,
        1 <= r.2 <= 31,
        r.3 <= 23,
        r.4 <= 59,
        r.5 <= 59,
{
    let t = chrono::Utc::now();
    (
        chrono::Datelike::year(&t),
        chrono::Datelike::month(&t),
        chrono::Datelike::day(&t),
        chrono::Timelike::hour(&t),
        chrono::Timelike::minute(&t),
        chrono::Timelike::second(&t),
    )
}

/// The decimal digit characters of a non-negative number, most
/// significant first.
pub open spec fn dec_digits(n: int) -> Seq<char>
    decreases n when n >= 0
{
    if n < 10 {
        seq![digit_char(n)]
    } else {
        dec_digits(n / 10).push(digit_char(n % 10))
    }
}

/// The character of one decimal digit.
pub open spec fn digit_char(d: int) -> char {
    if d == 0 {
        '0'
    } else if d == 1 {
        '1'
    } else if d == 2 {
        '2'
    } else if d == 3 {
        '3'
    } else if d == 4 {
        '4'
    } else if d == 5 {
        '5'
    } else if d == 6 {
        '6'
    } else if d == 7 {
        '7'
    } else if d == 8 {
        '8'
    } else {
        '9'
    }
}

/// A decimal digit character.
pub open spec fn is_digit(c: char) -> bool {
    c == '0' || c == '1' || c == '2' || c == '3' || c == '4' || c == '5' || c == '6' || c == '7'
        || c == '8' || c == '9'
}

/// The decimal digits of a non-negative number, left-padded with zeros
/// to at least `w` characters.
pub open spec fn padded_dec(n: int, w: int) -> Seq<char> {
    if dec_digits(n).len() >= w {
        dec_digits(n)
    } else {
        Seq::new((w - dec_digits(n).len()) as nat, |i: int| '0') + dec_digits(n)
    }
}

/// The fallback title for a clock reading: date and time of day, each
/// field zero-padded, a negative year led by its sign.
pub open spec fn timestamp_spec(y: int, mo: int, d: int, h: int, mi: int, s: int) -> Seq<char> {
    let year = if y < 0 {
        seq!['-'] + padded_dec(-y, 4)
    } else {
        padded_dec(y, 4)
    };
    year + "-"@ + padded_dec(mo, 2) + "-"@ + padded_dec(d, 2) + " "@ + padded_dec(h, 2) + ":"@
        + padded_dec(mi, 2) + ":"@ + padded_dec(s, 2)
}

fn digit_char_exec(d: u32) -> (c: char)
    requires
        d <= 9,
    ensures
        c == digit_char(d as int),
{
    if d == 0 {
        '0'
    } else if d == 1 {
        '1'
    } else if d == 2 {
        '2'
    } else if d == 3 {
        '3'
    } else if d == 4 {
        '4'
    } else if d == 5 {
        '5'
    } else if d == 6 {
        '6'
    } else if d == 7 {
        '7'
    } else if d == 8 {
        '8'
    } else {
        '9'
    }
}

fn push_dec(out: &mut String, n: u32)
    ensures
        final(out)@ == old(out)@ + dec_digits(n as int),
    decreases n,
{
    if n < 10 {
        push_char(out, digit_char_exec(n));
        proof {
            assert(out@ =~= old(out)@ + dec_digits(n as int));
        }
    } else {
        push_dec(out, n / 10);
        push_char(out, digit_char_exec(n % 10));
        proof {
            assert(out@ =~= old(out)@ + dec_digits(n as int));
        }
    }
}

fn push_dec_padded(out: &mut String, n: u32, w: usize)
    ensures
        final(out)@ == old(out)@ + padded_dec(n as int, w as int),
{
    let mut digits = String::new();
    push_dec(&mut digits, n);
    proof {
        assert(digits@ =~= dec_digits(n as int));
    }
    let len = digits.as_str().unicode_len();
    let mut k = len;
    while k < w
        invariant
            len == dec_digits(n as int).len(),
            len <= k,
            k <= w || k == len,
            out@ == old(out)@ + Seq::new((k - len) as nat, |i: int| '0'),
        decreases w - k,
    {
        push_char(out, '0');
        proof {
            assert(out@ =~= old(out)@ + Seq::new((k + 1 - len) as nat, |i: int| '0'));
        }
        k = k + 1;
    }
    out.append(digits.as_str());
    proof {
        if len >= w {
            assert(out@ =~= old(out)@ + padded_dec(n as int, w as int));
        } else {
            assert(out@ =~= old(out)@ + padded_dec(n as int, w as int));
        }
    }
}

/// Formats a clock reading as the fallback title text.
pub fn format_timestamp(y: i32, mo: u32, d: u32, h: u32, mi: u32, s: u32) -> (r: String)
    ensures
        r@ == timestamp_spec(y as int, mo as int, d as int, h as int, mi as int, s as int),
{
    let mut out = String::new();
    if y < 0 {
        push_char(&mut out, '-');
        let mag: u32 = (-(y as i64)) as u32;
        proof {
            assert(mag == -(y as int));
        }
        push_dec_padded(&mut out, mag, 4);
    } else {
        push_dec_padded(&mut out, y as u32, 4);
    }
    out.append("-");
    push_dec_padded(&mut out, mo, 2);
    out.append("-");
    push_dec_padded(&mut out, d, 2);
    out.append(" ");
    push_dec_padded(&mut out, h, 2);
    out.append(":");
    push_dec_padded(&mut out, mi, 2);
    out.append(":");
    push_dec_padded(&mut out, s, 2);
    proof {
        assert(out@ =~= timestamp_spec(
            y as int,
            mo as int,
            d as int,
            h as int,
            mi as int,
            s as int,
        ));
    }
    out
}

/// A number below ten has one digit.
proof fn lemma_dec_digits_len1(n: int)
    requires
        0 <= n < 10,
    ensures
        dec_digits(n).len() == 1,
{
}

/// A number below one hundred has at most two digits.
proof fn lemma_dec_digits_len2(n: int)
    requires
        0 <= n < 100,
    ensures
        1 <= dec_digits(n).len() <= 2,
{
    if n >= 10 {
        lemma_dec_digits_len1(n / 10);
    }
}

/// A number below one thousand has at most three digits.
proof fn lemma_dec_digits_len3(n: int)
    requires
        0 <= n < 1000,
    ensures
        1 <= dec_digits(n).len() <= 3,
{
    if n >= 10 {
        lemma_dec_digits_len2(n / 10);
    }
}

/// A number below ten thousand has at most four digits.
proof fn lemma_dec_digits_len4(n: int)
    requires
        0 <= n < 10000,
    ensures
        1 <= dec_digits(n).len() <= 4,
{
    if n >= 10 {
        lemma_dec_digits_len3(n / 10);
    }
}

/// Every character of a decimal representation is a digit.
proof fn lemma_dec_digits_are_digits(n: int)
    requires
        n >= 0,
    ensures
        forall|i: int| 0 <= i < dec_digits(n).len() ==> is_digit(#[trigger] dec_digits(n)[i]),
    decreases n,
{
    if n >= 10 {
        lemma_dec_digits_are_digits(n / 10);
        assert forall|i: int| 0 <= i < dec_digits(n).len() implies is_digit(
            #[trigger] dec_digits(n)[i],
        ) by {
            if i < dec_digits(n / 10).len() {
                assert(dec_digits(n)[i] == dec_digits(n / 10)[i]);
            } else {
                assert(dec_digits(n)[i] == digit_char(n % 10));
            }
        }
    } else {
        assert(dec_digits(n)[0] == digit_char(n));
    }
}

/// Padding to a width at least the digit count gives exactly that width,
/// all digits.
proof fn lemma_padded_shape(n: int, w: int)
    requires
        n >= 0,
        w >= 0,
        dec_digits(n).len() <= w,
    ensures
        padded_dec(n, w).len() == w,
        forall|i: int| 0 <= i < w ==> is_digit(#[trigger] padded_dec(n, w)[i]),
{
    lemma_dec_digits_are_digits(n);
}

/// The fallback title always reads as a clock time: for a year of at
/// most four digits it is exactly 19 characters long, with the two `-`,
/// the space and the two `:` at their fixed places and a decimal digit
/// everywhere else.
pub proof fn lemma_timestamp_shape(y: int, mo: int, d: int, h: int, mi: int, s: int)
    requires
        0 <= y <= 9999,
        1 <= mo <= 12,
        1 <= d <= 31,
        0 <= h <= 23,
        0 <= mi <= 59,
        0 <= s <= 59,
    ensures
        timestamp_spec(y, mo, d, h, mi, s).len() == 19,
        timestamp_spec(y, mo, d, h, mi, s)[4] == '-',
        timestamp_spec(y, mo, d, h, mi, s)[7] == '-',
        timestamp_spec(y, mo, d, h, mi, s)[10] == ' ',
        timestamp_spec(y, mo, d, h, mi, s)[13] == ':',
        timestamp_spec(y, mo, d, h, mi, s)[16] == ':',
        forall|i: int|
            0 <= i < 19 && i != 4 && i != 7 && i != 10 && i != 13 && i != 16 ==> is_digit(
                #[trigger] timestamp_spec(y, mo, d, h, mi, s)[i],
            ),
{
    reveal_strlit("-");
    reveal_strlit(" ");
    reveal_strlit(":");
    lemma_dec_digits_len4(y);
    lemma_dec_digits_len2(mo);
    lemma_dec_digits_len2(d);
    lemma_dec_digits_len2(h);
    lemma_dec_digits_len2(mi);
    lemma_dec_digits_len2(s);
    lemma_padded_shape(y, 4);
    lemma_padded_shape(mo, 2);
    lemma_padded_shape(d, 2);
    lemma_padded_shape(h, 2);
    lemma_padded_shape(mi, 2);
    lemma_padded_shape(s, 2);
    let t = timestamp_spec(y, mo, d, h, mi, s);
    assert(t.len() == 19);
    assert forall|i: int|
        0 <= i < 19 && i != 4 && i != 7 && i != 10 && i != 13 && i != 16 implies is_digit(
        #[trigger] t[i],
    ) by {
        if i < 4 {
            assert(t[i] == padded_dec(y, 4)[i]);
        } else if i < 7 {
            assert(t[i] == padded_dec(mo, 2)[i - 5]);
        } else if i < 10 {
            assert(t[i] == padded_dec(d, 2)[i - 8]);
        } else if i < 13 {
            assert(t[i] == padded_dec(h, 2)[i - 11]);
        } else if i < 16 {
            assert(t[i] == padded_dec(mi, 2)[i - 14]);
        } else {
            assert(t[i] == padded_dec(s, 2)[i - 17]);
        }
    }
}

/// Whether a text is a formatted clock reading with in-range fields.
pub open spec fn is_fallback_timestamp(t: Seq<char>) -> bool {
    exists|y: int, mo: int, d: int, h: int, mi: int, s: int|
        1 <= mo <= 12 && 1 <= d <= 31 && 0 <= h <= 23 && 0 <= mi <= 59 && 0 <= s <= 59 && t
            == timestamp_spec(y, mo, d, h, mi, s)
}

/// The current UTC time formatted as the fallback title.
pub fn current_timestamp() -> (r: String)
    ensures
        is_fallback_timestamp(r@),
{
    let parts = now_parts();
    let r = format_timestamp(parts.0, parts.1, parts.2, parts.3, parts.4, parts.5);
    proof {
        assert(is_fallback_timestamp(r@)) by {
            assert(r@ == timestamp_spec(
                parts.0 as int,
                parts.1 as int,
                parts.2 as int,
                parts.3 as int,
                parts.4 as int,
                parts.5 as int,
            ));
        }
    }
    r
}

} // verus!
