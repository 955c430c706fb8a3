//! Verified rendering of integers and scaled integers (tenths, hundredths)
//! into decimal text, with space padding to fixed column widths.
//!
//! Numeric weather signals are carried as scaled integers: a value in tenths
//! renders as `D.D`, a value in hundredths as `D.DD`. Each executable
//! function returns exactly the character sequence its spec counterpart
//! describes.

use vstd::prelude::*;

verus! {

/// The decimal digit character for a value in 0..=9.
pub open spec fn digit_char(d: int) -> char {
    if d == 0 {
        '0'
    } else if d == 1 {
        '1'
    } else if d == 2 {
        '2'
    } else if d == 3 {
        '3'
    } else if d == 4 {
        '4'
    } else if d == 5 {
        '5'
    } else if d == 6 {
        '6'
    } else if d == 7 {
        '7'
    } else if d == 8 {
        '8'
    } else {
        '9'
    }
}

/// The decimal digits of a non-negative value, most significant first,
/// without sign or padding. Zero renders as "0".
pub open spec fn dec_digits(n: nat) -> Seq<char>
    decreases n,
{
    if n < 10 {
        seq![digit_char(n as int)]
    } else {
        dec_digits(n / 10).push(digit_char((n % 10) as int))
    }
}

/// The decimal text of an integer: a minus sign for negative values,
/// then the digits of the magnitude.
pub open spec fn int_text(v: int) -> Seq<char> {
    if v < 0 {
        seq!['-'] + dec_digits((-v) as nat)
    } else {
        dec_digits(v as nat)
    }
}

/// `n` spaces (none when `n <= 0`).
pub open spec fn spaces(n: int) -> Seq<char>
    decreases n,
{
    if n <= 0 {
        Seq::empty()
    } else {
        spaces(n - 1).push(' ')
    }
}

/// `s` right-aligned in a field of width `w`: space padding on the left,
/// and `s` unchanged when it is already at least `w` long.
pub open spec fn padded(s: Seq<char>, w: int) -> Seq<char> {
    spaces(w - s.len()) + s
}

/// A value in tenths as one-decimal text: sign, integer part, '.', and the
/// tenths digit (e.g. 234 tenths is "23.4", -5 tenths is "-0.5").
pub open spec fn tenths_text(t: int) -> Seq<char> {
    let m = if t < 0 { -t } else { t };
    let sign: Seq<char> = if t < 0 { seq!['-'] } else { Seq::empty() };
    sign + dec_digits((m / 10) as nat) + seq!['.', digit_char(m % 10)]
}

/// A non-negative value in hundredths as two-decimal text
/// (e.g. 4001 hundredths is "40.01").
pub open spec fn centi_text(c: nat) -> Seq<char> {
    dec_digits(c / 100) + seq!['.', digit_char(((c / 10) % 10) as int), digit_char((c % 10) as int)]
}

/// A value in tenths as always-signed one-decimal text
/// (e.g. 20 tenths is "+2.0", -15 tenths is "-1.5").
pub open spec fn signed_tenths_text(t: int) -> Seq<char> {
    let m = if t < 0 { -t } else { t };
    let sign: Seq<char> = if t < 0 { seq!['-'] } else { seq!['+'] };
    sign + dec_digits((m / 10) as nat) + seq!['.', digit_char(m % 10)]
}

/// The one-character string for a decimal digit.
pub fn digit_str(d: u64) -> (r: &'static str)
    requires
        d < 10,
    ensures
        r@ == seq![digit_char(d as int)],
{
    proof {
        reveal_strlit("0");
        reveal_strlit("1");
        reveal_strlit("2");
        reveal_strlit("3");
        reveal_strlit("4");
        reveal_strlit("5");
        reveal_strlit("6");
        reveal_strlit("7");
        reveal_strlit("8");
        reveal_strlit("9");
    }
    match d {
        0 => "0",
        1 => "1",
        2 => "2",
        3 => "3",
        4 => "4",
        5 => "5",
        6 => "6",
        7 => "7",
        8 => "8",
        _ => "9",
    }
}

/// The decimal digits of `n`, most significant first.
pub fn fmt_u64(n: u64) -> (r: String)
    ensures
        r@ == dec_digits(n as nat),
    decreases n,
{
    if n < 10 {
        String::from_str(digit_str(n))
    } else {
        let mut s = fmt_u64(n / 10);
        s.append(digit_str(n % 10));
        proof {
            assert(s@ =~= dec_digits((n / 10) as nat).push(digit_char((n % 10) as int)));
        }
        s
    }
}

/// The magnitude of `v` as a `u64`.
fn abs_u64(v: i64) -> (r: u64)
    requires
        v != i64::MIN,
    ensures
        r == (if v < 0 { -(v as int) } else { v as int }),
{
    if v < 0 {
        (-v) as u64
    } else {
        v as u64
    }
}

/// The decimal text of `v`, with a minus sign when negative.
pub fn fmt_i64(v: i64) -> (r: String)
    requires
        v != i64::MIN,
    ensures
        r@ == int_text(v as int),
{
    let m = abs_u64(v);
    let digits = fmt_u64(m);
    if v < 0 {
        let mut s = String::from_str("-");
        s.append(digits.as_str());
        proof {
            reveal_strlit("-");
            assert(s@ =~= int_text(v as int));
        }
        s
    } else {
        digits
    }
}

/// `s` right-aligned in a field of `w` columns.
pub fn pad_to(s: String, w: usize) -> (r: String)
    ensures
        r@ == padded(s@, w as int),
{
    let len = s.as_str().unicode_len();
    if len >= w {
        proof {
            assert(padded(s@, w as int) =~= s@);
        }
        return s;
    }
    let mut out = String::new();
    let mut i: usize = 0;
    while i < w - len
        invariant
            i <= w - len,
            len < w,
            len == s@.len(),
            out@ == spaces(i as int),
        decreases w - len - i,
    {
        out.append(" ");
        proof {
            reveal_strlit(" ");
            assert(out@ =~= spaces(i as int + 1));
        }
        i = i + 1;
    }
    out.append(s.as_str());
    out
}

/// The decimal text of `v`, right-aligned in `w` columns.
pub fn fmt_i64_w(v: i64, w: usize) -> (r: String)
    requires
        v != i64::MIN,
    ensures
        r@ == padded(int_text(v as int), w as int),
{
    pad_to(fmt_i64(v), w)
}

/// One-decimal text of a value in tenths, right-aligned in `w` columns.
pub fn fmt_tenths_w(t: i64, w: usize) -> (r: String)
    requires
        t != i64::MIN,
    ensures
        r@ == padded(tenths_text(t as int), w as int),
{
    let m = abs_u64(t);
    let mut s = if t < 0 {
        String::from_str("-")
    } else {
        String::new()
    };
    proof {
        reveal_strlit("-");
    }
    let whole = fmt_u64(m / 10);
    s.append(whole.as_str());
    s.append(".");
    s.append(digit_str(m % 10));
    proof {
        reveal_strlit(".");
        assert(s@ =~= tenths_text(t as int));
    }
    pad_to(s, w)
}

/// Two-decimal text of a non-negative value in hundredths.
pub fn fmt_centi(c: u64) -> (r: String)
    ensures
        r@ == centi_text(c as nat),
{
    let mut s = fmt_u64(c / 100);
    s.append(".");
    s.append(digit_str((c / 10) % 10));
    s.append(digit_str(c % 10));
    proof {
        reveal_strlit(".");
        assert(s@ =~= centi_text(c as nat));
    }
    s
}

/// Always-signed one-decimal text of a value in tenths.
pub fn fmt_signed_tenths(t: i64) -> (r: String)
    requires
        t != i64::MIN,
    ensures
        r@ == signed_tenths_text(t as int),
{
    let m = abs_u64(t);
    let mut s = if t < 0 {
        String::from_str("-")
    } else {
        String::from_str("+")
    };
    proof {
        reveal_strlit("-");
        reveal_strlit("+");
    }
    let whole = fmt_u64(m / 10);
    s.append(whole.as_str());
    s.append(".");
    s.append(digit_str(m % 10));
    proof {
        reveal_strlit(".");
        assert(s@ =~= signed_tenths_text(t as int));
    }
    s
}

} // verus!
