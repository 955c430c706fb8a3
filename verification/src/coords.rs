//! The coordinate parser: extracts longitude and latitude from the
//! caller's combined coordinate string.
//!
//! The combined string carries the longitude first and the latitude second
//! ("lon,lat") — reversed from the natural order; the downstream controller
//! always sends it that way, so the order is kept deliberately. A field is
//! a plain decimal number: an optional sign, digits, and at most one
//! fractional part. Values outside physical coordinate bounds pass through
//! unchecked. Extra comma-separated fields beyond the second are ignored.

use vstd::prelude::*;
use crate::errors::WeatherError;

verus! {

/// Validated coordinates as decimal text, longitude first.
#[derive(Debug)]
pub struct Coordinates {
    pub longitude: String,
    pub latitude: String,
}

/// The index of the first occurrence of `c` in `s`, or `s.len()` when `c`
/// does not occur.
pub open spec fn first_at(s: Seq<char>, c: char) -> int
    decreases s.len(),
{
    if s.len() == 0 {
        0
    } else if s[0] == c {
        0
    } else {
        1 + first_at(s.skip(1), c)
    }
}

/// An index before which `c` does not occur, and at which it does (or the
/// end), is the first occurrence.
pub proof fn lemma_first_at(s: Seq<char>, c: char, i: int)
    requires
        0 <= i <= s.len(),
        forall|k: int| 0 <= k < i ==> s[k] != c,
        i < s.len() ==> s[i] == c,
    ensures
        first_at(s, c) == i,
    decreases i,
{
    if i == 0 {
        if s.len() > 0 && s[0] != c {
            assert(false);
        }
    } else {
        assert(s[0] != c);
        let t = s.skip(1);
        assert forall|k: int| 0 <= k < i - 1 implies t[k] != c by {
            assert(t[k] == s[k + 1]);
        }
        assert(i - 1 < t.len() ==> t[i - 1] == c) by {
            if i - 1 < t.len() {
                assert(t[i - 1] == s[i]);
            }
        }
        lemma_first_at(t, c, i - 1);
    }
}

/// Every character of `s` is a decimal digit.
pub open spec fn all_digits(s: Seq<char>) -> bool {
    forall|k: int| 0 <= k < s.len() ==> '0' <= #[trigger] s[k] <= '9'
}

/// Whether `s` is a decimal number: an optional leading sign, then digits,
/// optionally followed by one point and more digits.
pub open spec fn is_decimal_text(s: Seq<char>) -> bool {
    let t = if s.len() > 0 && (s[0] == '+' || s[0] == '-') {
        s.skip(1)
    } else {
        s
    };
    let d = first_at(t, '.');
    if d == t.len() {
        t.len() > 0 && all_digits(t)
    } else {
        d > 0 && t.len() - d - 1 > 0 && all_digits(t.take(d)) && all_digits(t.skip(d + 1))
    }
}

/// What parsing a combined coordinate string yields: the text before the
/// first comma and the text between the first and second comma (or the
/// end), when both are decimal numbers; nothing otherwise.
pub open spec fn spec_parse(s: Seq<char>) -> Option<(Seq<char>, Seq<char>)> {
    let i = first_at(s, ',');
    if i == s.len() {
        None
    } else {
        let rest = s.skip(i + 1);
        let j = first_at(rest, ',');
        let a = s.take(i);
        let b = rest.take(j);
        if is_decimal_text(a) && is_decimal_text(b) {
            Some((a, b))
        } else {
            None
        }
    }
}

/// The first index at or after `from` whose character is not a decimal
/// digit, or the length when all are digits.
fn scan_digits(f: &str, from: usize) -> (r: usize)
    requires
        from <= f@.len(),
    ensures
        from <= r <= f@.len(),
        forall|k: int| from <= k < r ==> '0' <= #[trigger] f@[k] <= '9',
        r < f@.len() ==> !('0' <= f@[r as int] <= '9'),
{
    let len = f.unicode_len();
    let mut i: usize = from;
    while i < len
        invariant
            from <= i <= len,
            len == f@.len(),
            forall|k: int| from <= k < i ==> '0' <= #[trigger] f@[k] <= '9',
        decreases len - i,
    {
        let c = f.get_char(i);
        if !(c >= '0' && c <= '9') {
            return i;
        }
        i = i + 1;
    }
    len
}

/// Whether `f` is a decimal number.
pub fn is_decimal_str(f: &str) -> (r: bool)
    ensures
        r == is_decimal_text(f@),
{
    let len = f.unicode_len();
    if len == 0 {
        proof {
            assert(first_at(f@, '.') == 0);
        }
        return false;
    }
    let c0 = f.get_char(0);
    let start: usize = if c0 == '+' || c0 == '-' {
        1
    } else {
        0
    };
    let ghost t: Seq<char> = if start == 1 {
        f@.skip(1)
    } else {
        f@
    };
    proof {
        assert(t.len() == len - start);
        assert forall|k: int| 0 <= k < t.len() implies #[trigger] t[k] == f@[k + start] by {
            if start == 1 {
                assert(f@.skip(1)[k] == f@[k + 1]);
            }
        }
    }
    let p = scan_digits(f, start);
    if p == len {
        // No point and no other non-digit: valid exactly when a digit exists.
        proof {
            assert forall|k: int| 0 <= k < t.len() implies #[trigger] t[k] != '.' by {
                assert(t[k] == f@[k + start]);
                assert('0' <= f@[k + start] <= '9');
            }
            lemma_first_at(t, '.', t.len() as int);
            if len > start {
                assert forall|k: int| 0 <= k < t.len() implies '0' <= #[trigger] t[k] <= '9' by {
                    assert(t[k] == f@[k + start]);
                }
            }
        }
        return len > start;
    }
    let cp = f.get_char(p);
    if cp == '.' {
        proof {
            assert(t[p - start] == '.');
            assert forall|k: int| 0 <= k < p - start implies #[trigger] t[k] != '.' by {
                assert(t[k] == f@[k + start]);
                assert('0' <= f@[k + start] <= '9');
            }
            lemma_first_at(t, '.', p - start);
        }
        if p == start {
            return false;
        }
        if p + 1 == len {
            return false;
        }
        let q = scan_digits(f, p + 1);
        if q < len {
            // A second non-digit after the point: not a decimal number.
            proof {
                let d = p - start;
                let kk = q - start - d - 1;
                assert(0 <= kk < t.skip(d + 1).len());
                assert(t.skip(d + 1)[kk] == t[kk + d + 1]);
                assert(t[kk + d + 1] == f@[q as int]);
                assert(!('0' <= t.skip(d + 1)[kk] <= '9'));
                assert(!all_digits(t.skip(d + 1)));
            }
            return false;
        }
        proof {
            let d = p - start;
            assert forall|k: int| 0 <= k < t.take(d).len() implies '0' <= #[trigger] t.take(d)[k]
                <= '9' by {
                assert(t.take(d)[k] == t[k]);
                assert(t[k] == f@[k + start]);
            }
            assert forall|k: int| 0 <= k < t.skip(d + 1).len() implies '0' <= #[trigger] t.skip(
                d + 1,
            )[k] <= '9' by {
                assert(t.skip(d + 1)[k] == t[k + d + 1]);
                assert(t[k + d + 1] == f@[k + d + 1 + start]);
            }
            assert(all_digits(t.take(d)));
            assert(all_digits(t.skip(d + 1)));
        }
        return true;
    }
    // The character at `p` is neither a digit nor a point.
    proof {
        let pt = p - start;
        assert(t[pt] == f@[p as int]);
        lemma_first_at_found(t, '.');
        let d = first_at(t, '.');
        if d == t.len() {
            assert(!('0' <= t[pt] <= '9'));
            assert(!all_digits(t));
        } else {
            assert(t[d] == '.');
            if d < pt {
                assert(t[d] == f@[d + start]);
                assert('0' <= f@[d + start] <= '9');
                assert(false);
            }
            if d == pt {
                assert(false);
            }
            assert(t.take(d)[pt] == t[pt]);
            assert(!('0' <= t.take(d)[pt] <= '9'));
            assert(!all_digits(t.take(d)));
        }
    }
    false
}

/// When `c` occurs in `s`, the first occurrence is a `c` preceded by none.
pub proof fn lemma_first_at_found(s: Seq<char>, c: char)
    ensures
        0 <= first_at(s, c) <= s.len(),
        first_at(s, c) < s.len() ==> s[first_at(s, c)] == c,
        forall|k: int| 0 <= k < first_at(s, c) ==> s[k] != c,
    decreases s.len(),
{
    if s.len() == 0 {
    } else if s[0] == c {
    } else {
        let t = s.skip(1);
        lemma_first_at_found(t, c);
        assert forall|k: int| 0 <= k < first_at(s, c) implies s[k] != c by {
            if k > 0 {
                assert(t[k - 1] == s[k]);
            }
        }
        if first_at(s, c) < s.len() {
            assert(t[first_at(t, c)] == s[first_at(s, c)]);
        }
    }
}

/// The index of the first comma at or after `from`, or the length when
/// there is none.
fn find_comma(s: &str, from: usize) -> (r: usize)
    requires
        from <= s@.len(),
    ensures
        from <= r <= s@.len(),
        r < s@.len() ==> s@[r as int] == ',',
        forall|k: int| from <= k < r ==> s@[k] != ',',
{
    let len = s.unicode_len();
    let mut i: usize = from;
    while i < len
        invariant
            from <= i <= len,
            len == s@.len(),
            forall|k: int| from <= k < i ==> s@[k] != ',',
        decreases len - i,
    {
        if s.get_char(i) == ',' {
            return i;
        }
        i = i + 1;
    }
    len
}

/// Parses the combined coordinate string: the text before the first comma
/// is the longitude, the text between the first and second comma (or the
/// end) is the latitude. Fails with `MalformedCoordinates` exactly when
/// there is no comma or either field is not a decimal number.
pub fn parse_coordinates(input: &str) -> (r: Result<Coordinates, WeatherError>)
    ensures
        r matches Ok(c) ==> spec_parse(input@) == Some((c.longitude@, c.latitude@)),
        r is Err <==> spec_parse(input@) is None,
        r matches Err(e) ==> e == WeatherError::MalformedCoordinates,
{
    let len = input.unicode_len();
    let i = find_comma(input, 0);
    proof {
        lemma_first_at(input@, ',', i as int);
    }
    if i == len {
        return Err(WeatherError::MalformedCoordinates);
    }
    let j = find_comma(input, i + 1);
    let ghost rest: Seq<char> = input@.skip(i + 1);
    proof {
        assert forall|k: int| 0 <= k < (j - i - 1) implies rest[k] != ',' by {
            assert(rest[k] == input@[k + i + 1]);
        }
        if j < len {
            assert(rest[j - i - 1] == input@[j as int]);
        }
        lemma_first_at(rest, ',', j - i - 1);
    }
    let lon = input.substring_char(0, i);
    let lat = input.substring_char(i + 1, j);
    proof {
        assert(lon@ =~= input@.take(i as int));
        assert(lat@ =~= rest.take(j - i - 1));
    }
    if !is_decimal_str(lon) {
        return Err(WeatherError::MalformedCoordinates);
    }
    if !is_decimal_str(lat) {
        return Err(WeatherError::MalformedCoordinates);
    }
    Ok(Coordinates { longitude: lon.to_owned(), latitude: lat.to_owned() })
}

} // verus!
