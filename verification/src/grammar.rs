//! The textual grammars of the value kinds that are carried as text:
//! identifiers, floats, durations and timestamps.
//!
//! Each grammar is a spec predicate on `Seq<char>` together with an executable
//! recogniser proved to decide exactly that predicate.

use vstd::prelude::*;
use crate::text::{is_digit, is_letter, char_is_digit, char_is_letter};

verus! {

/// First character of an identifier: an ASCII letter or `_`.
pub open spec fn is_ident_start(c: char) -> bool {
    is_letter(c) || c == '_'
}

/// Any later character of an identifier: an ASCII letter, a digit or `_`.
pub open spec fn is_ident_continue(c: char) -> bool {
    is_letter(c) || is_digit(c) || c == '_'
}

/// The identifier grammar `[A-Za-z_][A-Za-z0-9_]*`.
pub open spec fn is_identifier(s: Seq<char>) -> bool {
    &&& s.len() > 0
    &&& is_ident_start(s[0])
    &&& forall|i: int| 0 < i < s.len() ==> is_ident_continue(#[trigger] s[i])
}

/// Decides [`is_identifier`].
pub fn check_identifier(s: &Vec<char>) -> (r: bool)
    ensures
        r == is_identifier(s@),
{
    if s.len() == 0 {
        return false;
    }
    let first = s[0];
    if !(char_is_letter(first) || first == '_') {
        return false;
    }
    let mut i: usize = 1;
    while i < s.len()
        invariant
            1 <= i <= s.len(),
            forall|k: int| 0 < k < i ==> is_ident_continue(#[trigger] s@[k]),
        decreases s.len() - i,
    {
        let c = s[i];
        if !(char_is_letter(c) || char_is_digit(c) || c == '_') {
            return false;
        }
        i += 1;
    }
    true
}

/// The digits, the point and the digits of a float, without the sign: the
/// point stands at `dot`, with at least one digit before it and one after it,
/// and every other character is a digit.
pub open spec fn is_unsigned_float_at(s: Seq<char>, dot: int) -> bool {
    &&& 0 < dot < s.len() - 1
    &&& s[dot] == '.'
    &&& forall|i: int| 0 <= i < s.len() && i != dot ==> is_digit(#[trigger] s[i])
}

/// Digits, a point and digits: `[0-9]+\.[0-9]+`.
pub open spec fn is_unsigned_float(s: Seq<char>) -> bool {
    exists|dot: int| is_unsigned_float_at(s, dot)
}

/// The float grammar `-?[0-9]+\.[0-9]+`: a decimal with a point and at least
/// one fractional digit. No exponent, no `NaN`, no infinity.
pub open spec fn is_float(s: Seq<char>) -> bool {
    if s.len() > 0 && s[0] == '-' {
        is_unsigned_float(s.skip(1))
    } else {
        is_unsigned_float(s)
    }
}

/// Decides whether the text from `start` on is digits, a point and digits.
fn check_unsigned_float(s: &Vec<char>, start: usize) -> (r: bool)
    requires
        start <= s.len(),
    ensures
        r == is_unsigned_float(s@.skip(start as int)),
{
    let ghost body = s@.skip(start as int);
    let mut i: usize = start;
    let mut seen: bool = false;
    let mut dot: usize = start;
    while i < s.len()
        invariant
            start <= i <= s.len(),
            body == s@.skip(start as int),
            seen ==> start <= dot < i && s@[dot as int] == '.',
            forall|k: int| start <= k < i && !(seen && k == dot) ==> is_digit(#[trigger] s@[k]),
        decreases s.len() - i,
    {
        let c = s[i];
        if c == '.' && !seen {
            seen = true;
            dot = i;
        } else if !char_is_digit(c) {
            proof {
                let bad = i - start;
                assert(body[bad] == c);
                assert forall|d: int| !is_unsigned_float_at(body, d) by {
                    if is_unsigned_float_at(body, d) && d == bad {
                        // `c` would be the point, but one stands before it
                        assert(body[dot - start] == '.');
                    }
                }
            }
            return false;
        }
        i += 1;
    }
    let ok = seen && start < dot && dot + 1 < s.len();
    proof {
        let at = dot - start;
        if ok {
            assert(is_unsigned_float_at(body, at));
        } else {
            assert forall|d: int| !is_unsigned_float_at(body, d) by {}
        }
    }
    ok
}

/// Decides [`is_float`].
pub fn check_float(s: &Vec<char>) -> (r: bool)
    ensures
        r == is_float(s@),
{
    if s.len() > 0 && s[0] == '-' {
        check_unsigned_float(s, 1)
    } else {
        assert(s@.skip(0) == s@);
        check_unsigned_float(s, 0)
    }
}

/// One or more digits.
pub open spec fn is_digits(s: Seq<char>) -> bool {
    s.len() > 0 && forall|i: int| 0 <= i < s.len() ==> is_digit(#[trigger] s[i])
}

/// A whole number `-?[0-9]+`: a decimal without a fraction.
pub open spec fn is_whole(s: Seq<char>) -> bool {
    if s.len() > 0 && s[0] == '-' {
        is_digits(s.skip(1))
    } else {
        is_digits(s)
    }
}

/// Decides whether the text from `start` on is one or more digits.
fn check_digits_from(s: &Vec<char>, start: usize) -> (r: bool)
    requires
        start <= s.len(),
    ensures
        r == is_digits(s@.skip(start as int)),
{
    let ghost body = s@.skip(start as int);
    if start == s.len() {
        return false;
    }
    let mut i: usize = start;
    while i < s.len()
        invariant
            start <= i <= s.len(),
            body == s@.skip(start as int),
            forall|k: int| 0 <= k < i - start ==> is_digit(#[trigger] body[k]),
        decreases s.len() - i,
    {
        if !char_is_digit(s[i]) {
            assert(!is_digit(body[i - start]));
            return false;
        }
        i += 1;
    }
    true
}

/// Decides [`is_whole`].
pub fn check_whole(s: &Vec<char>) -> (r: bool)
    ensures
        r == is_whole(s@),
{
    if s.len() > 0 && s[0] == '-' {
        check_digits_from(s, 1)
    } else {
        assert(s@.skip(0) == s@);
        check_digits_from(s, 0)
    }
}

/// Length of the duration unit that starts at `i`: 2 for `ns`, `us`, `ms`;
/// 1 for `s`, `m`, `h`, `d`, `w`; 0 where no unit starts. The longer unit wins,
/// so `ms` is milliseconds and never a minute followed by `s`.
pub open spec fn unit_len(s: Seq<char>, i: int) -> int {
    if 0 <= i && i + 1 < s.len() && (s[i] == 'n' || s[i] == 'u' || s[i] == 'm') && s[i + 1] == 's' {
        2
    } else if 0 <= i < s.len() && (s[i] == 's' || s[i] == 'm' || s[i] == 'h' || s[i] == 'd' || s[i]
        == 'w') {
        1
    } else {
        0
    }
}

/// End of the run of digits that starts at `i` (`i` itself where none starts).
pub open spec fn digits_end(s: Seq<char>, i: int) -> int
    decreases s.len() - i,
{
    if 0 <= i < s.len() && is_digit(s[i]) {
        digits_end(s, i + 1)
    } else {
        i
    }
}

/// From `i` to the end, `s` is one or more `<int><unit>` pairs: each is a
/// non-empty run of digits followed by a unit.
pub open spec fn is_pairs_from(s: Seq<char>, i: int) -> bool
    decreases s.len() - i,
{
    let j = digits_end(s, i);
    let u = unit_len(s, j);
    &&& 0 <= i < j
    &&& u > 0
    &&& (j + u == s.len() || is_pairs_from(s, j + u))
}

/// The duration grammar `-?([0-9]+(ns|us|ms|s|m|h|d|w))+`.
pub open spec fn is_duration(s: Seq<char>) -> bool {
    if s.len() > 0 && s[0] == '-' {
        is_pairs_from(s, 1)
    } else {
        is_pairs_from(s, 0)
    }
}

fn unit_length(s: &Vec<char>, i: usize) -> (u: usize)
    requires
        i <= s.len(),
    ensures
        u == unit_len(s@, i as int),
        i + u <= s.len(),
{
    if i >= s.len() {
        return 0;
    }
    let c = s[i];
    if (c == 'n' || c == 'u' || c == 'm') && i + 1 < s.len() && s[i + 1] == 's' {
        2
    } else if c == 's' || c == 'm' || c == 'h' || c == 'd' || c == 'w' {
        1
    } else {
        0
    }
}

fn end_of_digits(s: &Vec<char>, i: usize) -> (j: usize)
    requires
        i <= s.len(),
    ensures
        i <= j <= s.len(),
        j == digits_end(s@, i as int),
{
    let mut j: usize = i;
    while j < s.len() && char_is_digit(s[j])
        invariant
            i <= j <= s.len(),
            digits_end(s@, i as int) == digits_end(s@, j as int),
        decreases s.len() - j,
    {
        j += 1;
    }
    j
}

/// Decides [`is_duration`].
pub fn check_duration(s: &Vec<char>) -> (r: bool)
    ensures
        r == is_duration(s@),
{
    let mut i: usize = if s.len() > 0 && s[0] == '-' {
        1
    } else {
        0
    };
    loop
        invariant
            i <= s.len(),
            is_duration(s@) == is_pairs_from(s@, i as int),
        decreases s.len() - i,
    {
        let j = end_of_digits(s, i);
        if j == i {
            return false;
        }
        let u = unit_length(s, j);
        if u == 0 {
            return false;
        }
        i = j + u;
        if i == s.len() {
            return true;
        }
    }
}

/// Value of a digit character.
pub open spec fn digit_value(c: char) -> int {
    c as int - '0' as int
}

/// The number that the `n` digits of `s` from `i` on spell.
pub open spec fn number_at(s: Seq<char>, i: int, n: nat) -> int
    decreases n,
{
    if n == 0 {
        0
    } else {
        10 * number_at(s, i, (n - 1) as nat) + digit_value(s[i + n - 1])
    }
}

/// Leap years of the Gregorian calendar.
pub open spec fn is_leap_year(year: int) -> bool {
    year % 4 == 0 && (year % 100 != 0 || year % 400 == 0)
}

/// Number of days of a month, 1 to 12, in a year.
pub open spec fn days_in_month(year: int, month: int) -> int {
    if month == 2 {
        if is_leap_year(year) {
            29
        } else {
            28
        }
    } else if month == 4 || month == 6 || month == 9 || month == 11 {
        30
    } else {
        31
    }
}

/// What must stand at position `i < 19` of a timestamp `YYYY-MM-DDTHH:MM:SS`.
pub open spec fn timestamp_char_ok(i: int, c: char) -> bool {
    if i == 4 || i == 7 {
        c == '-'
    } else if i == 10 {
        c == 'T'
    } else if i == 13 || i == 16 {
        c == ':'
    } else {
        is_digit(c)
    }
}

/// The timestamp grammar: an RFC 3339 date-time in UTC,
/// `YYYY-MM-DDTHH:MM:SS` with an optional fraction of one or more digits and
/// the closing `Z`. The date exists in the Gregorian calendar, the hour is at
/// most 23, minute and second at most 59.
pub open spec fn is_timestamp(s: Seq<char>) -> bool {
    &&& s.len() >= 20
    &&& forall|i: int| 0 <= i < 19 ==> timestamp_char_ok(i, #[trigger] s[i])
    &&& 1 <= number_at(s, 5, 2) <= 12
    &&& 1 <= number_at(s, 8, 2) <= days_in_month(number_at(s, 0, 4), number_at(s, 5, 2))
    &&& number_at(s, 11, 2) <= 23
    &&& number_at(s, 14, 2) <= 59
    &&& number_at(s, 17, 2) <= 59
    &&& s.last() == 'Z'
    &&& (s.len() == 20 || (s.len() >= 22 && s[19] == '.' && forall|i: int|
        20 <= i < s.len() - 1 ==> is_digit(#[trigger] s[i])))
}

fn read_number(s: &Vec<char>, i: usize, n: usize) -> (r: u32)
    requires
        n <= 4,
        i + n <= s.len(),
        forall|k: int| i <= k < i + n ==> is_digit(#[trigger] s@[k]),
    ensures
        r == number_at(s@, i as int, n as nat),
        r <= 9999,
{
    let mut r: u32 = 0;
    let mut k: usize = 0;
    let ghost bound: int = 1;
    while k < n
        invariant
            k <= n <= 4,
            i + n <= s.len(),
            forall|k: int| i <= k < i + n ==> is_digit(#[trigger] s@[k]),
            r == number_at(s@, i as int, k as nat),
            r < bound,
            bound == 1 || bound == 10 || bound == 100 || bound == 1000 || bound == 10000,
            (k == 0 ==> bound == 1) && (k == 1 ==> bound <= 10) && (k == 2 ==> bound <= 100) && (k
                == 3 ==> bound <= 1000),
        decreases n - k,
    {
        let c = s[i + k];
        let d: u32 = c as u32 - '0' as u32;
        r = r * 10 + d;
        k += 1;
        proof {
            bound = bound * 10;
        }
    }
    r
}

fn leap_year(year: u32) -> (r: bool)
    ensures
        r == is_leap_year(year as int),
{
    year % 4 == 0 && (year % 100 != 0 || year % 400 == 0)
}

fn month_length(year: u32, month: u32) -> (r: u32)
    ensures
        r == days_in_month(year as int, month as int),
{
    if month == 2 {
        if leap_year(year) {
            29
        } else {
            28
        }
    } else if month == 4 || month == 6 || month == 9 || month == 11 {
        30
    } else {
        31
    }
}

/// Decides [`is_timestamp`].
pub fn check_timestamp(s: &Vec<char>) -> (r: bool)
    ensures
        r == is_timestamp(s@),
{
    let n = s.len();
    if n < 20 {
        return false;
    }
    let mut i: usize = 0;
    while i < 19
        invariant
            i <= 19,
            n == s.len(),
            n >= 20,
            forall|k: int| 0 <= k < i ==> timestamp_char_ok(k, #[trigger] s@[k]),
        decreases 19 - i,
    {
        let c = s[i];
        let ok = if i == 4 || i == 7 {
            c == '-'
        } else if i == 10 {
            c == 'T'
        } else if i == 13 || i == 16 {
            c == ':'
        } else {
            char_is_digit(c)
        };
        if !ok {
            return false;
        }
        i += 1;
    }
    assert forall|k: int| 0 <= k < 19 && k != 4 && k != 7 && k != 10 && k != 13 && k
        != 16 implies is_digit(#[trigger] s@[k]) by {}
    let year = read_number(s, 0, 4);
    let month = read_number(s, 5, 2);
    let day = read_number(s, 8, 2);
    let hour = read_number(s, 11, 2);
    let minute = read_number(s, 14, 2);
    let second = read_number(s, 17, 2);
    if month < 1 || month > 12 {
        return false;
    }
    if day < 1 || day > month_length(year, month) {
        return false;
    }
    if hour > 23 || minute > 59 || second > 59 {
        return false;
    }
    if s[n - 1] != 'Z' {
        return false;
    }
    if n == 20 {
        return true;
    }
    if n < 22 || s[19] != '.' {
        return false;
    }
    let mut j: usize = 20;
    while j < n - 1
        invariant
            20 <= j <= n - 1,
            n == s.len(),
            forall|k: int| 20 <= k < j ==> is_digit(#[trigger] s@[k]),
        decreases n - j,
    {
        if !char_is_digit(s[j]) {
            return false;
        }
        j += 1;
    }
    true
}

} // verus!
