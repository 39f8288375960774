//! Typed parameter values and their Flux literal form.

use vstd::prelude::*;
use crate::error::{RenderError, RenderErrorView};
use crate::grammar::{
    check_duration, check_float, check_identifier, check_timestamp, check_whole, is_duration,
    is_float, is_identifier, is_timestamp, is_whole,
};
use crate::text::{chars_of, push_all, string_of};

verus! {

/// A value that can stand in a query, tagged with its Flux kind.
///
/// `Float`, `Duration`, `Timestamp` and `Identifier` carry their text, which is
/// held to the kind's grammar when the value is rendered.
#[derive(Debug, PartialEq, Eq)]
pub enum FluxValue {
    /// Text, rendered as a quoted and escaped string literal.
    String(String),
    /// A signed integer, rendered in base 10.
    Integer(i64),
    /// The decimal text of a finite float, such as `-0.25` or `3`: digits
    /// with an optional fraction, as the shortest formatting that reads back
    /// to the same float gives them. An exponent, `NaN` and infinities are
    /// rejected.
    Float(String),
    /// `true` or `false`.
    Boolean(bool),
    /// A duration such as `-5m` or `1h30m`.
    Duration(String),
    /// An RFC 3339 UTC date-time such as `2024-02-29T12:00:00Z`.
    Timestamp(String),
    /// An unquoted name, such as that of a bucket or a measurement.
    Identifier(String),
}

/// A [`FluxValue`] as plain data.
pub enum ValueView {
    String(Seq<char>),
    Integer(int),
    Float(Seq<char>),
    Boolean(bool),
    Duration(Seq<char>),
    Timestamp(Seq<char>),
    Identifier(Seq<char>),
}

impl View for FluxValue {
    type V = ValueView;

    open spec fn view(&self) -> ValueView {
        match self {
            FluxValue::String(s) => ValueView::String(s@),
            FluxValue::Integer(i) => ValueView::Integer(*i as int),
            FluxValue::Float(s) => ValueView::Float(s@),
            FluxValue::Boolean(b) => ValueView::Boolean(*b),
            FluxValue::Duration(s) => ValueView::Duration(s@),
            FluxValue::Timestamp(s) => ValueView::Timestamp(s@),
            FluxValue::Identifier(s) => ValueView::Identifier(s@),
        }
    }
}

/// How one character of a string stands inside a string literal: `\` and `"`
/// get a `\` in front, every other character stands for itself.
pub open spec fn escape_char(c: char) -> Seq<char> {
    if c == '\\' || c == '"' {
        seq!['\\', c]
    } else {
        seq![c]
    }
}

/// The characters of `s`, each escaped.
pub open spec fn escape(s: Seq<char>) -> Seq<char>
    decreases s.len(),
{
    if s.len() == 0 {
        Seq::empty()
    } else {
        escape(s.drop_last()) + escape_char(s.last())
    }
}

/// The string literal for `s`: its escaped characters between double quotes.
pub open spec fn string_literal(s: Seq<char>) -> Seq<char> {
    seq!['"'] + escape(s) + seq!['"']
}

/// The text that the body of a string literal stands for, read from left to
/// right: `\\` is a backslash, `\"` is a quote, any other character but these
/// two is itself. `None` where a `"` stands unescaped or a `\` escapes
/// nothing.
pub open spec fn unescape(body: Seq<char>) -> Option<Seq<char>>
    decreases body.len(),
{
    if body.len() == 0 {
        Some(Seq::empty())
    } else if body[0] == '"' {
        None
    } else if body[0] == '\\' {
        if body.len() >= 2 && (body[1] == '\\' || body[1] == '"') {
            match unescape(body.skip(2)) {
                Some(rest) => Some(seq![body[1]] + rest),
                None => None,
            }
        } else {
            None
        }
    } else {
        match unescape(body.skip(1)) {
            Some(rest) => Some(seq![body[0]] + rest),
            None => None,
        }
    }
}

/// The text that a string literal stands for: `lit` is one literal, from its
/// opening quote to the closing quote at its very end, and this is what its
/// body spells. `None` where `lit` is not one whole string literal.
pub open spec fn parse_string_literal(lit: Seq<char>) -> Option<Seq<char>> {
    if lit.len() >= 2 && lit[0] == '"' && lit.last() == '"' {
        unescape(lit.subrange(1, lit.len() - 1))
    } else {
        None
    }
}

/// The character of a digit `0..=9`.
pub open spec fn digit_char(d: int) -> char {
    (d + '0' as int) as char
}

/// The base-10 digits of `n`, most significant first, without leading zeros.
pub open spec fn decimal(n: nat) -> Seq<char>
    decreases n,
{
    if n < 10 {
        seq![digit_char(n as int)]
    } else {
        decimal(n / 10).push(digit_char((n % 10) as int))
    }
}

/// The integer literal for `i`: `-` for a negative number, then the digits of
/// its magnitude.
pub open spec fn integer_literal(i: int) -> Seq<char> {
    if i < 0 {
        seq!['-'] + decimal((-i) as nat)
    } else {
        decimal(i as nat)
    }
}

/// The float literal for the decimal text `s`: the text itself where it has a
/// fraction, the text with `.0` after it where it is a whole number, so that
/// the literal always has a point and a fractional digit. `None` for any
/// other text.
pub open spec fn float_literal(s: Seq<char>) -> Option<Seq<char>> {
    if is_float(s) {
        Some(s)
    } else if is_whole(s) {
        Some(s + seq!['.', '0'])
    } else {
        None
    }
}

/// `rest` with `prefix` in front of it, where `rest` is what a text decodes to.
pub open spec fn prepend_decoded(prefix: Seq<char>, rest: Option<Seq<char>>) -> Option<Seq<char>> {
    match rest {
        Some(r) => Some(prefix + r),
        None => None,
    }
}

/// The boolean literal.
pub open spec fn boolean_literal(b: bool) -> Seq<char> {
    if b {
        seq!['t', 'r', 'u', 'e']
    } else {
        seq!['f', 'a', 'l', 's', 'e']
    }
}

impl ValueView {
    /// The Flux literal of this value, or the error that rejects it.
    pub open spec fn literal(self) -> Result<Seq<char>, RenderErrorView> {
        match self {
            ValueView::String(s) => Ok(string_literal(s)),
            ValueView::Integer(i) => Ok(integer_literal(i)),
            ValueView::Float(s) => match float_literal(s) {
                Some(lit) => Ok(lit),
                None => Err(RenderErrorView::InvalidFloat(s)),
            },
            ValueView::Boolean(b) => Ok(boolean_literal(b)),
            ValueView::Duration(s) => if is_duration(s) {
                Ok(s)
            } else {
                Err(RenderErrorView::InvalidDuration(s))
            },
            ValueView::Timestamp(s) => if is_timestamp(s) {
                Ok(s)
            } else {
                Err(RenderErrorView::InvalidTimestamp(s))
            },
            ValueView::Identifier(s) => if is_identifier(s) {
                Ok(s)
            } else {
                Err(RenderErrorView::InvalidIdentifier(s))
            },
        }
    }
}

/// Appends the escaped characters of `s` to `out`.
fn push_escaped(out: &mut Vec<char>, s: &Vec<char>)
    ensures
        final(out)@ == old(out)@ + escape(s@),
{
    let mut i: usize = 0;
    while i < s.len()
        invariant
            i <= s.len(),
            out@ == old(out)@ + escape(s@.take(i as int)),
        decreases s.len() - i,
    {
        let c = s[i];
        assert(s@.take(i + 1).drop_last() == s@.take(i as int));
        if c == '\\' || c == '"' {
            out.push('\\');
        }
        out.push(c);
        i += 1;
    }
    assert(s@.take(s.len() as int) == s@);
}

/// Appends the base-10 digits of `n` to `out`.
fn push_decimal(out: &mut Vec<char>, n: u64)
    ensures
        final(out)@ == old(out)@ + decimal(n as nat),
    decreases n,
{
    if n >= 10 {
        push_decimal(out, n / 10);
    }
    let d: u8 = (n % 10) as u8;
    let c: char = (d + 48u8) as char;
    out.push(c);
}

/// Appends the integer literal of `i` to `out`.
fn push_integer(out: &mut Vec<char>, i: i64)
    ensures
        final(out)@ == old(out)@ + integer_literal(i as int),
{
    if i < 0 {
        out.push('-');
        let magnitude: u64 = if i == i64::MIN {
            9223372036854775808u64
        } else {
            (-i) as u64
        };
        push_decimal(out, magnitude);
    } else {
        push_decimal(out, i as u64);
    }
}

/// Appends `true` or `false` to `out`.
fn push_boolean(out: &mut Vec<char>, b: bool)
    ensures
        final(out)@ == old(out)@ + boolean_literal(b),
{
    if b {
        out.push('t');
        out.push('r');
        out.push('u');
        out.push('e');
    } else {
        out.push('f');
        out.push('a');
        out.push('l');
        out.push('s');
        out.push('e');
    }
}

impl Clone for FluxValue {
    fn clone(&self) -> (r: FluxValue)
        ensures
            r@ == self@,
    {
        match self {
            FluxValue::String(s) => FluxValue::String(s.clone()),
            FluxValue::Integer(i) => FluxValue::Integer(*i),
            FluxValue::Float(s) => FluxValue::Float(s.clone()),
            FluxValue::Boolean(b) => FluxValue::Boolean(*b),
            FluxValue::Duration(s) => FluxValue::Duration(s.clone()),
            FluxValue::Timestamp(s) => FluxValue::Timestamp(s.clone()),
            FluxValue::Identifier(s) => FluxValue::Identifier(s.clone()),
        }
    }
}

impl FluxValue {
    /// Appends the Flux literal of this value to `out`, or rejects the value
    /// and leaves `out` as it was.
    pub fn push_literal(&self, out: &mut Vec<char>) -> (r: Result<(), RenderError>)
        ensures
            match self@.literal() {
                Ok(lit) => r is Ok && final(out)@ == old(out)@ + lit,
                Err(e) => r is Err && r->Err_0@ == e && final(out)@ == old(out)@,
            },
    {
        match self {
            FluxValue::String(s) => {
                let chars = chars_of(s.as_str());
                out.push('"');
                push_escaped(out, &chars);
                out.push('"');
                Ok(())
            },
            FluxValue::Integer(i) => {
                push_integer(out, *i);
                Ok(())
            },
            FluxValue::Float(s) => {
                let chars = chars_of(s.as_str());
                if check_float(&chars) {
                    push_all(out, &chars);
                    Ok(())
                } else if check_whole(&chars) {
                    push_all(out, &chars);
                    out.push('.');
                    out.push('0');
                    Ok(())
                } else {
                    Err(RenderError::InvalidFloat(s.clone()))
                }
            },
            FluxValue::Boolean(b) => {
                push_boolean(out, *b);
                Ok(())
            },
            FluxValue::Duration(s) => {
                let chars = chars_of(s.as_str());
                if check_duration(&chars) {
                    push_all(out, &chars);
                    Ok(())
                } else {
                    Err(RenderError::InvalidDuration(s.clone()))
                }
            },
            FluxValue::Timestamp(s) => {
                let chars = chars_of(s.as_str());
                if check_timestamp(&chars) {
                    push_all(out, &chars);
                    Ok(())
                } else {
                    Err(RenderError::InvalidTimestamp(s.clone()))
                }
            },
            FluxValue::Identifier(s) => {
                let chars = chars_of(s.as_str());
                if check_identifier(&chars) {
                    push_all(out, &chars);
                    Ok(())
                } else {
                    Err(RenderError::InvalidIdentifier(s.clone()))
                }
            },
        }
    }

    /// The Flux literal of this value, or the error that rejects it.
    pub fn to_literal(&self) -> (r: Result<String, RenderError>)
        ensures
            match self@.literal() {
                Ok(lit) => r is Ok && r->Ok_0@ == lit,
                Err(e) => r is Err && r->Err_0@ == e,
            },
    {
        let mut out: Vec<char> = Vec::new();
        match self.push_literal(&mut out) {
            Ok(()) => Ok(string_of(&out)),
            Err(e) => Err(e),
        }
    }
}

/// Reads a string literal back: the text that `lit` stands for, where `lit`
/// is one whole string literal, from its opening quote to the closing quote at
/// its end.
pub fn decode_string_literal(lit: &str) -> (r: Option<String>)
    ensures
        match parse_string_literal(lit@) {
            Some(s) => r is Some && r->Some_0@ == s,
            None => r is None,
        },
{
    let t = chars_of(lit);
    let n = t.len();
    if n < 2 || t[0] != '"' || t[n - 1] != '"' {
        return None;
    }
    let ghost body = t@.subrange(1, n - 1);
    let mut out: Vec<char> = Vec::new();
    let mut i: usize = 1;
    assert(body.skip(0) == body);
    while i < n - 1
        invariant
            1 <= i <= n - 1,
            n == t.len(),
            t@ == lit@,
            t@[0] == '"',
            t@[n - 1] == '"',
            body == t@.subrange(1, n - 1),
            unescape(body) == prepend_decoded(out@, unescape(body.skip(i - 1))),
        decreases n - i,
    {
        let ghost here = body.skip(i - 1);
        let c = t[i];
        if c == '"' {
            return None;
        }
        if c == '\\' {
            if i + 1 < n - 1 && (t[i + 1] == '\\' || t[i + 1] == '"') {
                assert(here.skip(2) == body.skip(i + 1));
                out.push(t[i + 1]);
                i += 2;
            } else {
                return None;
            }
        } else {
            assert(here.skip(1) == body.skip(i as int));
            out.push(c);
            i += 1;
        }
    }
    Some(string_of(&out))
}

} // verus!
