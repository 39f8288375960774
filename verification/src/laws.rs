//! What holds of rendering as a whole, proved from the definitions.

use vstd::prelude::*;
use crate::builder::{
    find_close, has_opening, is_closed, is_closed_from, lemma_find_close, opens_at, refers_from,
    refers_to, render, render_from, satisfies,
};
use crate::client::{bucket_name, ClientView};
use crate::error::RenderErrorView;
use crate::grammar::{
    digits_end, is_float, is_ident_continue, is_pairs_from, is_unsigned_float_at,
    timestamp_char_ok, unit_len,
};
use crate::text::{is_digit, trim};
use crate::value::{
    decimal, escape, escape_char, parse_string_literal, string_literal, unescape, ValueView,
};

verus! {

/// Escaping goes character by character, so it can be read from the front.
proof fn lemma_escape_front(s: Seq<char>)
    requires
        s.len() > 0,
    ensures
        escape(s) == escape_char(s[0]) + escape(s.drop_first()),
    decreases s.len(),
{
    if s.len() == 1 {
        assert(s.drop_last() =~= Seq::<char>::empty());
        assert(s.drop_first() =~= Seq::<char>::empty());
    } else {
        let init = s.drop_last();
        lemma_escape_front(init);
        assert(init.drop_first() =~= s.drop_first().drop_last());
    }
}

/// The body of a string literal spells the text that was escaped.
proof fn lemma_unescape_escape(s: Seq<char>)
    ensures
        unescape(escape(s)) == Some(s),
    decreases s.len(),
{
    if s.len() > 0 {
        let c = s[0];
        let rest = s.drop_first();
        lemma_escape_front(s);
        lemma_unescape_escape(rest);
        let body = escape(s);
        if c == '\\' || c == '"' {
            assert(body.skip(2) =~= escape(rest));
        } else {
            assert(body.skip(1) =~= escape(rest));
        }
    }
}

/// Injection safety. The literal rendered for a string is one whole string
/// literal, closed only by its last character, and read back it is the string
/// itself: whatever the string holds, it stays inside the quotes.
pub proof fn lemma_string_literal_round_trip(s: Seq<char>)
    ensures
        ValueView::String(s).literal() == Ok::<Seq<char>, RenderErrorView>(string_literal(s)),
        parse_string_literal(string_literal(s)) == Some(s),
{
    let lit = string_literal(s);
    lemma_unescape_escape(s);
    assert(lit.subrange(1, lit.len() - 1) =~= escape(s));
}

/// No `{` stands in `s`.
spec fn brace_free(s: Seq<char>) -> bool {
    forall|k: int| 0 <= k < s.len() ==> #[trigger] s[k] != '{'
}

proof fn lemma_brace_free_no_opening(s: Seq<char>)
    requires
        brace_free(s),
    ensures
        !has_opening(s),
{
}

/// Joining two texts makes a `{{` only where the first ends and the second
/// begins with `{`.
proof fn lemma_concat_no_opening(a: Seq<char>, b: Seq<char>)
    requires
        !has_opening(a),
        !has_opening(b),
        !(a.len() > 0 && b.len() > 0 && a.last() == '{' && b[0] == '{'),
    ensures
        !has_opening(a + b),
{
    let c = a + b;
    assert forall|i: int| !opens_at(c, i) by {
        if opens_at(c, i) {
            if i + 1 < a.len() {
                assert(opens_at(a, i));
            } else if i >= a.len() {
                assert(opens_at(b, i - a.len()));
            }
        }
    }
}

proof fn lemma_escape_last(s: Seq<char>)
    requires
        s.len() > 0,
    ensures
        escape(s).len() > 0,
        escape(s).last() == s.last(),
{
}

/// Escaping puts nothing between two characters but a `\`, so it makes no
/// `{{` that was not there.
proof fn lemma_escape_no_opening(s: Seq<char>)
    requires
        !has_opening(s),
    ensures
        !has_opening(escape(s)),
    decreases s.len(),
{
    if s.len() == 0 {
        assert forall|i: int| !opens_at(escape(s), i) by {}
    } else {
        let init = s.drop_last();
        let tail = escape_char(s.last());
        assert forall|i: int| !opens_at(init, i) by {
            if opens_at(init, i) {
                assert(opens_at(s, i));
            }
        }
        lemma_escape_no_opening(init);
        assert forall|i: int| !opens_at(tail, i) by {}
        if init.len() > 0 {
            lemma_escape_last(init);
            if init.last() == '{' && tail[0] == '{' {
                assert(opens_at(s, s.len() - 2));
            }
        }
        lemma_concat_no_opening(escape(init), tail);
    }
}

proof fn lemma_decimal_digits(n: nat)
    ensures
        decimal(n).len() > 0,
        forall|k: int| 0 <= k < decimal(n).len() ==> is_digit(#[trigger] decimal(n)[k]),
    decreases n,
{
    if n >= 10 {
        lemma_decimal_digits(n / 10);
    }
}

proof fn lemma_digits_run(s: Seq<char>, i: int)
    requires
        0 <= i,
    ensures
        i <= digits_end(s, i),
        digits_end(s, i) <= s.len() || digits_end(s, i) == i,
        forall|k: int| i <= k < digits_end(s, i) ==> is_digit(#[trigger] s[k]),
    decreases s.len() - i,
{
    if i < s.len() && is_digit(s[i]) {
        lemma_digits_run(s, i + 1);
    }
}

proof fn lemma_pairs_brace_free(s: Seq<char>, i: int)
    requires
        0 <= i,
        is_pairs_from(s, i),
    ensures
        i < s.len(),
        forall|k: int| i <= k < s.len() ==> #[trigger] s[k] != '{',
    decreases s.len() - i,
{
    let j = digits_end(s, i);
    let u = unit_len(s, j);
    lemma_digits_run(s, i);
    if j + u != s.len() {
        lemma_pairs_brace_free(s, j + u);
    }
}

/// The literal of a value is never empty and neither begins nor ends with
/// `{`. It holds a `{{` only where the value is a string that holds one.
proof fn lemma_literal_shape(v: ValueView)
    requires
        v.literal() is Ok,
        v matches ValueView::String(s) ==> !has_opening(s),
    ensures
        ({
            let lit = v.literal()->Ok_0;
            &&& lit.len() > 0
            &&& lit[0] != '{'
            &&& lit.last() != '{'
            &&& !has_opening(lit)
        }),
{
    let lit = v.literal()->Ok_0;
    match v {
        ValueView::String(s) => {
            lemma_escape_no_opening(s);
            let quote = seq!['"'];
            assert forall|i: int| !opens_at(quote, i) by {}
            lemma_concat_no_opening(quote, escape(s));
            lemma_concat_no_opening(quote + escape(s), quote);
        },
        ValueView::Integer(i) => {
            if i < 0 {
                lemma_decimal_digits((-i) as nat);
            } else {
                lemma_decimal_digits(i as nat);
            }
            lemma_brace_free_no_opening(lit);
        },
        ValueView::Float(s) => {
            let body = if s.len() > 0 && s[0] == '-' {
                s.skip(1)
            } else {
                s
            };
            // Behind a sign, the characters of `s` are those of `body`.
            assert forall|k: int| 0 <= k < s.len() implies #[trigger] s[k] != '{' by {
                if s[0] == '-' && k > 0 {
                    assert(body[k - 1] == s[k]);
                }
            }
            lemma_brace_free_no_opening(lit);
        },
        ValueView::Boolean(b) => {
            lemma_brace_free_no_opening(lit);
        },
        ValueView::Duration(s) => {
            if s.len() > 0 && s[0] == '-' {
                lemma_pairs_brace_free(s, 1);
            } else {
                lemma_pairs_brace_free(s, 0);
            }
            lemma_brace_free_no_opening(lit);
        },
        ValueView::Timestamp(s) => {
            lemma_brace_free_no_opening(lit);
        },
        ValueView::Identifier(s) => {
            lemma_brace_free_no_opening(lit);
        },
    }
}

/// The name of the placeholder that opens at `i` and closes at `j`.
spec fn trim_of(t: Seq<char>, i: int, j: int) -> Seq<char> {
    trim(t.subrange(i + 2, j))
}

/// Every string that a placeholder of `t`, from `i` on, is replaced by is free
/// of `{{`.
spec fn strings_plain_from(t: Seq<char>, i: int, params: Map<Seq<char>, ValueView>) -> bool {
    forall|n: Seq<char>| #[trigger]
        refers_from(t, i, n) && params.contains_key(n) ==> (params[n] matches ValueView::String(s)
            ==> !has_opening(s))
}

proof fn lemma_no_opening_from(t: Seq<char>, i: int, params: Map<Seq<char>, ValueView>)
    requires
        0 <= i <= t.len(),
        render_from(t, i, params) is Ok,
        strings_plain_from(t, i, params),
    ensures
        !has_opening(render_from(t, i, params)->Ok_0),
        ({
            let out = render_from(t, i, params)->Ok_0;
            out.len() > 0 && out[0] == '{' ==> i < t.len() && t[i] == '{' && !opens_at(t, i)
        }),
    decreases t.len() - i,
{
    let out = render_from(t, i, params)->Ok_0;
    if i >= t.len() {
        assert forall|k: int| !opens_at(out, k) by {}
    } else if opens_at(t, i) {
        let j = find_close(t, i + 2);
        lemma_find_close(t, i + 2);
        let name = trim_of(t, i, j);
        let lit = params[name].literal()->Ok_0;
        let rest = render_from(t, j + 2, params)->Ok_0;
        assert(refers_from(t, i, name));
        assert forall|n: Seq<char>| #[trigger]
            refers_from(t, j + 2, n) && params.contains_key(n) implies (
        params[n] matches ValueView::String(s) ==> !has_opening(s)) by {
            assert(refers_from(t, i, n));
        }
        lemma_no_opening_from(t, j + 2, params);
        lemma_literal_shape(params[name]);
        lemma_concat_no_opening(lit, rest);
    } else {
        let rest = render_from(t, i + 1, params)->Ok_0;
        assert forall|n: Seq<char>| #[trigger]
            refers_from(t, i + 1, n) && params.contains_key(n) implies (
        params[n] matches ValueView::String(s) ==> !has_opening(s)) by {
            assert(refers_from(t, i, n));
        }
        lemma_no_opening_from(t, i + 1, params);
        let first = seq![t[i]];
        assert forall|k: int| !opens_at(first, k) by {}
        lemma_concat_no_opening(first, rest);
    }
}

/// Completeness. Where a template renders, no `{{` of the template is left:
/// the rendering holds a `{{` only inside the literal of a string value that
/// itself holds one. So where none of the strings that the template puts in
/// holds a `{{`, the rendering holds none.
pub proof fn lemma_rendered_has_no_placeholder(
    template: Seq<char>,
    params: Map<Seq<char>, ValueView>,
)
    requires
        render(template, params) is Ok,
        forall|n: Seq<char>| #[trigger]
            refers_to(template, n) && params.contains_key(n) ==> (
            params[n] matches ValueView::String(s) ==> !has_opening(s)),
    ensures
        !has_opening(render(template, params)->Ok_0),
{
    assert forall|n: Seq<char>| #[trigger]
        refers_from(template, 0, n) && params.contains_key(n) implies (
    params[n] matches ValueView::String(s) ==> !has_opening(s)) by {
        assert(refers_to(template, n));
    }
    lemma_no_opening_from(template, 0, params);
}

/// Every placeholder of `t`, from `i` on, names a parameter that `params`
/// binds to a value with a literal.
spec fn satisfied_from(t: Seq<char>, i: int, params: Map<Seq<char>, ValueView>) -> bool {
    forall|n: Seq<char>| #[trigger] refers_from(t, i, n) ==> satisfies(params, n)
}

proof fn lemma_render_from_ok(t: Seq<char>, i: int, params: Map<Seq<char>, ValueView>)
    requires
        0 <= i <= t.len(),
    ensures
        render_from(t, i, params) is Ok <==> is_closed_from(t, i) && satisfied_from(t, i, params),
    decreases t.len() - i,
{
    if i >= t.len() {
    } else if opens_at(t, i) {
        let j = find_close(t, i + 2);
        lemma_find_close(t, i + 2);
        if j < t.len() {
            let name = trim_of(t, i, j);
            lemma_render_from_ok(t, j + 2, params);
            assert(refers_from(t, i, name));
            if satisfied_from(t, i, params) {
                assert forall|n: Seq<char>| #[trigger] refers_from(t, j + 2, n) implies satisfies(
                    params,
                    n,
                ) by {
                    assert(refers_from(t, i, n));
                }
            }
            if satisfies(params, name) && satisfied_from(t, j + 2, params) {
                assert forall|n: Seq<char>| #[trigger] refers_from(t, i, n) implies satisfies(
                    params,
                    n,
                ) by {
                    if n != name {
                        assert(refers_from(t, j + 2, n));
                    }
                }
            }
        }
    } else {
        lemma_render_from_ok(t, i + 1, params);
        if satisfied_from(t, i, params) {
            assert forall|n: Seq<char>| #[trigger] refers_from(t, i + 1, n) implies satisfies(
                params,
                n,
            ) by {
                assert(refers_from(t, i, n));
            }
        }
        if satisfied_from(t, i + 1, params) {
            assert forall|n: Seq<char>| #[trigger] refers_from(t, i, n) implies satisfies(
                params,
                n,
            ) by {
                assert(refers_from(t, i + 1, n));
            }
        }
    }
}

/// When a template renders. It does exactly when each of its placeholders is
/// closed and names a parameter that is bound to a value with a literal;
/// parameters that no placeholder names play no part.
pub proof fn lemma_render_succeeds_iff_satisfied(
    template: Seq<char>,
    params: Map<Seq<char>, ValueView>,
)
    ensures
        render(template, params) is Ok <==> is_closed(template) && forall|n: Seq<char>| #[trigger]
            refers_to(template, n) ==> satisfies(params, n),
{
    lemma_render_from_ok(template, 0, params);
    if forall|n: Seq<char>| #[trigger] refers_to(template, n) ==> satisfies(params, n) {
        assert forall|n: Seq<char>| #[trigger] refers_from(template, 0, n) implies satisfies(
            params,
            n,
        ) by {
            assert(refers_to(template, n));
        }
    }
}

/// The bindings of the names that `t` refers to from `i` on are the same in
/// `p` and in `q`.
spec fn agree_from(
    t: Seq<char>,
    i: int,
    p: Map<Seq<char>, ValueView>,
    q: Map<Seq<char>, ValueView>,
) -> bool {
    forall|n: Seq<char>| #[trigger]
        refers_from(t, i, n) ==> p.contains_key(n) == q.contains_key(n) && (p.contains_key(n)
            ==> p[n] == q[n])
}

proof fn lemma_render_from_agrees(
    t: Seq<char>,
    i: int,
    p: Map<Seq<char>, ValueView>,
    q: Map<Seq<char>, ValueView>,
)
    requires
        0 <= i <= t.len(),
        agree_from(t, i, p, q),
    ensures
        render_from(t, i, p) == render_from(t, i, q),
    decreases t.len() - i,
{
    if i >= t.len() {
    } else if opens_at(t, i) {
        let j = find_close(t, i + 2);
        lemma_find_close(t, i + 2);
        if j < t.len() {
            let name = trim_of(t, i, j);
            assert(refers_from(t, i, name));
            assert forall|n: Seq<char>| #[trigger] refers_from(t, j + 2, n) implies p.contains_key(
                n,
            ) == q.contains_key(n) && (p.contains_key(n) ==> p[n] == q[n]) by {
                assert(refers_from(t, i, n));
            }
            lemma_render_from_agrees(t, j + 2, p, q);
        }
    } else {
        assert forall|n: Seq<char>| #[trigger] refers_from(t, i + 1, n) implies p.contains_key(n)
            == q.contains_key(n) && (p.contains_key(n) ==> p[n] == q[n]) by {
            assert(refers_from(t, i, n));
        }
        lemma_render_from_agrees(t, i + 1, p, q);
    }
}

/// Parameters that the template does not name are ignored: two maps that
/// bind the names of the template's placeholders alike give the same
/// rendering, or the same error.
pub proof fn lemma_render_ignores_extras(
    template: Seq<char>,
    p: Map<Seq<char>, ValueView>,
    q: Map<Seq<char>, ValueView>,
)
    requires
        forall|n: Seq<char>| #[trigger]
            refers_to(template, n) ==> p.contains_key(n) == q.contains_key(n) && (p.contains_key(
                n,
            ) ==> p[n] == q[n]),
    ensures
        render(template, p) == render(template, q),
{
    assert forall|n: Seq<char>| #[trigger] refers_from(template, 0, n) implies p.contains_key(n)
        == q.contains_key(n) && (p.contains_key(n) ==> p[n] == q[n]) by {
        assert(refers_to(template, n));
    }
    lemma_render_from_agrees(template, 0, p, q);
}

/// Determinism. The rendering is a function of the template's text and of
/// the bindings: the same text under the same bindings gives the same query,
/// character for character, or the same error.
pub proof fn lemma_render_deterministic(
    template: Seq<char>,
    params: Map<Seq<char>, ValueView>,
    again: Seq<char>,
    bindings: Map<Seq<char>, ValueView>,
)
    requires
        again =~= template,
        bindings =~= params,
    ensures
        render(again, bindings) == render(template, params),
{
}

/// Bucket authority. Whatever the caller bound to `bucket`, the bindings that
/// a query is rendered under bind it to the client's bucket, as an
/// identifier, and they leave every other name as the caller bound it.
pub proof fn lemma_bucket_authority(
    client: ClientView,
    params: Map<Seq<char>, ValueView>,
    theirs: ValueView,
)
    ensures
        client.effective_params(params).contains_key(bucket_name()),
        client.effective_params(params)[bucket_name()] == ValueView::Identifier(client.bucket),
        client.effective_params(params.insert(bucket_name(), theirs)) == client.effective_params(
            params,
        ),
        forall|n: Seq<char>|
            n != bucket_name() ==> client.effective_params(params).contains_key(n)
                == params.contains_key(n) && (params.contains_key(n) ==> #[trigger]
            client.effective_params(params)[n] == params[n]),
{
}

} // verus!
