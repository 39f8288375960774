//! Expansion of a Flux template: every `{{name}}` becomes the literal of the
//! value that the parameter map binds to `name`.

use vstd::prelude::*;
use crate::error::{RenderError, RenderErrorView};
use crate::params::Params;
use crate::text::{chars_of, string_of, trim, trimmed_range};
use crate::value::ValueView;

verus! {

/// `{{` stands at `i`.
pub open spec fn opens_at(t: Seq<char>, i: int) -> bool {
    0 <= i && i + 1 < t.len() && t[i] == '{' && t[i + 1] == '{'
}

/// `}}` stands at `i`.
pub open spec fn closes_at(t: Seq<char>, i: int) -> bool {
    0 <= i && i + 1 < t.len() && t[i] == '}' && t[i + 1] == '}'
}

/// Where the first `}}` at or after `i` stands; `t.len()` where there is none.
pub open spec fn find_close(t: Seq<char>, i: int) -> int
    decreases t.len() - i,
{
    if i < 0 || i >= t.len() {
        t.len() as int
    } else if closes_at(t, i) {
        i
    } else {
        find_close(t, i + 1)
    }
}

/// `find_close` never looks back, and what it finds is a `}}`.
pub proof fn lemma_find_close(t: Seq<char>, i: int)
    requires
        0 <= i,
    ensures
        find_close(t, i) >= i || find_close(t, i) == t.len(),
        find_close(t, i) <= t.len(),
        find_close(t, i) < t.len() ==> closes_at(t, find_close(t, i)),
        forall|k: int| i <= k < find_close(t, i) ==> !closes_at(t, k),
    decreases t.len() - i,
{
    if i < t.len() && !closes_at(t, i) {
        lemma_find_close(t, i + 1);
    }
}

/// `rest` with `prefix` in front of it, where `rest` is a rendering.
pub open spec fn prepend(prefix: Seq<char>, rest: Result<Seq<char>, RenderErrorView>) -> Result<
    Seq<char>,
    RenderErrorView,
> {
    match rest {
        Ok(r) => Ok(prefix + r),
        Err(e) => Err(e),
    }
}

/// The rendering of the template `t` from position `i` on, in one scan from
/// left to right.
///
/// Where `{{` stands, the placeholder runs to the first `}}` after it; its name
/// is the text between them without surrounding whitespace, and the literal of
/// the value bound to that name takes its place. Every other character stands
/// for itself. The first placeholder that cannot be replaced decides the error.
pub open spec fn render_from(t: Seq<char>, i: int, params: Map<Seq<char>, ValueView>) -> Result<
    Seq<char>,
    RenderErrorView,
>
    decreases t.len() - i,
{
    if i < 0 || i >= t.len() {
        Ok(Seq::empty())
    } else if opens_at(t, i) {
        let j = find_close(t, i + 2);
        if j >= t.len() {
            Err(RenderErrorView::MalformedTemplate)
        } else {
            let name = trim(t.subrange(i + 2, j));
            if !params.contains_key(name) {
                Err(RenderErrorView::UnknownParameter(name))
            } else {
                match params[name].literal() {
                    Err(e) => Err(e),
                    Ok(lit) => {
                        proof {
                            lemma_find_close(t, i + 2);
                        }
                        prepend(lit, render_from(t, j + 2, params))
                    },
                }
            }
        }
    } else {
        prepend(seq![t[i]], render_from(t, i + 1, params))
    }
}

/// The rendering of the template `t` under the bindings `params`.
pub open spec fn render(t: Seq<char>, params: Map<Seq<char>, ValueView>) -> Result<
    Seq<char>,
    RenderErrorView,
> {
    render_from(t, 0, params)
}

/// Whether the scan of `t` from `i` on meets a placeholder named `name`.
pub open spec fn refers_from(t: Seq<char>, i: int, name: Seq<char>) -> bool
    decreases t.len() - i,
{
    if i < 0 || i >= t.len() {
        false
    } else if opens_at(t, i) {
        let j = find_close(t, i + 2);
        if j >= t.len() {
            false
        } else if trim(t.subrange(i + 2, j)) == name {
            true
        } else {
            proof {
                lemma_find_close(t, i + 2);
            }
            refers_from(t, j + 2, name)
        }
    } else {
        refers_from(t, i + 1, name)
    }
}

/// Whether the template `t` has a placeholder named `name`.
pub open spec fn refers_to(t: Seq<char>, name: Seq<char>) -> bool {
    refers_from(t, 0, name)
}

/// Whether every `{{` that the scan of `t` from `i` on meets has its `}}`.
pub open spec fn is_closed_from(t: Seq<char>, i: int) -> bool
    decreases t.len() - i,
{
    if i < 0 || i >= t.len() {
        true
    } else if opens_at(t, i) {
        let j = find_close(t, i + 2);
        if j >= t.len() {
            false
        } else {
            proof {
                lemma_find_close(t, i + 2);
            }
            is_closed_from(t, j + 2)
        }
    } else {
        is_closed_from(t, i + 1)
    }
}

/// Whether every placeholder of the template `t` is closed.
pub open spec fn is_closed(t: Seq<char>) -> bool {
    is_closed_from(t, 0)
}

/// Whether `params` binds `name` to a value that has a literal.
pub open spec fn satisfies(params: Map<Seq<char>, ValueView>, name: Seq<char>) -> bool {
    params.contains_key(name) && params[name].literal() is Ok
}

/// Whether `{{` stands somewhere in `s`.
pub open spec fn has_opening(s: Seq<char>) -> bool {
    exists|i: int| opens_at(s, i)
}

/// The position of the first `}}` at or after `i`.
fn find_closing(t: &Vec<char>, i: usize) -> (j: usize)
    requires
        i <= t.len(),
    ensures
        j == find_close(t@, i as int),
        i <= j <= t.len(),
        j < t.len() ==> j + 1 < t.len(),
{
    let mut j: usize = i;
    while j < t.len()
        invariant
            i <= j <= t.len(),
            find_close(t@, i as int) == find_close(t@, j as int),
        decreases t.len() - j,
    {
        if j + 1 < t.len() && t[j] == '}' && t[j + 1] == '}' {
            return j;
        }
        j += 1;
    }
    j
}

/// Renders Flux templates. It holds no state: every call stands alone.
pub struct QueryBuilder {}

impl QueryBuilder {
    /// A builder. All builders are alike.
    pub fn new() -> (b: QueryBuilder) {
        QueryBuilder {}
    }

    /// Renders `template` under `params`: the query text of
    /// [`render`], or the error of the first placeholder that cannot be
    /// replaced.
    pub fn generate_query(&self, template: &str, params: &Params) -> (r: Result<
        String,
        RenderError,
    >)
        ensures
            match render(template@, params@) {
                Ok(q) => r is Ok && r->Ok_0@ == q,
                Err(e) => r is Err && r->Err_0@ == e,
            },
    {
        let t = chars_of(template);
        let mut out: Vec<char> = Vec::new();
        let mut i: usize = 0;
        while i < t.len()
            invariant
                i <= t.len(),
                t@ == template@,
                render(t@, params@) == prepend(out@, render_from(t@, i as int, params@)),
            decreases t.len() - i,
        {
            let ghost before = out@;
            if i + 1 < t.len() && t[i] == '{' && t[i + 1] == '{' {
                let j = find_closing(&t, i + 2);
                if j >= t.len() {
                    return Err(RenderError::MalformedTemplate);
                }
                let name = trimmed_range(&t, i + 2, j);
                match params.get_chars(&name) {
                    None => {
                        return Err(RenderError::UnknownParameter(string_of(&name)));
                    },
                    Some(value) => {
                        match value.push_literal(&mut out) {
                            Err(e) => {
                                return Err(e);
                            },
                            Ok(()) => {
                                proof {
                                    let lit = value@.literal()->Ok_0;
                                    let rest = render_from(t@, j + 2, params@);
                                    if rest is Ok {
                                        assert(before + (lit + rest->Ok_0) == (before + lit)
                                            + rest->Ok_0);
                                    }
                                }
                            },
                        }
                    },
                }
                i = j + 2;
            } else {
                out.push(t[i]);
                proof {
                    let rest = render_from(t@, i + 1, params@);
                    if rest is Ok {
                        assert(before + (seq![t@[i as int]] + rest->Ok_0) == before.push(
                            t@[i as int],
                        ) + rest->Ok_0);
                    }
                }
                i += 1;
            }
        }
        Ok(string_of(&out))
    }
}

} // verus!
