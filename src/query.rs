use vstd::prelude::*;
use crate::datetime::{format_spec, DateTime};
use crate::errors::ApiError;
use crate::json::{get, json_quote, parse_json, quote, text, text_of, field, json_parse};
use crate::response::{is_success, status_is_success};
use crate::variables::{binding_text, Variables};

verus! {

/// The characters that Rust's `char::is_whitespace` accepts: Unicode's
/// White_Space property.
pub open spec fn is_space(c: char) -> bool {
    c == '\t' || c == '\n' || c == '\u{0B}' || c == '\u{0C}' || c == '\r' || c == ' ' || c == '\u{85}'
        || c == '\u{A0}' || c == '\u{1680}' || ('\u{2000}' <= c && c <= '\u{200A}') || c == '\u{2028}'
        || c == '\u{2029}' || c == '\u{202F}' || c == '\u{205F}' || c == '\u{3000}'
}

fn char_is_space(c: char) -> (r: bool)
    ensures
        r == is_space(c),
{
    c == '\t' || c == '\n' || c == '\u{0B}' || c == '\u{0C}' || c == '\r' || c == ' ' || c == '\u{85}'
        || c == '\u{A0}' || c == '\u{1680}' || ('\u{2000}' <= c && c <= '\u{200A}') || c == '\u{2028}'
        || c == '\u{2029}' || c == '\u{202F}' || c == '\u{205F}' || c == '\u{3000}'
}

/// The index of the first character that is not white space.
pub open spec fn first_non_space(s: Seq<char>) -> int
    decreases s.len(),
{
    if s.len() == 0 || !is_space(s[0]) {
        0
    } else {
        1 + first_non_space(s.drop_first())
    }
}

/// The index of the first line break, or the length where there is none.
pub open spec fn first_break(s: Seq<char>) -> int
    decreases s.len(),
{
    if s.len() == 0 || s[0] == '\n' {
        0
    } else {
        1 + first_break(s.drop_first())
    }
}

/// The length left once trailing characters with property `p` are dropped.
pub open spec fn kept_len(s: Seq<char>, p: spec_fn(char) -> bool) -> int
    decreases s.len(),
{
    if s.len() == 0 || !p(s.last()) {
        s.len() as int
    } else {
        kept_len(s.drop_last(), p)
    }
}

/// `s` without trailing white space.
pub open spec fn trim_end(s: Seq<char>) -> Seq<char> {
    s.take(kept_len(s, |c: char| is_space(c)))
}

/// `s` without trailing opening braces.
pub open spec fn trim_braces(s: Seq<char>) -> Seq<char> {
    s.take(kept_len(s, |c: char| c == '{'))
}

/// The label of a query document: its first non-blank line, trimmed, with a
/// trailing `{` dropped; a document of white space alone has a fixed label.
pub open spec fn context_of(q: Seq<char>) -> Seq<char> {
    let t = q.skip(first_non_space(q));
    if t.len() == 0 {
        "<empty query>"@
    } else {
        trim_end(trim_braces(trim_end(t.take(first_break(t)))))
    }
}

proof fn lemma_first_non_space(s: Seq<char>, i: int)
    requires
        0 <= i <= s.len(),
        forall|k: int| 0 <= k < i ==> is_space(#[trigger] s[k]),
    ensures
        first_non_space(s) == i + first_non_space(s.skip(i)),
    decreases i,
{
    if i > 0 {
        assert(s.drop_first().skip(i - 1) =~= s.skip(i));
        assert forall|k: int| 0 <= k < i - 1 implies is_space(#[trigger] s.drop_first()[k]) by {
            assert(s.drop_first()[k] == s[k + 1]);
        }
        lemma_first_non_space(s.drop_first(), i - 1);
    } else {
        assert(s.skip(0) =~= s);
    }
}

proof fn lemma_first_break(s: Seq<char>, i: int)
    requires
        0 <= i <= s.len(),
        forall|k: int| 0 <= k < i ==> #[trigger] s[k] != '\n',
    ensures
        first_break(s) == i + first_break(s.skip(i)),
    decreases i,
{
    if i > 0 {
        assert(s.drop_first().skip(i - 1) =~= s.skip(i));
        assert forall|k: int| 0 <= k < i - 1 implies #[trigger] s.drop_first()[k] != '\n' by {
            assert(s.drop_first()[k] == s[k + 1]);
        }
        lemma_first_break(s.drop_first(), i - 1);
    } else {
        assert(s.skip(0) =~= s);
    }
}

proof fn lemma_kept_len(s: Seq<char>, j: int, p: spec_fn(char) -> bool)
    requires
        0 <= j <= s.len(),
        forall|k: int| j <= k < s.len() ==> p(#[trigger] s[k]),
    ensures
        kept_len(s, p) == kept_len(s.take(j), p),
    decreases s.len() - j,
{
    if j < s.len() {
        assert(s.drop_last().take(j) =~= s.take(j));
        lemma_kept_len(s.drop_last(), j, p);
    } else {
        assert(s.take(j) =~= s);
    }
}

/// The length of `s[..end]` once trailing characters with property `p` go.
fn trailing_cut(s: &str, end: usize, braces: bool) -> (r: usize)
    requires
        end <= s@.len(),
    ensures
        r <= end,
        r as int == kept_len(
            s@.take(end as int),
            if braces {
                |c: char| c == '{'
            } else {
                |c: char| is_space(c)
            },
        ),
{
    let ghost p = if braces {
        |c: char| c == '{'
    } else {
        |c: char| is_space(c)
    };
    let ghost t = s@.take(end as int);
    let mut j = end;
    while j > 0
        invariant
            j <= end <= s@.len(),
            t == s@.take(end as int),
            p == (if braces {
                |c: char| c == '{'
            } else {
                |c: char| is_space(c)
            }),
            forall|k: int| j <= k < end ==> p(#[trigger] t[k]),
        decreases j,
    {
        let c = s.get_char(j - 1);
        let drop = if braces {
            c == '{'
        } else {
            char_is_space(c)
        };
        if !drop {
            proof {
                lemma_kept_len(t, j as int, p);
                assert(t.take(j as int).last() == c);
            }
            return j;
        }
        j = j - 1;
    }
    proof {
        lemma_kept_len(t, 0, p);
    }
    0
}

/// The label of a query document, by which its failures are told apart.
pub fn context_label(q: &str) -> (r: String)
    ensures
        r@ == context_of(q@),
{
    let n = q.unicode_len();
    let mut start: usize = 0;
    while start < n && char_is_space(q.get_char(start))
        invariant
            n == q@.len(),
            start <= n,
            forall|k: int| 0 <= k < start ==> is_space(#[trigger] q@[k]),
        decreases n - start,
    {
        start = start + 1;
    }
    proof {
        lemma_first_non_space(q@, start as int);
        if start < n {
            assert(q@.skip(start as int)[0] == q@[start as int]);
        }
    }
    if start == n {
        return String::from_str("<empty query>");
    }
    let mut stop: usize = start;
    while stop < n && q.get_char(stop) != '\n'
        invariant
            n == q@.len(),
            start <= stop <= n,
            forall|k: int| start <= k < stop ==> #[trigger] q@[k] != '\n',
        decreases n - stop,
    {
        stop = stop + 1;
    }
    let ghost t = q@.skip(start as int);
    proof {
        assert forall|k: int| 0 <= k < stop - start implies #[trigger] t[k] != '\n' by {
            assert(t[k] == q@[start + k]);
        }
        lemma_first_break(t, stop - start);
        if stop < n {
            assert(t.skip(stop - start)[0] == q@[stop as int]);
        }
    }
    let line = q.substring_char(start, stop);
    assert(line@ =~= t.take(stop - start));
    let e1 = trailing_cut(line, line.unicode_len(), false);
    assert(line@.take(line@.len() as int) =~= line@);
    let e2 = trailing_cut(line, e1, true);
    assert(line@.take(e1 as int).take(e2 as int) =~= line@.take(e2 as int));
    let e3 = trailing_cut(line, e2, false);
    assert(line@.take(e2 as int).take(e3 as int) =~= line@.take(e3 as int));
    let label = line.substring_char(0, e3);
    assert(label@ =~= context_of(q@));
    String::from_str(label)
}

/// A failed query: the label of its document, and why it failed.
pub struct QueryFailure {
    pub context: String,
    pub error: ApiError,
}

/// Marks a failure with the label of the query that failed.
pub fn annotate(query: &str, error: ApiError) -> (r: QueryFailure)
    ensures
        r.context@ == context_of(query@),
        r.error == error,
{
    QueryFailure { context: context_label(query), error }
}

/// The variables text of a contribution query for a user, a window and a
/// cursor, where both instants can be written.
pub open spec fn window_text(user: Seq<char>, from: Seq<char>, to: Seq<char>, cursor: Option<Seq<char>>) -> Seq<char> {
    let a = binding_text(Seq::empty(), "user"@, Some(user));
    let b = a + binding_text(a, "from"@, Some(from));
    let c = b + binding_text(b, "to"@, Some(to));
    c + binding_text(c, "cursor"@, cursor)
}

/// Binds `user`, `from`, `to` and `cursor` for a contribution query; the
/// instants are written in ISO 8601 and a missing cursor is null. Nothing
/// where an instant cannot be written.
pub fn window_variables(user: &str, from: &DateTime, to: &DateTime, cursor: Option<&str>) -> (r: Option<
    Variables,
>)
    ensures
        r is None <==> (format_spec(*from) is None || format_spec(*to) is None),
        r matches Some(v) ==> v@ == window_text(
            user@,
            format_spec(*from)->0,
            format_spec(*to)->0,
            crate::variables::opt_view(cursor),
        ),
{
    let from_text = match from.to_iso_string() {
        Some(t) => t,
        None => {
            return None;
        },
    };
    let to_text = match to.to_iso_string() {
        Some(t) => t,
        None => {
            return None;
        },
    };
    let mut v = Variables::new();
    v.push("user", Some(user));
    v.push("from", Some(from_text.as_str()));
    v.push("to", Some(to_text.as_str()));
    v.push("cursor", cursor);
    Some(v)
}

/// The body of a query request: the document, and the variables where any
/// were bound.
pub open spec fn request_text(query: Seq<char>, vars: Seq<char>) -> Seq<char> {
    "{\"query\":"@ + json_quote(query) + (if vars.len() == 0 {
        Seq::empty()
    } else {
        ",\"variables\":"@ + vars + "}"@
    }) + "}"@
}

/// Frames a query and its variables as the JSON body of a request; with no
/// variable bound, the variables member is left out.
pub fn request_body(query: &str, vars: Variables) -> (r: String)
    ensures
        r@ == request_text(query@, vars@),
{
    let ghost vv = vars@;
    let mut out = String::from_str("{\"query\":");
    let q = quote(query);
    out.append(q.as_str());
    match vars.build() {
        Some(v) => {
            out.append(",\"variables\":");
            out.append(v.as_str());
        },
        None => {},
    }
    out.append("}");
    assert(out@ =~= request_text(query@, vv));
    out
}

/// Why the account behind a token could not be found.
pub enum AuthError {
    /// The lookup answered with a status outside 200..=299.
    Status(u16),
    /// The lookup's body was not an object with a string `login`.
    Decode,
}

/// The login in a user lookup's body, where it has one.
pub open spec fn login_of(body: Seq<char>) -> Option<Seq<char>> {
    match json_parse(body) {
        Some(j) => text_of(field(j, "login"@)),
        None => None,
    }
}

/// Reads the answer to a user lookup: the account's login.
pub fn decode_login(status: u16, body: &str) -> (r: Result<String, AuthError>)
    ensures
        !is_success(status) ==> (r matches Err(AuthError::Status(s)) && s == status),
        is_success(status) && login_of(body@) is None ==> (r matches Err(AuthError::Decode)),
        is_success(status) && login_of(body@) is Some ==> (r matches Ok(t) && t@ == login_of(body@)->0),
{
    if !status_is_success(status) {
        return Err(AuthError::Status(status));
    }
    match parse_json(body) {
        Some(j) => match text(get(&j, "login")) {
            Some(l) => Ok(l),
            None => Err(AuthError::Decode),
        },
        None => Err(AuthError::Decode),
    }
}

} // verus!
