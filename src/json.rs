use vstd::prelude::*;
use crate::text::same_text;

verus! {

/// A JSON document as a tree. Numbers keep their text; an object keeps its
/// members in the order the parser gives them.
#[derive(Debug)]
pub enum Json {
    Null,
    Bool(bool),
    Number(String),
    Str(String),
    Array(Vec<Json>),
    Object(Vec<(String, Json)>),
}

#[verifier::external_type_specification]
#[verifier::external_body]
pub struct ExJsonValue(serde_json::Value);

/// The tree that serde_json reads from a text, or nothing where the text is
/// not JSON.
pub uninterp spec fn json_parse(s: Seq<char>) -> Option<Json>;

/// The JSON string literal, quotes and escapes included, that serde_json
/// writes for a text.
pub uninterp spec fn json_quote(s: Seq<char>) -> Seq<char>;

/// Relies on `serde_json::from_str::<serde_json::Value>`: the result depends
/// on the text alone.
#[verifier::external_body]
pub(crate) fn parse_json(text: &str) -> (r: Option<Json>)
    ensures
        r == json_parse(text@),
{
    serde_json::from_str::<serde_json::Value>(text).ok().map(tree_of)
}

/// Relies on serde_json's `Value` variants: copies the tree one node for one.
#[verifier::external_body]
fn tree_of(v: serde_json::Value) -> Json {
    match v {
        serde_json::Value::Null => Json::Null,
        serde_json::Value::Bool(b) => Json::Bool(b),
        serde_json::Value::Number(n) => Json::Number(n.to_string()),
        serde_json::Value::String(s) => Json::Str(s),
        serde_json::Value::Array(a) => Json::Array(a.into_iter().map(tree_of).collect()),
        serde_json::Value::Object(m) => Json::Object(m.into_iter().map(|(k, v)| (k, tree_of(v))).collect()),
    }
}

/// Relies on `serde_json::to_string` of a `str`, which cannot fail: a string
/// literal, quoted and escaped.
#[verifier::external_body]
pub(crate) fn quote(s: &str) -> (r: String)
    ensures
        r@ == json_quote(s@),
{
    serde_json::to_string(s).unwrap_or_default()
}

/// The first member of an object's member list with the given key.
pub open spec fn member(fields: Seq<(String, Json)>, key: Seq<char>) -> Option<Json>
    decreases fields.len(),
{
    if fields.len() == 0 {
        None
    } else if fields[0].0@ == key {
        Some(fields[0].1)
    } else {
        member(fields.drop_first(), key)
    }
}

/// The member of an object with the given key; nothing for other values.
pub open spec fn field(j: Json, key: Seq<char>) -> Option<Json> {
    match j {
        Json::Object(m) => member(m@, key),
        _ => None,
    }
}

/// The member of a value that may be absent.
pub open spec fn field_of(j: Option<Json>, key: Seq<char>) -> Option<Json> {
    match j {
        Some(v) => field(v, key),
        None => None,
    }
}

/// A borrowed value that may be absent, as a value.
pub open spec fn opt(j: Option<&Json>) -> Option<Json> {
    match j {
        Some(v) => Some(*v),
        None => None,
    }
}

/// A required string.
pub open spec fn text_of(j: Option<Json>) -> Option<Seq<char>> {
    match j {
        Some(Json::Str(s)) => Some(s@),
        _ => None,
    }
}

/// A required boolean.
pub open spec fn bool_of(j: Option<Json>) -> Option<bool> {
    match j {
        Some(Json::Bool(b)) => Some(b),
        _ => None,
    }
}

/// An optional string: absent and null read as `Some(None)`, a string as
/// `Some(Some(..))`; anything else does not decode.
pub open spec fn opt_text_of(j: Option<Json>) -> Option<Option<Seq<char>>> {
    match j {
        None => Some(None),
        Some(Json::Null) => Some(None),
        Some(Json::Str(s)) => Some(Some(s@)),
        _ => None,
    }
}

/// Finds the member of an object with the given key.
pub fn get<'a>(j: &'a Json, key: &str) -> (r: Option<&'a Json>)
    ensures
        r matches Some(v) ==> field(*j, key@) == Some(*v),
        r is None ==> field(*j, key@) is None,
{
    match j {
        Json::Object(m) => {
            let mut i: usize = 0;
            assert(m@.subrange(0, m@.len() as int) =~= m@);
            while i < m.len()
                invariant
                    i <= m@.len(),
                    field(*j, key@) == member(m@, key@),
                    member(m@, key@) == member(m@.subrange(i as int, m@.len() as int), key@),
                decreases m@.len() - i,
            {
                let ghost rest = m@.subrange(i as int, m@.len() as int);
                assert(rest.drop_first() =~= m@.subrange(i + 1, m@.len() as int));
                assert(rest[0] == m@[i as int]);
                let entry = &m[i];
                if same_text(entry.0.as_str(), key) {
                    assert(member(rest, key@) == Some(entry.1));
                    return Some(&entry.1);
                }
                i = i + 1;
            }
            None
        },
        _ => None,
    }
}

/// Finds a member of a value that may be absent.
pub fn get_of<'a>(j: Option<&'a Json>, key: &str) -> (r: Option<&'a Json>)
    ensures
        r matches Some(v) ==> field_of(opt(j), key@) == Some(*v),
        r is None ==> field_of(opt(j), key@) is None,
{
    match j {
        Some(v) => get(v, key),
        None => None,
    }
}

/// Reads a required string.
pub fn text(j: Option<&Json>) -> (r: Option<String>)
    ensures
        r matches Some(s) ==> text_of(opt(j)) == Some(s@),
        r is None ==> text_of(opt(j)) is None,
{
    match j {
        Some(Json::Str(s)) => Some(s.clone()),
        _ => None,
    }
}

/// Reads a required boolean.
pub fn boolean(j: Option<&Json>) -> (r: Option<bool>)
    ensures
        r == bool_of(opt(j)),
{
    match j {
        Some(Json::Bool(b)) => Some(*b),
        _ => None,
    }
}

/// Reads an optional string.
pub fn opt_text(j: Option<&Json>) -> (r: Option<Option<String>>)
    ensures
        r matches Some(o) ==> opt_text_of(opt(j)) == Some(
            match o {
                Some(s) => Some(s@),
                None => None,
            },
        ),
        r is None ==> opt_text_of(opt(j)) is None,
{
    match j {
        None => Some(None),
        Some(Json::Null) => Some(None),
        Some(Json::Str(s)) => Some(Some(s.clone())),
        _ => None,
    }
}

/// Decodes every element with `f`; nothing if any element fails.
pub open spec fn all_of<A>(items: Seq<Json>, f: spec_fn(Json) -> Option<A>) -> Option<Seq<A>>
    decreases items.len(),
{
    if items.len() == 0 {
        Some(Seq::empty())
    } else {
        match all_of(items.drop_last(), f) {
            None => None,
            Some(done) => match f(items.last()) {
                None => None,
                Some(x) => Some(done.push(x)),
            },
        }
    }
}

/// A prefix that fails to decode makes the whole list fail.
pub proof fn lemma_all_of_prefix<A>(items: Seq<Json>, k: int, f: spec_fn(Json) -> Option<A>)
    requires
        0 <= k <= items.len(),
        all_of(items.take(k), f) is None,
    ensures
        all_of(items, f) is None,
    decreases items.len(),
{
    if k == items.len() {
        assert(items.take(k) =~= items);
    } else {
        assert(items.drop_last().take(k) =~= items.take(k));
        lemma_all_of_prefix(items.drop_last(), k, f);
    }
}

/// Decoding one more element extends the decoded prefix.
pub proof fn lemma_all_of_step<A>(items: Seq<Json>, k: int, f: spec_fn(Json) -> Option<A>)
    requires
        0 <= k < items.len(),
    ensures
        all_of(items.take(k + 1), f) == (match all_of(items.take(k), f) {
            None => None,
            Some(done) => match f(items[k]) {
                None => None,
                Some(x) => Some(done.push(x)),
            },
        }),
{
    assert(items.take(k + 1).drop_last() =~= items.take(k));
}

/// A list of strings.
pub open spec fn string_item(j: Json) -> Option<Seq<char>> {
    match j {
        Json::Str(s) => Some(s@),
        _ => None,
    }
}

/// Reads an array of strings.
pub fn strings(items: &Vec<Json>) -> (r: Option<Vec<String>>)
    ensures
        r matches Some(v) ==> all_of(items@, |j: Json| string_item(j)) == Some(v@.map_values(|s: String| s@)),
        r is None ==> all_of(items@, |j: Json| string_item(j)) is None,
{
    let ghost f = |j: Json| string_item(j);
    let mut out: Vec<String> = Vec::new();
    let mut i: usize = 0;
    assert(items@.take(0) =~= Seq::<Json>::empty());
    while i < items.len()
        invariant
            i <= items@.len(),
            f == (|j: Json| string_item(j)),
            all_of(items@.take(i as int), f) == Some(out@.map_values(|s: String| s@)),
        decreases items@.len() - i,
    {
        proof {
            lemma_all_of_step(items@, i as int, f);
        }
        match &items[i] {
            Json::Str(s) => {
                let ghost prev = out@;
                let c = s.clone();
                out.push(c);
                assert(out@.map_values(|s: String| s@) =~= prev.map_values(|s: String| s@).push(c@));
            },
            _ => {
                proof {
                    lemma_all_of_prefix(items@, i + 1, f);
                }
                return None;
            },
        }
        i = i + 1;
    }
    assert(items@.take(items@.len() as int) =~= items@);
    Some(out)
}

} // verus!
