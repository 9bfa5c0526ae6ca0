use vstd::prelude::*;
use crate::json::{
    all_of, field, get, lemma_all_of_prefix, lemma_all_of_step, strings, string_item, text,
    Json,
};

verus! {

/// One error that the server reported for a query: where it happened, when
/// it says, and what went wrong.
pub struct QueryError {
    pub path: Option<Vec<String>>,
    pub message: String,
}

pub struct QueryErrorView {
    pub path: Option<Seq<Seq<char>>>,
    pub message: Seq<char>,
}

impl View for QueryError {
    type V = QueryErrorView;

    open spec fn view(&self) -> QueryErrorView {
        QueryErrorView {
            path: match self.path {
                Some(p) => Some(p@.map_values(|s: String| s@)),
                None => None,
            },
            message: self.message@,
        }
    }
}

/// Why a query failed.
pub enum ApiError {
    /// The request could not be sent, or its answer not read.
    RequestError(String),
    /// The server answered with a status outside 200..=299; the body as sent.
    BadResponse(u16, String),
    /// The server reported errors for the query.
    QueryErrors(Vec<QueryError>),
    /// The body matched neither the expected data nor an error list; the
    /// body as sent.
    DecodeError(String),
}

/// The path of an error: absent and null mean none; else a list of strings.
pub open spec fn error_path_of(j: Option<Json>) -> Option<Option<Seq<Seq<char>>>> {
    match j {
        None => Some(None),
        Some(Json::Null) => Some(None),
        Some(Json::Array(items)) => match all_of(items@, |x: Json| string_item(x)) {
            Some(p) => Some(Some(p)),
            None => None,
        },
        _ => None,
    }
}

/// One reported error: an optional path and a required message.
pub open spec fn query_error_of(j: Json) -> Option<QueryErrorView> {
    match (error_path_of(field(j, "path"@)), field(j, "message"@)) {
        (Some(path), Some(Json::Str(m))) => Some(QueryErrorView { path, message: m@ }),
        _ => None,
    }
}

/// A body of the form `{ "errors": [ {path?, message}, .. ] }`.
pub open spec fn error_list_of(j: Json) -> Option<Seq<QueryErrorView>> {
    match field(j, "errors"@) {
        Some(Json::Array(items)) => all_of(items@, |x: Json| query_error_of(x)),
        _ => None,
    }
}

fn decode_query_error(j: &Json) -> (r: Option<QueryError>)
    ensures
        r matches Some(e) ==> query_error_of(*j) == Some(e@),
        r is None ==> query_error_of(*j) is None,
{
    let path = match get(j, "path") {
        None => None,
        Some(Json::Null) => None,
        Some(Json::Array(items)) => match strings(items) {
            Some(p) => Some(p),
            None => {
                return None;
            },
        },
        Some(_) => {
            return None;
        },
    };
    let message = match text(get(j, "message")) {
        Some(m) => m,
        None => {
            return None;
        },
    };
    Some(QueryError { path, message })
}

/// Reads a body of the form `{ "errors": [ {path?, message}, .. ] }`.
pub fn decode_error_list(j: &Json) -> (r: Option<Vec<QueryError>>)
    ensures
        r matches Some(v) ==> error_list_of(*j) == Some(v@.map_values(|e: QueryError| e@)),
        r is None ==> error_list_of(*j) is None,
{
    let items = match get(j, "errors") {
        Some(Json::Array(items)) => items,
        _ => {
            return None;
        },
    };
    let ghost f = |x: Json| query_error_of(x);
    let mut out: Vec<QueryError> = Vec::new();
    let mut i: usize = 0;
    assert(items@.take(0) =~= Seq::<Json>::empty());
    while i < items.len()
        invariant
            i <= items@.len(),
            f == (|x: Json| query_error_of(x)),
            error_list_of(*j) == all_of(items@, f),
            all_of(items@.take(i as int), f) == Some(out@.map_values(|e: QueryError| e@)),
        decreases items@.len() - i,
    {
        proof {
            lemma_all_of_step(items@, i as int, f);
        }
        match decode_query_error(&items[i]) {
            Some(e) => {
                let ghost prev = out@;
                let ghost ev = e@;
                out.push(e);
                assert(out@.map_values(|e: QueryError| e@) =~= prev.map_values(|e: QueryError| e@).push(ev));
            },
            None => {
                proof {
                    lemma_all_of_prefix(items@, i + 1, f);
                }
                return None;
            },
        }
        i = i + 1;
    }
    assert(items@.take(items@.len() as int) =~= items@);
    Some(out)
}

} // verus!
