use vstd::prelude::*;
use crate::errors::{error_list_of, decode_error_list, ApiError, QueryErrorView};
use crate::json::{field, json_parse, Json};

verus! {

/// The statuses that count as success: 200 to 299.
pub open spec fn is_success(status: u16) -> bool {
    200 <= status <= 299
}

/// Whether a status counts as success.
pub fn status_is_success(status: u16) -> (r: bool)
    ensures
        r == is_success(status),
{
    200 <= status && status <= 299
}

pub enum ApiErrorView {
    RequestError(Seq<char>),
    BadResponse(u16, Seq<char>),
    QueryErrors(Seq<QueryErrorView>),
    DecodeError(Seq<char>),
}

impl View for ApiError {
    type V = ApiErrorView;

    open spec fn view(&self) -> ApiErrorView {
        match self {
            ApiError::RequestError(m) => ApiErrorView::RequestError(m@),
            ApiError::BadResponse(s, b) => ApiErrorView::BadResponse(*s, b@),
            ApiError::QueryErrors(es) => ApiErrorView::QueryErrors(es@.map_values(|e: crate::errors::QueryError| e@)),
            ApiError::DecodeError(b) => ApiErrorView::DecodeError(b@),
        }
    }
}

/// The `data` member of a body, where the body is JSON and has one.
pub open spec fn data_of(body: Seq<char>) -> Option<Json> {
    match json_parse(body) {
        Some(j) => field(j, "data"@),
        None => None,
    }
}

/// The failure for a successful status whose body held no data of the
/// expected shape: the server's error list where the body is one, else a
/// decode error carrying the body.
pub open spec fn failure_of(body: Seq<char>) -> ApiErrorView {
    match json_parse(body) {
        Some(j) => match error_list_of(j) {
            Some(es) => ApiErrorView::QueryErrors(es),
            None => ApiErrorView::DecodeError(body),
        },
        None => ApiErrorView::DecodeError(body),
    }
}

/// The failure for a status that is not success.
pub fn bad_response(status: u16, body: &str) -> (r: ApiError)
    ensures
        r@ == ApiErrorView::BadResponse(status, body@),
{
    ApiError::BadResponse(status, String::from_str(body))
}

/// The failure once the data member did not decode: tries the error list
/// next, and falls back to a decode error carrying the body.
pub(crate) fn failure_after_data(parsed: &Option<Json>, body: &str) -> (r: ApiError)
    requires
        *parsed == json_parse(body@),
    ensures
        r@ == failure_of(body@),
{
    match parsed {
        Some(j) => match decode_error_list(j) {
            Some(es) => ApiError::QueryErrors(es),
            None => ApiError::DecodeError(String::from_str(body)),
        },
        None => ApiError::DecodeError(String::from_str(body)),
    }
}

} // verus!
