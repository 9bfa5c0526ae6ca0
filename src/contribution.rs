use vstd::prelude::*;
use crate::datetime::{parse_spec, DateTime};
use crate::item_state::{state_of, ItemState};
use crate::json::{
    all_of, bool_of, boolean, field, field_of, get, get_of, lemma_all_of_prefix, lemma_all_of_step,
    opt_text, opt_text_of, text, text_of, Json,
};
use crate::paging::{cursor_view, Page};
use crate::response::{
    bad_response, data_of, failure_after_data, failure_of, is_success, status_is_success, ApiErrorView,
};
use crate::errors::ApiError;
use crate::json::parse_json;

verus! {

/// What an issue or a pull request record holds.
pub struct ContributionView {
    pub repository: Seq<char>,
    pub owner: Seq<char>,
    pub title: Seq<char>,
    pub state: ItemState,
    pub created_at: DateTime,
    pub body_text: Seq<char>,
}

/// A page as values: its records, the cursor after it, and whether more follow.
pub struct PageView<V> {
    pub items: Seq<V>,
    pub end_cursor: Option<Seq<char>>,
    pub has_next_page: bool,
}

/// A record type built from the fields of an issue or a pull request.
pub trait FromContribution: Sized {
    spec fn contribution(&self) -> ContributionView;

    fn build(
        repository: String,
        owner: String,
        title: String,
        state: ItemState,
        created_at: DateTime,
        body_text: String,
    ) -> (r: Self)
        ensures
            r.contribution() == (ContributionView {
                repository: repository@,
                owner: owner@,
                title: title@,
                state,
                created_at,
                body_text: body_text@,
            });
}

/// The state of a record: a string that is one of the three tokens.
pub open spec fn state_field(j: Option<Json>) -> Option<ItemState> {
    match text_of(j) {
        Some(t) => state_of(t),
        None => None,
    }
}

/// An instant: a string in ISO 8601.
pub open spec fn instant_field(j: Option<Json>) -> Option<DateTime> {
    match text_of(j) {
        Some(t) => parse_spec(t),
        None => None,
    }
}

/// The record that an issue or pull request object decodes to: the
/// repository's name and its owner's login flattened beside the title, the
/// state, the creation instant and the body text, all required.
pub open spec fn contribution_of(info: Json) -> Option<ContributionView> {
    let repo = field(info, "repository"@);
    match (
        text_of(field_of(repo, "name"@)),
        text_of(field_of(field_of(repo, "owner"@), "login"@)),
        text_of(field(info, "title"@)),
        state_field(field(info, "state"@)),
        instant_field(field(info, "created_at"@)),
        text_of(field(info, "body_text"@)),
    ) {
        (Some(repository), Some(owner), Some(title), Some(state), Some(created_at), Some(body_text)) => Some(
            ContributionView { repository, owner, title, state, created_at, body_text },
        ),
        _ => None,
    }
}

/// A node of a contribution list: the record under the given key.
pub open spec fn node_of(n: Json, key: Seq<char>) -> Option<ContributionView> {
    match field(n, key) {
        Some(info) => contribution_of(info),
        None => None,
    }
}

/// The page held by a contribution connection: its page info (a cursor that
/// may be null, a required flag) and its list of nodes, each of which must
/// decode.
pub open spec fn contribution_page_of(conn: Option<Json>, node_key: Seq<char>) -> Option<
    PageView<ContributionView>,
> {
    let info = field_of(conn, "page_info"@);
    match (
        opt_text_of(field_of(info, "end_cursor"@)),
        bool_of(field_of(info, "has_next_page"@)),
        field_of(conn, "nodes"@),
    ) {
        (Some(end_cursor), Some(has_next_page), Some(Json::Array(nodes))) => match all_of(
            nodes@,
            |n: Json| node_of(n, node_key),
        ) {
            Some(items) => Some(PageView { items, end_cursor, has_next_page }),
            None => None,
        },
        _ => None,
    }
}

/// The connection under `data.user.contributions_collection.<key>`.
pub open spec fn connection_of(data: Json, key: Seq<char>) -> Option<Json> {
    field_of(field_of(field(data, "user"@), "contributions_collection"@), key)
}

/// A page of records as values.
pub open spec fn contribution_page_view<T: FromContribution>(p: Page<T>) -> PageView<ContributionView> {
    PageView {
        items: p.items@.map_values(|t: T| t.contribution()),
        end_cursor: cursor_view(p.end_cursor),
        has_next_page: p.has_next_page,
    }
}

/// Reads one issue or pull request object.
pub fn decode_contribution<T: FromContribution>(info: &Json) -> (r: Option<T>)
    ensures
        r matches Some(t) ==> contribution_of(*info) == Some(t.contribution()),
        r is None ==> contribution_of(*info) is None,
{
    let repo = get(info, "repository");
    let repository = text(get_of(repo, "name"));
    let owner = text(get_of(get_of(repo, "owner"), "login"));
    let title = text(get(info, "title"));
    let state = match text(get(info, "state")) {
        Some(t) => ItemState::from_str(t.as_str()),
        None => None,
    };
    let created_at = match text(get(info, "created_at")) {
        Some(t) => DateTime::from_str(t.as_str()),
        None => None,
    };
    let body_text = text(get(info, "body_text"));
    match (repository, owner, title, state, created_at, body_text) {
        (Some(repository), Some(owner), Some(title), Some(state), Some(created_at), Some(body_text)) => {
            Some(T::build(repository, owner, title, state, created_at, body_text))
        },
        _ => None,
    }
}

/// Reads the page of records under `data.user.contributions_collection.<conn_key>`,
/// each node holding its record under `node_key`.
pub fn decode_contribution_page<T: FromContribution>(data: &Json, conn_key: &str, node_key: &str) -> (r:
    Option<Page<T>>)
    ensures
        r matches Some(p) ==> contribution_page_of(connection_of(*data, conn_key@), node_key@) == Some(
            contribution_page_view(p),
        ),
        r is None ==> contribution_page_of(connection_of(*data, conn_key@), node_key@) is None,
{
    let conn = get_of(get_of(get(data, "user"), "contributions_collection"), conn_key);
    let info = get_of(conn, "page_info");
    let end_cursor = match opt_text(get_of(info, "end_cursor")) {
        Some(c) => c,
        None => {
            return None;
        },
    };
    let has_next_page = match boolean(get_of(info, "has_next_page")) {
        Some(b) => b,
        None => {
            return None;
        },
    };
    let nodes = match get_of(conn, "nodes") {
        Some(Json::Array(nodes)) => nodes,
        _ => {
            return None;
        },
    };
    let ghost f = |n: Json| node_of(n, node_key@);
    let ghost spec_conn = connection_of(*data, conn_key@);
    assert(field_of(spec_conn, "nodes"@) == Some(Json::Array(*nodes)));
    let mut items: Vec<T> = Vec::new();
    let mut i: usize = 0;
    assert(nodes@.take(0) =~= Seq::<Json>::empty());
    assert(all_of(nodes@, f) is None ==> contribution_page_of(spec_conn, node_key@) is None);
    while i < nodes.len()
        invariant
            i <= nodes@.len(),
            spec_conn == connection_of(*data, conn_key@),
            all_of(nodes@, f) is None ==> contribution_page_of(spec_conn, node_key@) is None,
            f == (|n: Json| node_of(n, node_key@)),
            all_of(nodes@.take(i as int), f) == Some(items@.map_values(|t: T| t.contribution())),
        decreases nodes@.len() - i,
    {
        proof {
            lemma_all_of_step(nodes@, i as int, f);
        }
        let decoded = match get(&nodes[i], node_key) {
            Some(info) => decode_contribution::<T>(info),
            None => None,
        };
        match decoded {
            Some(t) => {
                let ghost prev = items@;
                let ghost tv = t.contribution();
                items.push(t);
                assert(items@.map_values(|t: T| t.contribution()) =~= prev.map_values(|t: T| t.contribution()).push(tv));
            },
            None => {
                proof {
                    lemma_all_of_prefix(nodes@, i + 1, f);
                }
                return None;
            },
        }
        i = i + 1;
    }
    assert(nodes@.take(nodes@.len() as int) =~= nodes@);
    let r = Page { items, end_cursor, has_next_page };
    assert(cursor_view(r.end_cursor) == opt_text_of(field_of(field_of(spec_conn, "page_info"@), "end_cursor"@))->0);
    Some(r)
}

/// What a response to a contribution query means: a status that is not
/// success is a bad response carrying the body; else the page under
/// `data`, where the body has one of the expected shape; else the failure
/// that the body holds.
pub open spec fn page_response_of(status: u16, body: Seq<char>, conn_key: Seq<char>, node_key: Seq<char>) -> Result<
    PageView<ContributionView>,
    ApiErrorView,
> {
    if !is_success(status) {
        Err(ApiErrorView::BadResponse(status, body))
    } else {
        match data_of(body) {
            Some(d) => match contribution_page_of(connection_of(d, conn_key), node_key) {
                Some(p) => Ok(p),
                None => Err(failure_of(body)),
            },
            None => Err(failure_of(body)),
        }
    }
}

/// Reads the answer to a contribution query.
pub fn decode_page_response<T: FromContribution>(status: u16, body: &str, conn_key: &str, node_key: &str) -> (r:
    Result<Page<T>, ApiError>)
    ensures
        r matches Ok(p) ==> page_response_of(status, body@, conn_key@, node_key@) == Ok::<_, ApiErrorView>(
            contribution_page_view(p),
        ),
        r matches Err(e) ==> page_response_of(status, body@, conn_key@, node_key@) == Err::<PageView<ContributionView>, _>(e@),
{
    if !status_is_success(status) {
        return Err(bad_response(status, body));
    }
    let parsed = parse_json(body);
    if let Some(j) = &parsed {
        if let Some(d) = get(j, "data") {
            if let Some(p) = decode_contribution_page::<T>(d, conn_key, node_key) {
                return Ok(p);
            }
        }
    }
    Err(failure_after_data(&parsed, body))
}

} // verus!
