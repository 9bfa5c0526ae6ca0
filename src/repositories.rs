use vstd::prelude::*;
use crate::contribution::{connection_of, instant_field, PageView};
use crate::datetime::DateTime;
use crate::errors::ApiError;
use crate::json::{
    all_of, bool_of, boolean, field, field_of, get, get_of, lemma_all_of_prefix, lemma_all_of_step,
    opt_text, opt_text_of, parse_json, text, text_of, Json,
};
use crate::paging::{cursor_view, Page};
use crate::response::{
    bad_response, data_of, failure_after_data, failure_of, is_success, status_is_success, ApiErrorView,
};
use crate::sorting::{sort_by_created, sort_stable_by_created, Timestamped};

verus! {

/// The query for the repositories a user created or forked in a window, a
/// page at a time.
pub const QUERY: &'static str = "
    query RepositoriesCreated($user:String!, $from:DateTime!, $to:DateTime!, $cursor:String) {
        user(login:$user) {
            contributions_collection: contributionsCollection(from:$from, to:$to) {
                repository_contributions: repositoryContributions(first:100, after:$cursor) {
                    page_info: pageInfo {
                        end_cursor: endCursor,
                        has_next_page: hasNextPage
                    }
                    nodes {
                        repository {
                            name,
                            description,
                            parent { owner { login } },
                            owner { login },
                            created_at: createdAt,
                            url
                        }
                    }
                }
            }
        }
    }
";

/// A repository the user created or forked. A fork names the owner of the
/// repository it was forked from.
#[derive(Debug, Clone)]
pub struct Repository {
    pub name: String,
    pub description: Option<String>,
    pub owner: String,
    pub original_owner: Option<String>,
    pub created_at: DateTime,
    pub url: String,
}

pub struct RepositoryView {
    pub name: Seq<char>,
    pub description: Option<Seq<char>>,
    pub owner: Seq<char>,
    pub original_owner: Option<Seq<char>>,
    pub created_at: DateTime,
    pub url: Seq<char>,
}

pub open spec fn text_view(o: Option<String>) -> Option<Seq<char>> {
    match o {
        Some(s) => Some(s@),
        None => None,
    }
}

impl View for Repository {
    type V = RepositoryView;

    open spec fn view(&self) -> RepositoryView {
        RepositoryView {
            name: self.name@,
            description: text_view(self.description),
            owner: self.owner@,
            original_owner: text_view(self.original_owner),
            created_at: self.created_at,
            url: self.url@,
        }
    }
}

impl Timestamped for Repository {
    open spec fn created_key(&self) -> int {
        self.created_at.unix_nanos as int
    }

    fn created_nanos(&self) -> (r: i128) {
        self.created_at.unix_nanos
    }
}

/// The owner of the parent repository: none where there is no parent
/// (absent or null); where there is one, its owner's login is required.
pub open spec fn parent_owner_of(j: Option<Json>) -> Option<Option<Seq<char>>> {
    match j {
        None => Some(None),
        Some(Json::Null) => Some(None),
        Some(p) => match text_of(field_of(field(p, "owner"@), "login"@)) {
            Some(login) => Some(Some(login)),
            None => None,
        },
    }
}

/// The record that a repository object decodes to.
pub open spec fn repository_of(info: Json) -> Option<RepositoryView> {
    match (
        text_of(field(info, "name"@)),
        opt_text_of(field(info, "description"@)),
        parent_owner_of(field(info, "parent"@)),
        text_of(field_of(field(info, "owner"@), "login"@)),
        instant_field(field(info, "created_at"@)),
        text_of(field(info, "url"@)),
    ) {
        (Some(name), Some(description), Some(original_owner), Some(owner), Some(created_at), Some(url)) => Some(
            RepositoryView { name, description, owner, original_owner, created_at, url },
        ),
        _ => None,
    }
}

/// A node of the repository list: the record under `repository`.
pub open spec fn repository_node_of(n: Json) -> Option<RepositoryView> {
    match field(n, "repository"@) {
        Some(info) => repository_of(info),
        None => None,
    }
}

/// The page held by the repository connection.
pub open spec fn repository_page_of(conn: Option<Json>) -> Option<PageView<RepositoryView>> {
    let info = field_of(conn, "page_info"@);
    match (
        opt_text_of(field_of(info, "end_cursor"@)),
        bool_of(field_of(info, "has_next_page"@)),
        field_of(conn, "nodes"@),
    ) {
        (Some(end_cursor), Some(has_next_page), Some(Json::Array(nodes))) => match all_of(
            nodes@,
            |n: Json| repository_node_of(n),
        ) {
            Some(items) => Some(PageView { items, end_cursor, has_next_page }),
            None => None,
        },
        _ => None,
    }
}

/// What a response to the repository query means.
pub open spec fn repository_response_of(status: u16, body: Seq<char>) -> Result<PageView<RepositoryView>, ApiErrorView> {
    if !is_success(status) {
        Err(ApiErrorView::BadResponse(status, body))
    } else {
        match data_of(body) {
            Some(d) => match repository_page_of(connection_of(d, "repository_contributions"@)) {
                Some(p) => Ok(p),
                None => Err(failure_of(body)),
            },
            None => Err(failure_of(body)),
        }
    }
}

/// A page of repositories as values.
pub open spec fn repository_page_view(p: Page<Repository>) -> PageView<RepositoryView> {
    PageView {
        items: p.items@.map_values(|t: Repository| t@),
        end_cursor: cursor_view(p.end_cursor),
        has_next_page: p.has_next_page,
    }
}

/// Reads one repository object; a fork names its parent's owner.
pub fn decode_repository(info: &Json) -> (r: Option<Repository>)
    ensures
        r matches Some(t) ==> repository_of(*info) == Some(t@),
        r is None ==> repository_of(*info) is None,
{
    let name = text(get(info, "name"));
    let description = opt_text(get(info, "description"));
    let original_owner = match get(info, "parent") {
        None => Some(None),
        Some(Json::Null) => Some(None),
        Some(p) => match text(get_of(get(p, "owner"), "login")) {
            Some(login) => Some(Some(login)),
            None => None,
        },
    };
    let owner = text(get_of(get(info, "owner"), "login"));
    let created_at = match text(get(info, "created_at")) {
        Some(t) => DateTime::from_str(t.as_str()),
        None => None,
    };
    let url = text(get(info, "url"));
    match (name, description, original_owner, owner, created_at, url) {
        (Some(name), Some(description), Some(original_owner), Some(owner), Some(created_at), Some(url)) => {
            Some(Repository { name, description, owner, original_owner, created_at, url })
        },
        _ => None,
    }
}

fn decode_repository_page(data: &Json) -> (r: Option<Page<Repository>>)
    ensures
        r matches Some(p) ==> repository_page_of(connection_of(*data, "repository_contributions"@)) == Some(
            repository_page_view(p),
        ),
        r is None ==> repository_page_of(connection_of(*data, "repository_contributions"@)) is None,
{
    let conn = get_of(get_of(get(data, "user"), "contributions_collection"), "repository_contributions");
    let info = get_of(conn, "page_info");
    let end_cursor = match opt_text(get_of(info, "end_cursor")) {
        Some(c) => c,
        None => {
            return None;
        },
    };
    let has_next_page = match boolean(get_of(info, "has_next_page")) {
        Some(b) => b,
        None => {
            return None;
        },
    };
    let nodes = match get_of(conn, "nodes") {
        Some(Json::Array(nodes)) => nodes,
        _ => {
            return None;
        },
    };
    let ghost f = |n: Json| repository_node_of(n);
    let ghost spec_conn = connection_of(*data, "repository_contributions"@);
    assert(field_of(spec_conn, "nodes"@) == Some(Json::Array(*nodes)));
    let mut items: Vec<Repository> = Vec::new();
    let mut i: usize = 0;
    assert(nodes@.take(0) =~= Seq::<Json>::empty());
    assert(all_of(nodes@, f) is None ==> repository_page_of(spec_conn) is None);
    while i < nodes.len()
        invariant
            i <= nodes@.len(),
            spec_conn == connection_of(*data, "repository_contributions"@),
            all_of(nodes@, f) is None ==> repository_page_of(spec_conn) is None,
            f == (|n: Json| repository_node_of(n)),
            all_of(nodes@.take(i as int), f) == Some(items@.map_values(|t: Repository| t@)),
        decreases nodes@.len() - i,
    {
        proof {
            lemma_all_of_step(nodes@, i as int, f);
        }
        let decoded = match get(&nodes[i], "repository") {
            Some(info) => decode_repository(info),
            None => None,
        };
        match decoded {
            Some(t) => {
                let ghost prev = items@;
                let ghost tv = t@;
                items.push(t);
                assert(items@.map_values(|t: Repository| t@) =~= prev.map_values(|t: Repository| t@).push(tv));
            },
            None => {
                proof {
                    lemma_all_of_prefix(nodes@, i + 1, f);
                }
                return None;
            },
        }
        i = i + 1;
    }
    assert(nodes@.take(nodes@.len() as int) =~= nodes@);
    let r = Page { items, end_cursor, has_next_page };
    assert(cursor_view(r.end_cursor) == opt_text_of(field_of(field_of(spec_conn, "page_info"@), "end_cursor"@))->0);
    Some(r)
}

/// Reads one answer to the repository query.
pub fn decode_response(status: u16, body: &str) -> (r: Result<Page<Repository>, ApiError>)
    ensures
        r matches Ok(p) ==> repository_response_of(status, body@) == Ok::<_, ApiErrorView>(repository_page_view(p)),
        r matches Err(e) ==> repository_response_of(status, body@) == Err::<PageView<RepositoryView>, _>(e@),
{
    if !status_is_success(status) {
        return Err(bad_response(status, body));
    }
    let parsed = parse_json(body);
    if let Some(j) = &parsed {
        if let Some(d) = get(j, "data") {
            if let Some(p) = decode_repository_page(d) {
                return Ok(p);
            }
        }
    }
    Err(failure_after_data(&parsed, body))
}

/// The repositories of all pages, ordered by creation instant; those created
/// at the same instant keep the order they came in.
pub fn finish(items: Vec<Repository>) -> (r: Vec<Repository>)
    ensures
        r@ == sort_by_created(items@),
{
    sort_stable_by_created(items)
}

/// A repository that decodes has an original owner exactly when it has a
/// parent: without one (absent or null) it has none, and with one it has the
/// login of the parent's owner.
pub proof fn lemma_fork_detection(info: Json)
    requires
        repository_of(info) is Some,
    ensures
        (field(info, "parent"@) is None || field(info, "parent"@) == Some(Json::Null))
            ==> repository_of(info)->0.original_owner is None,
        forall|p: Json|
            field(info, "parent"@) == Some(p) && !(p is Null) ==> repository_of(info)->0.original_owner
                == text_of(field_of(field(p, "owner"@), "login"@)),
{
}

} // verus!
