use vstd::prelude::*;
use crate::contribution::{decode_page_response, page_response_of, ContributionView, FromContribution};
use crate::datetime::DateTime;
use crate::errors::ApiError;
use crate::item_state::ItemState;
use crate::paging::Page;
use crate::sorting::{sort_by_created, sort_stable_by_created, Timestamped};

verus! {

/// The query for the pull requests a user opened in a window, a page at a time.
pub const QUERY: &'static str = "
    query PullRequestContributions($user:String!, $from:DateTime!, $to:DateTime!, $cursor:String) {
        user(login:$user) {
            contributions_collection: contributionsCollection(from:$from, to:$to) {
                pull_request_contributions: pullRequestContributions(first:100, after:$cursor) {
                    page_info: pageInfo {
                        end_cursor: endCursor,
                        has_next_page: hasNextPage
                    }
                    nodes {
                        pull_request: pullRequest {
                            repository {
                                name,
                                owner { login }
                            },
                            title,
                            state,
                            created_at: createdAt,
                            body_text: bodyText,
                        }
                    }
                }
            }
        }
    }
";

/// A pull request the user opened.
#[derive(Debug, Clone)]
pub struct PullRequest {
    pub repository: String,
    pub owner: String,
    pub title: String,
    pub state: ItemState,
    pub created_at: DateTime,
    pub body_text: String,
}

impl FromContribution for PullRequest {
    open spec fn contribution(&self) -> ContributionView {
        ContributionView {
            repository: self.repository@,
            owner: self.owner@,
            title: self.title@,
            state: self.state,
            created_at: self.created_at,
            body_text: self.body_text@,
        }
    }

    fn build(
        repository: String,
        owner: String,
        title: String,
        state: ItemState,
        created_at: DateTime,
        body_text: String,
    ) -> (r: PullRequest) {
        PullRequest { repository, owner, title, state, created_at, body_text }
    }
}

impl Timestamped for PullRequest {
    open spec fn created_key(&self) -> int {
        self.created_at.unix_nanos as int
    }

    fn created_nanos(&self) -> (r: i128) {
        self.created_at.unix_nanos
    }
}

/// What a response to the pull request query means.
pub open spec fn pull_request_response_of(status: u16, body: Seq<char>) -> Result<
    crate::contribution::PageView<ContributionView>,
    crate::response::ApiErrorView,
> {
    page_response_of(status, body, "pull_request_contributions"@, "pull_request"@)
}

/// Reads one answer to the pull request query.
pub fn decode_response(status: u16, body: &str) -> (r: Result<Page<PullRequest>, ApiError>)
    ensures
        r matches Ok(p) ==> pull_request_response_of(status, body@) == Ok::<_, crate::response::ApiErrorView>(
            crate::contribution::contribution_page_view(p),
        ),
        r matches Err(e) ==> pull_request_response_of(status, body@) == Err::<crate::contribution::PageView<ContributionView>, _>(e@),
{
    decode_page_response::<PullRequest>(status, body, "pull_request_contributions", "pull_request")
}

/// The pull requests of all pages, ordered by creation instant; those
/// created at the same instant keep the order they came in.
pub fn finish(items: Vec<PullRequest>) -> (r: Vec<PullRequest>)
    ensures
        r@ == sort_by_created(items@),
{
    sort_stable_by_created(items)
}

} // verus!
