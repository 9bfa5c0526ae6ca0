use github_summarizer::datetime::DateTime;
use github_summarizer::errors::ApiError;
use github_summarizer::issues::{self, Issue};
use github_summarizer::item_state::ItemState;
use github_summarizer::paging::{Page, Pager};
use github_summarizer::pull_requests::{self, PullRequest};
use github_summarizer::query::{annotate, context_label, decode_login, window_variables, AuthError};
use github_summarizer::repositories;
use github_summarizer::summary::{closed_count, merged_count, non_fork_count};
use github_summarizer::variables::Variables;

const SECOND: i128 = 1_000_000_000;

fn instant(s: &str) -> DateTime {
    DateTime::from_str(s).expect("a valid instant")
}

fn issue_node(title: &str, state: &str, created: &str) -> String {
    format!(
        r#"{{"issue":{{"repository":{{"name":"repo","owner":{{"login":"someone"}}}},"title":"{title}","state":"{state}","created_at":"{created}","body_text":"text of {title}"}}}}"#
    )
}

fn issue_body(nodes: &[String], cursor: Option<&str>, more: bool) -> String {
    let cursor = match cursor {
        Some(c) => format!("\"{c}\""),
        None => "null".to_string(),
    };
    format!(
        r#"{{"data":{{"user":{{"contributions_collection":{{"issue_contributions":{{"page_info":{{"end_cursor":{cursor},"has_next_page":{more}}},"nodes":[{}]}}}}}}}}}}"#,
        nodes.join(",")
    )
}

fn plain_issue(title: &str, secs: i128) -> Issue {
    Issue {
        repository: "repo".to_string(),
        owner: "someone".to_string(),
        title: title.to_string(),
        state: ItemState::Open,
        created_at: DateTime { unix_nanos: secs * SECOND, offset_seconds: 0 },
        body_text: String::new(),
    }
}

#[test]
fn item_state_decodes_exact_tokens() {
    assert_eq!(ItemState::from_str("OPEN"), Some(ItemState::Open));
    assert_eq!(ItemState::from_str("CLOSED"), Some(ItemState::Closed));
    assert_eq!(ItemState::from_str("MERGED"), Some(ItemState::Merged));
    assert_eq!(ItemState::from_str("open"), None);
    assert_eq!(ItemState::from_str("Merged"), None);
    assert_eq!(ItemState::from_str(""), None);
    assert_eq!(ItemState::Closed.token(), "CLOSED");
}

#[test]
fn datetime_formats_and_reads_back() {
    let t = instant("2025-06-01T00:00:00Z");
    assert_eq!(t.unix_nanos, 1_748_736_000 * SECOND);
    assert_eq!(t.offset_seconds, 0);
    let text = t.to_iso_string().expect("formattable");
    assert_eq!(text, "2025-06-01T00:00:00.000000000Z");
    let back = instant(&text);
    assert_eq!(back.unix_nanos, t.unix_nanos);
    assert_eq!(back.offset_seconds, t.offset_seconds);
}

#[test]
fn datetime_keeps_offset_and_fraction() {
    let t = DateTime { unix_nanos: 1_700_000_000 * SECOND + 123_456_789, offset_seconds: -5 * 3600 - 30 * 60 };
    let text = t.to_iso_string().expect("formattable");
    assert_eq!(text, "2023-11-14T16:43:20.123456789-05:30");
    let back = instant(&text);
    assert_eq!(back.unix_nanos, t.unix_nanos);
    assert_eq!(back.offset_seconds, t.offset_seconds);
}

#[test]
fn datetime_refuses_what_it_cannot_write() {
    let t = DateTime { unix_nanos: 0, offset_seconds: 17 };
    assert!(t.to_iso_string().is_none());
    assert!(DateTime::from_str("not a date").is_none());
}

#[test]
fn datetime_equality_is_by_instant() {
    let a = instant("2025-06-01T02:00:00+02:00");
    let b = instant("2025-06-01T00:00:00Z");
    assert!(a == b);
    assert_ne!(a.offset_seconds, b.offset_seconds);
}

#[test]
fn datetime_now_is_utc() {
    let now = DateTime::now();
    assert_eq!(now.offset_seconds, 0);
    assert!(now.unix_nanos > 1_700_000_000 * SECOND);
}

#[test]
fn pager_stops_on_last_page() {
    let mut pager: Pager<u32> = Pager::new();
    let pages = vec![
        Page { items: vec![1, 2], end_cursor: Some("a".to_string()), has_next_page: true },
        Page { items: vec![3], end_cursor: Some("b".to_string()), has_next_page: true },
        Page { items: vec![4, 5], end_cursor: Some("c".to_string()), has_next_page: false },
        Page { items: vec![6], end_cursor: None, has_next_page: false },
    ];
    let mut sent = Vec::new();
    for page in pages {
        if pager.is_done() {
            break;
        }
        sent.push(pager.cursor());
        pager.absorb(page);
    }
    assert!(pager.is_done());
    assert_eq!(sent, vec![None, Some("a".to_string()), Some("b".to_string())]);
    assert_eq!(pager.into_items(), vec![1, 2, 3, 4, 5]);
}

#[test]
fn pager_stops_without_cursor() {
    let mut pager: Pager<u32> = Pager::new();
    let pages = vec![
        Page { items: vec![1], end_cursor: Some("a".to_string()), has_next_page: true },
        Page { items: vec![2], end_cursor: None, has_next_page: true },
        Page { items: vec![3], end_cursor: Some("z".to_string()), has_next_page: true },
    ];
    let mut requests = 0;
    for page in pages {
        if pager.is_done() {
            break;
        }
        requests += 1;
        pager.absorb(page);
    }
    assert_eq!(requests, 2);
    assert!(pager.is_done());
    assert_eq!(pager.cursor(), None);
    assert_eq!(pager.into_items(), vec![1, 2]);
}

#[test]
fn results_are_sorted_stably() {
    let items = vec![
        plain_issue("c", 3),
        plain_issue("a", 1),
        plain_issue("b", 2),
        plain_issue("a2", 1),
    ];
    let sorted = issues::finish(items);
    let titles: Vec<&str> = sorted.iter().map(|i| i.title.as_str()).collect();
    assert_eq!(titles, vec!["a", "a2", "b", "c"]);
}

#[test]
fn sort_of_empty_list() {
    assert!(issues::finish(Vec::new()).is_empty());
}

#[test]
fn decode_data_shape_succeeds() {
    let body = issue_body(&[issue_node("x", "CLOSED", "2025-01-01T00:00:03Z")], Some("cur"), true);
    let page = issues::decode_response(200, &body).ok().expect("data");
    assert_eq!(page.end_cursor, Some("cur".to_string()));
    assert!(page.has_next_page);
    assert_eq!(page.items.len(), 1);
    let i = &page.items[0];
    assert_eq!(i.repository, "repo");
    assert_eq!(i.owner, "someone");
    assert_eq!(i.title, "x");
    assert_eq!(i.state, ItemState::Closed);
    assert_eq!(i.created_at.unix_nanos, 1_735_689_603 * SECOND);
    assert_eq!(i.body_text, "text of x");
}

#[test]
fn decode_error_list_is_query_errors() {
    let body = r#"{"errors": [{"message": "bad"}]}"#;
    match issues::decode_response(200, body) {
        Err(ApiError::QueryErrors(es)) => {
            assert_eq!(es.len(), 1);
            assert_eq!(es[0].message, "bad");
            assert!(es[0].path.is_none());
        }
        _ => panic!("expected query errors"),
    }
}

#[test]
fn decode_error_list_with_path() {
    let body = r#"{"data": null, "errors": [{"path": ["user", "login"], "message": "no"}, {"message": "two"}]}"#;
    match pull_requests::decode_response(200, body) {
        Err(ApiError::QueryErrors(es)) => {
            assert_eq!(es.len(), 2);
            assert_eq!(es[0].path, Some(vec!["user".to_string(), "login".to_string()]));
            assert_eq!(es[1].message, "two");
        }
        _ => panic!("expected query errors"),
    }
}

#[test]
fn decode_neither_shape_is_decode_error() {
    let body = r#"{"foo": "bar"}"#;
    match issues::decode_response(200, body) {
        Err(ApiError::DecodeError(text)) => assert_eq!(text, body),
        _ => panic!("expected a decode error"),
    }
    match issues::decode_response(200, "not json") {
        Err(ApiError::DecodeError(text)) => assert_eq!(text, "not json"),
        _ => panic!("expected a decode error"),
    }
}

#[test]
fn decode_rejects_unknown_state() {
    let body = issue_body(&[issue_node("x", "open", "2025-01-01T00:00:03Z")], None, false);
    assert!(matches!(issues::decode_response(200, &body), Err(ApiError::DecodeError(_))));
}

#[test]
fn bad_status_is_bad_response() {
    let body = r#"{"data": {}}"#;
    match issues::decode_response(500, body) {
        Err(ApiError::BadResponse(status, text)) => {
            assert_eq!(status, 500);
            assert_eq!(text, body);
        }
        _ => panic!("expected a bad response"),
    }
    assert!(matches!(repositories::decode_response(404, "gone"), Err(ApiError::BadResponse(404, _))));
}

fn repository_body(parent: &str) -> String {
    format!(
        r#"{{"data":{{"user":{{"contributions_collection":{{"repository_contributions":{{"page_info":{{"end_cursor":null,"has_next_page":false}},"nodes":[{{"repository":{{"name":"r","description":null,"parent":{parent},"owner":{{"login":"me"}},"created_at":"2024-05-05T10:00:00Z","url":"https://example.org/r"}}}}]}}}}}}}}}}"#
    )
}

#[test]
fn repository_fork_names_original_owner() {
    let page = repositories::decode_response(200, &repository_body(r#"{"owner":{"login":"upstream"}}"#))
        .ok()
        .expect("data");
    assert_eq!(page.items[0].original_owner, Some("upstream".to_string()));
    assert_eq!(page.items[0].owner, "me");
    assert_eq!(page.items[0].url, "https://example.org/r");
    assert_eq!(page.items[0].description, None);
}

#[test]
fn repository_without_parent_has_no_original_owner() {
    let page = repositories::decode_response(200, &repository_body("null")).ok().expect("data");
    assert_eq!(page.items[0].original_owner, None);
    assert!(!page.has_next_page);
}

#[test]
fn two_page_issue_fetch() {
    let user = "someone";
    let from = instant("2025-01-01T00:00:00Z");
    let to = instant("2025-02-01T00:00:00Z");
    let first: Vec<String> = (0..100)
        .map(|k| issue_node(&format!("i{k}"), "OPEN", &format!("2025-01-02T00:{:02}:{:02}Z", (99 - k) / 60, (99 - k) % 60)))
        .collect();
    let second: Vec<String> = (0..3)
        .map(|k| issue_node(&format!("j{k}"), "CLOSED", &format!("2025-01-01T12:00:0{}Z", 2 - k)))
        .collect();
    let answers = vec![issue_body(&first, Some("abc"), true), issue_body(&second, Some("def"), false)];
    let mut pager: Pager<Issue> = Pager::new();
    let mut sent = Vec::new();
    let mut answers = answers.into_iter();
    while !pager.is_done() {
        let cursor = pager.cursor();
        let vars = window_variables(user, &from, &to, cursor.as_deref()).expect("writable window");
        sent.push(vars.build().expect("bound"));
        let body = answers.next().expect("a page per request");
        let page = issues::decode_response(200, &body).ok().expect("data");
        pager.absorb(page);
    }
    assert_eq!(sent.len(), 2);
    assert!(sent[0].ends_with(r#""cursor":null}"#));
    assert!(sent[1].ends_with(r#""cursor":"abc"}"#));
    let items = issues::finish(pager.into_items());
    assert_eq!(items.len(), 103);
    assert_eq!(items[0].title, "j2");
    assert_eq!(items[2].title, "j0");
    assert_eq!(items[3].title, "i99");
    assert_eq!(items[102].title, "i0");
    assert!(items.windows(2).all(|w| w[0].created_at.unix_nanos <= w[1].created_at.unix_nanos));
}

#[test]
fn window_variables_text() {
    let from = instant("2025-01-01T00:00:00Z");
    let to = instant("2025-02-01T00:00:00Z");
    let vars = window_variables("me", &from, &to, Some("c1")).expect("writable");
    assert_eq!(
        vars.build(),
        Some(r#"{"user":"me","from":"2025-01-01T00:00:00.000000000Z","to":"2025-02-01T00:00:00.000000000Z","cursor":"c1"}"#.to_string())
    );
    let odd = DateTime { unix_nanos: 0, offset_seconds: 1 };
    assert!(window_variables("me", &odd, &to, None).is_none());
}

#[test]
fn variables_empty_and_escaped() {
    assert_eq!(Variables::new().build(), None);
    let mut v = Variables::new();
    v.push("na\"me", Some("a\\b"));
    v.push("gone", None);
    assert_eq!(v.build(), Some(r#"{"na\"me":"a\\b","gone":null}"#.to_string()));
}

#[test]
fn context_label_of_documents() {
    assert_eq!(
        context_label(issues::QUERY),
        "query IssueContributions($user:String!, $from:DateTime!, $to:DateTime!, $cursor:String)"
    );
    assert_eq!(context_label("  \n\t query Q {{ \r\n body }"), "query Q");
    assert_eq!(context_label(" \n  "), "<empty query>");
    assert_eq!(context_label(""), "<empty query>");
    let failure = annotate(repositories::QUERY, ApiError::BadResponse(502, "x".to_string()));
    assert_eq!(failure.context, "query RepositoriesCreated($user:String!, $from:DateTime!, $to:DateTime!, $cursor:String)");
    assert!(matches!(failure.error, ApiError::BadResponse(502, _)));
}

#[test]
fn login_lookup() {
    assert!(matches!(decode_login(200, r#"{"login":"octo","id":1}"#), Ok(l) if l == "octo"));
    assert!(matches!(decode_login(401, "{}"), Err(AuthError::Status(401))));
    assert!(matches!(decode_login(200, r#"{"name":"x"}"#), Err(AuthError::Decode)));
    assert!(matches!(decode_login(200, "<html>"), Err(AuthError::Decode)));
}

#[test]
fn summary_counts() {
    let mut a = plain_issue("a", 1);
    a.state = ItemState::Closed;
    let issues_list = vec![a, plain_issue("b", 2)];
    assert_eq!(closed_count(&issues_list), 1);
    let prs = vec![
        PullRequest {
            repository: "r".to_string(),
            owner: "o".to_string(),
            title: "t".to_string(),
            state: ItemState::Merged,
            created_at: DateTime { unix_nanos: 0, offset_seconds: 0 },
            body_text: String::new(),
        },
    ];
    assert_eq!(merged_count(&prs), 1);
    let page = repositories::decode_response(200, &repository_body("null")).ok().expect("data");
    assert_eq!(non_fork_count(&page.items), 1);
}
