use git_lead_time::pull_requests::{count_arguments, get_total_count, PullRequestPages, PAGE_SIZE};
use git_lead_time::queries::{PRs, PageInfo, PullRequestConnection, Repository};
use git_lead_time::response::{FetchError, GraphQLResponse};

fn page(cursor: Option<&str>, has_next_page: bool, total_count: i32) -> GraphQLResponse<PRs> {
    GraphQLResponse {
        data: Some(PRs {
            repository: Some(Repository {
                pull_requests: PullRequestConnection {
                    total_count,
                    page_info: PageInfo { end_cursor: cursor.map(|c| c.to_string()), has_next_page },
                    nodes: vec![],
                },
            }),
        }),
        errors: None,
    }
}

#[test]
fn yields_each_page_then_stops() {
    let mut pages = PullRequestPages::new("octo".to_string(), "repo".to_string(), 7);
    assert_eq!(pages.total_count(), 7);
    let first = pages.next_arguments().unwrap();
    assert_eq!(first.repo_owner, "octo");
    assert_eq!(first.repo_name, "repo");
    assert_eq!(first.pr_cursor, None);
    assert_eq!(first.page_size, PAGE_SIZE);
    let mut yielded = 0;
    let responses = vec![page(Some("a"), true, 7), page(Some("b"), true, 7), page(Some("c"), false, 7)];
    for resp in responses {
        assert!(!pages.is_exhausted());
        assert!(pages.next(resp).unwrap().is_ok());
        yielded += 1;
    }
    assert_eq!(yielded, 3);
    assert!(pages.is_exhausted());
    assert!(pages.next_arguments().is_none());
    assert!(pages.next(page(Some("d"), true, 7)).is_none());
    assert!(pages.is_exhausted());
}

#[test]
fn next_request_carries_end_cursor() {
    let mut pages = PullRequestPages::new("octo".to_string(), "repo".to_string(), 0);
    pages.next(page(Some("cursor-1"), true, 0)).unwrap().unwrap();
    let args = pages.next_arguments().unwrap();
    assert_eq!(args.pr_cursor.as_deref(), Some("cursor-1"));
    assert_eq!(args.repo_owner, "octo");
    pages.next(page(Some("cursor-2"), true, 0)).unwrap().unwrap();
    assert_eq!(pages.next_arguments().unwrap().pr_cursor.as_deref(), Some("cursor-2"));
}

#[test]
fn errors_end_pagination() {
    let mut pages = PullRequestPages::new("o".to_string(), "r".to_string(), 0);
    let mut resp = page(Some("a"), true, 0);
    resp.errors = Some(vec!["rate limited".to_string()]);
    match pages.next(resp) {
        Some(Err(FetchError::Api(msgs))) => assert_eq!(msgs, vec!["rate limited".to_string()]),
        other => panic!("unexpected {:?}", other),
    }
    assert!(pages.is_exhausted());
}

#[test]
fn empty_error_list_is_accepted() {
    let mut pages = PullRequestPages::new("o".to_string(), "r".to_string(), 0);
    let mut resp = page(None, false, 0);
    resp.errors = Some(vec![]);
    assert!(matches!(pages.next(resp), Some(Ok(_))));
}

#[test]
fn missing_data_or_repository_is_fatal() {
    let mut pages = PullRequestPages::new("o".to_string(), "r".to_string(), 0);
    let none: GraphQLResponse<PRs> = GraphQLResponse { data: None, errors: None };
    assert!(matches!(pages.next(none), Some(Err(FetchError::NoData))));
    let mut pages = PullRequestPages::new("o".to_string(), "r".to_string(), 0);
    let no_repo = GraphQLResponse { data: Some(PRs { repository: None }), errors: None };
    assert!(matches!(pages.next(no_repo), Some(Err(FetchError::RepositoryNotFound))));
    assert!(pages.is_exhausted());
}

#[test]
fn total_count_from_counting_query() {
    let args = count_arguments("octo".to_string(), "repo".to_string());
    assert_eq!(args.page_size, 1);
    assert_eq!(args.pr_cursor, None);
    assert_eq!(get_total_count(page(None, true, 42)).unwrap(), 42);
    let no_repo = GraphQLResponse { data: Some(PRs { repository: None }), errors: None };
    assert!(matches!(get_total_count(no_repo), Err(FetchError::RepositoryNotFound)));
}
