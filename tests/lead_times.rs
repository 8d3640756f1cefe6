use git_lead_time::lead_time::collect_lead_times;
use git_lead_time::queries::{
    Actor, CheckConclusionState, CheckStatusState, CheckSuite, CheckSuiteConnection, Commit,
    Commit2, PullRequest, PullRequestCommit, PullRequestCommitConnection, User,
};
use git_lead_time::statistics::summarize;
use git_lead_time::time::DateTime;

const T0: i64 = 1_600_000_000;

fn at(secs: i64) -> DateTime {
    DateTime::from_timestamp(secs, 0).unwrap()
}

fn suite(status: CheckStatusState, updated: i64) -> CheckSuite {
    CheckSuite { status, conclusion: Some(CheckConclusionState::Success), updated_at: at(updated) }
}

fn pr(author: Option<Actor>, commits: &[i64], suites: Option<Vec<CheckSuite>>) -> PullRequest {
    PullRequest {
        commits: PullRequestCommitConnection {
            nodes: commits
                .iter()
                .map(|t| PullRequestCommit {
                    commit: Commit2 { message_headline: "change".to_string(), authored_date: at(*t) },
                })
                .collect(),
        },
        merge_commit: Some(Commit {
            message_headline: "merge".to_string(),
            authored_date: at(T0),
            check_suites: suites.map(|nodes| CheckSuiteConnection { nodes }),
        }),
        author,
    }
}

fn user(login: &str) -> Option<Actor> {
    Some(Actor::User(User { login: login.to_string() }))
}

fn roster() -> Vec<String> {
    vec!["alice".to_string()]
}

#[test]
fn end_to_end_single_member_pr() {
    let page = vec![pr(
        user("alice"),
        &[T0, T0 + 60],
        Some(vec![suite(CheckStatusState::Completed, T0 + 3600)]),
    )];
    let mut samples = Vec::new();
    collect_lead_times(&mut samples, &page, &roster());
    assert_eq!(samples, vec![3600, 3540]);
    let st = summarize(samples).unwrap();
    assert_eq!(st.count, 2);
    assert_eq!(st.mean, 3570);
    assert_eq!(st.median, 3600);
    assert_eq!(st.max, 3600);
}

#[test]
fn non_member_and_unknown_authors_give_no_samples() {
    let done = || Some(vec![suite(CheckStatusState::Completed, T0 + 100)]);
    let page = vec![
        pr(user("bob"), &[T0], done()),
        pr(Some(Actor::Other), &[T0], done()),
        pr(None, &[T0], done()),
    ];
    let mut samples = Vec::new();
    collect_lead_times(&mut samples, &page, &roster());
    assert!(samples.is_empty());
    assert!(page[0].lead_times(&roster()).is_empty());
    assert!(!page[0].author_is_member(&roster()));
    assert!(!page[1].author_is_member(&roster()));
}

#[test]
fn unfinished_ci_gives_no_samples() {
    for status in [CheckStatusState::InProgress, CheckStatusState::Queued, CheckStatusState::Requested] {
        let p = pr(
            user("alice"),
            &[T0],
            Some(vec![suite(CheckStatusState::Completed, T0 + 10), suite(status, T0 + 20)]),
        );
        assert!(p.deploy_time().is_none());
        assert!(p.lead_times(&roster()).is_empty());
    }
}

#[test]
fn missing_signal_gives_no_deploy_time() {
    let no_suites = pr(user("alice"), &[T0], None);
    assert!(no_suites.deploy_time().is_none());
    let empty_suites = pr(user("alice"), &[T0], Some(vec![]));
    assert!(empty_suites.check_suite_finish_time().is_none());
    let mut no_merge = pr(user("alice"), &[T0], Some(vec![suite(CheckStatusState::Completed, T0)]));
    no_merge.merge_commit = None;
    assert!(no_merge.deploy_time().is_none());
    assert!(no_merge.lead_times(&roster()).is_empty());
}

#[test]
fn deploy_time_is_latest_suite_in_any_order() {
    let orders = [[1, 2, 3], [3, 1, 2], [2, 3, 1], [3, 2, 1]];
    for order in orders {
        let suites = order
            .iter()
            .map(|k| suite(CheckStatusState::Completed, T0 + 100 * k))
            .collect();
        let p = pr(user("alice"), &[T0], Some(suites));
        assert_eq!(p.deploy_time().unwrap().timestamp(), T0 + 300);
    }
}

#[test]
fn failed_conclusion_still_counts_when_completed() {
    let mut s = suite(CheckStatusState::Completed, T0 + 50);
    s.conclusion = Some(CheckConclusionState::Failure);
    let p = pr(user("alice"), &[T0], Some(vec![s]));
    assert_eq!(p.lead_times(&roster()), vec![50]);
}

#[test]
fn three_commits_give_three_samples() {
    let p = pr(
        user("alice"),
        &[T0, T0 + 10, T0 + 25],
        Some(vec![suite(CheckStatusState::Completed, T0 + 100)]),
    );
    assert_eq!(p.lead_times(&roster()), vec![100, 90, 75]);
}

#[test]
fn commit_after_deploy_counts_as_zero() {
    let p = pr(user("alice"), &[T0 + 500], Some(vec![suite(CheckStatusState::Completed, T0)]));
    assert_eq!(p.lead_times(&roster()), vec![0]);
}

#[test]
fn lead_seconds_truncate_sub_second_parts() {
    let commit = DateTime::from_timestamp(T0, 900_000_000).unwrap();
    let deploy = DateTime::from_timestamp(T0 + 2, 100_000_000).unwrap();
    assert_eq!(commit.lead_seconds_until(&deploy), 1);
    assert_eq!(deploy.lead_seconds_until(&commit), 0);
    assert!(deploy.is_after(&commit));
    assert!(!commit.is_after(&deploy));
    assert!(DateTime::from_timestamp(T0, 1_000_000_000).is_none());
}

#[test]
fn samples_keep_page_then_commit_order() {
    let done = |t| Some(vec![suite(CheckStatusState::Completed, t)]);
    let first = vec![pr(user("alice"), &[T0, T0 + 1], done(T0 + 10))];
    let second = vec![pr(user("alice"), &[T0 + 5], done(T0 + 20))];
    let mut samples = Vec::new();
    collect_lead_times(&mut samples, &first, &roster());
    collect_lead_times(&mut samples, &second, &roster());
    assert_eq!(samples, vec![10, 9, 15]);
}

#[test]
fn widest_range_fits() {
    let earliest = DateTime::from_timestamp(i64::MIN, 0).unwrap();
    let latest = DateTime::from_timestamp(i64::MAX, 999_999_999).unwrap();
    assert_eq!(earliest.lead_seconds_until(&latest), u64::MAX);
    assert_eq!(latest.timestamp_subsec_nanos(), 999_999_999);
}
