//! Cursor-based pagination over the merged pull requests of a repository, as a
//! state machine: it names the arguments of the next request, takes the
//! response, and moves on or stops.
use vstd::prelude::*;
use crate::queries::{PRs, PRsArguments, PageInfo, PullRequest, PullRequestConnection};
use crate::response::{FetchError, GraphQLResponse, has_errors, response_data};

verus! {

/// Pull requests asked for in one page.
pub const PAGE_SIZE: i32 = 50;

/// The page of a pull-request response, when it has one: no errors, some
/// data, and a repository.
pub open spec fn connection_of(resp: GraphQLResponse<PRs>) -> Option<PullRequestConnection> {
    if has_errors(resp) {
        None
    } else {
        match resp.data {
            Some(d) => match d.repository {
                Some(repo) => Some(repo.pull_requests),
                None => None,
            },
            None => None,
        }
    }
}

/// The arguments after a page with `info` was received in `state`: the next
/// page starts at the page's end cursor while there is one, else pagination
/// is over.
pub open spec fn step(state: Option<PRsArguments>, info: PageInfo) -> Option<PRsArguments> {
    match state {
        Some(args) => if info.has_next_page {
            Some(PRsArguments { pr_cursor: info.end_cursor, ..args })
        } else {
            None
        },
        None => None,
    }
}

/// The arguments after pages with `infos` were received, in order.
pub open spec fn run(state: Option<PRsArguments>, infos: Seq<PageInfo>) -> Option<PRsArguments>
    decreases infos.len(),
{
    if infos.len() == 0 {
        state
    } else {
        run(step(state, infos[0]), infos.drop_first())
    }
}

/// How many of the pages with `infos` are handed out from `state`: each
/// request made while pagination is live yields its page.
pub open spec fn pages_yielded(state: Option<PRsArguments>, infos: Seq<PageInfo>) -> nat
    decreases infos.len(),
{
    if infos.len() == 0 || state is None {
        0
    } else {
        1 + pages_yielded(step(state, infos[0]), infos.drop_first())
    }
}

/// The arguments of the first page of a repository.
pub open spec fn first_arguments(repo_owner: String, repo_name: String) -> PRsArguments {
    PRsArguments { repo_name, repo_owner, pr_cursor: None, page_size: PAGE_SIZE }
}

/// Pages of merged pull requests of one repository. Single use: once
/// exhausted it stays so.
pub struct PullRequestPages {
    next_arguments: Option<PRsArguments>,
    total_count: i32,
}

impl PullRequestPages {
    /// The arguments of the next request; `None` once pagination is over.
    pub closed spec fn state(self) -> Option<PRsArguments> {
        self.next_arguments
    }

    /// How many merged pull requests the repository has, as counted before
    /// pagination began.
    pub closed spec fn count(self) -> i32 {
        self.total_count
    }

    /// How many merged pull requests the repository has, for progress.
    pub fn total_count(&self) -> (r: i32)
        ensures
            r == self.count(),
    {
        self.total_count
    }

    /// Pages of the repository `repo_owner`/`repo_name`, from the first.
    pub fn new(repo_owner: String, repo_name: String, total_count: i32) -> (r: PullRequestPages)
        ensures
            r.state() == Some(first_arguments(repo_owner, repo_name)),
            r.count() == total_count,
    {
        PullRequestPages {
            next_arguments: Some(
                PRsArguments { repo_name, repo_owner, pr_cursor: None, page_size: PAGE_SIZE },
            ),
            total_count,
        }
    }

    /// What the next request asks for; `None` when there is nothing more to fetch.
    pub fn next_arguments(&self) -> (r: Option<PRsArguments>)
        ensures
            r == self.state(),
    {
        match &self.next_arguments {
            Some(args) => Some(args.duplicate()),
            None => None,
        }
    }

    /// Whether pagination is over.
    pub fn is_exhausted(&self) -> (r: bool)
        ensures
            r == (self.state() is None),
    {
        self.next_arguments.is_none()
    }

    /// Takes the response to the request for `next_arguments`, and hands out
    /// its page of pull requests.
    ///
    /// `None` when pagination was already over. A refused response (errors,
    /// no data, no repository) ends pagination and is returned as the error.
    /// Otherwise the next request starts at the page's end cursor when the
    /// page says there is more, and pagination ends when it says there is not.
    pub fn next(&mut self, response: GraphQLResponse<PRs>) -> (r: Option<Result<Vec<PullRequest>, FetchError>>)
        ensures
            final(self).count() == old(self).count(),
            old(self).state() is None ==> r is None && final(self).state() is None,
            old(self).state() is Some && has_errors(response) ==> r == Some(
                Err::<Vec<PullRequest>, FetchError>(FetchError::Api(response.errors.unwrap())),
            ) && final(self).state() is None,
            old(self).state() is Some && !has_errors(response) && response.data is None ==> r == Some(
                Err::<Vec<PullRequest>, FetchError>(FetchError::NoData),
            ) && final(self).state() is None,
            old(self).state() is Some && !has_errors(response) && response.data is Some
                && connection_of(response) is None ==> r == Some(
                Err::<Vec<PullRequest>, FetchError>(FetchError::RepositoryNotFound),
            ) && final(self).state() is None,
            old(self).state() is Some ==> (connection_of(response) matches Some(c) ==> r == Some(
                Ok::<Vec<PullRequest>, FetchError>(c.nodes),
            ) && final(self).state() == step(old(self).state(), c.page_info)),
    {
        if self.next_arguments.is_none() {
            return None;
        }
        let data = match response_data(response) {
            Ok(d) => d,
            Err(e) => {
                self.next_arguments = None;
                return Some(Err(e));
            },
        };
        let connection = match data.repository {
            Some(repo) => repo.pull_requests,
            None => {
                self.next_arguments = None;
                return Some(Err(FetchError::RepositoryNotFound));
            },
        };
        let PullRequestConnection { page_info, nodes, .. } = connection;
        if page_info.has_next_page {
            let args = self.next_arguments.take().unwrap();
            self.next_arguments = Some(PRsArguments { pr_cursor: page_info.end_cursor, ..args });
        } else {
            self.next_arguments = None;
        }
        Some(Ok(nodes))
    }
}

/// The arguments of the request that only counts a repository's merged pull
/// requests: one pull request per page, from the first.
pub fn count_arguments(repo_owner: String, repo_name: String) -> (r: PRsArguments)
    ensures
        r == (PRsArguments { repo_name, repo_owner, pr_cursor: None, page_size: 1 }),
{
    PRsArguments { repo_name, repo_owner, pr_cursor: None, page_size: 1 }
}

/// The total count of merged pull requests that a counting response reports.
pub fn get_total_count(response: GraphQLResponse<PRs>) -> (r: Result<i32, FetchError>)
    ensures
        has_errors(response) ==> r == Err::<i32, FetchError>(FetchError::Api(response.errors.unwrap())),
        !has_errors(response) && response.data is None ==> r == Err::<i32, FetchError>(FetchError::NoData),
        !has_errors(response) && response.data is Some && connection_of(response) is None
            ==> r == Err::<i32, FetchError>(FetchError::RepositoryNotFound),
        connection_of(response) matches Some(c) ==> r == Ok::<i32, FetchError>(c.total_count),
{
    let data = match response_data(response) {
        Ok(d) => d,
        Err(e) => return Err(e),
    };
    match data.repository {
        Some(repo) => Ok(repo.pull_requests.total_count),
        None => Err(FetchError::RepositoryNotFound),
    }
}

/// Pagination ends: when every page but the last says there is more and the
/// last says there is not, a live paginator hands out exactly that many pages,
/// whatever they hold, and no page after them.
pub proof fn lemma_pagination_terminates(
    pages: PullRequestPages,
    infos: Seq<PageInfo>,
    more: Seq<PageInfo>,
)
    requires
        pages.state() is Some,
        infos.len() > 0,
        forall|i: int| 0 <= i < infos.len() - 1 ==> #[trigger] infos[i].has_next_page,
        !infos.last().has_next_page,
    ensures
        pages_yielded(pages.state(), infos) == infos.len(),
        run(pages.state(), infos) is None,
        pages_yielded(run(pages.state(), infos), more) == 0,
{
    lemma_live_run(pages.state(), infos);
    lemma_exhausted_stays(more);
}

proof fn lemma_live_run(state: Option<PRsArguments>, infos: Seq<PageInfo>)
    requires
        state is Some,
        infos.len() > 0,
        forall|i: int| 0 <= i < infos.len() - 1 ==> #[trigger] infos[i].has_next_page,
        !infos.last().has_next_page,
    ensures
        pages_yielded(state, infos) == infos.len(),
        run(state, infos) is None,
    decreases infos.len(),
{
    if infos.len() == 1 {
        assert(infos.drop_first().len() == 0);
        assert(pages_yielded(step(state, infos[0]), infos.drop_first()) == 0);
        assert(run(step(state, infos[0]), infos.drop_first()) is None);
    } else {
        let rest = infos.drop_first();
        assert(infos[0].has_next_page);
        assert forall|i: int| 0 <= i < rest.len() - 1 implies #[trigger] rest[i].has_next_page by {
            assert(rest[i] == infos[i + 1]);
        }
        assert(rest.last() == infos.last());
        lemma_live_run(step(state, infos[0]), rest);
    }
}

proof fn lemma_exhausted_stays(infos: Seq<PageInfo>)
    ensures
        pages_yielded(None, infos) == 0,
        run(None, infos) is None,
    decreases infos.len(),
{
    if infos.len() > 0 {
        lemma_exhausted_stays(infos.drop_first());
    }
}

/// The request after a page that says there is more carries exactly that
/// page's end cursor, and the same repository and page size as before.
pub proof fn lemma_cursor_propagation(pages: PullRequestPages, info: PageInfo)
    requires
        pages.state() is Some,
        info.has_next_page,
    ensures
        step(pages.state(), info) matches Some(next) && next.pr_cursor == info.end_cursor
            && next.repo_name == pages.state().unwrap().repo_name
            && next.repo_owner == pages.state().unwrap().repo_owner
            && next.page_size == pages.state().unwrap().page_size,
{
}

} // verus!
