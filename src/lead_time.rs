//! From pull requests to lead-time samples: the team filter, the deploy time
//! that CI gives a pull request, and one sample per commit. A commit authored
//! after the deploy time, which only clock skew or bad data can give, counts
//! as zero seconds rather than being dropped.
use vstd::prelude::*;
use crate::queries::{Actor, CheckStatusState, CheckSuite, PullRequest, PullRequestCommit};
use crate::roster::{is_member, logins_of};
use crate::time::{DateTime, lead_secs};

verus! {

/// The login of a pull request's author, when the author is a user.
pub open spec fn author_login(pr: PullRequest) -> Option<Seq<char>> {
    match pr.author {
        Some(Actor::User(u)) => Some(u.login@),
        _ => None,
    }
}

/// The pull request was opened by a member of `roster`.
pub open spec fn by_member(pr: PullRequest, roster: Seq<Seq<char>>) -> bool {
    author_login(pr) matches Some(l) && roster.contains(l)
}

/// The check suites of a pull request's merge commit, if it reports them.
pub open spec fn suites_of(pr: PullRequest) -> Option<Seq<CheckSuite>> {
    match pr.merge_commit {
        Some(c) => match c.check_suites {
            Some(conn) => Some(conn.nodes@),
            None => None,
        },
        None => None,
    }
}

/// Every suite has completed.
pub open spec fn all_completed(suites: Seq<CheckSuite>) -> bool {
    forall|i: int| 0 <= i < suites.len() ==> #[trigger] suites[i].status == CheckStatusState::Completed
}

/// CI gives the pull request a deploy time: its merge commit reports check
/// suites, at least one, and all of them have completed.
pub open spec fn is_deployed(pr: PullRequest) -> bool {
    suites_of(pr) matches Some(s) && s.len() > 0 && all_completed(s)
}

/// The latest `updated_at` instant among nonempty `suites`.
pub open spec fn latest_update(suites: Seq<CheckSuite>) -> int
    decreases suites.len(),
{
    if suites.len() <= 1 {
        suites[0].updated_at@
    } else {
        let rest = latest_update(suites.drop_last());
        if suites.last().updated_at@ > rest {
            suites.last().updated_at@
        } else {
            rest
        }
    }
}

/// The deploy instant of a deployed pull request.
pub open spec fn deploy_instant(pr: PullRequest) -> int {
    latest_update(suites_of(pr).unwrap())
}

/// One sample per commit: seconds from the commit's authoring to `deploy`.
pub open spec fn commit_samples(commits: Seq<PullRequestCommit>, deploy: int) -> Seq<u64> {
    commits.map_values(|c: PullRequestCommit| lead_secs(c.commit.authored_date@, deploy) as u64)
}

/// The samples of one pull request: one per commit when a member of `roster`
/// opened it and CI gives it a deploy time, none otherwise.
pub open spec fn samples_of(pr: PullRequest, roster: Seq<Seq<char>>) -> Seq<u64> {
    if by_member(pr, roster) && is_deployed(pr) {
        commit_samples(pr.commits.nodes@, deploy_instant(pr))
    } else {
        Seq::empty()
    }
}

/// The samples of pull requests, in their order and then in commit order.
pub open spec fn all_samples(prs: Seq<PullRequest>, roster: Seq<Seq<char>>) -> Seq<u64>
    decreases prs.len(),
{
    if prs.len() == 0 {
        Seq::empty()
    } else {
        all_samples(prs.drop_last(), roster) + samples_of(prs.last(), roster)
    }
}

/// The latest update among nonempty suites is one of their instants, and no
/// suite was updated later.
pub proof fn lemma_latest_update(suites: Seq<CheckSuite>)
    requires
        suites.len() > 0,
    ensures
        exists|i: int| 0 <= i < suites.len() && #[trigger] suites[i].updated_at@ == latest_update(suites),
        forall|j: int| 0 <= j < suites.len() ==> #[trigger] suites[j].updated_at@ <= latest_update(suites),
    decreases suites.len(),
{
    if suites.len() > 1 {
        let rest = suites.drop_last();
        lemma_latest_update(rest);
        let i = choose|i: int| 0 <= i < rest.len() && #[trigger] rest[i].updated_at@ == latest_update(rest);
        assert(suites[i] == rest[i]);
        assert(suites[suites.len() - 1] == suites.last());
        assert forall|j: int| 0 <= j < suites.len() implies #[trigger] suites[j].updated_at@ <= latest_update(suites) by {
            if j < rest.len() {
                assert(suites[j] == rest[j]);
            }
        }
    } else {
        assert(suites[0].updated_at@ == latest_update(suites));
    }
}

/// A pull request whose author is not a user, or not a member of `roster`,
/// gives no samples.
pub proof fn lemma_non_member_gives_nothing(pr: PullRequest, roster: Seq<Seq<char>>)
    requires
        author_login(pr) matches Some(l) ==> !roster.contains(l),
    ensures
        samples_of(pr, roster) == Seq::<u64>::empty(),
{
}

/// A pull request whose merge commit has a check suite that has not
/// completed gives no samples, whatever the other suites say.
pub proof fn lemma_unfinished_ci_gives_nothing(pr: PullRequest, roster: Seq<Seq<char>>, i: int)
    requires
        suites_of(pr) matches Some(s) && 0 <= i < s.len() && s[i].status != CheckStatusState::Completed,
    ensures
        samples_of(pr, roster) == Seq::<u64>::empty(),
{
    assert(!all_completed(suites_of(pr).unwrap()));
}

/// The deploy instant is the latest update among the suites, whatever their
/// order: suites that hold the same entries in another order give the same.
pub proof fn lemma_deploy_time_ignores_order(s1: Seq<CheckSuite>, s2: Seq<CheckSuite>)
    requires
        s1.len() > 0,
        s1.to_multiset() == s2.to_multiset(),
    ensures
        s2.len() > 0,
        latest_update(s1) == latest_update(s2),
        forall|j: int| 0 <= j < s2.len() ==> #[trigger] s2[j].updated_at@ <= latest_update(s2),
        exists|i: int| 0 <= i < s2.len() && #[trigger] s2[i].updated_at@ == latest_update(s2),
{
    broadcast use vstd::seq_lib::group_to_multiset_ensures;

    assert(s1.len() == s1.to_multiset().len());
    assert(s2.len() == s2.to_multiset().len());
    lemma_latest_update(s1);
    lemma_latest_update(s2);
    let i1 = choose|i: int| 0 <= i < s1.len() && #[trigger] s1[i].updated_at@ == latest_update(s1);
    let i2 = choose|i: int| 0 <= i < s2.len() && #[trigger] s2[i].updated_at@ == latest_update(s2);
    assert(s1.contains(s1[i1]));
    assert(s1.to_multiset().count(s1[i1]) > 0);
    assert(s2.contains(s1[i1]));
    assert(s2.contains(s2[i2]));
    assert(s2.to_multiset().count(s2[i2]) > 0);
    assert(s1.contains(s2[i2]));
}

/// A pull request of a member that CI gives a deploy time yields exactly one
/// sample per commit, each the seconds from that commit to the deploy time.
pub proof fn lemma_one_sample_per_commit(pr: PullRequest, roster: Seq<Seq<char>>)
    requires
        by_member(pr, roster),
        is_deployed(pr),
    ensures
        samples_of(pr, roster).len() == pr.commits.nodes@.len(),
        forall|i: int| 0 <= i < pr.commits.nodes@.len() ==> #[trigger] samples_of(pr, roster)[i]
            == lead_secs(pr.commits.nodes@[i].commit.authored_date@, deploy_instant(pr)) as u64,
{
}

/// Taking pull requests page by page gives the samples of the whole stream:
/// the samples of two runs of pull requests, one after the other, are those of
/// the first followed by those of the second.
pub proof fn lemma_samples_concat(a: Seq<PullRequest>, b: Seq<PullRequest>, roster: Seq<Seq<char>>)
    ensures
        all_samples(a + b, roster) == all_samples(a, roster) + all_samples(b, roster),
    decreases b.len(),
{
    if b.len() == 0 {
        assert(a + b =~= a);
        assert(all_samples(a, roster) + all_samples(b, roster) =~= all_samples(a, roster));
    } else {
        lemma_samples_concat(a, b.drop_last(), roster);
        assert((a + b).drop_last() =~= a + b.drop_last());
        assert((a + b).last() == b.last());
        assert(all_samples(a + b, roster) =~= all_samples(a, roster) + all_samples(b, roster));
    }
}

impl PullRequest {
    /// When the pull request was deployed: the time its last check suite
    /// finished. `None` when CI gives no deploy time (see `is_deployed`).
    pub fn deploy_time(&self) -> (r: Option<DateTime>)
        ensures
            r is Some <==> is_deployed(*self),
            r matches Some(t) ==> t@ == deploy_instant(*self),
    {
        self.check_suite_finish_time()
    }

    /// The latest `updated_at` of the merge commit's check suites, when there
    /// are any and all have completed; `None` otherwise.
    pub fn check_suite_finish_time(&self) -> (r: Option<DateTime>)
        ensures
            r is Some <==> is_deployed(*self),
            r matches Some(t) ==> t@ == deploy_instant(*self) && exists|i: int|
                0 <= i < suites_of(*self).unwrap().len() && #[trigger] suites_of(*self).unwrap()[i].updated_at == t,
    {
        let merge_commit = match &self.merge_commit {
            Some(c) => c,
            None => return None,
        };
        let suites = match &merge_commit.check_suites {
            Some(conn) => &conn.nodes,
            None => return None,
        };
        assert(suites_of(*self) == Some(suites@));
        let mut i: usize = 0;
        while i < suites.len()
            invariant
                i <= suites.len(),
                suites_of(*self) == Some(suites@),
                all_completed(suites@.subrange(0, i as int)),
            decreases suites.len() - i,
        {
            if suites[i].status != CheckStatusState::Completed {
                assert(!all_completed(suites@));
                assert(!is_deployed(*self));
                return None;
            }
            assert(suites@.subrange(0, i + 1)[i as int] == suites@[i as int]);
            assert forall|j: int| 0 <= j < i + 1 implies #[trigger] suites@.subrange(0, i + 1)[j].status
                == CheckStatusState::Completed by {
                if j < i {
                    assert(suites@.subrange(0, i + 1)[j] == suites@.subrange(0, i as int)[j]);
                }
            }
            i = i + 1;
        }
        assert(suites@.subrange(0, suites.len() as int) =~= suites@);
        if suites.len() == 0 {
            return None;
        }
        let mut best: DateTime = suites[0].updated_at;
        let mut k: usize = 1;
        assert(suites@.subrange(0, 1).len() == 1);
        while k < suites.len()
            invariant
                1 <= k <= suites.len(),
                suites_of(*self) == Some(suites@),
                best@ == latest_update(suites@.subrange(0, k as int)),
                exists|j: int| 0 <= j < k && #[trigger] suites@[j].updated_at == best,
            decreases suites.len() - k,
        {
            let ghost prev = best;
            let t = suites[k].updated_at;
            assert(suites@.subrange(0, k + 1).drop_last() =~= suites@.subrange(0, k as int));
            assert(suites@.subrange(0, k + 1).last() == suites@[k as int]);
            if t.is_after(&best) {
                best = t;
            }
            assert(exists|j: int| 0 <= j < k + 1 && #[trigger] suites@[j].updated_at == best);
            k = k + 1;
        }
        assert(suites@.subrange(0, suites.len() as int) =~= suites@);
        Some(best)
    }

    /// Whether a member of `roster` opened the pull request.
    pub fn author_is_member(&self, roster: &Vec<String>) -> (r: bool)
        ensures
            r == by_member(*self, logins_of(roster@)),
    {
        match &self.author {
            Some(Actor::User(user)) => is_member(roster, &user.login),
            _ => false,
        }
    }

    /// Seconds from each commit's authoring to `deploy`, in commit order;
    /// zero for a commit authored after `deploy`.
    pub fn commit_lead_times(&self, deploy: &DateTime) -> (r: Vec<u64>)
        ensures
            r@ == commit_samples(self.commits.nodes@, deploy@),
    {
        let commits = &self.commits.nodes;
        let mut out: Vec<u64> = Vec::new();
        let mut i: usize = 0;
        while i < commits.len()
            invariant
                i <= commits.len(),
                out@ == commit_samples(commits@.subrange(0, i as int), deploy@),
            decreases commits.len() - i,
        {
            let s = commits[i].commit.authored_date.lead_seconds_until(deploy);
            out.push(s);
            assert(commit_samples(commits@.subrange(0, i + 1), deploy@) =~= commit_samples(
                commits@.subrange(0, i as int),
                deploy@,
            ).push(s));
            i = i + 1;
        }
        assert(commits@.subrange(0, commits.len() as int) =~= commits@);
        out
    }

    /// The lead-time samples of this pull request for the team `roster`.
    pub fn lead_times(&self, roster: &Vec<String>) -> (r: Vec<u64>)
        ensures
            r@ == samples_of(*self, logins_of(roster@)),
    {
        if !self.author_is_member(roster) {
            return Vec::new();
        }
        match self.deploy_time() {
            Some(deploy) => self.commit_lead_times(&deploy),
            None => Vec::new(),
        }
    }
}

/// Appends to `samples` the lead-time samples of `prs` for the team `roster`,
/// pull request by pull request.
pub fn collect_lead_times(samples: &mut Vec<u64>, prs: &Vec<PullRequest>, roster: &Vec<String>)
    ensures
        final(samples)@ == old(samples)@ + all_samples(prs@, logins_of(roster@)),
{
    let ghost start = samples@;
    let mut i: usize = 0;
    while i < prs.len()
        invariant
            i <= prs.len(),
            samples@ == start + all_samples(prs@.subrange(0, i as int), logins_of(roster@)),
        decreases prs.len() - i,
    {
        let mut more = prs[i].lead_times(roster);
        let ghost added = more@;
        samples.append(&mut more);
        assert(prs@.subrange(0, i + 1).drop_last() =~= prs@.subrange(0, i as int));
        assert(samples@ =~= start + all_samples(prs@.subrange(0, i + 1), logins_of(roster@)));
        i = i + 1;
    }
    assert(prs@.subrange(0, prs.len() as int) =~= prs@);
}

} // verus!
