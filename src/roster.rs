//! The set of a team's member logins.
use vstd::prelude::*;
use crate::queries::{Team, TeamMembers, User};
use crate::response::{FetchError, GraphQLResponse, has_errors, response_data};

verus! {

/// The logins held in a list of strings, as character sequences.
pub open spec fn logins_of(v: Seq<String>) -> Seq<Seq<char>> {
    v.map_values(|s: String| s@)
}

/// The logins of a list of users.
pub open spec fn user_logins(users: Seq<User>) -> Seq<Seq<char>> {
    users.map_values(|u: User| u.login@)
}

/// The team that a team-members response resolves to, if any.
pub open spec fn team_of(resp: GraphQLResponse<TeamMembers>) -> Option<Team> {
    match resp.data {
        Some(d) => match d.organization {
            Some(o) => o.team,
            None => None,
        },
        None => None,
    }
}

/// Whether `login` is one of the strings in `roster`.
pub fn is_member(roster: &Vec<String>, login: &String) -> (r: bool)
    ensures
        r == logins_of(roster@).contains(login@),
{
    let mut i: usize = 0;
    while i < roster.len()
        invariant
            i <= roster.len(),
            forall|j: int| 0 <= j < i ==> roster@[j]@ != login@,
        decreases roster.len() - i,
    {
        if roster[i] == *login {
            assert(logins_of(roster@)[i as int] == login@);
            return true;
        }
        i = i + 1;
    }
    proof {
        if logins_of(roster@).contains(login@) {
            let j = choose|j: int| 0 <= j < logins_of(roster@).len() && logins_of(roster@)[j] == login@;
            assert(roster@[j]@ == login@);
        }
    }
    false
}

/// The team's member logins from the team-members response, each once.
///
/// Refused with the response's errors when it lists any, with `NoData` when
/// it has no data, and with `TeamNotFound` when the organization or the team
/// is absent.
pub fn team_members(resp: GraphQLResponse<TeamMembers>) -> (r: Result<Vec<String>, FetchError>)
    ensures
        has_errors(resp) ==> r == Err::<Vec<String>, FetchError>(FetchError::Api(resp.errors.unwrap())),
        !has_errors(resp) && resp.data is None ==> r == Err::<Vec<String>, FetchError>(FetchError::NoData),
        !has_errors(resp) && resp.data is Some && team_of(resp) is None
            ==> r == Err::<Vec<String>, FetchError>(FetchError::TeamNotFound),
        !has_errors(resp) ==> (team_of(resp) matches Some(t) ==> (r matches Ok(v)
            && logins_of(v@).no_duplicates()
            && logins_of(v@).to_set() == user_logins(t.members.nodes@).to_set())),
{
    let data = match response_data(resp) {
        Ok(d) => d,
        Err(e) => return Err(e),
    };
    let org = match data.organization {
        Some(o) => o,
        None => return Err(FetchError::TeamNotFound),
    };
    let team = match org.team {
        Some(t) => t,
        None => return Err(FetchError::TeamNotFound),
    };
    let nodes = &team.members.nodes;
    let mut out: Vec<String> = Vec::new();
    let mut i: usize = 0;
    while i < nodes.len()
        invariant
            i <= nodes.len(),
            logins_of(out@).no_duplicates(),
            logins_of(out@).to_set() == user_logins(nodes@.subrange(0, i as int)).to_set(),
        decreases nodes.len() - i,
    {
        let login = &nodes[i].login;
        let seen = is_member(&out, login);
        let ghost before = out@;
        if !seen {
            out.push(login.clone());
            assert(logins_of(out@) =~= logins_of(before).push(login@));
        }
        assert(user_logins(nodes@.subrange(0, i + 1)) =~= user_logins(nodes@.subrange(0, i as int)).push(login@));
        proof {
            let prev = user_logins(nodes@.subrange(0, i as int));
            Seq::lemma_to_set_insert_commutes(prev, login@);
            assert(prev.push(login@) =~= prev + seq![login@]);
            if !seen {
                Seq::lemma_to_set_insert_commutes(logins_of(before), login@);
                assert(logins_of(before).push(login@) =~= logins_of(before) + seq![login@]);
            } else {
                assert(logins_of(out@).to_set().contains(login@));
                assert(logins_of(out@).to_set().insert(login@) =~= logins_of(out@).to_set());
            }
        }
        i = i + 1;
    }
    assert(nodes@.subrange(0, nodes.len() as int) =~= nodes@);
    Ok(out)
}

} // verus!
