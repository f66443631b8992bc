//! Finding the team that the report is about in the team listing.

use vstd::prelude::*;
use vstd::string::StringExecFns;
use crate::client::{interpret, interpreted, ApiError, GraphQlResponse};
use crate::queries::structs::teams::{Team, TeamsQuery};

verus! {

/// No team of the listing has the key that was searched for.
#[derive(Debug, Clone, PartialEq, Eq)]
pub struct TeamNotFoundError {
    pub search_key: String,
}

/// Why no team could be resolved.
#[derive(Debug, Clone, PartialEq, Eq)]
pub enum ResolveError {
    /// The listing could not be had.
    Api(ApiError),
    /// The listing holds no team with the key.
    NotFound(TeamNotFoundError),
}

/// `index` is the place of the first team whose key is exactly `key`.
pub open spec fn first_match(teams: Seq<Team>, key: Seq<char>, index: int) -> bool {
    &&& 0 <= index < teams.len()
    &&& teams[index].key@ == key
    &&& forall|j: int| 0 <= j < index ==> (#[trigger] teams[j]).key@ != key
}

/// No team has the key `key`.
pub open spec fn no_match(teams: Seq<Team>, key: Seq<char>) -> bool {
    forall|j: int| 0 <= j < teams.len() ==> (#[trigger] teams[j]).key@ != key
}

/// The teams of a listing; none where the reply held no data.
pub open spec fn listed(data: Option<TeamsQuery>) -> Seq<Team> {
    match data {
        Some(query) => query.teams.nodes@,
        None => Seq::empty(),
    }
}

/// What `resolve_team` gives for a listing: the identifier of the first
/// team with the key, or the error that names the key.
pub open spec fn resolved(teams: Seq<Team>, key: Seq<char>, result: Result<
    String,
    TeamNotFoundError,
>) -> bool {
    match result {
        Ok(id) => exists|index: int| #[trigger]
            first_match(teams, key, index) && id@ == teams[index].id@,
        Err(error) => no_match(teams, key) && error.search_key@ == key,
    }
}

/// The identifier of the first team whose key equals `search_key`, letter
/// for letter. Where there is none, the error says which key found no team.
pub fn resolve_team(teams: &Vec<Team>, search_key: &str) -> (result: Result<
    String,
    TeamNotFoundError,
>)
    ensures
        resolved(teams@, search_key@, result),
{
    let wanted = String::from_str(search_key);
    let mut i: usize = 0;
    while i < teams.len()
        invariant
            i <= teams.len(),
            wanted@ == search_key@,
            forall|j: int| 0 <= j < i ==> (#[trigger] teams@[j]).key@ != search_key@,
        decreases teams.len() - i,
    {
        if teams[i].key == wanted {
            assert(first_match(teams@, search_key@, i as int));
            return Ok(teams[i].id.clone());
        }
        i += 1;
    }
    Err(TeamNotFoundError { search_key: wanted })
}

/// Resolves the team from the outcome of the listing query. A failed query
/// gives its error; a reply without data lists no team.
pub fn resolve_listed_team(
    outcome: Result<GraphQlResponse<TeamsQuery>, String>,
    search_key: &str,
) -> (result: Result<String, ResolveError>)
    ensures
        match interpreted(outcome) {
            Err(error) => result == Err::<String, ResolveError>(ResolveError::Api(error)),
            Ok(data) => match result {
                Ok(id) => resolved(listed(data), search_key@, Ok(id)),
                Err(ResolveError::NotFound(error)) => resolved(
                    listed(data),
                    search_key@,
                    Err(error),
                ),
                Err(ResolveError::Api(_)) => false,
            },
        },
{
    match interpret(outcome) {
        Err(error) => Err(ResolveError::Api(error)),
        Ok(data) => {
            let found = match &data {
                Some(query) => resolve_team(&query.teams.nodes, search_key),
                None => {
                    let none: Vec<Team> = Vec::new();
                    resolve_team(&none, search_key)
                },
            };
            match found {
                Ok(id) => Ok(id),
                Err(error) => Err(ResolveError::NotFound(error)),
            }
        },
    }
}

} // verus!
