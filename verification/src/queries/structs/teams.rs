//! The team listing.

use vstd::prelude::*;

verus! {

/// What the team listing query returns.
#[derive(Debug, Clone, PartialEq, Eq)]
pub struct TeamsQuery {
    pub teams: TeamConnection,
}

/// One page of teams.
#[derive(Debug, Clone, PartialEq, Eq)]
pub struct TeamConnection {
    pub nodes: Vec<Team>,
}

/// A team of the workspace. `key` is the short prefix of its issue
/// identifiers; `id` is what issue queries are scoped by.
#[derive(Debug, Clone, PartialEq, Eq)]
pub struct Team {
    pub id: String,
    pub name: String,
    pub description: Option<String>,
    pub issue_count: i32,
    pub key: String,
    pub members: UserConnection,
}

/// The members of a team.
#[derive(Debug, Clone, PartialEq, Eq)]
pub struct UserConnection {
    pub nodes: Vec<User>,
}

/// A member of a team.
#[derive(Debug, Clone, PartialEq, Eq)]
pub struct User {
    pub email: String,
    pub id: String,
    pub name: String,
    pub active: bool,
}

} // verus!
