//! Fetching the issues of a team: which query to send next, and what to do
//! with each reply. Three queries are sent in turn (finished, active, open);
//! the caller sends each request and hands back what came of it.

use vstd::prelude::*;
use vstd::string::StringExecFns;
use crate::client::{interpret, interpreted, ApiError, GraphQlResponse};
use crate::merge::{append_unseen, extend_unseen, merged};
use crate::queries::structs::active_issues::{
    ActiveIssuesQuery,
    ActiveIssuesVariables,
    DoneIssuesQuery,
    Issue,
    IssueConnection,
    TodoIssuesQuery,
};
use crate::queries::structs::schema::DateTime;

verus! {

/// The three issue queries, in the order in which they are sent.
#[derive(Debug, Clone, Copy, PartialEq, Eq)]
pub enum QueryKind {
    /// Not cancelled, in the state named `Done`, completed within the last
    /// four days.
    Done,
    /// Not cancelled, started, in a state not named `Done`.
    Active,
    /// Not cancelled, in a state of type `started` or `unstarted`.
    Todo,
}

/// A query to send, with its variables.
#[derive(Debug, Clone, PartialEq, Eq)]
pub struct IssueRequest {
    pub kind: QueryKind,
    pub variables: ActiveIssuesVariables,
}

/// Notice that a reply held only the first page of its result. The run goes
/// on with that page.
#[derive(Debug, Clone, PartialEq, Eq)]
pub struct PaginationTruncated {
    pub kind: QueryKind,
    /// How many issues the page held.
    pub received: usize,
}

/// `request` is the query `kind`, scoped to the team `team_id`. Only the
/// query of finished issues carries a time: four days back from the present.
pub open spec fn asks(request: IssueRequest, kind: QueryKind, team_id: Seq<char>) -> bool {
    &&& request.kind == kind
    &&& match request.variables.id {
        Some(id) => id@ == team_id,
        None => false,
    }
    &&& match request.variables.completed_at {
        Some(since) => kind == QueryKind::Done && since@ == "-P4D"@,
        None => kind != QueryKind::Done,
    }
}

/// The issues of a page; none where the reply held no data.
pub open spec fn page_nodes(page: Option<IssueConnection>) -> Seq<Issue> {
    match page {
        Some(connection) => connection.nodes@,
        None => Seq::empty(),
    }
}

/// The notice that a page calls for: one exactly if it reports a next page.
pub open spec fn page_truncated(kind: QueryKind, page: Option<IssueConnection>) -> Option<
    PaginationTruncated,
> {
    match page {
        Some(connection) => if connection.page_info.has_next_page {
            Some(PaginationTruncated { kind, received: connection.nodes@.len() as usize })
        } else {
            None
        },
        None => None,
    }
}

/// The page inside the data of the query of finished issues.
pub open spec fn done_page(data: Option<DoneIssuesQuery>) -> Option<IssueConnection> {
    match data {
        Some(query) => Some(query.issues),
        None => None,
    }
}

/// The page inside the data of the query of active issues.
pub open spec fn active_page(data: Option<ActiveIssuesQuery>) -> Option<IssueConnection> {
    match data {
        Some(query) => Some(query.issues),
        None => None,
    }
}

/// The page inside the data of the query of open issues.
pub open spec fn todo_page(data: Option<TodoIssuesQuery>) -> Option<IssueConnection> {
    match data {
        Some(query) => Some(query.issues),
        None => None,
    }
}

/// The request for one of the three queries, scoped to a team.
pub fn request(kind: QueryKind, team_id: &String) -> (request: IssueRequest)
    ensures
        asks(request, kind, team_id@),
{
    let completed_at = match kind {
        QueryKind::Done => Some(DateTime(String::from_str("-P4D"))),
        QueryKind::Active => None,
        QueryKind::Todo => None,
    };
    let variables = ActiveIssuesVariables { id: Some(team_id.clone()), completed_at };
    IssueRequest { kind, variables }
}

/// Takes a page apart into its issues and the notice it calls for.
fn open_page(kind: QueryKind, page: Option<IssueConnection>) -> (parts: (
    Vec<Issue>,
    Option<PaginationTruncated>,
))
    ensures
        parts.0@ == page_nodes(page),
        parts.1 == page_truncated(kind, page),
{
    match page {
        Some(connection) => {
            let warning = if connection.page_info.has_next_page {
                Some(PaginationTruncated { kind, received: connection.nodes.len() })
            } else {
                None
            };
            (connection.nodes, warning)
        },
        None => (Vec::new(), None),
    }
}

/// What is known while a reply is awaited: the team, and the issues
/// gathered so far.
pub struct Progress {
    pub team_id: Seq<char>,
    pub issues: Seq<Issue>,
}

/// The fetch after its first request, for the finished issues, was handed
/// out.
#[derive(Debug)]
pub struct AwaitingDone {
    team_id: String,
}

/// The fetch while the reply on the active issues is awaited.
#[derive(Debug)]
pub struct AwaitingActive {
    team_id: String,
    issues: Vec<Issue>,
}

/// The fetch while the reply on the open issues is awaited.
#[derive(Debug)]
pub struct AwaitingTodo {
    team_id: String,
    issues: Vec<Issue>,
}

impl View for AwaitingDone {
    type V = Progress;

    closed spec fn view(&self) -> Progress {
        Progress { team_id: self.team_id@, issues: Seq::empty() }
    }
}

impl View for AwaitingActive {
    type V = Progress;

    closed spec fn view(&self) -> Progress {
        Progress { team_id: self.team_id@, issues: self.issues@ }
    }
}

impl View for AwaitingTodo {
    type V = Progress;

    closed spec fn view(&self) -> Progress {
        Progress { team_id: self.team_id@, issues: self.issues@ }
    }
}

/// Starts a fetch for a team. The first request is for the finished issues.
pub fn begin(team_id: String) -> (start: (AwaitingDone, IssueRequest))
    ensures
        start.0@.team_id == team_id@,
        start.0@.issues == Seq::<Issue>::empty(),
        asks(start.1, QueryKind::Done, team_id@),
{
    let first = request(QueryKind::Done, &team_id);
    (AwaitingDone { team_id }, first)
}

impl AwaitingDone {
    /// Takes the outcome of the query of finished issues. A failure ends the
    /// fetch. Otherwise every issue of the page is kept, and the request for
    /// the active issues of the same team is next.
    pub fn receive(self, outcome: Result<GraphQlResponse<DoneIssuesQuery>, String>) -> (step:
        Result<(AwaitingActive, IssueRequest, Option<PaginationTruncated>), ApiError>)
        ensures
            match interpreted(outcome) {
                Err(error) => step == Err::<
                    (AwaitingActive, IssueRequest, Option<PaginationTruncated>),
                    ApiError,
                >(error),
                Ok(data) => match step {
                    Ok((next, request, warning)) => {
                        &&& next@.team_id == self@.team_id
                        &&& next@.issues == page_nodes(done_page(data))
                        &&& asks(request, QueryKind::Active, self@.team_id)
                        &&& warning == page_truncated(QueryKind::Done, done_page(data))
                    },
                    Err(_) => false,
                },
            },
    {
        match interpret(outcome) {
            Err(error) => Err(error),
            Ok(data) => {
                let page = match data {
                    Some(query) => Some(query.issues),
                    None => None,
                };
                let (issues, warning) = open_page(QueryKind::Done, page);
                let next = request(QueryKind::Active, &self.team_id);
                Ok((AwaitingActive { team_id: self.team_id, issues }, next, warning))
            },
        }
    }
}

impl AwaitingActive {
    /// Takes the outcome of the query of active issues. A failure ends the
    /// fetch. Otherwise every issue of the page is kept behind those already
    /// gathered, and the request for the open issues of the same team is
    /// next.
    pub fn receive(self, outcome: Result<GraphQlResponse<ActiveIssuesQuery>, String>) -> (step:
        Result<(AwaitingTodo, IssueRequest, Option<PaginationTruncated>), ApiError>)
        ensures
            match interpreted(outcome) {
                Err(error) => step == Err::<
                    (AwaitingTodo, IssueRequest, Option<PaginationTruncated>),
                    ApiError,
                >(error),
                Ok(data) => match step {
                    Ok((next, request, warning)) => {
                        &&& next@.team_id == self@.team_id
                        &&& next@.issues == self@.issues + page_nodes(active_page(data))
                        &&& asks(request, QueryKind::Todo, self@.team_id)
                        &&& warning == page_truncated(QueryKind::Active, active_page(data))
                    },
                    Err(_) => false,
                },
            },
    {
        match interpret(outcome) {
            Err(error) => Err(error),
            Ok(data) => {
                let page = match data {
                    Some(query) => Some(query.issues),
                    None => None,
                };
                let (mut fresh, warning) = open_page(QueryKind::Active, page);
                let next = request(QueryKind::Todo, &self.team_id);
                let mut issues = self.issues;
                issues.append(&mut fresh);
                Ok((AwaitingTodo { team_id: self.team_id, issues }, next, warning))
            },
        }
    }
}

impl AwaitingTodo {
    /// Takes the outcome of the query of open issues, which ends the fetch.
    /// On a failure nothing is handed out. Otherwise an issue of the page is
    /// kept unless an issue with its identifier was gathered before it.
    pub fn receive(self, outcome: Result<GraphQlResponse<TodoIssuesQuery>, String>) -> (step:
        Result<(Vec<Issue>, Option<PaginationTruncated>), ApiError>)
        ensures
            match interpreted(outcome) {
                Err(error) => step == Err::<(Vec<Issue>, Option<PaginationTruncated>), ApiError>(
                    error,
                ),
                Ok(data) => match step {
                    Ok((issues, warning)) => {
                        &&& issues@ == append_unseen(self@.issues, page_nodes(todo_page(data)))
                        &&& warning == page_truncated(QueryKind::Todo, todo_page(data))
                    },
                    Err(_) => false,
                },
            },
    {
        match interpret(outcome) {
            Err(error) => Err(error),
            Ok(data) => {
                let page = match data {
                    Some(query) => Some(query.issues),
                    None => None,
                };
                let (fresh, warning) = open_page(QueryKind::Todo, page);
                let mut issues = self.issues;
                extend_unseen(&mut issues, fresh);
                Ok((issues, warning))
            },
        }
    }
}

/// A fetch that gets all three pages hands out what `merge` makes of them:
/// `after_done` and `after_active` stand for the progress after the first
/// and the second reply, `fetched` for the issues handed out after the
/// third.
pub proof fn fetch_merges_pages(
    done: Seq<Issue>,
    active: Seq<Issue>,
    todo: Seq<Issue>,
    after_done: Progress,
    after_active: Progress,
    fetched: Seq<Issue>,
)
    requires
        after_done.issues == done,
        after_active.issues == after_done.issues + active,
        fetched == append_unseen(after_active.issues, todo),
    ensures
        fetched == merged(done, active, todo),
{
}

} // verus!
