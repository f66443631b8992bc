//! Issues, their workflow state and their history, and the variables that
//! the issue queries take.

use vstd::prelude::*;
use super::schema::DateTime;

verus! {

/// Variables of the issue queries: the team to look in and, for the query
/// of finished issues, how far back completion may lie.
#[derive(Debug, Clone, PartialEq, Eq)]
pub struct ActiveIssuesVariables {
    pub id: Option<String>,
    pub completed_at: Option<DateTime>,
}

/// Issues that are not cancelled and whose state is of type `started` or
/// `unstarted`.
#[derive(Debug, Clone, PartialEq, Eq)]
pub struct TodoIssuesQuery {
    pub issues: IssueConnection,
}

/// Issues that are not cancelled, were started, were completed before the
/// given time, and whose state is not named `Done`.
#[derive(Debug, Clone, PartialEq, Eq)]
pub struct InTestingIssuesQuery {
    pub issues: IssueConnection,
}

/// Issues that are not cancelled, were completed after the given time, and
/// whose state is named `Done`.
#[derive(Debug, Clone, PartialEq, Eq)]
pub struct DoneIssuesQuery {
    pub issues: IssueConnection,
}

/// Issues that are not cancelled, were started, and whose state is not
/// named `Done`.
#[derive(Debug, Clone, PartialEq, Eq)]
pub struct ActiveIssuesQuery {
    pub issues: IssueConnection,
}

/// One page of issues.
#[derive(Debug, Clone, PartialEq, Eq)]
pub struct IssueConnection {
    pub page_info: PageInfo,
    pub nodes: Vec<Issue>,
}

/// Where a page stands in the whole result.
#[derive(Debug, Clone, PartialEq, Eq)]
pub struct PageInfo {
    pub start_cursor: Option<String>,
    pub end_cursor: Option<String>,
    pub has_next_page: bool,
}

/// An issue as it stood when it was fetched. `priority` and `number` are
/// whole numbers.
#[derive(Debug, Clone, PartialEq, Eq)]
pub struct Issue {
    pub description: Option<String>,
    pub history: IssueHistoryConnection,
    pub title: String,
    pub labels: IssueLabelConnection,
    pub priority: i64,
    pub updated_at: DateTime,
    pub number: i64,
    pub completed_at: Option<DateTime>,
    pub canceled_at: Option<DateTime>,
    pub state: WorkflowState,
    pub assignee: Option<User>,
    pub priority_label: String,
    pub identifier: String,
}

/// The person an issue is assigned to.
#[derive(Debug, Clone, PartialEq, Eq)]
pub struct User {
    pub display_name: String,
    pub name: String,
}

/// The labels of an issue.
#[derive(Debug, Clone, PartialEq, Eq)]
pub struct IssueLabelConnection {
    pub nodes: Vec<IssueLabel>,
}

/// A label.
#[derive(Debug, Clone, PartialEq, Eq)]
pub struct IssueLabel {
    pub name: String,
}

/// The recorded changes of an issue, latest first.
#[derive(Debug, Clone, PartialEq, Eq)]
pub struct IssueHistoryConnection {
    pub nodes: Vec<IssueHistory>,
}

/// One recorded change of an issue. `to_state` is set where the change
/// moved the issue to another workflow state.
#[derive(Debug, Clone, PartialEq, Eq)]
pub struct IssueHistory {
    pub id: String,
    pub from_title: Option<String>,
    pub from_state_id: Option<String>,
    pub to_state: Option<WorkflowState>,
    pub updated_at: DateTime,
}

/// A stage of a team's workflow.
#[derive(Debug, Clone, PartialEq, Eq)]
pub struct WorkflowState {
    pub name: String,
    pub id: String,
    pub updated_at: DateTime,
}

/// What classification reads of a change: whether it moved the issue to a
/// state, and when it happened.
pub struct HistoryView {
    pub to_state: Option<Seq<char>>,
    pub updated_at: Seq<char>,
}

impl View for IssueHistory {
    type V = HistoryView;

    open spec fn view(&self) -> HistoryView {
        HistoryView {
            to_state: match self.to_state {
                Some(state) => Some(state.name@),
                None => None,
            },
            updated_at: self.updated_at@,
        }
    }
}

/// What merging and classification read of an issue.
pub struct IssueView {
    pub identifier: Seq<char>,
    pub state_name: Seq<char>,
    pub history: Seq<HistoryView>,
}

impl View for Issue {
    type V = IssueView;

    open spec fn view(&self) -> IssueView {
        IssueView {
            identifier: self.identifier@,
            state_name: self.state.name@,
            history: self.history.nodes@.map_values(|entry: IssueHistory| entry@),
        }
    }
}

} // verus!
