//! What each of the three issue queries asks of an issue. The service does
//! the filtering; this states it, so that a stand-in for the service can
//! answer as the service would.

use vstd::prelude::*;
use vstd::string::StringExecFns;
use crate::clock::{days_before, later, Instant, Timestamp};
use crate::fetch::QueryKind;

verus! {

/// How far back the query of finished issues looks, in days.
pub const DONE_LOOKBACK_DAYS: u32 = 4;

/// What the filters look at in an issue as the service holds it.
#[derive(Debug, Clone, PartialEq, Eq)]
pub struct Candidate {
    /// The team that the issue belongs to.
    pub team_id: String,
    /// Whether the issue was cancelled.
    pub canceled: bool,
    /// Whether work on the issue was started.
    pub started: bool,
    /// When the issue was completed, if it was.
    pub completed_at: Option<Timestamp>,
    /// The name of the workflow state that the issue is in.
    pub state_name: String,
    /// The type of that state, such as `started` or `unstarted`.
    pub state_type: String,
}

/// A candidate with its texts and its time as values.
pub struct CandidateView {
    pub team_id: Seq<char>,
    pub canceled: bool,
    pub started: bool,
    pub completed_at: Option<Instant>,
    pub state_name: Seq<char>,
    pub state_type: Seq<char>,
}

impl View for Candidate {
    type V = CandidateView;

    open spec fn view(&self) -> CandidateView {
        CandidateView {
            team_id: self.team_id@,
            canceled: self.canceled,
            started: self.started,
            completed_at: match self.completed_at {
                Some(at) => Some(at@),
                None => None,
            },
            state_name: self.state_name@,
            state_type: self.state_type@,
        }
    }
}

/// Whether the query `kind`, asked for the team `team_id` at the time
/// `now`, returns the candidate. Every query asks for the team and leaves
/// out what was cancelled. Beyond that:
/// finished issues are in the state named `Done` and were completed later
/// than four days before `now`; active issues were started and are in a
/// state not named `Done`; open issues are in a state of type `started` or
/// `unstarted`.
pub open spec fn admitted(
    kind: QueryKind,
    team_id: Seq<char>,
    now: Instant,
    candidate: CandidateView,
) -> bool {
    &&& candidate.team_id == team_id
    &&& !candidate.canceled
    &&& match kind {
        QueryKind::Done => {
            &&& candidate.state_name == "Done"@
            &&& match candidate.completed_at {
                Some(at) => later(at, days_before(now, DONE_LOOKBACK_DAYS as int)),
                None => false,
            }
        },
        QueryKind::Active => candidate.started && candidate.state_name != "Done"@,
        QueryKind::Todo => candidate.state_type == "started"@ || candidate.state_type
            == "unstarted"@,
    }
}

/// Whether the query `kind`, asked for the team `team_id` at the time
/// `now`, returns the candidate.
pub fn admits(kind: QueryKind, team_id: &String, now: &Timestamp, candidate: &Candidate) -> (yes:
    bool)
    ensures
        yes == admitted(kind, team_id@, now@, candidate@),
{
    if candidate.team_id != *team_id || candidate.canceled {
        return false;
    }
    match kind {
        QueryKind::Done => {
            if candidate.state_name != String::from_str("Done") {
                return false;
            }
            match &candidate.completed_at {
                Some(at) => at.within_days(now, DONE_LOOKBACK_DAYS),
                None => false,
            }
        },
        QueryKind::Active => candidate.started && candidate.state_name != String::from_str("Done"),
        QueryKind::Todo => candidate.state_type == String::from_str("started")
            || candidate.state_type == String::from_str("unstarted"),
    }
}

/// No query returns an issue of another team than the one it is asked for,
/// whatever else holds of the issue.
pub proof fn other_teams_are_left_out(
    kind: QueryKind,
    team_id: Seq<char>,
    now: Instant,
    candidate: CandidateView,
)
    requires
        candidate.team_id != team_id,
    ensures
        !admitted(kind, team_id, now, candidate),
{
}

/// The queries of finished and of active issues return no issue in common:
/// the one asks for the state named `Done`, the other for any other name.
pub proof fn done_and_active_are_disjoint(
    team_id: Seq<char>,
    now: Instant,
    candidate: CandidateView,
)
    ensures
        !(admitted(QueryKind::Done, team_id, now, candidate) && admitted(
            QueryKind::Active,
            team_id,
            now,
            candidate,
        )),
{
}

} // verus!
