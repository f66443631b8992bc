//! Deciding whether an issue changed its workflow state recently, and
//! sorting the issues that did into the groups of the report.

use vstd::prelude::*;
use vstd::string::StringExecFns;
use crate::clock::{
    parse_timestamp,
    parsed_instant,
    whole_hours,
    Instant,
    Timestamp,
    TimestampParseError,
};
use crate::decimal::{decimal, push_decimal};
use crate::queries::structs::active_issues::{HistoryView, Issue, IssueHistory, IssueView};
use crate::tasks::{bucket_for, bucket_of, Bucket, Tasks, TasksView};

verus! {

/// The entry records a move to a workflow state.
pub open spec fn is_transition(entry: HistoryView) -> bool {
    entry.to_state is Some
}

/// The entries of a history that record a move to a state, in the order of
/// the history: latest first.
pub open spec fn transitions(history: Seq<HistoryView>) -> Seq<HistoryView> {
    history.filter(|entry: HistoryView| is_transition(entry))
}

/// The line that reports an issue: its identifier and how long ago it last
/// changed state.
pub open spec fn report_line(identifier: Seq<char>, hours_ago: int) -> Seq<char> {
    identifier + " Happened "@ + decimal(hours_ago) + " hours ago."@
}

/// Where an issue goes whose last change of state lies `hours_ago` hours
/// back: into the group of the state it is in now, if that is less than
/// `threshold` hours; nowhere otherwise.
pub open spec fn placed(issue: IssueView, hours_ago: int, threshold: int) -> Option<
    (Bucket, Seq<char>),
> {
    if hours_ago < threshold {
        Some((bucket_of(issue.state_name), report_line(issue.identifier, hours_ago)))
    } else {
        None
    }
}

/// The latest change of state that a history records: the first of its
/// transitions.
pub open spec fn latest_change(history: Seq<HistoryView>) -> Option<HistoryView> {
    let moves = transitions(history);
    if moves.len() == 0 {
        None
    } else {
        Some(moves[0])
    }
}

/// The text that stands where the time of the issue's latest change of
/// state should, if the issue has such a change and the text is no time.
pub open spec fn unreadable(issue: IssueView) -> Option<Seq<char>> {
    match latest_change(issue.history) {
        Some(change) => if parsed_instant(change.updated_at) is None {
            Some(change.updated_at)
        } else {
            None
        },
        None => None,
    }
}

/// What classification makes of an issue at the time `now`. An issue
/// without a change of state is left out. Otherwise its latest change of
/// state decides: where the time of that change cannot be read, the outcome
/// is the text that was found in its place; else see `placed`.
pub open spec fn classified(issue: IssueView, now: Instant, threshold: int) -> Result<
    Option<(Bucket, Seq<char>)>,
    Seq<char>,
> {
    match latest_change(issue.history) {
        None => Ok(None),
        Some(change) => match parsed_instant(change.updated_at) {
            Some(at) => Ok(placed(issue, whole_hours(now, at), threshold)),
            None => Err(change.updated_at),
        },
    }
}

/// A placement with its line as text.
pub open spec fn shown(placement: Option<(Bucket, String)>) -> Option<(Bucket, Seq<char>)> {
    match placement {
        Some((bucket, line)) => Some((bucket, line@)),
        None => None,
    }
}

/// The views of a list of history entries.
pub open spec fn history_views(history: Seq<IssueHistory>) -> Seq<HistoryView> {
    history.map_values(|entry: IssueHistory| entry@)
}

/// A history without a change of state has no transitions.
pub proof fn transitions_of_none(history: Seq<HistoryView>)
    requires
        forall|j: int| 0 <= j < history.len() ==> !is_transition(#[trigger] history[j]),
    ensures
        transitions(history).len() == 0,
    decreases history.len(),
{
    reveal(Seq::filter);
    if history.len() > 0 {
        let front = history.drop_last();
        assert forall|j: int| 0 <= j < front.len() implies !is_transition(#[trigger] front[j]) by {
            assert(front[j] == history[j]);
        }
        transitions_of_none(front);
    }
}

/// The first transition of a history is its first entry that records a
/// change of state.
pub proof fn transitions_start(history: Seq<HistoryView>, first: int)
    requires
        0 <= first < history.len(),
        is_transition(history[first]),
        forall|j: int| 0 <= j < first ==> !is_transition(#[trigger] history[j]),
    ensures
        transitions(history).len() > 0,
        transitions(history)[0] == history[first],
    decreases history.len(),
{
    reveal(Seq::filter);
    let front = history.drop_last();
    if first == history.len() - 1 {
        assert forall|j: int| 0 <= j < front.len() implies !is_transition(#[trigger] front[j]) by {
            assert(front[j] == history[j]);
        }
        transitions_of_none(front);
    } else {
        assert(front[first] == history[first]);
        assert forall|j: int| 0 <= j < first implies !is_transition(#[trigger] front[j]) by {
            assert(front[j] == history[j]);
        }
        transitions_start(front, first);
    }
}

/// The place of the latest change of state in a history: the first entry
/// that has a state it moved to.
pub fn latest_transition(history: &Vec<IssueHistory>) -> (found: Option<usize>)
    ensures
        match found {
            Some(first) => {
                &&& first < history.len()
                &&& history@[first as int].to_state is Some
                &&& forall|j: int| 0 <= j < first ==> (#[trigger] history@[j]).to_state is None
                &&& transitions(history_views(history@)).len() > 0
                &&& transitions(history_views(history@))[0] == history@[first as int]@
            },
            None => {
                &&& forall|j: int|
                    0 <= j < history.len() ==> (#[trigger] history@[j]).to_state is None
                &&& transitions(history_views(history@)).len() == 0
            },
        },
{
    let mut i: usize = 0;
    while i < history.len()
        invariant
            i <= history.len(),
            forall|j: int| 0 <= j < i ==> (#[trigger] history@[j]).to_state is None,
        decreases history.len() - i,
    {
        if history[i].to_state.is_some() {
            proof {
                transitions_start(history_views(history@), i as int);
            }
            return Some(i);
        }
        i += 1;
    }
    proof {
        transitions_of_none(history_views(history@));
    }
    None
}

/// The line that reports an issue.
pub fn format_line(identifier: &String, hours_ago: i64) -> (line: String)
    ensures
        line@ == report_line(identifier@, hours_ago as int),
{
    let mut line = identifier.clone();
    line.append(" Happened ");
    push_decimal(&mut line, hours_ago);
    line.append(" hours ago.");
    line
}

/// Places an issue whose latest change of state lies `hours_ago` hours
/// back. It is reported if that is less than `threshold` hours, in the
/// group of the state it is in now.
pub fn place(issue: &Issue, hours_ago: i64, threshold: i64) -> (placement: Option<(Bucket, String)>)
    ensures
        shown(placement) == placed(issue@, hours_ago as int, threshold as int),
{
    if hours_ago < threshold {
        Some((bucket_for(&issue.state.name), format_line(&issue.identifier, hours_ago)))
    } else {
        None
    }
}

/// Classifies an issue at the time `now`.
///
/// An issue whose history records no change of state is left out. Else the
/// latest change decides: the issue is reported if the whole hours since
/// are fewer than `threshold`, in the group of the state it is in now. If
/// the time of that change is no RFC 3339 date and time, the error holds
/// the text found.
pub fn classify(issue: &Issue, now: &Timestamp, threshold: i64) -> (result: Result<
    Option<(Bucket, String)>,
    TimestampParseError,
>)
    ensures
        match result {
            Ok(placement) => classified(issue@, now@, threshold as int) == Ok::<
                Option<(Bucket, Seq<char>)>,
                Seq<char>,
            >(shown(placement)),
            Err(error) => classified(issue@, now@, threshold as int) == Err::<
                Option<(Bucket, Seq<char>)>,
                Seq<char>,
            >(error.text@),
        },
{
    match latest_transition(&issue.history.nodes) {
        None => Ok(None),
        Some(first) => {
            let entry = &issue.history.nodes[first];
            match parse_timestamp(entry.updated_at.0.as_str()) {
                Err(error) => Err(error),
                Ok(at) => Ok(place(issue, now.hours_since(&at), threshold)),
            }
        },
    }
}

/// An issue whose history holds no change of state is left out of the
/// report, whatever the time and the threshold.
pub proof fn classify_needs_a_transition(issue: IssueView, now: Instant, threshold: int)
    requires
        forall|j: int|
            0 <= j < issue.history.len() ==> (#[trigger] issue.history[j]).to_state is None,
    ensures
        classified(issue, now, threshold) == Ok::<Option<(Bucket, Seq<char>)>, Seq<char>>(None),
{
    transitions_of_none(issue.history);
}

/// Whether the time of an issue's latest change can be read depends on
/// neither the present time nor the threshold: classification fails exactly
/// on the issues that `unreadable` names, with the text it gives.
pub proof fn classify_fails_on_unreadable(issue: IssueView, now: Instant, threshold: int)
    ensures
        match unreadable(issue) {
            Some(text) => classified(issue, now, threshold) == Err::<
                Option<(Bucket, Seq<char>)>,
                Seq<char>,
            >(text),
            None => classified(issue, now, threshold) is Ok,
        },
{
}

/// Raising the threshold never drops an issue: one that is reported under
/// a threshold is reported under every higher one, in the same group and
/// with the same line.
pub proof fn classify_is_monotonic(issue: IssueView, now: Instant, lower: int, higher: int)
    requires
        lower <= higher,
        classified(issue, now, lower) matches Ok(Some(_)),
    ensures
        classified(issue, now, higher) == classified(issue, now, lower),
{
}

} // verus!
