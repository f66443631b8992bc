//! Sorting a list of issues into the groups of the report.

use vstd::prelude::*;
use crate::classify::{classified, classify, unreadable};
use crate::clock::{Instant, Timestamp, TimestampParseError};
use crate::queries::structs::active_issues::{Issue, IssueView};
use crate::tasks::{Tasks, TasksView};

verus! {

/// An issue that was left out because the time of its latest change of
/// state could not be read.
#[derive(Debug, Clone, PartialEq, Eq)]
pub struct SkippedIssue {
    pub identifier: String,
    pub error: TimestampParseError,
}

/// The identifier of a skipped issue and the text that was no time.
pub struct SkippedView {
    pub identifier: Seq<char>,
    pub text: Seq<char>,
}

impl View for SkippedIssue {
    type V = SkippedView;

    open spec fn view(&self) -> SkippedView {
        SkippedView { identifier: self.identifier@, text: self.error.text@ }
    }
}

/// The outcome of sorting: the lines of each group, and the issues that
/// were skipped.
#[derive(Debug, Clone, PartialEq, Eq)]
pub struct Grouping {
    pub tasks: Tasks,
    pub skipped: Vec<SkippedIssue>,
}

/// The views of a list of issues.
pub open spec fn issue_views(issues: Seq<Issue>) -> Seq<IssueView> {
    issues.map_values(|issue: Issue| issue@)
}

/// The views of a list of skipped issues.
pub open spec fn skipped_views(skipped: Seq<SkippedIssue>) -> Seq<SkippedView> {
    skipped.map_values(|issue: SkippedIssue| issue@)
}

/// The groups that a list of issues fills: each issue that classification
/// reports adds its line at the end of its group, in the order of the list.
pub open spec fn grouped(issues: Seq<IssueView>, now: Instant, threshold: int) -> TasksView
    decreases issues.len(),
{
    if issues.len() == 0 {
        TasksView::empty()
    } else {
        let before = grouped(issues.drop_last(), now, threshold);
        match classified(issues.last(), now, threshold) {
            Ok(Some((bucket, line))) => before.with_line(bucket, line),
            _ => before,
        }
    }
}

/// The issues of a list whose time of change cannot be read, in the order
/// of the list, each with the text found.
pub open spec fn skipped(issues: Seq<IssueView>) -> Seq<SkippedView>
    decreases issues.len(),
{
    if issues.len() == 0 {
        Seq::empty()
    } else {
        let before = skipped(issues.drop_last());
        match unreadable(issues.last()) {
            Some(text) => before.push(SkippedView { identifier: issues.last().identifier, text }),
            None => before,
        }
    }
}

/// Classifies every issue of the list at the time `now` and gathers the
/// lines of those that are reported, group by group. An issue whose time of
/// change cannot be read is skipped and listed; the others are not affected
/// by it.
pub fn group_issues(issues: &Vec<Issue>, now: &Timestamp, threshold: i64) -> (grouping: Grouping)
    ensures
        grouping.tasks@ == grouped(issue_views(issues@), now@, threshold as int),
        skipped_views(grouping.skipped@) == skipped(issue_views(issues@)),
{
    let mut tasks = Tasks::new();
    let mut skipped_issues: Vec<SkippedIssue> = Vec::new();
    let ghost views = issue_views(issues@);
    let mut i: usize = 0;
    assert(skipped_views(skipped_issues@) =~= Seq::empty());
    while i < issues.len()
        invariant
            i <= issues.len(),
            views == issue_views(issues@),
            tasks@ == grouped(views.take(i as int), now@, threshold as int),
            skipped_views(skipped_issues@) == skipped(views.take(i as int)),
        decreases issues.len() - i,
    {
        let issue = &issues[i];
        proof {
            let upto = views.take(i + 1);
            assert(upto.drop_last() == views.take(i as int));
            assert(upto.last() == issue@);
        }
        match classify(issue, now, threshold) {
            Ok(Some((bucket, line))) => {
                tasks.add(bucket, line);
            },
            Ok(None) => {},
            Err(error) => {
                let ghost before = skipped_issues@;
                let entry = SkippedIssue { identifier: issue.identifier.clone(), error };
                skipped_issues.push(entry);
                assert(skipped_views(skipped_issues@) =~= skipped_views(before).push(entry@));
            },
        }
        i += 1;
    }
    assert(views.take(i as int) == views);
    Grouping { tasks, skipped: skipped_issues }
}

} // verus!
