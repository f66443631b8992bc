//! Laying out the report: the five groups in a fixed order, each under its
//! heading, one line of text per reported issue.

use vstd::prelude::*;
use vstd::string::StringExecFns;
use crate::tasks::{texts, Bucket, Tasks, TasksView};

verus! {

/// The heading of a group.
pub open spec fn heading(bucket: Bucket) -> Seq<char> {
    match bucket {
        Bucket::Todo => "Todo: "@,
        Bucket::InProgress => "in progress:"@,
        Bucket::InReview => "in review: "@,
        Bucket::InTesting => "in testing:"@,
        Bucket::Done => "done tasks: "@,
    }
}

/// The lines one after the other, each ended by a line feed.
pub open spec fn joined(lines: Seq<Seq<char>>) -> Seq<char>
    decreases lines.len(),
{
    if lines.len() == 0 {
        Seq::empty()
    } else {
        joined(lines.drop_last()) + lines.last() + seq!['\n']
    }
}

/// A group of the report: its heading on a line of its own, then its lines
/// in the order in which they were added.
pub open spec fn section(tasks: TasksView, bucket: Bucket) -> Seq<char> {
    heading(bucket) + seq!['\n'] + joined(tasks.lines(bucket))
}

/// The report: the groups in the order Todo, In Progress, In Review, In
/// Testing, Done. A group without lines still shows its heading.
pub open spec fn report(tasks: TasksView) -> Seq<char> {
    section(tasks, Bucket::Todo) + section(tasks, Bucket::InProgress) + section(
        tasks,
        Bucket::InReview,
    ) + section(tasks, Bucket::InTesting) + section(tasks, Bucket::Done)
}

/// The heading of a group.
pub fn heading_for(bucket: Bucket) -> (text: &'static str)
    ensures
        text@ == heading(bucket),
{
    match bucket {
        Bucket::Todo => "Todo: ",
        Bucket::InProgress => "in progress:",
        Bucket::InReview => "in review: ",
        Bucket::InTesting => "in testing:",
        Bucket::Done => "done tasks: ",
    }
}

/// Writes lines behind what `out` holds, each ended by a line feed.
fn push_lines(out: &mut String, lines: &Vec<String>)
    ensures
        final(out)@ == old(out)@ + joined(texts(lines@)),
{
    proof {
        reveal_strlit("\n");
    }
    let ghost all = texts(lines@);
    let mut i: usize = 0;
    assert(out@ =~= old(out)@ + joined(all.take(0)));
    while i < lines.len()
        invariant
            i <= lines.len(),
            all == texts(lines@),
            "\n"@ == seq!['\n'],
            out@ == old(out)@ + joined(all.take(i as int)),
        decreases lines.len() - i,
    {
        proof {
            let upto = all.take(i + 1);
            assert(upto.drop_last() == all.take(i as int));
            assert(upto.last() == lines@[i as int]@);
        }
        let ghost before = out@;
        out.append(lines[i].as_str());
        out.append("\n");
        assert(out@ =~= old(out)@ + joined(all.take(i + 1))) by {
            assert(out@ == before + lines@[i as int]@ + seq!['\n']);
        }
        i += 1;
    }
    assert(all.take(i as int) == all);
}

/// Writes a group behind what `out` holds.
fn push_section(out: &mut String, tasks: &Tasks, bucket: Bucket)
    ensures
        final(out)@ == old(out)@ + section(tasks@, bucket),
{
    proof {
        reveal_strlit("\n");
    }
    out.append(heading_for(bucket));
    out.append("\n");
    match bucket {
        Bucket::Todo => push_lines(out, &tasks.todo),
        Bucket::InProgress => push_lines(out, &tasks.in_progress),
        Bucket::InReview => push_lines(out, &tasks.in_review),
        Bucket::InTesting => push_lines(out, &tasks.in_testing),
        Bucket::Done => push_lines(out, &tasks.done),
    }
    assert(out@ =~= old(out)@ + section(tasks@, bucket));
}

/// The text of the report. The groups come in a fixed order and the lines
/// of a group in the order in which they were added; nothing is sorted.
pub fn build_report(tasks: &Tasks) -> (text: String)
    ensures
        text@ == report(tasks@),
{
    let mut text = String::new();
    push_section(&mut text, tasks, Bucket::Todo);
    push_section(&mut text, tasks, Bucket::InProgress);
    push_section(&mut text, tasks, Bucket::InReview);
    push_section(&mut text, tasks, Bucket::InTesting);
    push_section(&mut text, tasks, Bucket::Done);
    assert(text@ =~= report(tasks@));
    text
}

/// Building the report again from the same lines gives the same text,
/// character for character.
pub proof fn report_is_repeatable(tasks: TasksView, first: Seq<char>, second: Seq<char>)
    requires
        first == report(tasks),
        second == report(tasks),
    ensures
        first == second,
{
}

} // verus!
