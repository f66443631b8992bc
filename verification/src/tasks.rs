//! The five groups of the report and the lines gathered in each.

use vstd::prelude::*;
use vstd::string::StringExecFns;

verus! {

/// The group that an issue is reported in.
#[derive(Debug, Clone, Copy, PartialEq, Eq)]
pub enum Bucket {
    Todo,
    InProgress,
    InReview,
    InTesting,
    Done,
}

/// The group for a workflow state, by the state's name. A name that is none
/// of the four known ones goes to `Todo`.
pub open spec fn bucket_of(state_name: Seq<char>) -> Bucket {
    if state_name == "In Progress"@ {
        Bucket::InProgress
    } else if state_name == "In Review"@ {
        Bucket::InReview
    } else if state_name == "In Testing"@ {
        Bucket::InTesting
    } else if state_name == "Done"@ {
        Bucket::Done
    } else {
        Bucket::Todo
    }
}

/// The group for a workflow state, by the state's name.
pub fn bucket_for(state_name: &String) -> (bucket: Bucket)
    ensures
        bucket == bucket_of(state_name@),
{
    if *state_name == String::from_str("In Progress") {
        Bucket::InProgress
    } else if *state_name == String::from_str("In Review") {
        Bucket::InReview
    } else if *state_name == String::from_str("In Testing") {
        Bucket::InTesting
    } else if *state_name == String::from_str("Done") {
        Bucket::Done
    } else {
        Bucket::Todo
    }
}

/// The lines of the report, group by group, each group in the order in
/// which its lines were added.
#[derive(Debug, Clone, PartialEq, Eq)]
pub struct Tasks {
    pub todo: Vec<String>,
    pub in_progress: Vec<String>,
    pub in_review: Vec<String>,
    pub in_testing: Vec<String>,
    pub done: Vec<String>,
}

/// The lines of each group as text.
pub struct TasksView {
    pub todo: Seq<Seq<char>>,
    pub in_progress: Seq<Seq<char>>,
    pub in_review: Seq<Seq<char>>,
    pub in_testing: Seq<Seq<char>>,
    pub done: Seq<Seq<char>>,
}

impl TasksView {
    /// No line in any group.
    pub open spec fn empty() -> TasksView {
        TasksView {
            todo: Seq::empty(),
            in_progress: Seq::empty(),
            in_review: Seq::empty(),
            in_testing: Seq::empty(),
            done: Seq::empty(),
        }
    }

    /// The lines of one group.
    pub open spec fn lines(self, bucket: Bucket) -> Seq<Seq<char>> {
        match bucket {
            Bucket::Todo => self.todo,
            Bucket::InProgress => self.in_progress,
            Bucket::InReview => self.in_review,
            Bucket::InTesting => self.in_testing,
            Bucket::Done => self.done,
        }
    }

    /// These lines with `line` added at the end of the group `bucket`.
    pub open spec fn with_line(self, bucket: Bucket, line: Seq<char>) -> TasksView {
        match bucket {
            Bucket::Todo => TasksView { todo: self.todo.push(line), ..self },
            Bucket::InProgress => TasksView { in_progress: self.in_progress.push(line), ..self },
            Bucket::InReview => TasksView { in_review: self.in_review.push(line), ..self },
            Bucket::InTesting => TasksView { in_testing: self.in_testing.push(line), ..self },
            Bucket::Done => TasksView { done: self.done.push(line), ..self },
        }
    }
}

/// The texts of a list of lines.
pub open spec fn texts(lines: Seq<String>) -> Seq<Seq<char>> {
    lines.map_values(|line: String| line@)
}

impl View for Tasks {
    type V = TasksView;

    open spec fn view(&self) -> TasksView {
        TasksView {
            todo: texts(self.todo@),
            in_progress: texts(self.in_progress@),
            in_review: texts(self.in_review@),
            in_testing: texts(self.in_testing@),
            done: texts(self.done@),
        }
    }
}

impl Default for Tasks {
    /// Tasks without a line.
    fn default() -> (tasks: Tasks)
        ensures
            tasks@ == TasksView::empty(),
    {
        Tasks::new()
    }
}

impl Tasks {
    /// Tasks without a line.
    pub fn new() -> (tasks: Tasks)
        ensures
            tasks@ == TasksView::empty(),
    {
        let tasks = Tasks {
            todo: Vec::new(),
            in_progress: Vec::new(),
            in_review: Vec::new(),
            in_testing: Vec::new(),
            done: Vec::new(),
        };
        assert(tasks@.todo =~= Seq::empty());
        assert(tasks@.in_progress =~= Seq::empty());
        assert(tasks@.in_review =~= Seq::empty());
        assert(tasks@.in_testing =~= Seq::empty());
        assert(tasks@.done =~= Seq::empty());
        tasks
    }

    /// Adds a line at the end of a group. The other groups stay as they
    /// are.
    pub fn add(&mut self, bucket: Bucket, line: String)
        ensures
            final(self)@ == old(self)@.with_line(bucket, line@),
    {
        match bucket {
            Bucket::Todo => {
                self.todo.push(line);
                assert(texts(self.todo@) =~= texts(old(self).todo@).push(line@));
            },
            Bucket::InProgress => {
                self.in_progress.push(line);
                assert(texts(self.in_progress@) =~= texts(old(self).in_progress@).push(line@));
            },
            Bucket::InReview => {
                self.in_review.push(line);
                assert(texts(self.in_review@) =~= texts(old(self).in_review@).push(line@));
            },
            Bucket::InTesting => {
                self.in_testing.push(line);
                assert(texts(self.in_testing@) =~= texts(old(self).in_testing@).push(line@));
            },
            Bucket::Done => {
                self.done.push(line);
                assert(texts(self.done@) =~= texts(old(self).done@).push(line@));
            },
        }
    }
}

} // verus!
