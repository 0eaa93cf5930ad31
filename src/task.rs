//! A single task and how it is shown in a listing.
use vstd::prelude::*;

use crate::due_date::{due_text, DueDate};
use crate::text::{decimal, push_decimal};

verus! {

/// Where a task stands: new tasks are pending, and done is final.
#[derive(Clone, Copy, Debug, PartialEq, Eq, Structural)]
pub enum TaskStatus {
    Pending,
    Done,
}

/// A task of the store.
#[derive(Clone, Debug)]
pub struct Task {
    pub id: usize,
    pub description: String,
    pub status: TaskStatus,
    pub due_date: Option<DueDate>,
}

/// The mark between brackets: a space while pending, `x` once done.
pub open spec fn status_mark(status: TaskStatus) -> Seq<char> {
    match status {
        TaskStatus::Pending => " "@,
        TaskStatus::Done => "x"@,
    }
}

/// The suffix that names the due date, empty when there is none.
pub open spec fn due_suffix(due_date: Option<DueDate>) -> Seq<char> {
    match due_date {
        Some(d) => " (Due: "@ + due_text(d) + ")"@,
        None => Seq::empty(),
    }
}

/// How a task is shown: `[mark] id. description (Due: ...)`.
pub open spec fn task_line(t: Task) -> Seq<char> {
    "["@ + status_mark(t.status) + "] "@ + decimal(t.id as nat) + ". "@ + t.description@
        + due_suffix(t.due_date)
}

/// `t` with its status set to done, all else kept.
pub open spec fn done_version(t: Task) -> Task {
    Task { id: t.id, description: t.description, status: TaskStatus::Done, due_date: t.due_date }
}

impl Task {
    /// A pending task with the given id, description and due date.
    pub fn new(id: usize, description: String, due_date: Option<DueDate>) -> (r: Task)
        ensures
            r == (Task { id, description, status: TaskStatus::Pending, due_date }),
    {
        Task { id, description, status: TaskStatus::Pending, due_date }
    }

    /// Sets the status to done.
    pub fn mark_done(&mut self)
        ensures
            *final(self) == done_version(*old(self)),
    {
        self.status = TaskStatus::Done;
    }

    pub fn is_pending(&self) -> (r: bool)
        ensures
            r == (self.status == TaskStatus::Pending),
    {
        self.status == TaskStatus::Pending
    }

    /// Appends the task as `task_line` shows it.
    pub fn push_line(&self, s: &mut String)
        ensures
            final(s)@ == old(s)@ + task_line(*self),
    {
        s.append("[");
        match self.status {
            TaskStatus::Pending => s.append(" "),
            TaskStatus::Done => s.append("x"),
        }
        s.append("] ");
        push_decimal(s, self.id as u64);
        s.append(". ");
        s.append(self.description.as_str());
        match &self.due_date {
            Some(d) => {
                s.append(" (Due: ");
                d.push_text(s);
                s.append(")");
            },
            None => {},
        }
        assert(s@ =~= old(s)@ + task_line(*self));
    }

    /// The task as `task_line` shows it.
    pub fn to_line(&self) -> (r: String)
        ensures
            r@ == task_line(*self),
    {
        let mut s = String::new();
        self.push_line(&mut s);
        assert(s@ =~= task_line(*self));
        s
    }
}

} // verus!
