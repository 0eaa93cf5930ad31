//! The task store: an ordered sequence of tasks, addressed by position, and
//! the counter that hands out task ids.
use vstd::prelude::*;

use crate::due_date::DueDate;
use crate::task::{done_version, task_line, Task, TaskStatus};

verus! {

/// The abstract state of a store: its tasks in order and the next id.
pub struct StoreState {
    pub tasks: Seq<Task>,
    pub next_id: nat,
}

/// What marking a position done came to.
#[derive(Clone, Copy, Debug, PartialEq, Eq, Structural)]
pub enum DoneOutcome {
    /// The task with this id was pending and is now done.
    Marked(usize),
    /// The task with this id was done already; nothing changed.
    AlreadyDone(usize),
    /// No task stands at the position; nothing changed.
    InvalidIndex,
}

/// What deleting a position came to.
#[derive(Debug)]
pub enum DeleteOutcome {
    /// The task that held the position, now taken out of the store.
    Deleted(Task),
    /// No task stands at the position; nothing changed.
    InvalidIndex,
}

/// The largest id among `tasks`, 0 for none.
pub open spec fn max_id(tasks: Seq<Task>) -> nat
    decreases tasks.len(),
{
    if tasks.len() == 0 {
        0
    } else {
        let rest = max_id(tasks.drop_last());
        if tasks.last().id as nat > rest {
            tasks.last().id as nat
        } else {
            rest
        }
    }
}

/// The id that follows a loaded sequence: one past the largest, 0 for none.
pub open spec fn next_id_after(tasks: Seq<Task>) -> nat {
    if tasks.len() == 0 {
        0
    } else {
        max_id(tasks) + 1
    }
}

impl StoreState {
    /// Every id present lies below the next id to hand out.
    pub open spec fn wf(self) -> bool {
        forall|i: int| 0 <= i < self.tasks.len() ==> (#[trigger] self.tasks[i]).id < self.next_id
    }

    /// The state after adding a task.
    pub open spec fn added(self, description: String, due_date: Option<DueDate>) -> StoreState {
        StoreState {
            tasks: self.tasks.push(
                Task {
                    id: self.next_id as usize,
                    description,
                    status: TaskStatus::Pending,
                    due_date,
                },
            ),
            next_id: self.next_id + 1,
        }
    }

    /// What marking `position` done reports.
    pub open spec fn done_outcome(self, position: int) -> DoneOutcome {
        if 0 <= position < self.tasks.len() {
            if self.tasks[position].status == TaskStatus::Pending {
                DoneOutcome::Marked(self.tasks[position].id)
            } else {
                DoneOutcome::AlreadyDone(self.tasks[position].id)
            }
        } else {
            DoneOutcome::InvalidIndex
        }
    }

    /// The state after marking `position` done.
    pub open spec fn marked_done(self, position: int) -> StoreState {
        if 0 <= position < self.tasks.len() && self.tasks[position].status == TaskStatus::Pending {
            StoreState {
                tasks: self.tasks.update(position, done_version(self.tasks[position])),
                next_id: self.next_id,
            }
        } else {
            self
        }
    }

    /// The state after deleting `position`.
    pub open spec fn deleted(self, position: int) -> StoreState {
        if 0 <= position < self.tasks.len() {
            StoreState { tasks: self.tasks.remove(position), next_id: self.next_id }
        } else {
            self
        }
    }
}

/// The listed lines of `tasks`, each ended by a newline.
pub open spec fn lines_text(tasks: Seq<Task>) -> Seq<char>
    decreases tasks.len(),
{
    if tasks.len() == 0 {
        Seq::empty()
    } else {
        lines_text(tasks.drop_last()) + task_line(tasks.last()) + "\n"@
    }
}

/// What a listing of `tasks` shows.
pub open spec fn listing(tasks: Seq<Task>) -> Seq<char> {
    if tasks.len() == 0 {
        "No tasks found. Add one using `todo_cli add \"My task\"`\n"@
    } else {
        "\n--- Your ToDo Tasks ---\n"@ + lines_text(tasks) + "-----------------------\n\n"@
    }
}

/// A store of tasks kept in insertion order, with the counter for new ids
/// and the path of the file that holds it between runs.
pub struct TaskManager {
    tasks: Vec<Task>,
    file_path: String,
    next_id: usize,
}

impl View for TaskManager {
    type V = StoreState;

    closed spec fn view(&self) -> StoreState {
        StoreState { tasks: self.tasks@, next_id: self.next_id as nat }
    }
}

impl TaskManager {
    /// The path of the backing file.
    pub closed spec fn path(&self) -> Seq<char> {
        self.file_path@
    }

    /// An empty store backed by the file at `file_path`.
    pub fn new(file_path: String) -> (r: TaskManager)
        ensures
            r@.tasks == Seq::<Task>::empty(),
            r@.next_id == 0,
            r@.wf(),
            r.path() == file_path@,
    {
        TaskManager { tasks: Vec::new(), file_path, next_id: 0 }
    }

    /// Replaces the tasks by those read from the backing file, and sets the
    /// next id one past the largest of them (0 when there are none).
    pub fn load_tasks(&mut self, loaded: Vec<Task>)
        requires
            forall|i: int| 0 <= i < loaded@.len() ==> (#[trigger] loaded@[i]).id < usize::MAX,
        ensures
            final(self)@.tasks == loaded@,
            final(self)@.next_id == next_id_after(loaded@),
            final(self)@.wf(),
            final(self).path() == old(self).path(),
    {
        let mut next: usize = 0;
        let mut i: usize = 0;
        while i < loaded.len()
            invariant
                i <= loaded@.len(),
                forall|j: int| 0 <= j < loaded@.len() ==> (#[trigger] loaded@[j]).id < usize::MAX,
                next as nat == next_id_after(loaded@.take(i as int)),
                forall|j: int| 0 <= j < i ==> (#[trigger] loaded@[j]).id < next,
            decreases loaded.len() - i,
        {
            let id = loaded[i].id;
            assert(loaded@.take(i + 1).drop_last() =~= loaded@.take(i as int));
            if id >= next {
                next = id + 1;
            }
            i = i + 1;
        }
        assert(loaded@.take(i as int) =~= loaded@);
        self.tasks = loaded;
        self.next_id = next;
    }

    /// The tasks in order.
    pub fn tasks(&self) -> (r: &Vec<Task>)
        ensures
            r@ == self@.tasks,
    {
        &self.tasks
    }

    /// The id that the next added task gets.
    pub fn next_id(&self) -> (r: usize)
        ensures
            r as nat == self@.next_id,
    {
        self.next_id
    }

    /// The path of the backing file.
    pub fn file_path(&self) -> (r: &str)
        ensures
            r@ == self.path(),
    {
        self.file_path.as_str()
    }

    /// Appends a pending task with the next id and returns that id.
    pub fn add_task(&mut self, description: String, due_date: Option<DueDate>) -> (id: usize)
        requires
            old(self)@.wf(),
            old(self)@.next_id < usize::MAX,
        ensures
            id as nat == old(self)@.next_id,
            final(self)@ == old(self)@.added(description, due_date),
            final(self)@.wf(),
            final(self).path() == old(self).path(),
    {
        let id = self.next_id;
        let task = Task::new(id, description, due_date);
        self.tasks.push(task);
        self.next_id = self.next_id + 1;
        assert(self@.tasks =~= old(self)@.added(description, due_date).tasks);
        id
    }

    /// Marks the task at `position` (counted from 0 in the current order,
    /// not its id) done, if it is pending.
    pub fn mark_task_done(&mut self, position: usize) -> (r: DoneOutcome)
        requires
            old(self)@.wf(),
        ensures
            r == old(self)@.done_outcome(position as int),
            final(self)@ == old(self)@.marked_done(position as int),
            final(self)@.wf(),
            final(self).path() == old(self).path(),
    {
        if position >= self.tasks.len() {
            return DoneOutcome::InvalidIndex;
        }
        let id = self.tasks[position].id;
        if self.tasks[position].is_pending() {
            let mut task = self.tasks.remove(position);
            task.mark_done();
            self.tasks.insert(position, task);
            assert(self@.tasks =~= old(self)@.marked_done(position as int).tasks);
            DoneOutcome::Marked(id)
        } else {
            DoneOutcome::AlreadyDone(id)
        }
    }

    /// Removes the task at `position` (counted from 0 in the current order,
    /// not its id); later tasks move down one place.
    pub fn delete_task(&mut self, position: usize) -> (r: DeleteOutcome)
        requires
            old(self)@.wf(),
        ensures
            r == (if position < old(self)@.tasks.len() {
                DeleteOutcome::Deleted(old(self)@.tasks[position as int])
            } else {
                DeleteOutcome::InvalidIndex
            }),
            final(self)@ == old(self)@.deleted(position as int),
            final(self)@.wf(),
            final(self).path() == old(self).path(),
    {
        if position >= self.tasks.len() {
            return DeleteOutcome::InvalidIndex;
        }
        let task = self.tasks.remove(position);
        assert(self@.tasks =~= old(self)@.deleted(position as int).tasks);
        assert forall|i: int| 0 <= i < self@.tasks.len() implies (#[trigger] self@.tasks[i]).id
            < self@.next_id by {
            if i >= position {
                assert(self@.tasks[i] == old(self)@.tasks[i + 1]);
            }
        }
        DeleteOutcome::Deleted(task)
    }

    /// The listing of all tasks in order, or a note that there are none.
    pub fn list_tasks(&self) -> (r: String)
        ensures
            r@ == listing(self@.tasks),
    {
        if self.tasks.len() == 0 {
            return String::from_str("No tasks found. Add one using `todo_cli add \"My task\"`\n");
        }
        let mut s = String::from_str("\n--- Your ToDo Tasks ---\n");
        let ghost header = s@;
        let mut i: usize = 0;
        while i < self.tasks.len()
            invariant
                i <= self@.tasks.len(),
                s@ == header + lines_text(self@.tasks.take(i as int)),
            decreases self.tasks.len() - i,
        {
            self.tasks[i].push_line(&mut s);
            s.append("\n");
            assert(self@.tasks.take(i + 1).drop_last() =~= self@.tasks.take(i as int));
            i = i + 1;
            assert(s@ =~= header + lines_text(self@.tasks.take(i as int)));
        }
        assert(self@.tasks.take(i as int) =~= self@.tasks);
        s.append("-----------------------\n\n");
        s
    }
}

} // verus!
