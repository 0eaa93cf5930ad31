//! Laws that relate the store's operations to one another.
use vstd::prelude::*;

use crate::due_date::DueDate;
use crate::manager::{max_id, next_id_after, DoneOutcome, StoreState};
use crate::task::{Task, TaskStatus};

verus! {

/// One operation on a store, as a caller issues it.
pub enum StoreOp {
    Add { description: String, due_date: Option<DueDate> },
    MarkDone { position: nat },
    Delete { position: nat },
}

/// The state after one operation.
pub open spec fn apply(s: StoreState, op: StoreOp) -> StoreState {
    match op {
        StoreOp::Add { description, due_date } => s.added(description, due_date),
        StoreOp::MarkDone { position } => s.marked_done(position as int),
        StoreOp::Delete { position } => s.deleted(position as int),
    }
}

/// The state after the operations, in order.
pub open spec fn run(s: StoreState, ops: Seq<StoreOp>) -> StoreState
    decreases ops.len(),
{
    if ops.len() == 0 {
        s
    } else {
        apply(run(s, ops.drop_last()), ops.last())
    }
}

/// The ids that the additions among the operations hand out, in order.
pub open spec fn issued_ids(s: StoreState, ops: Seq<StoreOp>) -> Seq<nat>
    decreases ops.len(),
{
    if ops.len() == 0 {
        Seq::empty()
    } else {
        let before = issued_ids(s, ops.drop_last());
        if ops.last() is Add {
            before.push(run(s, ops.drop_last()).next_id)
        } else {
            before
        }
    }
}

/// Over any sequence of additions, completions and deletions, the ids that
/// the additions hand out strictly increase (so never repeat), all exceed
/// every id that the store held at the start, and the store stays well
/// formed.
pub proof fn lemma_issued_ids_increase(s: StoreState, ops: Seq<StoreOp>)
    requires
        s.wf(),
    ensures
        run(s, ops).wf(),
        s.next_id <= run(s, ops).next_id,
        forall|i: int, j: int|
            0 <= i < j < issued_ids(s, ops).len() ==> issued_ids(s, ops)[i] < issued_ids(s, ops)[j],
        forall|i: int, k: int|
            0 <= i < issued_ids(s, ops).len() && 0 <= k < s.tasks.len() ==> s.tasks[k].id
                < issued_ids(s, ops)[i],
        forall|i: int|
            0 <= i < issued_ids(s, ops).len() ==> s.next_id <= #[trigger] issued_ids(s, ops)[i]
                < run(s, ops).next_id,
    decreases ops.len(),
{
    if ops.len() > 0 {
        let prefix = ops.drop_last();
        lemma_issued_ids_increase(s, prefix);
        let mid = run(s, prefix);
        let before = issued_ids(s, prefix);
        let now = issued_ids(s, ops);
        match ops.last() {
            StoreOp::Add { description, due_date } => {
                let after = mid.added(description, due_date);
                assert(run(s, ops) == after);
                assert(now == before.push(mid.next_id));
                assert forall|i: int| 0 <= i < after.tasks.len() implies (#[trigger] after.tasks[i]).id
                    < after.next_id by {
                    if i < mid.tasks.len() {
                        assert(after.tasks[i] == mid.tasks[i]);
                    }
                }
                assert forall|i: int| 0 <= i < now.len() implies s.next_id <= #[trigger] now[i]
                    < after.next_id by {
                    if i < before.len() {
                        assert(now[i] == before[i]);
                    }
                }
                assert forall|i: int, j: int| 0 <= i < j < now.len() implies now[i] < now[j] by {
                    assert(now[i] == before[i]);
                    if j < before.len() {
                        assert(now[j] == before[j]);
                    } else {
                        assert(before[i] < mid.next_id);
                    }
                }
            },
            StoreOp::MarkDone { position } => {
                let after = mid.marked_done(position as int);
                assert(run(s, ops) == after);
                assert(now == before);
                assert forall|i: int| 0 <= i < after.tasks.len() implies (#[trigger] after.tasks[i]).id
                    < after.next_id by {
                    assert(after.tasks[i].id == mid.tasks[i].id);
                }
            },
            StoreOp::Delete { position } => {
                let after = mid.deleted(position as int);
                assert(run(s, ops) == after);
                assert(now == before);
                assert forall|i: int| 0 <= i < after.tasks.len() implies (#[trigger] after.tasks[i]).id
                    < after.next_id by {
                    if 0 <= position < mid.tasks.len() && i >= position {
                        assert(after.tasks[i] == mid.tasks[i + 1]);
                    } else {
                        assert(after.tasks[i] == mid.tasks[i]);
                    }
                }
            },
        }
    }
    assert forall|i: int, k: int|
        0 <= i < issued_ids(s, ops).len() && 0 <= k < s.tasks.len() implies s.tasks[k].id
        < issued_ids(s, ops)[i] by {
        assert(s.tasks[k].id < s.next_id);
        assert(s.next_id <= issued_ids(s, ops)[i]);
    }
}

/// Marking the same position done twice in a row: the second call reports
/// that the task is done already and changes nothing.
pub proof fn lemma_mark_done_twice(s: StoreState, position: nat)
    requires
        s.wf(),
        position < s.tasks.len(),
    ensures
        s.marked_done(position as int).done_outcome(position as int) == DoneOutcome::AlreadyDone(
            s.tasks[position as int].id,
        ),
        s.marked_done(position as int).marked_done(position as int) == s.marked_done(
            position as int,
        ),
{
}

/// A position at or past the number of tasks is refused by completion and
/// by deletion, and the store stays as it was.
pub proof fn lemma_position_out_of_range(s: StoreState, position: nat)
    requires
        position >= s.tasks.len(),
    ensures
        s.done_outcome(position as int) == DoneOutcome::InvalidIndex,
        s.marked_done(position as int) == s,
        s.deleted(position as int) == s,
{
}

/// The largest id of a sequence is one of its ids, and no id exceeds it.
proof fn lemma_max_id(tasks: Seq<Task>)
    ensures
        forall|i: int| 0 <= i < tasks.len() ==> (#[trigger] tasks[i]).id <= max_id(tasks),
        tasks.len() > 0 ==> exists|i: int| 0 <= i < tasks.len() && tasks[i].id == max_id(tasks),
    decreases tasks.len(),
{
    if tasks.len() > 0 {
        let rest = tasks.drop_last();
        lemma_max_id(rest);
        assert forall|i: int| 0 <= i < tasks.len() implies (#[trigger] tasks[i]).id <= max_id(
            tasks,
        ) by {
            if i < rest.len() {
                assert(tasks[i] == rest[i]);
            }
        }
        if rest.len() == 0 || tasks.last().id as nat > max_id(rest) {
            assert(tasks[tasks.len() - 1].id == max_id(tasks));
        } else {
            let i = choose|i: int| 0 <= i < rest.len() && rest[i].id == max_id(rest);
            assert(tasks[i] == rest[i]);
        }
    }
}

/// Reloading the tasks of a well-formed store, as a new run does with the
/// saved file, gives a well-formed store whose counter is never ahead of
/// the one before: one past the largest id kept, or 0 when none is kept.
pub proof fn lemma_reload(s: StoreState)
    requires
        s.wf(),
    ensures
        (StoreState { tasks: s.tasks, next_id: next_id_after(s.tasks) }).wf(),
        next_id_after(s.tasks) <= s.next_id,
{
    lemma_max_id(s.tasks);
    if s.tasks.len() > 0 {
        let i = choose|i: int| 0 <= i < s.tasks.len() && s.tasks[i].id == max_id(s.tasks);
        assert(s.tasks[i].id < s.next_id);
    }
}

} // verus!
