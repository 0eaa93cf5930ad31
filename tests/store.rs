use todo_cli::due_date::{parse_due_date, DueDate, WallClock};
use todo_cli::manager::{DeleteOutcome, DoneOutcome, TaskManager};
use todo_cli::task::{Task, TaskStatus};
use todo_cli::text::{digit_count, push_decimal, push_zero_padded};

fn store() -> TaskManager {
    TaskManager::new(String::from("tasks.json"))
}

#[test]
fn end_to_end_add_done_delete() {
    let mut m = store();
    assert_eq!(m.add_task(String::from("buy milk"), None), 0);
    let due = parse_due_date("2024-01-01 09:00").unwrap();
    assert_eq!(m.add_task(String::from("call mom"), Some(due)), 1);
    assert_eq!(
        m.list_tasks(),
        "\n--- Your ToDo Tasks ---\n[ ] 0. buy milk\n[ ] 1. call mom (Due: 2024-01-01 09:00 IST)\n-----------------------\n\n"
    );
    assert_eq!(m.mark_task_done(0), DoneOutcome::Marked(0));
    match m.delete_task(0) {
        DeleteOutcome::Deleted(t) => {
            assert_eq!(t.id, 0);
            assert_eq!(t.description, "buy milk");
            assert_eq!(t.status, TaskStatus::Done);
        }
        DeleteOutcome::InvalidIndex => panic!("expected a deletion"),
    }
    assert_eq!(m.tasks().len(), 1);
    assert_eq!(m.tasks()[0].description, "call mom");
    assert_eq!(
        m.list_tasks(),
        "\n--- Your ToDo Tasks ---\n[ ] 1. call mom (Due: 2024-01-01 09:00 IST)\n-----------------------\n\n"
    );
}

#[test]
fn empty_store_lists_a_note() {
    assert_eq!(
        store().list_tasks(),
        "No tasks found. Add one using `todo_cli add \"My task\"`\n"
    );
}

#[test]
fn ids_increase_across_deletions() {
    let mut m = store();
    let a = m.add_task(String::from("a"), None);
    let b = m.add_task(String::from("b"), None);
    assert!(matches!(m.delete_task(1), DeleteOutcome::Deleted(_)));
    let c = m.add_task(String::from("c"), None);
    assert!(matches!(m.delete_task(0), DeleteOutcome::Deleted(_)));
    let d = m.add_task(String::from("d"), None);
    assert_eq!((a, b, c, d), (0, 1, 2, 3));
    assert_eq!(m.next_id(), 4);
}

#[test]
fn marking_done_twice_reports_already_done() {
    let mut m = store();
    m.add_task(String::from("a"), None);
    m.add_task(String::from("b"), None);
    assert_eq!(m.mark_task_done(1), DoneOutcome::Marked(1));
    let listed = m.list_tasks();
    assert_eq!(m.mark_task_done(1), DoneOutcome::AlreadyDone(1));
    assert_eq!(m.list_tasks(), listed);
    assert_eq!(m.tasks()[1].status, TaskStatus::Done);
    assert_eq!(m.tasks()[0].status, TaskStatus::Pending);
}

#[test]
fn positions_at_or_past_the_end_are_invalid() {
    let mut m = store();
    m.add_task(String::from("a"), None);
    let listed = m.list_tasks();
    assert_eq!(m.mark_task_done(1), DoneOutcome::InvalidIndex);
    assert_eq!(m.mark_task_done(usize::MAX), DoneOutcome::InvalidIndex);
    assert!(matches!(m.delete_task(1), DeleteOutcome::InvalidIndex));
    assert!(matches!(m.delete_task(7), DeleteOutcome::InvalidIndex));
    assert_eq!(m.list_tasks(), listed);
    assert_eq!(m.next_id(), 1);
}

#[test]
fn invalid_positions_on_an_empty_store() {
    let mut m = store();
    assert_eq!(m.mark_task_done(0), DoneOutcome::InvalidIndex);
    assert!(matches!(m.delete_task(0), DeleteOutcome::InvalidIndex));
}

#[test]
fn loading_sets_next_id_past_the_largest() {
    let mut m = store();
    let loaded = vec![
        Task::new(4, String::from("x"), None),
        Task::new(9, String::from("y"), None),
        Task::new(2, String::from("z"), None),
    ];
    m.load_tasks(loaded);
    assert_eq!(m.next_id(), 10);
    assert_eq!(m.tasks().len(), 3);
    assert_eq!(m.tasks()[1].id, 9);
    assert_eq!(m.file_path(), "tasks.json");
    assert_eq!(m.add_task(String::from("w"), None), 10);
}

#[test]
fn loading_nothing_restarts_ids_at_zero() {
    let mut m = store();
    m.add_task(String::from("a"), None);
    m.load_tasks(Vec::new());
    assert_eq!(m.next_id(), 0);
    assert_eq!(m.tasks().len(), 0);
}

#[test]
fn reloading_saved_tasks_keeps_them() {
    let mut m = store();
    m.add_task(String::from("a"), None);
    let due = DueDate {
        local: WallClock { year: 2030, month: 12, day: 31, hour: 23, minute: 59, second: 0, nanosecond: 0 },
        offset_seconds: 19800,
    };
    m.add_task(String::from("b"), Some(due));
    m.mark_task_done(0);
    let saved: Vec<Task> = m.tasks().clone();
    let mut again = store();
    again.load_tasks(saved);
    assert_eq!(again.list_tasks(), m.list_tasks());
    assert_eq!(again.next_id(), 2);
    assert_eq!(again.tasks()[1].due_date, Some(due));
}

#[test]
fn task_basics() {
    let mut t = Task::new(3, String::from("t"), None);
    assert!(t.is_pending());
    assert_eq!(t.to_line(), "[ ] 3. t");
    t.mark_done();
    assert!(!t.is_pending());
    assert_eq!(t.status, TaskStatus::Done);
    assert_eq!(t.to_line(), "[x] 3. t");
}

#[test]
fn decimal_rendering() {
    let mut s = String::from("n=");
    push_decimal(&mut s, 1234567890);
    assert_eq!(s, "n=1234567890");
    let mut p = String::new();
    push_zero_padded(&mut p, 7, 2);
    push_zero_padded(&mut p, 123, 2);
    assert_eq!(p, "07123");
    assert_eq!(digit_count(0), 1);
    assert_eq!(digit_count(u64::MAX), 20);
}
