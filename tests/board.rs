use icy_kanban::{Message, Task, TaskEntry, TaskMessage, TaskStatus, TodoApplication};

fn snapshot(app: &TodoApplication) -> Vec<(String, TaskStatus)> {
    let mut out = Vec::new();
    let mut i: usize = 0;
    while let Some(t) = app.task_at(i) {
        out.push((t.title().to_string(), t.task_status));
        i += 1;
    }
    out
}

fn group(app: &TodoApplication, status: TaskStatus) -> Vec<(usize, String)> {
    app.filtered_tasks(status)
        .into_iter()
        .map(|e: TaskEntry| {
            assert_eq!(e.status, status);
            (e.index, e.title)
        })
        .collect()
}

#[test]
fn new_task_starts_in_todo() {
    let t = Task::new("Write report".to_string());
    assert_eq!(t.title(), "Write report");
    assert_eq!(t.task_status, TaskStatus::Todo);
    assert_eq!(t.status(), TaskStatus::Todo);
}

#[test]
fn task_update_marks_and_ignores_delete() {
    let mut t = Task::new("x".to_string());
    t.update(TaskMessage::MarkAs(TaskStatus::Done));
    assert_eq!(t.task_status, TaskStatus::Done);
    t.update(TaskMessage::Delete);
    assert_eq!(t.task_status, TaskStatus::Done);
    assert_eq!(t.title(), "x");
    t.update(TaskMessage::MarkAs(TaskStatus::Todo));
    assert_eq!(t.task_status, TaskStatus::Todo);
}

#[test]
fn status_labels() {
    assert_eq!(TaskStatus::Todo.label(), "To do");
    assert_eq!(TaskStatus::InProgress.label(), "In Progress");
    assert_eq!(TaskStatus::Done.label(), "Done");
}

#[test]
fn offered_transitions() {
    assert_eq!(TaskStatus::Todo.retreat(), None);
    assert_eq!(TaskStatus::Todo.advance(), Some(TaskStatus::InProgress));
    assert_eq!(TaskStatus::InProgress.retreat(), Some(TaskStatus::Todo));
    assert_eq!(TaskStatus::InProgress.advance(), Some(TaskStatus::Done));
    assert_eq!(TaskStatus::Done.retreat(), Some(TaskStatus::InProgress));
    assert_eq!(TaskStatus::Done.advance(), None);
}

#[test]
fn new_board_is_empty() {
    let app = TodoApplication::new();
    assert_eq!(app.len(), 0);
    assert_eq!(app.text_input(), "");
    assert_eq!(app.title(), "Icy Kanban");
    assert!(app.task_at(0).is_none());
    for s in [TaskStatus::Todo, TaskStatus::InProgress, TaskStatus::Done] {
        assert!(app.filtered_tasks(s).is_empty());
    }
}

#[test]
fn appends_keep_call_order() {
    let mut app = TodoApplication::new();
    for title in ["one", "two", "", "two"] {
        app.add_task(title.to_string());
    }
    assert_eq!(
        snapshot(&app),
        vec![
            ("one".to_string(), TaskStatus::Todo),
            ("two".to_string(), TaskStatus::Todo),
            ("".to_string(), TaskStatus::Todo),
            ("two".to_string(), TaskStatus::Todo),
        ]
    );
}

#[test]
fn drain_from_front_empties_store() {
    let mut app = TodoApplication::new();
    let n: usize = 5;
    for k in 0..n {
        app.add_task(format!("task {k}"));
    }
    assert_eq!(app.len(), n);
    for _ in 0..n {
        app.remove_at(0);
    }
    assert_eq!(app.len(), 0);
    app.remove_at(0);
    assert_eq!(app.len(), 0);
}

#[test]
fn set_status_then_read_back() {
    let mut app = TodoApplication::new();
    app.add_task("a".to_string());
    app.add_task("b".to_string());
    app.add_task("c".to_string());
    app.set_status_at(1, TaskStatus::Done);
    let t = app.task_at(1).unwrap();
    assert_eq!(t.task_status, TaskStatus::Done);
    assert_eq!(t.title(), "b");
    assert_eq!(app.task_at(0).unwrap().task_status, TaskStatus::Todo);
    assert_eq!(app.task_at(2).unwrap().task_status, TaskStatus::Todo);
    app.set_status_at(1, TaskStatus::Todo);
    assert_eq!(app.task_at(1).unwrap().task_status, TaskStatus::Todo);
}

#[test]
fn invalid_index_leaves_store_unchanged() {
    let mut app = TodoApplication::new();
    app.add_task("a".to_string());
    app.add_task("b".to_string());
    let before = snapshot(&app);
    app.remove_at(2);
    assert_eq!(snapshot(&app), before);
    app.set_status_at(2, TaskStatus::Done);
    assert_eq!(snapshot(&app), before);
    app.remove_at(usize::MAX);
    app.set_status_at(usize::MAX, TaskStatus::InProgress);
    assert_eq!(snapshot(&app), before);
}

#[test]
fn groups_partition_the_store() {
    let mut app = TodoApplication::new();
    for title in ["a", "b", "c", "d", "e", "f"] {
        app.add_task(title.to_string());
    }
    app.set_status_at(1, TaskStatus::Done);
    app.set_status_at(2, TaskStatus::InProgress);
    app.set_status_at(4, TaskStatus::Done);
    assert_eq!(
        group(&app, TaskStatus::Todo),
        vec![(0, "a".to_string()), (3, "d".to_string()), (5, "f".to_string())]
    );
    assert_eq!(group(&app, TaskStatus::InProgress), vec![(2, "c".to_string())]);
    assert_eq!(
        group(&app, TaskStatus::Done),
        vec![(1, "b".to_string()), (4, "e".to_string())]
    );
    let mut all: Vec<usize> = Vec::new();
    for s in [TaskStatus::Todo, TaskStatus::InProgress, TaskStatus::Done] {
        all.extend(app.filtered_tasks(s).into_iter().map(|e| e.index));
    }
    all.sort();
    assert_eq!(all, vec![0, 1, 2, 3, 4, 5]);
}

#[test]
fn scenario_buy_milk() {
    let mut app = TodoApplication::new();
    app.add_task("Buy milk".to_string());
    assert_eq!(snapshot(&app), vec![("Buy milk".to_string(), TaskStatus::Todo)]);
    app.set_status_at(0, TaskStatus::InProgress);
    assert_eq!(snapshot(&app), vec![("Buy milk".to_string(), TaskStatus::InProgress)]);
    assert!(group(&app, TaskStatus::Todo).is_empty());
    assert_eq!(group(&app, TaskStatus::InProgress), vec![(0, "Buy milk".to_string())]);
    assert!(group(&app, TaskStatus::Done).is_empty());
    app.remove_at(0);
    assert!(snapshot(&app).is_empty());
    for s in [TaskStatus::Todo, TaskStatus::InProgress, TaskStatus::Done] {
        assert!(group(&app, s).is_empty());
    }
}

#[test]
fn scenario_stale_index() {
    let mut app = TodoApplication::new();
    app.add_task("A".to_string());
    app.add_task("B".to_string());
    assert_eq!(app.task_at(0).unwrap().title(), "A");
    assert_eq!(app.task_at(1).unwrap().title(), "B");
    app.remove_at(0);
    assert_eq!(snapshot(&app), vec![("B".to_string(), TaskStatus::Todo)]);
    app.set_status_at(1, TaskStatus::Done);
    assert_eq!(snapshot(&app), vec![("B".to_string(), TaskStatus::Todo)]);
}

#[test]
fn update_dispatches_events() {
    let mut app = TodoApplication::new();
    app.update(Message::TextFieldChanged("  Buy milk \t".to_string()));
    assert_eq!(app.text_input(), "  Buy milk \t");
    assert_eq!(app.len(), 0);
    app.update(Message::CreateTask);
    assert_eq!(app.text_input(), "");
    assert_eq!(snapshot(&app), vec![("Buy milk".to_string(), TaskStatus::Todo)]);
    app.update(Message::TaskChanged(0, TaskMessage::MarkAs(TaskStatus::InProgress)));
    assert_eq!(app.task_at(0).unwrap().task_status, TaskStatus::InProgress);
    app.update(Message::TaskChanged(3, TaskMessage::MarkAs(TaskStatus::Done)));
    assert_eq!(app.task_at(0).unwrap().task_status, TaskStatus::InProgress);
    app.update(Message::TaskChanged(3, TaskMessage::Delete));
    assert_eq!(app.len(), 1);
    app.update(Message::TaskChanged(0, TaskMessage::Delete));
    assert_eq!(app.len(), 0);
}

#[test]
fn create_task_from_empty_input() {
    let mut app = TodoApplication::new();
    app.update(Message::CreateTask);
    assert_eq!(snapshot(&app), vec![("".to_string(), TaskStatus::Todo)]);
    app.update(Message::TextFieldChanged("   ".to_string()));
    app.update(Message::CreateTask);
    assert_eq!(app.task_at(1).unwrap().title(), "");
}
