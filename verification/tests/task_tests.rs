use noruno::task::{Subtask, Task};

fn task_with(subtask_ids: &[i32]) -> Task {
    Task {
        id: 1,
        description: "Main Task".to_string(),
        start_date: None,
        due_date: "2023-12-31".to_string(),
        group: "Work".to_string(),
        details: "Details".to_string(),
        completed: false,
        notified: false,
        notification_minutes: None,
        subtasks: subtask_ids.iter().map(|id| Subtask::new(*id, format!("Subtask {}", id))).collect(),
        dependencies: None,
    }
}

#[test]
fn test_subtask_creation() {
    let subtask = Subtask::new(1, "Test Subtask".to_string());
    assert_eq!(subtask.id, 1);
    assert_eq!(subtask.description, "Test Subtask");
    assert_eq!(subtask.completed, false);
}

#[test]
fn test_next_subtask_id() {
    let mut task = Task {
        id: 1,
        description: "Main Task".to_string(),
        start_date: None,
        due_date: "2023-12-31".to_string(),
        group: "Work".to_string(),
        details: "Details".to_string(),
        completed: false,
        notified: false,
        notification_minutes: None,
        subtasks: Vec::new(),
        dependencies: None,
    };

    // No subtasks
    assert_eq!(task.next_subtask_id(), 1);

    // Add subtasks
    task.subtasks.push(Subtask::new(1, "Subtask 1".to_string()));
    task.subtasks.push(Subtask::new(2, "Subtask 2".to_string()));
    assert_eq!(task.next_subtask_id(), 3);

    // Add non-sequential subtask
    task.subtasks.push(Subtask::new(5, "Subtask 5".to_string()));
    assert_eq!(task.next_subtask_id(), 6);
}

#[test]
fn next_subtask_id_is_one_more_than_the_largest_wherever_it_stands() {
    assert_eq!(task_with(&[5, 1, 2]).next_subtask_id(), 6);
    assert_eq!(task_with(&[1, 9, 2]).next_subtask_id(), 10);
    assert_eq!(task_with(&[7]).next_subtask_id(), 8);
    assert_eq!(task_with(&[3, 3, 3]).next_subtask_id(), 4);
}

#[test]
fn next_subtask_id_follows_negative_ids_too() {
    assert_eq!(task_with(&[-5]).next_subtask_id(), -4);
    assert_eq!(task_with(&[-5, -2, -9]).next_subtask_id(), -1);
    assert_eq!(task_with(&[-1]).next_subtask_id(), 0);
}

#[test]
fn next_subtask_id_is_not_the_count_plus_one() {
    let task = task_with(&[10, 20]);
    assert_eq!(task.subtasks.len(), 2);
    assert_eq!(task.next_subtask_id(), 21);
}

#[test]
fn next_subtask_id_up_to_the_largest_integer() {
    assert_eq!(task_with(&[i32::MAX - 1]).next_subtask_id(), i32::MAX);
}

#[test]
fn cloned_task_holds_the_same() {
    let mut task = task_with(&[1, 2]);
    task.start_date = Some("2023-01-01".to_string());
    task.notification_minutes = Some(30);
    task.dependencies = Some(vec![2, 3]);
    task.notified = true;
    let copy = task.clone();
    assert_eq!(copy.id, task.id);
    assert_eq!(copy.description, task.description);
    assert_eq!(copy.start_date, task.start_date);
    assert_eq!(copy.due_date, task.due_date);
    assert_eq!(copy.group, task.group);
    assert_eq!(copy.details, task.details);
    assert_eq!(copy.completed, task.completed);
    assert_eq!(copy.notified, task.notified);
    assert_eq!(copy.notification_minutes, task.notification_minutes);
    assert_eq!(copy.dependencies, task.dependencies);
    assert_eq!(copy.subtasks.len(), 2);
    assert_eq!(copy.subtasks[1].id, 2);
    assert_eq!(copy.subtasks[1].description, "Subtask 2");
}
