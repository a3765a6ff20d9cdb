use todo_cli::{IndexOutOfRange, Instruction, Listing, ToDoList};

fn list_with(name: &str, tasks: &[&str]) -> ToDoList<String> {
    let mut list: ToDoList<String> = ToDoList::new(name.to_string());
    for task in tasks {
        assert_eq!(list.run(Instruction::Add(task.to_string())), Ok(None));
    }
    list
}

#[test]
fn test_to_do_list() {
    let mut list: ToDoList<String> = ToDoList::new("Hari".to_string());

    let _ = list.run(Instruction::Add("Write Rust tutorial".to_string()));
    assert_eq!(list.tasks[0], "Write Rust tutorial");

    let _ = list.run(Instruction::Modify(
        1,
        "Make fun of languages that aren't Rust".to_string(),
    ));
    assert_eq!(list.tasks[0], "Make fun of languages that aren't Rust");

    let _ = list.run(Instruction::Remove(1));
    assert!(list.tasks.is_empty());
}

#[test]
fn new_list_is_empty_and_keeps_the_name() {
    let list: ToDoList<String> = ToDoList::new("Hari".to_string());
    assert!(list.tasks.is_empty());
    assert_eq!(list.name, "Hari");
}

#[test]
fn adds_keep_their_order() {
    let mut list: ToDoList<String> = ToDoList::new("Hari".to_string());
    let tasks = ["c", "a", "b", "a", ""];
    for (n, task) in tasks.iter().enumerate() {
        assert_eq!(list.run(Instruction::Add(task.to_string())), Ok(None));
        assert_eq!(list.tasks.len(), n + 1);
    }
    assert_eq!(list.tasks, vec!["c", "a", "b", "a", ""]);
    assert_eq!(list.name, "Hari");
}

#[test]
fn add_modify_then_print() {
    let mut list: ToDoList<String> = ToDoList::new("Hari".to_string());
    assert_eq!(list.run(Instruction::Add("buy milk".to_string())), Ok(None));
    assert_eq!(list.run(Instruction::Add("walk dog".to_string())), Ok(None));
    assert_eq!(
        list.run(Instruction::Modify(1, "buy oat milk".to_string())),
        Ok(None)
    );
    let shown = list.run(Instruction::Print);
    assert_eq!(
        shown,
        Ok(Some(Listing {
            heading: "\n\nHari's To-Do List:\n".to_string(),
            rows: vec![
                (1, "buy oat milk".to_string()),
                (2, "walk dog".to_string())
            ],
        }))
    );
    assert_eq!(list.tasks, vec!["buy oat milk", "walk dog"]);
}

#[test]
fn remove_from_empty_list_fails() {
    let mut list: ToDoList<String> = ToDoList::new("Hari".to_string());
    assert_eq!(
        list.run(Instruction::Remove(1)),
        Err(IndexOutOfRange { index: 1, len: 0 })
    );
    assert!(list.tasks.is_empty());
    assert_eq!(list.name, "Hari");
}

#[test]
fn remove_takes_out_the_task_at_the_position() {
    let mut list = list_with("Hari", &["a", "b", "c"]);
    assert_eq!(list.run(Instruction::Remove(2)), Ok(None));
    assert_eq!(list.tasks, vec!["a", "c"]);
    assert_eq!(list.run(Instruction::Remove(2)), Ok(None));
    assert_eq!(list.tasks, vec!["a"]);
    assert_eq!(list.run(Instruction::Remove(1)), Ok(None));
    assert!(list.tasks.is_empty());
}

#[test]
fn removed_task_is_not_printed_again() {
    let mut list = list_with("Hari", &["buy milk", "walk dog", "call mum"]);
    assert_eq!(list.run(Instruction::Remove(2)), Ok(None));
    let shown = list.listing();
    assert_eq!(
        shown.rows,
        vec![(1, "buy milk".to_string()), (2, "call mum".to_string())]
    );
    assert!(shown.rows.iter().all(|row| row.1 != "walk dog"));
}

#[test]
fn removing_one_of_two_equal_tasks_leaves_the_other() {
    let mut list = list_with("Hari", &["a", "a"]);
    assert_eq!(list.run(Instruction::Remove(1)), Ok(None));
    assert_eq!(list.listing().rows, vec![(1, "a".to_string())]);
}

#[test]
fn modify_replaces_the_task_at_the_position() {
    let mut list = list_with("Hari", &["a", "b", "c"]);
    assert_eq!(list.run(Instruction::Modify(3, "z".to_string())), Ok(None));
    assert_eq!(list.tasks, vec!["a", "b", "z"]);
    assert_eq!(list.run(Instruction::Modify(1, "".to_string())), Ok(None));
    assert_eq!(list.tasks, vec!["", "b", "z"]);
}

#[test]
fn position_zero_is_out_of_range() {
    let mut list = list_with("Hari", &["a", "b"]);
    assert_eq!(
        list.run(Instruction::Remove(0)),
        Err(IndexOutOfRange { index: 0, len: 2 })
    );
    assert_eq!(
        list.run(Instruction::Modify(0, "z".to_string())),
        Err(IndexOutOfRange { index: 0, len: 2 })
    );
    assert_eq!(list.tasks, vec!["a", "b"]);
    assert_eq!(list.name, "Hari");
}

#[test]
fn position_past_the_end_is_out_of_range() {
    let mut list = list_with("Hari", &["a", "b"]);
    assert_eq!(
        list.run(Instruction::Remove(3)),
        Err(IndexOutOfRange { index: 3, len: 2 })
    );
    assert_eq!(
        list.run(Instruction::Modify(3, "z".to_string())),
        Err(IndexOutOfRange { index: 3, len: 2 })
    );
    assert_eq!(
        list.run(Instruction::Remove(usize::MAX)),
        Err(IndexOutOfRange {
            index: usize::MAX,
            len: 2
        })
    );
    assert_eq!(list.tasks, vec!["a", "b"]);
    assert_eq!(list.name, "Hari");
}

#[test]
fn last_position_is_in_range() {
    let mut list = list_with("Hari", &["a", "b"]);
    assert_eq!(list.run(Instruction::Modify(2, "z".to_string())), Ok(None));
    assert_eq!(list.run(Instruction::Remove(2)), Ok(None));
    assert_eq!(list.tasks, vec!["a"]);
}

#[test]
fn print_changes_nothing() {
    let mut list = list_with("Hari", &["a", "b"]);
    let first = list.run(Instruction::Print);
    let second = list.run(Instruction::Print);
    assert_eq!(first, second);
    assert_eq!(list.tasks, vec!["a", "b"]);
    assert_eq!(list.name, "Hari");
}

#[test]
fn empty_list_prints_a_message_and_no_row() {
    let mut list: ToDoList<String> = ToDoList::new("Hari".to_string());
    assert_eq!(
        list.run(Instruction::Print),
        Ok(Some(Listing {
            heading: "No tasks to print for Hari".to_string(),
            rows: vec![],
        }))
    );
}

#[test]
fn listing_counts_positions_from_one() {
    let list = list_with("", &["x", "y", "z"]);
    let shown = list.listing();
    assert_eq!(shown.heading, "\n\n's To-Do List:\n");
    assert_eq!(
        shown.rows,
        vec![
            (1, "x".to_string()),
            (2, "y".to_string()),
            (3, "z".to_string())
        ]
    );
}
