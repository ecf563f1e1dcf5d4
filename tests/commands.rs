use tdr::{SubtaskCommands, TaskCommands, TaskJson, TaskList};

fn add(list: &mut TaskList, text: &str) -> Vec<String> {
    list.run(Some(TaskCommands::Add { text: text.to_string() }))
}

fn sub(list: &mut TaskList, id: usize, command: SubtaskCommands) -> Vec<String> {
    list.run(Some(TaskCommands::Subtask { id, command: Some(command) }))
}

fn three_tasks() -> TaskList {
    let mut list = TaskList::empty();
    add(&mut list, "one");
    add(&mut list, "two");
    add(&mut list, "three");
    list
}

fn snapshot(t: &TaskJson) -> (usize, String, bool, Vec<(usize, String, bool)>) {
    (
        t.id,
        t.text.clone(),
        t.completed,
        t.subtasks.iter().map(|s| (s.id, s.text.clone(), s.completed)).collect(),
    )
}

#[test]
fn add_assigns_positional_ids() {
    let mut list = TaskList::empty();
    assert_eq!(add(&mut list, "buy milk"), vec!["Added task 1 with text buy milk".to_string()]);
    assert_eq!(add(&mut list, "walk dog"), vec!["Added task 2 with text walk dog".to_string()]);
    assert_eq!(list.tasks.len(), 2);
    assert_eq!(list.tasks[1].id, 2);
    assert_eq!(list.tasks[1].text, "walk dog");
    assert!(!list.tasks[1].completed);
    assert!(list.tasks[1].subtasks.is_empty());
}

#[test]
fn end_to_end_buy_milk() {
    let mut list = TaskList::empty();
    add(&mut list, "buy milk");
    assert_eq!(list.tasks.len(), 1);
    assert_eq!(list.tasks[0].id, 1);
    assert!(!list.tasks[0].completed);
    assert_eq!(
        list.run(Some(TaskCommands::Complete { id: 1 })),
        vec!["Completed task 1".to_string()]
    );
    assert!(list.tasks[0].completed);
    assert_eq!(
        sub(&mut list, 1, SubtaskCommands::Add { text: "2%  milk".to_string() }),
        vec!["Added subtask 1 with text 2%  milk".to_string()]
    );
    assert_eq!(list.tasks[0].subtasks.len(), 1);
    assert_eq!(list.tasks[0].subtasks[0].id, 1);
    assert_eq!(
        list.run(Some(TaskCommands::List)),
        vec!["1: [x] buy milk".to_string(), "  1: [ ] 2%  milk".to_string()]
    );
}

#[test]
fn complete_cascades_to_every_subtask() {
    let mut list = three_tasks();
    for text in ["a", "b", "c"] {
        sub(&mut list, 2, SubtaskCommands::Add { text: text.to_string() });
    }
    list.run(Some(TaskCommands::Complete { id: 2 }));
    assert!(list.tasks[1].completed);
    assert_eq!(list.tasks[1].subtasks.len(), 3);
    assert!(list.tasks[1].subtasks.iter().all(|s| s.completed));
    assert!(!list.tasks[0].completed);
    assert!(!list.tasks[2].completed);
    assert_eq!(
        list.run(Some(TaskCommands::Uncomplete { id: 2 })),
        vec!["Uncompleted task 2".to_string()]
    );
    assert!(!list.tasks[1].completed);
    assert!(list.tasks[1].subtasks.iter().all(|s| !s.completed));
}

#[test]
fn completing_a_subtask_leaves_its_parent() {
    let mut list = three_tasks();
    sub(&mut list, 1, SubtaskCommands::Add { text: "x".to_string() });
    assert_eq!(
        sub(&mut list, 1, SubtaskCommands::Complete { id: 1 }),
        vec!["Completed subtask 1".to_string()]
    );
    assert!(list.tasks[0].subtasks[0].completed);
    assert!(!list.tasks[0].completed);
}

#[test]
fn complete_twice_changes_nothing() {
    let mut list = three_tasks();
    sub(&mut list, 1, SubtaskCommands::Add { text: "x".to_string() });
    list.run(Some(TaskCommands::Complete { id: 1 }));
    let before: Vec<_> = list.tasks.iter().map(snapshot).collect();
    list.run(Some(TaskCommands::Complete { id: 1 }));
    let after: Vec<_> = list.tasks.iter().map(snapshot).collect();
    assert_eq!(before, after);
}

#[test]
fn remove_renumbers_positions() {
    let mut list = three_tasks();
    assert_eq!(list.run(Some(TaskCommands::Remove { id: 2 })), vec!["Removed task 2".to_string()]);
    assert_eq!(list.tasks.len(), 2);
    assert_eq!(list.tasks[0].text, "one");
    assert_eq!(list.tasks[1].text, "three");
    assert_eq!(list.run(Some(TaskCommands::Get { id: 2 })), vec!["[ ] three".to_string()]);
    assert_eq!(
        list.run(Some(TaskCommands::List)),
        vec!["1: [ ] one".to_string(), "2: [ ] three".to_string()]
    );
}

#[test]
fn complete_out_of_range_is_a_no_op() {
    let mut list = TaskList::empty();
    add(&mut list, "one");
    add(&mut list, "two");
    let before: Vec<_> = list.tasks.iter().map(snapshot).collect();
    assert!(list.run(Some(TaskCommands::Complete { id: 99 })).is_empty());
    let after: Vec<_> = list.tasks.iter().map(snapshot).collect();
    assert_eq!(before, after);
}

#[test]
fn id_zero_addresses_nothing() {
    let mut list = three_tasks();
    assert!(list.run(Some(TaskCommands::Edit { id: 0, text: "z".to_string() })).is_empty());
    assert!(list.run(Some(TaskCommands::Remove { id: 0 })).is_empty());
    assert!(list.run(Some(TaskCommands::Get { id: 0 })).is_empty());
    assert!(sub(&mut list, 0, SubtaskCommands::List).is_empty());
    assert_eq!(list.tasks.len(), 3);
    assert_eq!(list.tasks[0].text, "one");
}

#[test]
fn edit_replaces_text_only() {
    let mut list = three_tasks();
    list.run(Some(TaskCommands::Complete { id: 3 }));
    assert_eq!(
        list.run(Some(TaskCommands::Edit { id: 3, text: "drei".to_string() })),
        vec!["Edited task 3".to_string()]
    );
    assert_eq!(list.tasks[2].text, "drei");
    assert_eq!(list.tasks[2].id, 3);
    assert!(list.tasks[2].completed);
    assert!(list.run(Some(TaskCommands::Edit { id: 4, text: "vier".to_string() })).is_empty());
    assert_eq!(list.tasks.len(), 3);
}

#[test]
fn get_renders_check_box() {
    let mut list = three_tasks();
    list.run(Some(TaskCommands::Complete { id: 1 }));
    assert_eq!(list.run(Some(TaskCommands::Get { id: 1 })), vec!["[x] one".to_string()]);
    assert_eq!(list.run(Some(TaskCommands::Get { id: 2 })), vec!["[ ] two".to_string()]);
    assert!(list.run(Some(TaskCommands::Get { id: 4 })).is_empty());
    assert_eq!(list.tasks[0].render(), "[x] one");
}

#[test]
fn clear_empties_the_list() {
    let mut list = three_tasks();
    assert_eq!(list.run(Some(TaskCommands::Clear)), vec!["Cleared all tasks".to_string()]);
    assert!(list.tasks.is_empty());
    assert!(list.run(Some(TaskCommands::List)).is_empty());
}

#[test]
fn no_command_prints_a_notice() {
    let mut list = three_tasks();
    assert_eq!(list.run(None), vec!["No command specified".to_string()]);
    assert_eq!(
        list.run(Some(TaskCommands::Subtask { id: 1, command: None })),
        vec!["No subtask command specified".to_string()]
    );
    assert!(list.run(Some(TaskCommands::Subtask { id: 9, command: None })).is_empty());
    assert_eq!(list.tasks.len(), 3);
}

#[test]
fn subtask_commands_act_on_one_parent() {
    let mut list = three_tasks();
    sub(&mut list, 2, SubtaskCommands::Add { text: "a".to_string() });
    sub(&mut list, 2, SubtaskCommands::Add { text: "b".to_string() });
    assert_eq!(
        sub(&mut list, 2, SubtaskCommands::Edit { id: 2, text: "bee".to_string() }),
        vec!["Edited subtask 2".to_string()]
    );
    assert_eq!(
        sub(&mut list, 2, SubtaskCommands::List),
        vec!["1: [ ] a".to_string(), "2: [ ] bee".to_string()]
    );
    assert_eq!(sub(&mut list, 2, SubtaskCommands::Get { id: 2 }), vec!["[ ] bee".to_string()]);
    assert_eq!(
        sub(&mut list, 2, SubtaskCommands::Remove { id: 1 }),
        vec!["Removed subtask 1".to_string()]
    );
    assert_eq!(list.tasks[1].subtasks.len(), 1);
    assert_eq!(list.tasks[1].subtasks[0].text, "bee");
    assert!(sub(&mut list, 2, SubtaskCommands::Uncomplete { id: 5 }).is_empty());
    assert_eq!(
        sub(&mut list, 2, SubtaskCommands::Clear),
        vec!["Cleared all subtasks".to_string()]
    );
    assert!(list.tasks[1].subtasks.is_empty());
    assert!(list.tasks[0].subtasks.is_empty());
    assert!(sub(&mut list, 7, SubtaskCommands::Add { text: "lost".to_string() }).is_empty());
    assert_eq!(list.tasks.len(), 3);
}

#[test]
fn listing_numbers_past_nine() {
    let mut list = TaskList::empty();
    for i in 0..12 {
        add(&mut list, &format!("t{}", i));
    }
    let lines = list.run(Some(TaskCommands::List));
    assert_eq!(lines.len(), 12);
    assert_eq!(lines[9], "10: [ ] t9");
    assert_eq!(lines[11], "12: [ ] t11");
    assert_eq!(add(&mut list, "last"), vec!["Added task 13 with text last".to_string()]);
}

#[test]
fn new_task_is_fresh() {
    let t = TaskJson::new(7, "seven".to_string());
    assert_eq!(t.id, 7);
    assert_eq!(t.text, "seven");
    assert!(!t.completed);
    assert!(t.subtasks.is_empty());
}

#[test]
fn complete_and_uncomplete_nested_tree() {
    let mut leaf = TaskJson::new(1, "leaf".to_string());
    leaf.subtasks.push(TaskJson::new(1, "deeper".to_string()));
    let mut t = TaskJson::new(1, "root".to_string());
    t.subtasks.push(leaf);
    t.subtasks.push(TaskJson::new(2, "other".to_string()));
    t.complete();
    assert!(t.completed && t.subtasks[0].completed && t.subtasks[1].completed);
    assert!(t.subtasks[0].subtasks[0].completed);
    t.uncomplete();
    assert!(!t.completed && !t.subtasks[0].completed && !t.subtasks[1].completed);
    assert!(!t.subtasks[0].subtasks[0].completed);
    assert_eq!(t.subtasks[0].subtasks[0].text, "deeper");
}
