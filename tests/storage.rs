use tdr::{default_path_for, get_default_path, tasks_file, TaskCommands, TaskList};

#[test]
fn malformed_file_gives_empty_list() {
    let parsed = serde_json::from_str::<serde_json::Value>("{\"tasks\": [ {\"id\": ");
    assert!(parsed.is_err());
    let list = TaskList::from_parsed(None);
    assert!(list.tasks.is_empty());
}

#[test]
fn parsed_list_is_kept() {
    let mut list = TaskList::empty();
    list.run(Some(TaskCommands::Add { text: "kept".to_string() }));
    let loaded = TaskList::from_parsed(Some(list));
    assert_eq!(loaded.tasks.len(), 1);
    assert_eq!(loaded.tasks[0].text, "kept");
}

#[test]
fn unix_directory_is_hidden_in_home() {
    assert_eq!(default_path_for(false, "alice"), "/home/alice/.tdr/");
}

#[test]
fn windows_directory_is_under_app_data() {
    assert_eq!(default_path_for(true, "bob"), "bob\\AppData\\Local\\tdr\\");
}

#[test]
fn task_file_sits_in_directory() {
    assert_eq!(tasks_file("/home/alice/.tdr/"), "/home/alice/.tdr//tasks.json");
}

#[test]
fn current_user_directory_has_the_unix_shape() {
    let p = get_default_path(false);
    assert!(p.starts_with("/home/"));
    assert!(p.ends_with("/.tdr/"));
    assert!(p.len() > "/home//.tdr/".len());
}
