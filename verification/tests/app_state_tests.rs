use purger::app_state::{AppData, AppMessage, AppState};
use purger::project::RustProject;

fn create_test_project(name: &str, target_size: u64, has_target: bool) -> RustProject {
    RustProject {
        path: format!("/test/{name}"),
        name: name.to_string(),
        target_size,
        last_modified: 0,
        is_workspace: false,
        has_target,
    }
}

#[test]
fn test_app_data_new() {
    let data = AppData::new();
    assert!(data.projects.is_empty());
    assert!(data.selected_projects.is_empty());
    assert!(data.scan_progress.is_none());
    assert!(data.clean_progress.is_none());
    assert!(data.current_cleaning_project.is_none());
    assert!(data.last_clean_result.is_none());
    assert!(data.error_message.is_none());
}

#[test]
fn test_set_projects() {
    let mut data = AppData::new();
    let projects = vec![
        create_test_project("project1", 1000, true),
        create_test_project("project2", 2000, true),
        create_test_project("project3", 0, false),
    ];

    data.set_projects(projects.clone());

    assert_eq!(data.projects.len(), 3);
    assert_eq!(data.selected_projects.len(), 3);
    assert_eq!(data.projects[0].name, "project1");
    assert_eq!(data.projects[1].name, "project2");
    assert_eq!(data.projects[2].name, "project3");

    assert!(!data.selected_projects[0]);
    assert!(!data.selected_projects[1]);
    assert!(!data.selected_projects[2]);
}

#[test]
fn test_get_selected_projects() {
    let mut data = AppData::new();
    let projects = vec![
        create_test_project("project1", 1000, true),
        create_test_project("project2", 2000, true),
        create_test_project("project3", 3000, false),
    ];

    data.set_projects(projects);

    data.selected_projects[0] = true;
    data.selected_projects[2] = true;

    let selected = data.get_selected_projects();
    assert_eq!(selected.len(), 2);
    assert_eq!(selected[0].name, "project1");
    assert_eq!(selected[1].name, "project3");
}

#[test]
fn test_get_selected_count() {
    let mut data = AppData::new();
    let projects = vec![
        create_test_project("project1", 1000, true),
        create_test_project("project2", 2000, true),
        create_test_project("project3", 3000, false),
    ];

    data.set_projects(projects);

    assert_eq!(data.get_selected_count(), 0);

    data.selected_projects[0] = true;
    assert_eq!(data.get_selected_count(), 1);

    data.selected_projects[2] = true;
    assert_eq!(data.get_selected_count(), 2);
}

#[test]
fn test_get_total_cleanable_size() {
    let mut data = AppData::new();
    let projects = vec![
        create_test_project("project1", 1000, true),
        create_test_project("project2", 2000, true),
        create_test_project("project3", 3000, false),
    ];

    data.set_projects(projects);

    assert_eq!(data.get_total_cleanable_size(), 0);

    data.selected_projects[0] = true;
    assert_eq!(data.get_total_cleanable_size(), 1000);

    data.selected_projects[2] = true;
    assert_eq!(data.get_total_cleanable_size(), 1000);

    data.selected_projects[1] = true;
    assert_eq!(data.get_total_cleanable_size(), 3000);
}

#[test]
fn test_select_all() {
    let mut data = AppData::new();
    let projects = vec![
        create_test_project("project1", 1000, true),
        create_test_project("project2", 2000, true),
        create_test_project("project3", 3000, false),
    ];

    data.set_projects(projects);
    data.select_all();

    assert!(data.selected_projects[0]);
    assert!(data.selected_projects[1]);
    assert!(data.selected_projects[2]);
    assert_eq!(data.get_selected_count(), 3);
}

#[test]
fn test_select_none() {
    let mut data = AppData::new();
    let projects = vec![
        create_test_project("project1", 1000, true),
        create_test_project("project2", 2000, true),
    ];

    data.set_projects(projects);
    data.select_all();
    assert_eq!(data.get_selected_count(), 2);

    data.select_none();
    assert_eq!(data.get_selected_count(), 0);
    assert!(!data.selected_projects[0]);
    assert!(!data.selected_projects[1]);
}

#[test]
fn test_invert_selection() {
    let mut data = AppData::new();
    let projects = vec![
        create_test_project("project1", 1000, true),
        create_test_project("project2", 2000, true),
        create_test_project("project3", 3000, false),
    ];

    data.set_projects(projects);

    data.selected_projects[0] = true;
    assert_eq!(data.get_selected_count(), 1);

    data.invert_selection();
    assert_eq!(data.get_selected_count(), 2);
    assert!(!data.selected_projects[0]);
    assert!(data.selected_projects[1]);
    assert!(data.selected_projects[2]);
}

#[test]
fn test_clear_error() {
    let mut data = AppData::new();
    data.error_message = Some("Test error".to_string());

    assert!(data.error_message.is_some());
    data.clear_error();
    assert!(data.error_message.is_none());
}

#[test]
fn test_reset_progress() {
    let mut data = AppData::new();
    data.scan_progress = Some((5, 10));
    data.clean_progress = Some((3, 8, 1024));
    data.current_cleaning_project = Some("test_project".to_string());

    data.reset_progress();

    assert!(data.scan_progress.is_none());
    assert!(data.clean_progress.is_none());
    assert!(data.current_cleaning_project.is_none());
}

#[test]
fn test_app_state_enum() {
    let idle = AppState::Idle;
    let scanning = AppState::Scanning;
    let cleaning = AppState::Cleaning;

    assert_eq!(idle, AppState::Idle);
    assert_ne!(idle, scanning);
    assert_ne!(scanning, cleaning);

    let idle_clone = idle.clone();
    assert_eq!(idle, idle_clone);
}

#[test]
fn test_app_message_debug() {
    let msg1 = AppMessage::ScanProgress(5, 10);
    let _msg2 = AppMessage::ScanError("Test error".to_string());
    let _msg3 = AppMessage::CleanProgress(3, 8, 1024);

    let debug_str = format!("{msg1:?}");
    assert!(debug_str.contains("ScanProgress"));
    assert!(debug_str.contains("5"));
    assert!(debug_str.contains("10"));
}
