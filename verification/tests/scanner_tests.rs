use purger::project::RustProject;
use purger::scanner::ScanConfig;
use purger::ProjectScanner;

fn project(path: &str, name: &str, target_size: u64, has_target: bool) -> RustProject {
    RustProject {
        path: path.to_string(),
        name: name.to_string(),
        target_size,
        last_modified: 0,
        is_workspace: false,
        has_target,
    }
}

#[test]
fn test_filter_with_target() {
    let projects = vec![
        project("/test1", "test1", 1000, true),
        project("/test2", "test2", 0, false),
    ];

    let filtered = ProjectScanner::filter_with_target(projects);
    assert_eq!(filtered.len(), 1);
    assert_eq!(filtered[0].name, "test1");
}

#[test]
fn test_sort_by_size() {
    let projects = vec![
        project("/small", "small", 100, true),
        project("/large", "large", 1000, true),
        project("/medium", "medium", 500, true),
    ];

    let sorted = ProjectScanner::sort_by_size(projects);
    assert_eq!(sorted[0].name, "large");
    assert_eq!(sorted[1].name, "medium");
    assert_eq!(sorted[2].name, "small");
}

#[test]
fn process_entry_finds_descriptor_files() {
    let scanner = ProjectScanner::default();
    assert_eq!(
        scanner.process_entry("/work/app/Cargo.toml", true),
        Some("/work/app".to_string())
    );
    assert_eq!(scanner.process_entry("/work/app/Cargo.toml", false), None);
    assert_eq!(scanner.process_entry("/work/app/other.toml", true), None);
    assert_eq!(scanner.process_entry("Cargo.toml", true), Some(String::new()));
}

#[test]
fn apply_filters_without_policies_is_identity() {
    let scanner = ProjectScanner::new(ScanConfig::default());
    let projects = vec![
        project("/a", "a", 10, true),
        project("/b", "b", 0, false),
    ];
    let out = scanner.apply_filters(projects);
    assert_eq!(out.len(), 2);
    assert_eq!(out[0].name, "a");
    assert_eq!(out[1].name, "b");
}

#[test]
fn scan_config_default_values() {
    let config = ScanConfig::default();
    assert_eq!(config.max_depth, Some(10));
    assert!(!config.follow_links);
    assert!(config.respect_gitignore);
    assert!(config.ignore_hidden);
    assert!(config.parallel);
    assert!(!config.lazy_size_calculation);
    assert!(config.keep_days.is_none());
    assert!(config.keep_size.is_none());
    assert!(config.ignore_paths.is_empty());
}
