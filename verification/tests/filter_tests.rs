use std::time::{SystemTime, UNIX_EPOCH};

use purger::filter::SizeError;
use purger::project::RustProject;
use purger::scanner::ScanConfig;
use purger::ProjectFilter;

fn now_secs() -> u64 {
    SystemTime::now()
        .duration_since(UNIX_EPOCH)
        .map(|d| d.as_secs())
        .unwrap_or(0)
}

fn create_test_project(name: &str, target_size: u64, days_ago: u64) -> RustProject {
    let last_modified = now_secs() - days_ago * 24 * 60 * 60;

    RustProject {
        path: format!("/projects/{name}"),
        name: name.to_string(),
        target_size,
        last_modified,
        is_workspace: false,
        has_target: target_size > 0,
    }
}

#[test]
fn test_time_filter() {
    let config = ScanConfig {
        keep_days: Some(7),
        ..Default::default()
    };

    let filter = ProjectFilter::new(config);

    let projects = vec![
        create_test_project("recent", 1000, 3),
        create_test_project("old", 1000, 10),
    ];

    let filtered = filter.filter_projects(projects);
    assert_eq!(filtered.len(), 1);
    assert_eq!(filtered[0].name, "recent");
}

#[test]
fn test_size_filter() {
    let config = ScanConfig {
        keep_size: Some(500),
        ..Default::default()
    };

    let filter = ProjectFilter::new(config);

    let projects = vec![
        create_test_project("small", 100, 1),
        create_test_project("large", 1000, 1),
    ];

    let filtered = filter.filter_projects(projects);
    assert_eq!(filtered.len(), 1);
    assert_eq!(filtered[0].name, "small");
}

#[test]
fn test_parse_size_string() {
    assert_eq!(ProjectFilter::parse_size_string("100").unwrap(), 100);
    assert_eq!(ProjectFilter::parse_size_string("1KB").unwrap(), 1_000);
    assert_eq!(ProjectFilter::parse_size_string("1KiB").unwrap(), 1_024);
    assert_eq!(ProjectFilter::parse_size_string("10MB").unwrap(), 10_000_000);
    assert_eq!(ProjectFilter::parse_size_string("1GB").unwrap(), 1_000_000_000);

    assert!(ProjectFilter::parse_size_string("invalid").is_err());
    assert!(ProjectFilter::parse_size_string("10XB").is_err());
}

#[test]
fn test_parse_size_edge_cases() {
    assert_eq!(ProjectFilter::parse_size_string("0B").unwrap(), 0);
    assert_eq!(ProjectFilter::parse_size_string("1B").unwrap(), 1);

    assert_eq!(ProjectFilter::parse_size_string("1kb").unwrap(), 1000);
    assert_eq!(ProjectFilter::parse_size_string("1KB").unwrap(), 1000);
    assert_eq!(ProjectFilter::parse_size_string("1Kb").unwrap(), 1000);

    assert_eq!(ProjectFilter::parse_size_string("1MB").unwrap(), 1000 * 1000);

    assert!(ProjectFilter::parse_size_string("").is_err());
    assert!(ProjectFilter::parse_size_string("abc").is_err());
}

#[test]
fn test_filter_no_restrictions() {
    let config = ScanConfig::default();
    let filter = ProjectFilter::new(config);

    let projects = vec![
        RustProject {
            path: "/test/project1".to_string(),
            name: "project1".to_string(),
            target_size: 1000,
            last_modified: now_secs(),
            is_workspace: false,
            has_target: true,
        },
        RustProject {
            path: "/test/project2".to_string(),
            name: "project2".to_string(),
            target_size: 2000,
            last_modified: now_secs(),
            is_workspace: false,
            has_target: true,
        },
    ];

    let filtered = filter.filter_projects(projects);

    assert_eq!(filtered.len(), 2);
}

#[test]
fn parse_size_fractions_and_units() {
    assert_eq!(ProjectFilter::parse_size_string("1GiB").unwrap(), 1_073_741_824);
    assert_eq!(ProjectFilter::parse_size_string("1.5KB").unwrap(), 1500);
    assert_eq!(ProjectFilter::parse_size_string("0.5MiB").unwrap(), 524_288);
    assert_eq!(ProjectFilter::parse_size_string(" 2TB ").unwrap(), 2_000_000_000_000);
    assert_eq!(ProjectFilter::parse_size_string("3M").unwrap(), 3_000_000);
    assert_eq!(ProjectFilter::parse_size_string("2tib").unwrap(), 2_199_023_255_552);
}

#[test]
fn parse_size_error_kinds() {
    assert_eq!(ProjectFilter::parse_size_string("abc"), Err(SizeError::InvalidNumber));
    assert_eq!(ProjectFilter::parse_size_string(""), Err(SizeError::InvalidNumber));
    assert_eq!(ProjectFilter::parse_size_string("."), Err(SizeError::InvalidNumber));
    assert_eq!(ProjectFilter::parse_size_string("10XB"), Err(SizeError::UnknownUnit));
    assert_eq!(ProjectFilter::parse_size_string("10KBB"), Err(SizeError::UnknownUnit));
    assert_eq!(ProjectFilter::parse_size_string("-1MB"), Err(SizeError::InvalidNumber));
}

#[test]
fn ignore_paths_mark_what_to_keep() {
    let config = ScanConfig {
        ignore_paths: vec!["/keep".to_string()],
        ..Default::default()
    };
    let filter = ProjectFilter::new(config);

    let projects = vec![
        RustProject {
            path: "/keep/project_a".to_string(),
            name: "project_a".to_string(),
            target_size: 1000,
            last_modified: 0,
            is_workspace: false,
            has_target: true,
        },
        RustProject {
            path: "/elsewhere/project_b".to_string(),
            name: "project_b".to_string(),
            target_size: 1000,
            last_modified: 0,
            is_workspace: false,
            has_target: true,
        },
        RustProject {
            path: "/keeper/project_c".to_string(),
            name: "project_c".to_string(),
            target_size: 1000,
            last_modified: 0,
            is_workspace: false,
            has_target: true,
        },
    ];

    let filtered = filter.filter_projects(projects);
    assert_eq!(filtered.len(), 1);
    assert_eq!(filtered[0].name, "project_a");
}

#[test]
fn filter_is_idempotent_on_values() {
    let config = ScanConfig {
        keep_days: Some(7),
        keep_size: Some(1500),
        ..Default::default()
    };
    let filter = ProjectFilter::new(config);
    let now = now_secs();

    let projects = vec![
        create_test_project("one", 1000, 3),
        create_test_project("two", 2000, 3),
        create_test_project("three", 1000, 30),
    ];

    let once = filter.filter_projects_at(projects.clone(), now);
    let twice = filter.filter_projects_at(once.clone(), now);
    assert_eq!(once.len(), twice.len());
    for (a, b) in once.iter().zip(twice.iter()) {
        assert_eq!(a.name, b.name);
    }
    assert_eq!(once.len(), 1);
    assert_eq!(once[0].name, "one");
}

#[test]
fn filter_result_ignores_input_order() {
    let config = ScanConfig {
        keep_size: Some(1500),
        ..Default::default()
    };
    let filter = ProjectFilter::new(config);
    let now = now_secs();

    let forward = vec![
        create_test_project("alpha", 1000, 1),
        create_test_project("beta", 2000, 1),
        create_test_project("gamma", 100, 1),
    ];
    let backward = vec![
        create_test_project("gamma", 100, 1),
        create_test_project("beta", 2000, 1),
        create_test_project("alpha", 1000, 1),
    ];

    let mut names_fwd: Vec<String> = filter
        .filter_projects_at(forward, now)
        .into_iter()
        .map(|p| p.name)
        .collect();
    let mut names_bwd: Vec<String> = filter
        .filter_projects_at(backward, now)
        .into_iter()
        .map(|p| p.name)
        .collect();
    names_fwd.sort();
    names_bwd.sort();
    assert_eq!(names_fwd, names_bwd);
    assert_eq!(names_fwd, vec!["alpha".to_string(), "gamma".to_string()]);
}

#[test]
fn filter_empty_input_keeps_nothing() {
    let config = ScanConfig {
        keep_days: Some(7),
        ..Default::default()
    };
    let filter = ProjectFilter::new(config);
    let filtered = filter.filter_projects(Vec::new());
    assert!(filtered.is_empty());
}

#[test]
fn age_filter_keeps_future_and_targetless_projects() {
    let config = ScanConfig {
        keep_days: Some(7),
        ..Default::default()
    };
    let filter = ProjectFilter::new(config);
    let now = now_secs();

    let future = RustProject {
        path: "/projects/future".to_string(),
        name: "future".to_string(),
        target_size: 10,
        last_modified: now + 1000,
        is_workspace: false,
        has_target: true,
    };
    let no_target = RustProject {
        path: "/projects/bare".to_string(),
        name: "bare".to_string(),
        target_size: 0,
        last_modified: 0,
        is_workspace: false,
        has_target: false,
    };

    let filtered = filter.filter_projects_at(vec![future, no_target], now);
    assert_eq!(filtered.len(), 2);
}

#[test]
fn test_filter_projects_combined() {
    let config1 = ScanConfig {
        keep_size: Some(500),
        ..Default::default()
    };
    let filter1 = ProjectFilter::new(config1);

    let projects1 = vec![
        RustProject {
            path: "/root_dir/small_project".to_string(),
            name: "small_project".to_string(),
            target_size: 100,
            last_modified: now_secs(),
            is_workspace: false,
            has_target: true,
        },
        RustProject {
            path: "/root_dir/large_project".to_string(),
            name: "large_project".to_string(),
            target_size: 1000,
            last_modified: now_secs(),
            is_workspace: false,
            has_target: true,
        },
    ];

    let filtered1 = filter1.filter_projects(projects1);
    assert_eq!(filtered1.len(), 1);
    assert_eq!(filtered1[0].name, "small_project");

    let config2 = ScanConfig {
        ignore_paths: vec!["/root_dir/ignore_this".to_string()],
        ..Default::default()
    };
    let filter2 = ProjectFilter::new(config2);

    let projects2 = vec![
        RustProject {
            path: "/root_dir/normal_project".to_string(),
            name: "normal_project".to_string(),
            target_size: 1000,
            last_modified: now_secs(),
            is_workspace: false,
            has_target: true,
        },
        RustProject {
            path: "/root_dir/ignore_this/ignored_project".to_string(),
            name: "ignored_project".to_string(),
            target_size: 1000,
            last_modified: now_secs(),
            is_workspace: false,
            has_target: true,
        },
    ];

    let filtered2 = filter2.filter_projects(projects2);
    assert_eq!(filtered2.len(), 1);
    assert_eq!(filtered2[0].name, "ignored_project");
}

#[test]
fn test_path_ignore_edge_cases() {
    let project_path = "/root_dir/test_project";
    let config = ScanConfig {
        ignore_paths: vec![project_path.to_string()],
        ..Default::default()
    };
    let filter = ProjectFilter::new(config);

    assert!(filter.is_path_ignored(project_path, project_path));
}
