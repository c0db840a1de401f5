use purger::cleaner::{
    parse_clean_file_list, validate_target_safety, CleanAction, CleanBatch, CleanConfig,
    CleanError, CleanStrategy,
};
use purger::project::{ProjectError, RustProject, TargetInfo};
use purger::{ProjectCleaner, ProjectScanner};

fn project(path: &str, name: &str, target_size: u64, has_target: bool) -> RustProject {
    RustProject {
        path: path.to_string(),
        name: name.to_string(),
        target_size,
        last_modified: 0,
        is_workspace: false,
        has_target,
    }
}

#[test]
fn dry_run_reports_known_sizes_and_touches_nothing() {
    let config = CleanConfig {
        dry_run: true,
        ..Default::default()
    };
    let cleaner = ProjectCleaner::new(config);

    let p = project("/work/app", "app", 4096, true);
    assert_eq!(cleaner.plan_clean(&p), CleanAction::DryRun(4096));

    let bare = project("/work/bare", "bare", 0, false);
    assert_eq!(cleaner.plan_clean(&bare), CleanAction::DryRun(0));
}

#[test]
fn preview_counts_every_project_and_its_size() {
    let cleaner = ProjectCleaner::default();
    let projects = vec![
        project("/work/one", "one", 1024, true),
        project("/work/two", "two", 2048, true),
    ];

    let result = cleaner.preview_clean(&projects);
    assert_eq!(result.cleaned_projects, 2);
    assert_eq!(result.total_size_freed, 3072);
    assert!(result.failed_projects.is_empty());
}

#[test]
fn preview_of_nothing_is_empty() {
    let cleaner = ProjectCleaner::default();
    let result = cleaner.preview_clean(&Vec::new());
    assert_eq!(result.cleaned_projects, 0);
    assert_eq!(result.total_size_freed, 0);
    assert!(result.failed_projects.is_empty());
}

#[test]
fn plan_skips_targetless_and_picks_the_strategy() {
    let cargo = ProjectCleaner::new(CleanConfig::default());
    let direct = ProjectCleaner::new(CleanConfig {
        strategy: CleanStrategy::DirectDelete,
        ..Default::default()
    });

    let bare = project("/work/bare", "bare", 0, false);
    assert_eq!(cargo.plan_clean(&bare), CleanAction::Skip);

    let full = project("/work/full", "full", 10, true);
    assert_eq!(cargo.plan_clean(&full), CleanAction::RunCargoClean);
    assert_eq!(direct.plan_clean(&full), CleanAction::RunDirectDelete);
}

#[test]
fn success_frees_the_measured_size() {
    let cleaner = ProjectCleaner::default();
    let p = project("/work/app", "app", 777, true);
    assert_eq!(cleaner.conclude_clean(&p, Ok(())), Ok(777));
}

#[test]
fn timeout_becomes_a_recorded_failure() {
    let cleaner = ProjectCleaner::default();
    let p = project("/work/slow", "slow", 777, true);
    assert_eq!(cleaner.conclude_clean(&p, Err(CleanError::TimedOut)), Err(CleanError::TimedOut));

    let mut batch = CleanBatch::new();
    batch.record(&p, Err(CleanError::TimedOut));
    assert!(batch.active());
    let result = batch.finish(5);
    assert_eq!(result.cleaned_projects, 0);
    assert_eq!(result.failed_projects, vec!["/work/slow".to_string()]);
}

#[test]
fn symlinked_target_is_refused() {
    assert_eq!(
        validate_target_safety("/work/app", "/work/app/target", true),
        Err(CleanError::UnsafeTargetDirectory)
    );
}

#[test]
fn escaping_target_is_refused() {
    assert_eq!(
        validate_target_safety("/work/app", "/elsewhere/target", false),
        Err(CleanError::UnsafeTargetDirectory)
    );
    assert_eq!(
        validate_target_safety("/work/app", "/work/app", false),
        Err(CleanError::UnsafeTargetDirectory)
    );
    assert_eq!(
        validate_target_safety("/work/app", "/work/apple/target", false),
        Err(CleanError::UnsafeTargetDirectory)
    );
    assert_eq!(validate_target_safety("/work/app", "/work/app/target", false), Ok(()));
}

#[test]
fn cancellation_stops_the_batch_and_keeps_what_finished() {
    let mut batch = CleanBatch::new();
    let one = project("/work/one", "one", 100, true);
    let two = project("/work/two", "two", 200, true);

    batch.record(&one, Ok(100));
    batch.record(&two, Err(CleanError::Cancelled));

    assert!(!batch.active());
    let result = batch.finish(42);
    assert_eq!(result.cleaned_projects, 1);
    assert_eq!(result.total_size_freed, 100);
    assert!(result.failed_projects.is_empty());
    assert_eq!(result.duration_ms, 42);
}

#[test]
fn batch_mixes_successes_and_failures() {
    let mut batch = CleanBatch::new();
    batch.record(&project("/a", "a", 10, true), Ok(10));
    batch.record(&project("/b", "b", 20, true), Err(CleanError::Io("denied".to_string())));
    batch.record(&project("/c", "c", 30, true), Ok(30));

    let result = batch.finish(1);
    assert_eq!(result.cleaned_projects, 2);
    assert_eq!(result.total_size_freed, 40);
    assert_eq!(result.failed_projects, vec!["/b".to_string()]);
}

#[test]
fn descriptor_text_builds_the_project() {
    let text = "[package]\nname = \"demo\"\nversion = \"0.1.0\"\n";
    let target = TargetInfo {
        size: 512,
        modified_secs: 1000,
    };
    let p = RustProject::from_parts("/work/demo_dir", Some(text), Some(target)).unwrap();
    assert_eq!(p.name, "demo");
    assert_eq!(p.path, "/work/demo_dir");
    assert!(!p.is_workspace);
    assert!(p.has_target);
    assert_eq!(p.target_size, 512);
    assert_eq!(p.last_modified, 1000);
}

#[test]
fn workspace_descriptor_is_recognised() {
    let text = "[workspace]\nmembers = [\"a\", \"b\"]\n";
    let p = RustProject::from_parts("/work/ws", Some(text), None).unwrap();
    assert!(p.is_workspace);
    assert_eq!(p.name, "ws");
    assert!(!p.has_target);
    assert_eq!(p.target_size, 0);
}

#[test]
fn malformed_descriptor_falls_back_to_the_directory_name() {
    let p = RustProject::from_parts("/work/broken", Some("invalid toml content [[[["), None)
        .unwrap();
    assert_eq!(p.name, "broken");
    assert!(!p.is_workspace);
}

#[test]
fn missing_descriptor_is_not_a_project() {
    assert!(matches!(
        RustProject::from_parts("/work/empty", None, None),
        Err(ProjectError::NotAProject)
    ));
}

#[test]
fn three_projects_two_targets_sorted() {
    let texts = [
        ("/tree/alpha", "[package]\nname = \"alpha\"\n", Some(TargetInfo { size: 1024, modified_secs: 0 })),
        ("/tree/beta", "[package]\nname = \"beta\"\n", Some(TargetInfo { size: 2048, modified_secs: 0 })),
        ("/tree/gamma", "[package]\nname = \"gamma\"\n", None),
    ];
    let mut projects = Vec::new();
    for (path, text, target) in texts {
        projects.push(RustProject::from_parts(path, Some(text), target).unwrap());
    }
    assert_eq!(projects.len(), 3);

    let with_target = ProjectScanner::filter_with_target(projects);
    assert_eq!(with_target.len(), 2);

    let sorted = ProjectScanner::sort_by_size(with_target);
    assert_eq!(sorted[0].target_size, 2048);
    assert_eq!(sorted[1].target_size, 1024);
    assert_eq!(sorted[0].name, "beta");
    assert_eq!(sorted[1].name, "alpha");

    let cleaner = ProjectCleaner::new(CleanConfig {
        dry_run: true,
        ..Default::default()
    });
    let result = cleaner.preview_clean(&sorted);
    assert_eq!(result.cleaned_projects, 2);
    assert_eq!(result.total_size_freed, 3072);
}

#[test]
fn clean_output_parsing_names_files() {
    let output = "/work/app/target/debug/app\n\n  /work/app/target/release/app.d  \nSummary 2 files\n";
    let files = parse_clean_file_list(output);
    assert_eq!(files, vec!["app".to_string(), "app.d".to_string()]);
}

#[test]
fn clean_output_parsing_of_empty_output() {
    assert!(parse_clean_file_list("").is_empty());
    assert!(parse_clean_file_list("\n\n").is_empty());
}
