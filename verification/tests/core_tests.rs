use purger::cleaner::{CleanConfig, CleanPhase, CleanProgress, CleanStrategy};
use purger::cli::CleanStrategyArg;
use purger::project::RustProject;
use purger::{format_bytes, CleanResult};

fn project(path: &str, name: &str, target_size: u64, has_target: bool) -> RustProject {
    RustProject {
        path: path.to_string(),
        name: name.to_string(),
        target_size,
        last_modified: 0,
        is_workspace: false,
        has_target,
    }
}

#[test]
fn test_format_bytes() {
    assert_eq!(format_bytes(0), "0 B");
    assert_eq!(format_bytes(1023), "1023 B");
    assert_eq!(format_bytes(1024), "1.00 KB");
    assert_eq!(format_bytes(1536), "1.50 KB");
    assert_eq!(format_bytes(1048576), "1.00 MB");
    assert_eq!(format_bytes(1073741824), "1.00 GB");
}

#[test]
fn test_clean_result() {
    let mut result = CleanResult::new();
    assert_eq!(result.cleaned_projects, 0);
    assert_eq!(result.total_size_freed, 0);

    result.add_success(1024);
    assert_eq!(result.cleaned_projects, 1);
    assert_eq!(result.total_size_freed, 1024);

    result.add_failure("test_project".to_string());
    assert_eq!(result.failed_projects.len(), 1);
}

#[test]
fn test_clean_config_default() {
    let config = CleanConfig::default();
    assert_eq!(config.strategy, CleanStrategy::CargoClean);
    assert!(!config.dry_run);
    assert!(config.parallel);
    assert_eq!(config.timeout_seconds, 30);
    assert!(!config.keep_executable);
    assert!(config.executable_backup_dir.is_none());
}

#[test]
fn test_clean_progress_phases() {
    let progress = CleanProgress {
        project_name: "test".to_string(),
        current_file: Some("test.txt".to_string()),
        files_processed: 5,
        total_files: Some(10),
        phase: CleanPhase::Cleaning,
    };

    assert_eq!(progress.project_name, "test");
    assert_eq!(progress.current_file, Some("test.txt".to_string()));
    assert_eq!(progress.files_processed, 5);
    assert_eq!(progress.total_files, Some(10));
    assert_eq!(progress.phase, CleanPhase::Cleaning);
}

#[test]
fn test_clean_strategy_default() {
    let strategy = CleanStrategy::default();
    assert_eq!(strategy, CleanStrategy::CargoClean);
}

#[test]
fn test_clean_result_operations() {
    let mut result = CleanResult::new();

    assert_eq!(result.cleaned_projects, 0);
    assert_eq!(result.total_size_freed, 0);
    assert!(result.failed_projects.is_empty());

    result.add_success(1024);
    assert_eq!(result.cleaned_projects, 1);
    assert_eq!(result.total_size_freed, 1024);

    result.add_failure("failed_project".to_string());
    assert_eq!(result.failed_projects.len(), 1);
    assert_eq!(result.failed_projects[0], "failed_project");

    let formatted = result.format_size();
    assert_eq!(formatted, "1.00 KB");
}

#[test]
fn test_clean_strategy_conversion() {
    assert!(matches!(
        CleanStrategy::from(CleanStrategyArg::CargoClean),
        CleanStrategy::CargoClean
    ));
    assert!(matches!(
        CleanStrategy::from(CleanStrategyArg::DirectDelete),
        CleanStrategy::DirectDelete
    ));
}

#[test]
fn test_confirm_clean_calculation() {
    let projects = [
        project("/test1", "test1", 1000, true),
        project("/test2", "test2", 2000, true),
    ];

    let total_size: u64 = projects.iter().map(|p| p.target_size).sum();
    assert_eq!(total_size, 3000);
}

#[test]
fn test_formatted_size() {
    let p = project("/test", "test", 1024, true);
    let formatted = p.formatted_size();
    assert_eq!(formatted, "1.00 KB");
}

#[test]
fn test_relative_path() {
    let p = project("/home/user/projects/my_project", "my_project", 0, false);
    let base = "/home/user/projects";
    let relative = p.relative_path(base);
    assert_eq!(relative, "my_project");
}

#[test]
fn test_target_path() {
    let p = project("/test/project", "test", 0, false);
    let target_path = p.target_path();
    assert_eq!(target_path, "/test/project/target");
}
