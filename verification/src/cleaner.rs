//! The cleaning engine's decisions and accounting: which action a project
//! gets, the safety gate before direct deletion, and the batch bookkeeping
//! under cancellation.
//!
//! The filesystem work itself — running the build tool's clean command,
//! deleting the target directory — happens outside this crate; the caller
//! drives it and hands every outcome back to [`CleanBatch::record`].

use vstd::prelude::*;

use crate::paths::{last_component, spec_last_component, spec_path_strictly_under};
use crate::text::{spec_contains_seq, spec_trimmed, str_contains, trim_str};
use crate::project::RustProject;
use crate::{spec_sat_add_u64, spec_sat_inc_usize, CleanResult};

verus! {

/// How a project's target directory is destroyed.
#[derive(Debug, Clone, Copy, PartialEq, Eq, Structural)]
pub enum CleanStrategy {
    /// Run the build tool's own clean subcommand.
    CargoClean,
    /// Delete the target directory directly.
    DirectDelete,
}

impl Default for CleanStrategy {
    fn default() -> (r: Self)
        ensures
            r == CleanStrategy::CargoClean,
    {
        CleanStrategy::CargoClean
    }
}

/// The phase a project's cleaning is in; phases only move forward.
#[derive(Debug, Clone, PartialEq, Eq, Structural)]
pub enum CleanPhase {
    Starting,
    Analyzing,
    Cleaning,
    Finalizing,
    Complete,
}

/// One progress event during a project's cleaning.
#[derive(Debug, Clone)]
pub struct CleanProgress {
    pub project_name: String,
    pub current_file: Option<String>,
    pub files_processed: usize,
    pub total_files: Option<usize>,
    pub phase: CleanPhase,
}

/// How a cleaning batch is run.
#[derive(Debug, Clone)]
pub struct CleanConfig {
    pub strategy: CleanStrategy,
    pub dry_run: bool,
    pub parallel: bool,
    /// Per-project deadline in seconds; 0 means no deadline.
    pub timeout_seconds: u64,
    /// Copy executables out of the target directory before deleting it.
    pub keep_executable: bool,
    /// Where the executables are copied; the project directory when unset.
    pub executable_backup_dir: Option<String>,
}

impl Default for CleanConfig {
    /// The tool-driven strategy, for real, in parallel, with a 30 second
    /// deadline and no executable backup.
    fn default() -> (r: Self)
        ensures
            r.strategy == CleanStrategy::CargoClean,
            !r.dry_run,
            r.parallel,
            r.timeout_seconds == 30,
            !r.keep_executable,
            r.executable_backup_dir is None,
    {
        CleanConfig {
            strategy: CleanStrategy::CargoClean,
            dry_run: false,
            parallel: true,
            timeout_seconds: 30,
            keep_executable: false,
            executable_backup_dir: None,
        }
    }
}

/// Why a project's cleaning failed or stopped.
#[derive(Debug, Clone, PartialEq, Eq)]
pub enum CleanError {
    /// The target path is a symlink or escapes the project root; nothing
    /// was touched.
    UnsafeTargetDirectory,
    /// The per-project deadline passed and the operation was stopped.
    TimedOut,
    /// The shared cancellation flag was observed; not a failure.
    Cancelled,
    /// The build tool's clean subcommand failed; its words follow.
    ToolFailed(String),
    /// A filesystem operation failed past retry; its words follow.
    Io(String),
}

/// What the engine decides to do with one project.
#[derive(Debug, Clone, Copy, PartialEq, Eq, Structural)]
pub enum CleanAction {
    /// Touch nothing and report this many bytes as freed.
    DryRun(u64),
    /// The project has no target directory; report zero bytes freed.
    Skip,
    /// Run the build tool's clean subcommand in the project directory.
    RunCargoClean,
    /// Delete the target directory, behind the safety gate.
    RunDirectDelete,
}

/// The action a configuration assigns to a project: a dry run reports the
/// known target size and touches nothing; a project without a target is
/// skipped; otherwise the configured strategy runs.
pub open spec fn spec_plan_clean(config: CleanConfig, project: RustProject) -> CleanAction {
    if config.dry_run {
        CleanAction::DryRun(project.target_size)
    } else if !project.has_target {
        CleanAction::Skip
    } else if config.strategy == CleanStrategy::CargoClean {
        CleanAction::RunCargoClean
    } else {
        CleanAction::RunDirectDelete
    }
}

/// Cleans projects' target directories under a configuration.
pub struct ProjectCleaner {
    pub config: CleanConfig,
}

impl Default for ProjectCleaner {
    fn default() -> (r: Self)
        ensures
            r.config.strategy == CleanStrategy::CargoClean,
            !r.config.dry_run,
            r.config.parallel,
            r.config.timeout_seconds == 30,
            !r.config.keep_executable,
            r.config.executable_backup_dir is None,
    {
        Self::new(CleanConfig::default())
    }
}

impl ProjectCleaner {
    /// A cleaner with the given configuration.
    pub fn new(config: CleanConfig) -> (r: Self)
        ensures
            r.config == config,
    {
        Self { config }
    }

    /// Decides what to do with one project (see [`spec_plan_clean`]).
    pub fn plan_clean(&self, project: &RustProject) -> (a: CleanAction)
        ensures
            a == spec_plan_clean(self.config, *project),
    {
        if self.config.dry_run {
            CleanAction::DryRun(project.target_size)
        } else if !project.has_target {
            CleanAction::Skip
        } else {
            match self.config.strategy {
                CleanStrategy::CargoClean => CleanAction::RunCargoClean,
                CleanStrategy::DirectDelete => CleanAction::RunDirectDelete,
            }
        }
    }

    /// Settles one project's result from the outcome of its action: success
    /// frees the target size that was measured before the action; a failure
    /// passes through.
    pub fn conclude_clean(&self, project: &RustProject, outcome: Result<(), CleanError>) -> (r:
        Result<u64, CleanError>)
        ensures
            outcome is Ok ==> r == Result::<u64, CleanError>::Ok(project.target_size),
            match (outcome, r) {
                (Err(e), Err(re)) => e == re,
                (Ok(_), Ok(freed)) => freed == project.target_size,
                _ => false,
            },
    {
        match outcome {
            Ok(()) => Ok(project.target_size),
            Err(e) => Err(e),
        }
    }

    /// Accounts a whole batch as a dry run would: every project counted as
    /// cleaned, its known target size as freed, no failures and nothing
    /// touched.
    pub fn preview_clean(&self, projects: &Vec<RustProject>) -> (r: CleanResult)
        ensures
            r.cleaned_projects == projects@.len(),
            r.total_size_freed == spec_preview_freed(projects@),
            r.failed_projects@.len() == 0,
    {
        let start = crate::filter::now_millis();
        let mut result = CleanResult::new();
        let mut i: usize = 0;
        while i < projects.len()
            invariant
                i <= projects@.len(),
                result.cleaned_projects == i,
                result.total_size_freed == spec_preview_freed(projects@.subrange(0, i as int)),
                result.failed_projects@.len() == 0,
            decreases projects@.len() - i,
        {
            result.add_success(projects[i].target_size);
            proof {
                assert(projects@.subrange(0, i + 1).drop_last() =~= projects@.subrange(0, i as int));
            }
            i = i + 1;
        }
        proof {
            assert(projects@.subrange(0, projects@.len() as int) =~= projects@);
        }
        let end = crate::filter::now_millis();
        result.duration_ms = if end >= start {
            end - start
        } else {
            0
        };
        result
    }
}

/// The saturating total of the projects' known target sizes.
pub open spec fn spec_preview_freed(projects: Seq<RustProject>) -> u64
    decreases projects.len(),
{
    if projects.len() == 0 {
        0
    } else {
        spec_sat_add_u64(spec_preview_freed(projects.drop_last()), projects.last().target_size)
    }
}

/// The safety gate before a direct deletion: a target path that is a
/// symlink, or whose canonical form does not lie strictly under the
/// project's canonical directory, is refused and nothing is touched.
pub fn validate_target_safety(project_path: &str, canonical_target: &str, target_is_symlink: bool)
    -> (r: Result<(), CleanError>)
    ensures
        r is Ok <==> (!target_is_symlink && spec_path_strictly_under(
            canonical_target@,
            project_path@,
        )),
        r is Err ==> r == Result::<(), CleanError>::Err(CleanError::UnsafeTargetDirectory),
{
    if target_is_symlink {
        return Err(CleanError::UnsafeTargetDirectory);
    }
    if !crate::paths::path_strictly_under(canonical_target, project_path) {
        return Err(CleanError::UnsafeTargetDirectory);
    }
    Ok(())
}

/// The running bookkeeping of one cleaning batch: the result so far, and
/// whether cancellation was observed. Once it is, the batch is over —
/// nothing further may be recorded, and what was already counted stands.
pub struct CleanBatch {
    pub result: CleanResult,
    pub cancelled: bool,
}

impl CleanBatch {
    /// A fresh batch: nothing counted, not cancelled.
    pub fn new() -> (r: Self)
        ensures
            r.result.cleaned_projects == 0,
            r.result.total_size_freed == 0,
            r.result.failed_projects@.len() == 0,
            r.result.duration_ms == 0,
            !r.cancelled,
    {
        CleanBatch { result: CleanResult::new(), cancelled: false }
    }

    /// Whether the batch still accepts outcomes.
    pub fn active(&self) -> (r: bool)
        ensures
            r == !self.cancelled,
    {
        !self.cancelled
    }

    /// Records one project's outcome. Success counts the project and its
    /// freed bytes; a failure records the project's path; an observed
    /// cancellation ends the batch and leaves every count exactly as it
    /// stood — completed projects stay counted, and nothing further
    /// changes.
    pub fn record(&mut self, project: &RustProject, outcome: Result<u64, CleanError>)
        requires
            !old(self).cancelled,
        ensures
            match outcome {
                Ok(freed) => {
                    &&& !final (self).cancelled
                    &&& final (self).result.cleaned_projects == spec_sat_inc_usize(
                        old(self).result.cleaned_projects,
                    )
                    &&& final (self).result.total_size_freed == spec_sat_add_u64(
                        old(self).result.total_size_freed,
                        freed,
                    )
                    &&& final (self).result.failed_projects@ == old(self).result.failed_projects@
                    &&& final (self).result.duration_ms == old(self).result.duration_ms
                },
                Err(e) => {
                    if e is Cancelled {
                        &&& final (self).cancelled
                        &&& final (self).result.cleaned_projects == old(
                            self,
                        ).result.cleaned_projects
                        &&& final (self).result.total_size_freed == old(
                            self,
                        ).result.total_size_freed
                        &&& final (self).result.failed_projects@ == old(
                            self,
                        ).result.failed_projects@
                        &&& final (self).result.duration_ms == old(self).result.duration_ms
                    } else {
                        &&& !final (self).cancelled
                        &&& final (self).result.cleaned_projects == old(
                            self,
                        ).result.cleaned_projects
                        &&& final (self).result.total_size_freed == old(
                            self,
                        ).result.total_size_freed
                        &&& final (self).result.failed_projects@ == old(
                            self,
                        ).result.failed_projects@.push(project.path)
                        &&& final (self).result.duration_ms == old(self).result.duration_ms
                    }
                },
            },
    {
        match outcome {
            Ok(freed) => self.result.add_success(freed),
            Err(e) => {
                match e {
                    CleanError::Cancelled => {
                        self.cancelled = true;
                    },
                    _ => {
                        self.result.add_failure(project.path.clone());
                    },
                }
            },
        }
    }

    /// Closes the batch, stamping its wall-clock duration.
    pub fn finish(self, duration_ms: u64) -> (r: CleanResult)
        ensures
            r.cleaned_projects == self.result.cleaned_projects,
            r.total_size_freed == self.result.total_size_freed,
            r.failed_projects@ == self.result.failed_projects@,
            r.duration_ms == duration_ms,
    {
        let mut result = self.result;
        result.duration_ms = duration_ms;
        result
    }
}

/// The first index at or after `i` that holds a line break, or the end.
pub open spec fn spec_line_end(s: Seq<char>, i: int) -> int
    decreases s.len() - i,
{
    if 0 <= i < s.len() && s[i] != '\n' {
        spec_line_end(s, i + 1)
    } else {
        i
    }
}

proof fn lemma_line_end_props(s: Seq<char>, i: int)
    requires
        0 <= i <= s.len(),
    ensures
        i <= spec_line_end(s, i) <= s.len(),
        spec_line_end(s, i) < s.len() ==> s[spec_line_end(s, i)] == '\n',
    decreases s.len() - i,
{
    if i < s.len() && s[i] != '\n' {
        lemma_line_end_props(s, i + 1);
    }
}

/// What one line of the clean command's preview output contributes: nothing
/// when the line is blank or mentions the closing summary; otherwise the
/// named path's base name, or the whole trimmed line where it has none.
pub open spec fn spec_line_entry(line: Seq<char>) -> Option<Seq<char>> {
    let t = spec_trimmed(line);
    if t.len() == 0 || spec_contains_seq(line, "Summary"@) {
        None
    } else {
        let base = spec_last_component(t);
        if base.len() == 0 {
            Some(t)
        } else {
            Some(base)
        }
    }
}

/// The file names named by the clean command's preview output, line by
/// line.
pub open spec fn spec_clean_files_from(s: Seq<char>, i: int) -> Seq<Seq<char>>
    decreases s.len() - i + 1,
    when 0 <= i
    via spec_clean_files_from_decreases
{
    if i >= s.len() {
        Seq::empty()
    } else {
        let e = spec_line_end(s, i);
        let rest = spec_clean_files_from(s, e + 1);
        match spec_line_entry(s.subrange(i, e)) {
            Some(x) => seq![x] + rest,
            None => rest,
        }
    }
}

#[via_fn]
proof fn spec_clean_files_from_decreases(s: Seq<char>, i: int) {
    if 0 <= i < s.len() {
        lemma_line_end_props(s, i);
    }
}

/// The file names named by the clean command's preview output.
pub open spec fn spec_clean_file_list(s: Seq<char>) -> Seq<Seq<char>> {
    spec_clean_files_from(s, 0)
}

/// Reads the clean command's preview output into the file names it would
/// remove: one entry per line that is neither blank nor the summary, the
/// path's base name where it has one.
pub fn parse_clean_file_list(output: &str) -> (r: Vec<String>)
    ensures
        r@.map_values(|x: String| x@) == spec_clean_file_list(output@),
{
    let len = output.unicode_len();
    let mut out: Vec<String> = Vec::new();
    let mut i: usize = 0;
    proof {
        assert(out@.map_values(|x: String| x@) + spec_clean_files_from(output@, 0)
            =~= spec_clean_file_list(output@));
    }
    while i < len
        invariant
            len == output@.len(),
            i <= len,
            out@.map_values(|x: String| x@) + spec_clean_files_from(output@, i as int)
                =~= spec_clean_file_list(output@),
        decreases len - i,
    {
        let ghost prev = out@;
        let e = line_end(output, i);
        let line = output.substring_char(i, e);
        let t = trim_str(line);
        if t.as_str().unicode_len() > 0 && !str_contains(line, "Summary") {
            let base = last_component(t.as_str());
            if base.as_str().unicode_len() == 0 {
                out.push(t);
            } else {
                out.push(base);
            }
            proof {
                assert(out@.map_values(|x: String| x@) =~= prev.map_values(|x: String| x@).push(
                    out@.last()@,
                ));
            }
        }
        proof {
            lemma_line_end_props(output@, i as int);
            assert(spec_clean_files_from(output@, i as int) == match spec_line_entry(
                output@.subrange(i as int, e as int),
            ) {
                Some(x) => seq![x] + spec_clean_files_from(output@, e + 1),
                None => spec_clean_files_from(output@, e + 1),
            });
            assert(out@.map_values(|x: String| x@) + spec_clean_files_from(output@, e + 1)
                =~= spec_clean_file_list(output@));
        }
        if e >= len {
            proof {
                assert(spec_clean_files_from(output@, e + 1) =~= Seq::<Seq<char>>::empty());
                assert(spec_clean_files_from(output@, len as int) =~= Seq::<Seq<char>>::empty());
                assert(out@.map_values(|x: String| x@) + spec_clean_files_from(
                    output@,
                    len as int,
                ) =~= spec_clean_file_list(output@));
            }
            i = len;
        } else {
            i = e + 1;
        }
    }
    proof {
        assert(spec_clean_files_from(output@, i as int) =~= Seq::<Seq<char>>::empty());
        assert(out@.map_values(|x: String| x@) =~= spec_clean_file_list(output@));
    }
    out
}

/// The first index at or after `from` that holds a line break, or the end.
fn line_end(s: &str, from: usize) -> (r: usize)
    requires
        from <= s@.len(),
    ensures
        r == spec_line_end(s@, from as int),
        from <= r <= s@.len(),
{
    let len = s.unicode_len();
    let mut i: usize = from;
    while i < len
        invariant
            from <= i <= len,
            len == s@.len(),
            spec_line_end(s@, from as int) == spec_line_end(s@, i as int),
        decreases len - i,
    {
        if s.get_char(i) == '\n' {
            proof {
                assert(spec_line_end(s@, i as int) == i as int);
            }
            return i;
        }
        i = i + 1;
    }
    proof {
        assert(spec_line_end(s@, i as int) == i as int);
    }
    i
}

} // verus!
