//! The front end's shared state: what was scanned, what is selected, and
//! the progress and outcome of the running operation.

use vstd::prelude::*;

use crate::cleaner::CleanProgress;
use crate::project::RustProject;
use crate::{spec_sat_add_u64, CleanResult};

verus! {

/// What the application is doing.
#[derive(Debug, Clone, PartialEq, Eq, Structural)]
pub enum AppState {
    Idle,
    Scanning,
    Cleaning,
}

/// A message from a background operation to the interface.
#[derive(Debug)]
pub enum AppMessage {
    /// Projects examined so far, out of the total.
    ScanProgress(usize, usize),
    ScanComplete(Vec<RustProject>),
    ScanError(String),
    /// Projects cleaned so far, the total, and the bytes freed so far.
    CleanProgress(usize, usize, u64),
    CleanProjectStart(String),
    CleanProjectProgress(CleanProgress),
    CleanProjectComplete(String, u64),
    CleanComplete(CleanResult),
    CleanError(String),
}

/// How many of the first `n` selection flags are set.
pub open spec fn spec_count_true_prefix(sel: Seq<bool>, n: int) -> int
    decreases n,
{
    if n <= 0 {
        0
    } else {
        spec_count_true_prefix(sel, n - 1) + if sel[n - 1] {
            1int
        } else {
            0int
        }
    }
}

/// How many selection flags are set.
pub open spec fn spec_count_true(sel: Seq<bool>) -> int {
    spec_count_true_prefix(sel, sel.len() as int)
}

/// The projects whose flag is set, pairing projects and flags by index.
pub open spec fn spec_selected_from(ps: Seq<RustProject>, sel: Seq<bool>, i: int) -> Seq<
    RustProject,
>
    decreases ps.len() - i,
{
    if i < 0 || i >= ps.len() || i >= sel.len() {
        Seq::empty()
    } else {
        (if sel[i] {
            seq![ps[i]]
        } else {
            Seq::empty()
        }) + spec_selected_from(ps, sel, i + 1)
    }
}

/// The projects whose flag is set, in order.
pub open spec fn spec_selected(ps: Seq<RustProject>, sel: Seq<bool>) -> Seq<RustProject> {
    spec_selected_from(ps, sel, 0)
}

/// The saturating byte total of the first `n` selected projects that have
/// a target directory.
pub open spec fn spec_cleanable_prefix(ps: Seq<RustProject>, sel: Seq<bool>, n: int) -> u64
    decreases n,
{
    if n <= 0 {
        0
    } else {
        spec_sat_add_u64(
            spec_cleanable_prefix(ps, sel, n - 1),
            if sel[n - 1] && ps[n - 1].has_target {
                ps[n - 1].target_size
            } else {
                0
            },
        )
    }
}

/// The saturating byte total of the selected projects that have a target
/// directory.
pub open spec fn spec_cleanable(ps: Seq<RustProject>, sel: Seq<bool>) -> u64 {
    spec_cleanable_prefix(
        ps,
        sel,
        if ps.len() <= sel.len() {
            ps.len() as int
        } else {
            sel.len() as int
        },
    )
}

/// The interface's data: the discovered projects, one selection flag per
/// project, and the running operation's progress and outcome.
pub struct AppData {
    pub projects: Vec<RustProject>,
    pub selected_projects: Vec<bool>,
    pub scan_progress: Option<(usize, usize)>,
    pub clean_progress: Option<(usize, usize, u64)>,
    pub current_cleaning_project: Option<String>,
    pub last_clean_result: Option<CleanResult>,
    pub error_message: Option<String>,
}

impl Default for AppData {
    fn default() -> (r: Self)
        ensures
            r.projects@.len() == 0,
            r.selected_projects@.len() == 0,
            r.scan_progress is None,
            r.clean_progress is None,
            r.current_cleaning_project is None,
            r.last_clean_result is None,
            r.error_message is None,
    {
        AppData {
            projects: Vec::new(),
            selected_projects: Vec::new(),
            scan_progress: None,
            clean_progress: None,
            current_cleaning_project: None,
            last_clean_result: None,
            error_message: None,
        }
    }
}

impl AppData {
    /// Empty data: no projects, nothing selected, nothing running.
    pub fn new() -> (r: Self)
        ensures
            r.projects@.len() == 0,
            r.selected_projects@.len() == 0,
            r.scan_progress is None,
            r.clean_progress is None,
            r.current_cleaning_project is None,
            r.last_clean_result is None,
            r.error_message is None,
    {
        Self::default()
    }

    /// Replaces the project list; every project starts unselected.
    pub fn set_projects(&mut self, projects: Vec<RustProject>)
        ensures
            final (self).projects@ == projects@,
            final (self).selected_projects@.len() == projects@.len(),
            forall|i: int|
                0 <= i < projects@.len() ==> !final (self).selected_projects@[i],
            final (self).scan_progress == old(self).scan_progress,
            final (self).clean_progress == old(self).clean_progress,
            final (self).current_cleaning_project == old(self).current_cleaning_project,
            final (self).last_clean_result == old(self).last_clean_result,
            final (self).error_message == old(self).error_message,
    {
        let n = projects.len();
        self.projects = projects;
        let mut sel: Vec<bool> = Vec::new();
        let mut i: usize = 0;
        while i < n
            invariant
                i <= n,
                sel@.len() == i,
                forall|j: int| 0 <= j < i ==> !sel@[j],
            decreases n - i,
        {
            sel.push(false);
            i = i + 1;
        }
        self.selected_projects = sel;
    }

    /// The selected projects, in order. Flags beyond the project list, or
    /// projects beyond the flag list, select nothing.
    pub fn get_selected_projects(&self) -> (r: Vec<&RustProject>)
        ensures
            r@.map_values(|p: &RustProject| *p) == spec_selected(
                self.projects@,
                self.selected_projects@,
            ),
    {
        let mut out: Vec<&RustProject> = Vec::new();
        let n = if self.projects.len() <= self.selected_projects.len() {
            self.projects.len()
        } else {
            self.selected_projects.len()
        };
        let ghost ps = self.projects@;
        let ghost sel = self.selected_projects@;
        let mut i: usize = 0;
        proof {
            assert(out@.map_values(|p: &RustProject| *p) =~= Seq::<RustProject>::empty());
        }
        while i < n
            invariant
                i <= n,
                n <= ps.len(),
                n <= sel.len(),
                n == if ps.len() <= sel.len() {
                    ps.len() as int
                } else {
                    sel.len() as int
                },
                ps == self.projects@,
                sel == self.selected_projects@,
                out@.map_values(|p: &RustProject| *p) + spec_selected_from(ps, sel, i as int)
                    =~= spec_selected(ps, sel),
            decreases n - i,
        {
            let ghost prev = out@;
            if self.selected_projects[i] {
                out.push(&self.projects[i]);
                proof {
                    assert(out@.map_values(|p: &RustProject| *p) =~= prev.map_values(
                        |p: &RustProject| *p,
                    ).push(ps[i as int]));
                }
            }
            proof {
                assert(spec_selected_from(ps, sel, i as int) == (if sel[i as int] {
                    seq![ps[i as int]]
                } else {
                    Seq::<RustProject>::empty()
                }) + spec_selected_from(ps, sel, i + 1));
                assert(out@.map_values(|p: &RustProject| *p) + spec_selected_from(ps, sel, i + 1)
                    =~= spec_selected(ps, sel));
            }
            i = i + 1;
        }
        proof {
            assert(spec_selected_from(ps, sel, n as int) =~= Seq::<RustProject>::empty());
            assert(out@.map_values(|p: &RustProject| *p) =~= spec_selected(ps, sel));
        }
        out
    }

    /// How many projects are selected.
    pub fn get_selected_count(&self) -> (r: usize)
        ensures
            r == spec_count_true(self.selected_projects@),
    {
        let mut count: usize = 0;
        let mut i: usize = 0;
        while i < self.selected_projects.len()
            invariant
                i <= self.selected_projects@.len(),
                count == spec_count_true_prefix(self.selected_projects@, i as int),
                count <= i,
            decreases self.selected_projects@.len() - i,
        {
            if self.selected_projects[i] {
                count = count + 1;
            }
            i = i + 1;
        }
        count
    }

    /// The bytes the selected projects with a target directory would free,
    /// saturating rather than overflowing.
    pub fn get_total_cleanable_size(&self) -> (r: u64)
        ensures
            r == spec_cleanable(self.projects@, self.selected_projects@),
    {
        let n = if self.projects.len() <= self.selected_projects.len() {
            self.projects.len()
        } else {
            self.selected_projects.len()
        };
        let mut total: u64 = 0;
        let mut i: usize = 0;
        while i < n
            invariant
                i <= n,
                n <= self.projects@.len(),
                n <= self.selected_projects@.len(),
                n == if self.projects@.len() <= self.selected_projects@.len() {
                    self.projects@.len() as int
                } else {
                    self.selected_projects@.len() as int
                },
                total == spec_cleanable_prefix(self.projects@, self.selected_projects@, i as int),
            decreases n - i,
        {
            let add: u64 = if self.selected_projects[i] && self.projects[i].has_target {
                self.projects[i].target_size
            } else {
                0
            };
            if add <= u64::MAX - total {
                total = total + add;
            } else {
                total = u64::MAX;
            }
            i = i + 1;
        }
        total
    }

    /// Selects every project.
    pub fn select_all(&mut self)
        ensures
            final (self).selected_projects@.len() == old(self).selected_projects@.len(),
            forall|i: int|
                0 <= i < final (self).selected_projects@.len() ==> final (self).selected_projects@[i],
            final (self).projects@ == old(self).projects@,
            final (self).scan_progress == old(self).scan_progress,
            final (self).clean_progress == old(self).clean_progress,
            final (self).current_cleaning_project == old(self).current_cleaning_project,
            final (self).last_clean_result == old(self).last_clean_result,
            final (self).error_message == old(self).error_message,
    {
        let n = self.selected_projects.len();
        let mut sel: Vec<bool> = Vec::new();
        let mut i: usize = 0;
        while i < n
            invariant
                i <= n,
                sel@.len() == i,
                forall|j: int| 0 <= j < i ==> sel@[j],
            decreases n - i,
        {
            sel.push(true);
            i = i + 1;
        }
        self.selected_projects = sel;
    }

    /// Unselects every project.
    pub fn select_none(&mut self)
        ensures
            final (self).selected_projects@.len() == old(self).selected_projects@.len(),
            forall|i: int|
                0 <= i < final (self).selected_projects@.len() ==> !final (self).selected_projects@[i],
            final (self).projects@ == old(self).projects@,
            final (self).scan_progress == old(self).scan_progress,
            final (self).clean_progress == old(self).clean_progress,
            final (self).current_cleaning_project == old(self).current_cleaning_project,
            final (self).last_clean_result == old(self).last_clean_result,
            final (self).error_message == old(self).error_message,
    {
        let n = self.selected_projects.len();
        let mut sel: Vec<bool> = Vec::new();
        let mut i: usize = 0;
        while i < n
            invariant
                i <= n,
                sel@.len() == i,
                forall|j: int| 0 <= j < i ==> !sel@[j],
            decreases n - i,
        {
            sel.push(false);
            i = i + 1;
        }
        self.selected_projects = sel;
    }

    /// Flips every selection flag.
    pub fn invert_selection(&mut self)
        ensures
            final (self).selected_projects@.len() == old(self).selected_projects@.len(),
            forall|i: int|
                0 <= i < final (self).selected_projects@.len() ==> final (self).selected_projects@[i] == !old(self).selected_projects@[i],
            final (self).projects@ == old(self).projects@,
            final (self).scan_progress == old(self).scan_progress,
            final (self).clean_progress == old(self).clean_progress,
            final (self).current_cleaning_project == old(self).current_cleaning_project,
            final (self).last_clean_result == old(self).last_clean_result,
            final (self).error_message == old(self).error_message,
    {
        let n = self.selected_projects.len();
        let mut sel: Vec<bool> = Vec::new();
        let mut i: usize = 0;
        while i < n
            invariant
                i <= n,
                n == old(self).selected_projects@.len(),
                self.selected_projects@ == old(self).selected_projects@,
                sel@.len() == i,
                forall|j: int| 0 <= j < i ==> sel@[j] == !old(self).selected_projects@[j],
            decreases n - i,
        {
            let flag = self.selected_projects[i];
            sel.push(!flag);
            i = i + 1;
        }
        self.selected_projects = sel;
    }

    /// Drops the error message.
    pub fn clear_error(&mut self)
        ensures
            final (self).error_message is None,
            final (self).projects@ == old(self).projects@,
            final (self).selected_projects@ == old(self).selected_projects@,
            final (self).scan_progress == old(self).scan_progress,
            final (self).clean_progress == old(self).clean_progress,
            final (self).current_cleaning_project == old(self).current_cleaning_project,
            final (self).last_clean_result == old(self).last_clean_result,
    {
        self.error_message = None;
    }

    /// Drops every progress mark.
    pub fn reset_progress(&mut self)
        ensures
            final (self).scan_progress is None,
            final (self).clean_progress is None,
            final (self).current_cleaning_project is None,
            final (self).projects@ == old(self).projects@,
            final (self).selected_projects@ == old(self).selected_projects@,
            final (self).last_clean_result == old(self).last_clean_result,
            final (self).error_message == old(self).error_message,
    {
        self.scan_progress = None;
        self.clean_progress = None;
        self.current_cleaning_project = None;
    }
}

} // verus!
