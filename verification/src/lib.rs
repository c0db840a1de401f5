//! Scanning and cleaning of Rust project build directories.
//!
//! The crate discovers projects by their descriptor files, filters them by
//! age, size and path policies, and plans and accounts for the cleaning of
//! their target directories.

pub mod app_state;
pub mod cleaner;
pub mod cli;
pub mod filter;
pub mod i18n;
pub mod paths;
pub mod project;
pub mod scanner;
pub mod simple_i18n;
pub mod text;

use vstd::prelude::*;

pub use cleaner::{CleanConfig, CleanPhase, CleanProgress, CleanStrategy, ProjectCleaner};
pub use filter::ProjectFilter;
pub use project::RustProject;
pub use scanner::{ProjectScanner, ScanConfig};

use crate::text::{digit_str, spec_digit_char, spec_u64_str, u64_to_string};

verus! {

/// Saturating addition on byte counts.
pub open spec fn spec_sat_add_u64(a: u64, b: u64) -> u64 {
    if a + b > u64::MAX {
        u64::MAX
    } else {
        (a + b) as u64
    }
}

/// Saturating increment on a project count.
pub open spec fn spec_sat_inc_usize(a: usize) -> usize {
    if a == usize::MAX {
        a
    } else {
        (a + 1) as usize
    }
}

/// The quantity `bytes / unit`, scaled to hundredths and rounded half up.
pub open spec fn spec_hundredths(bytes: u64, unit: u64) -> int {
    (bytes * 100 + unit / 2) / (unit as int)
}

/// The unit a byte count is displayed in: the largest power of 1024, up to
/// terabytes, that the count reaches.
pub open spec fn spec_display_unit(bytes: u64) -> u64 {
    if bytes < 0x100000 {
        0x400
    } else if bytes < 0x40000000 {
        0x100000
    } else if bytes < 0x10000000000 {
        0x40000000
    } else {
        0x10000000000
    }
}

pub open spec fn spec_unit_suffix(unit: u64) -> Seq<char> {
    if unit == 0x400 {
        seq![' ', 'K', 'B']
    } else if unit == 0x100000 {
        seq![' ', 'M', 'B']
    } else if unit == 0x40000000 {
        seq![' ', 'G', 'B']
    } else {
        seq![' ', 'T', 'B']
    }
}

/// The human-readable rendering of a byte count: plain bytes below 1024,
/// otherwise a value with two decimal places in the largest unit of 1024
/// that the count reaches.
pub open spec fn spec_format_bytes(bytes: u64) -> Seq<char> {
    if bytes < 1024 {
        spec_u64_str(bytes as nat) + seq![' ', 'B']
    } else {
        let unit = spec_display_unit(bytes);
        let h = spec_hundredths(bytes, unit);
        spec_u64_str((h / 100) as nat) + seq!['.', spec_digit_char(h / 10 % 10), spec_digit_char(h % 10)]
            + spec_unit_suffix(unit)
    }
}

fn unit_suffix_str(unit: u64) -> (s: &'static str)
    ensures
        s@ =~= spec_unit_suffix(unit),
{
    proof {
        reveal_strlit(" KB");
        reveal_strlit(" MB");
        reveal_strlit(" GB");
        reveal_strlit(" TB");
    }
    if unit == 0x400 {
        " KB"
    } else if unit == 0x100000 {
        " MB"
    } else if unit == 0x40000000 {
        " GB"
    } else {
        " TB"
    }
}

/// Formats a byte count for humans: plain bytes under 1 KB, otherwise two
/// decimal places in the largest unit of 1024 the count reaches, rounded
/// half up on the second decimal.
pub fn format_bytes(bytes: u64) -> (r: String)
    ensures
        r@ == spec_format_bytes(bytes),
{
    if bytes < 1024 {
        let mut s = u64_to_string(bytes);
        proof {
            reveal_strlit(" B");
        }
        s.append(" B");
        proof {
            assert(" B"@ =~= seq![' ', 'B']);
        }
        s
    } else {
        let unit: u64 = if bytes < 0x100000 {
            0x400
        } else if bytes < 0x40000000 {
            0x100000
        } else if bytes < 0x10000000000 {
            0x40000000
        } else {
            0x10000000000
        };
        let h128: u128 = ((bytes as u128) * 100 + (unit as u128) / 2) / (unit as u128);
        proof {
            vstd::arithmetic::div_mod::lemma_div_is_ordered_by_denominator(
                bytes * 100 + unit / 2,
                1024,
                unit as int,
            );
        }
        let h: u64 = h128 as u64;
        let mut s = u64_to_string(h / 100);
        proof {
            reveal_strlit(".");
        }
        s.append(".");
        s.append(digit_str(h / 10 % 10));
        s.append(digit_str(h % 10));
        s.append(unit_suffix_str(unit));
        proof {
            assert("."@ =~= seq!['.']);
            assert(s@ =~= spec_format_bytes(bytes));
        }
        s
    }
}

/// The aggregate outcome of one cleaning batch.
#[derive(Debug, Clone)]
pub struct CleanResult {
    pub cleaned_projects: usize,
    pub total_size_freed: u64,
    pub failed_projects: Vec<String>,
    pub duration_ms: u64,
}

impl Default for CleanResult {
    fn default() -> (r: Self)
        ensures
            r.cleaned_projects == 0,
            r.total_size_freed == 0,
            r.failed_projects@ =~= Seq::<String>::empty(),
            r.duration_ms == 0,
    {
        Self::new()
    }
}

impl CleanResult {
    /// An empty result: nothing cleaned, nothing failed.
    pub fn new() -> (r: Self)
        ensures
            r.cleaned_projects == 0,
            r.total_size_freed == 0,
            r.failed_projects@ =~= Seq::<String>::empty(),
            r.duration_ms == 0,
    {
        Self { cleaned_projects: 0, total_size_freed: 0, failed_projects: Vec::new(), duration_ms: 0 }
    }

    /// Counts one cleaned project and the bytes it freed. The counters
    /// saturate at their maxima rather than overflow.
    pub fn add_success(&mut self, size_freed: u64)
        ensures
            final (self).cleaned_projects == spec_sat_inc_usize(old(self).cleaned_projects),
            final (self).total_size_freed == spec_sat_add_u64(
                old(self).total_size_freed,
                size_freed,
            ),
            final (self).failed_projects == old(self).failed_projects,
            final (self).duration_ms == old(self).duration_ms,
    {
        if self.cleaned_projects < usize::MAX {
            self.cleaned_projects = self.cleaned_projects + 1;
        }
        if size_freed <= u64::MAX - self.total_size_freed {
            self.total_size_freed = self.total_size_freed + size_freed;
        } else {
            self.total_size_freed = u64::MAX;
        }
    }

    /// Records one failed project by its path.
    pub fn add_failure(&mut self, project_path: String)
        ensures
            final (self).failed_projects@ == old(self).failed_projects@.push(project_path),
            final (self).cleaned_projects == old(self).cleaned_projects,
            final (self).total_size_freed == old(self).total_size_freed,
            final (self).duration_ms == old(self).duration_ms,
    {
        self.failed_projects.push(project_path);
    }

    /// The freed byte total, formatted for humans.
    pub fn format_size(&self) -> (r: String)
        ensures
            r@ == spec_format_bytes(self.total_size_freed),
    {
        format_bytes(self.total_size_freed)
    }
}

} // verus!
