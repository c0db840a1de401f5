//! The keep policies over discovered projects: age, size, and preserved
//! paths.

use vstd::prelude::*;

use crate::paths::{path_starts_with, spec_path_starts_with};
use crate::text::{spec_trimmed, trim_str};
use crate::project::RustProject;
use crate::scanner::ScanConfig;

verus! {

/// Relies on `std::time::SystemTime::now`, read as whole milliseconds since
/// the epoch (0 for a clock before it); nothing is promised of the value.
#[verifier::external_body]
pub fn now_millis() -> (t: u64) {
    match std::time::SystemTime::now().duration_since(std::time::UNIX_EPOCH) {
        Ok(d) => u64::try_from(d.as_millis()).unwrap_or(u64::MAX),
        Err(_) => 0,
    }
}

/// Whether the age policy keeps a project at time `now_secs`: with no
/// `keep_days` configured, or no target directory to date the last build,
/// everything is kept; a target modified in the future is kept (the clock
/// cannot be trusted against it); otherwise the project is kept exactly
/// when the target changed within the window.
pub open spec fn spec_time_keeps(keep_days: Option<u32>, project: RustProject, now_secs: u64) -> bool {
    match keep_days {
        None => true,
        Some(days) => {
            if !project.has_target {
                true
            } else if now_secs < project.last_modified {
                true
            } else {
                now_secs - project.last_modified < days * 86400
            }
        },
    }
}

/// Whether the size policy keeps a project: with no `keep_size` configured
/// everything is kept; otherwise exactly the projects whose target is
/// smaller than the threshold.
pub open spec fn spec_size_keeps(keep_size: Option<u64>, project: RustProject) -> bool {
    match keep_size {
        None => true,
        Some(keep_size) => project.target_size < keep_size,
    }
}

/// Whether the path policy keeps a project: with no ignore paths configured
/// everything is kept; otherwise exactly the projects lying under one of
/// the configured paths — ignore paths mark what to preserve.
pub open spec fn spec_path_keeps(ignore_paths: Seq<String>, project: RustProject) -> bool {
    ignore_paths.len() == 0 || exists|i: int|
        0 <= i < ignore_paths.len() && spec_path_starts_with(project.path@, ignore_paths[i]@)
}

/// Whether a project survives all three keep policies at time `now_secs`.
pub open spec fn spec_should_keep(config: ScanConfig, project: RustProject, now_secs: u64) -> bool {
    spec_time_keeps(config.keep_days, project, now_secs) && spec_size_keeps(
        config.keep_size,
        project,
    ) && spec_path_keeps(config.ignore_paths@, project)
}

/// Whether a project survives all three keep policies at time `now_secs`,
/// the policies given as plain values.
pub open spec fn spec_keeps(
    keep_days: Option<u32>,
    keep_size: Option<u64>,
    ignore_paths: Seq<String>,
    project: RustProject,
    now_secs: u64,
) -> bool {
    spec_time_keeps(keep_days, project, now_secs) && spec_size_keeps(keep_size, project)
        && spec_path_keeps(ignore_paths, project)
}

/// The keep decision over all three policies, as one predicate.
pub open spec fn spec_keep_pred(
    keep_days: Option<u32>,
    keep_size: Option<u64>,
    ignore_paths: Seq<String>,
    now_secs: u64,
) -> spec_fn(RustProject) -> bool {
    |p: RustProject| spec_keeps(keep_days, keep_size, ignore_paths, p, now_secs)
}

/// The projects that survive all three keep policies at time `now_secs`,
/// in their input order.
pub open spec fn spec_filter_projects(
    keep_days: Option<u32>,
    keep_size: Option<u64>,
    ignore_paths: Seq<String>,
    projects: Seq<RustProject>,
    now_secs: u64,
) -> Seq<RustProject> {
    projects.filter(spec_keep_pred(keep_days, keep_size, ignore_paths, now_secs))
}

/// A filtering pass keeps an input project exactly when every policy keeps
/// it; what the collection held is all that matters to membership.
pub proof fn lemma_filter_membership(
    keep_days: Option<u32>,
    keep_size: Option<u64>,
    ignore_paths: Seq<String>,
    projects: Seq<RustProject>,
    now_secs: u64,
)
    ensures
        forall|p: RustProject|
            #[trigger] spec_filter_projects(
                keep_days,
                keep_size,
                ignore_paths,
                projects,
                now_secs,
            ).contains(p) <==> (projects.contains(p) && spec_keeps(
                keep_days,
                keep_size,
                ignore_paths,
                p,
                now_secs,
            )),
{
    let pred = spec_keep_pred(keep_days, keep_size, ignore_paths, now_secs);
    let out = projects.filter(pred);
    assert forall|p: RustProject| out.contains(p) implies (projects.contains(p) && spec_keeps(
        keep_days,
        keep_size,
        ignore_paths,
        p,
        now_secs,
    )) by {
        projects.lemma_filter_contains_rev(pred, p);
        let i = choose|i: int| 0 <= i < out.len() && out[i] == p;
        projects.lemma_filter_pred(pred, i);
    }
    assert forall|p: RustProject|
        projects.contains(p) && spec_keeps(
            keep_days,
            keep_size,
            ignore_paths,
            p,
            now_secs,
        ) implies out.contains(p) by {
        let i = choose|i: int| 0 <= i < projects.len() && projects[i] == p;
        projects.lemma_filter_contains(pred, i);
    }
}

/// The discovered set is what matters: two discovery runs that found the
/// same projects, in whatever order and multiplicity, keep the same set of
/// projects under the same policies and clock.
pub proof fn lemma_filter_set_independent(
    keep_days: Option<u32>,
    keep_size: Option<u64>,
    ignore_paths: Seq<String>,
    projects1: Seq<RustProject>,
    projects2: Seq<RustProject>,
    now_secs: u64,
)
    requires
        projects1.to_set() == projects2.to_set(),
    ensures
        spec_filter_projects(keep_days, keep_size, ignore_paths, projects1, now_secs).to_set()
            == spec_filter_projects(keep_days, keep_size, ignore_paths, projects2, now_secs).to_set(),
{
    broadcast use vstd::set::group_set_axioms;

    lemma_filter_membership(keep_days, keep_size, ignore_paths, projects1, now_secs);
    lemma_filter_membership(keep_days, keep_size, ignore_paths, projects2, now_secs);
    let out1 = spec_filter_projects(keep_days, keep_size, ignore_paths, projects1, now_secs);
    let out2 = spec_filter_projects(keep_days, keep_size, ignore_paths, projects2, now_secs);
    assert forall|p: RustProject| out1.to_set().contains(p) implies out2.to_set().contains(p) by {
        assert(projects1.contains(p) ==> projects1.to_set().contains(p));
        assert(projects2.to_set().contains(p) ==> projects2.contains(p));
    }
    assert forall|p: RustProject| out2.to_set().contains(p) implies out1.to_set().contains(p) by {
        assert(projects2.contains(p) ==> projects2.to_set().contains(p));
        assert(projects1.to_set().contains(p) ==> projects1.contains(p));
    }
    assert(out1.to_set() =~= out2.to_set());
}

/// Filtering is idempotent: a second pass with the same policies and clock
/// keeps exactly what the first pass kept.
pub proof fn lemma_filter_idempotent(
    keep_days: Option<u32>,
    keep_size: Option<u64>,
    ignore_paths: Seq<String>,
    projects: Seq<RustProject>,
    now_secs: u64,
)
    ensures
        spec_filter_projects(
            keep_days,
            keep_size,
            ignore_paths,
            spec_filter_projects(keep_days, keep_size, ignore_paths, projects, now_secs),
            now_secs,
        ) == spec_filter_projects(keep_days, keep_size, ignore_paths, projects, now_secs),
{
    let pred = spec_keep_pred(keep_days, keep_size, ignore_paths, now_secs);
    let out = projects.filter(pred);
    assert forall|i: int| 0 <= i < out.len() implies pred(out[i]) by {
        projects.lemma_filter_pred(pred, i);
    }
    lemma_filter_all_kept(out, pred);
}

/// A collection each of whose projects the predicate keeps passes through
/// a filtering pass unchanged.
proof fn lemma_filter_all_kept(s: Seq<RustProject>, pred: spec_fn(RustProject) -> bool)
    requires
        forall|i: int| 0 <= i < s.len() ==> pred(s[i]),
    ensures
        s.filter(pred) == s,
    decreases s.len(),
{
    reveal(Seq::filter);
    if s.len() == 0 {
        assert(s.filter(pred) =~= s);
    } else {
        assert(forall|i: int| 0 <= i < s.drop_last().len() ==> pred(s.drop_last()[i]));
        lemma_filter_all_kept(s.drop_last(), pred);
        assert(pred(s.last()));
        assert(s.filter(pred) =~= s.drop_last().push(s.last()));
        assert(s.drop_last().push(s.last()) =~= s);
    }
}

/// Applies the keep policies of a scan configuration to project collections.
pub struct ProjectFilter {
    pub config: ScanConfig,
}

impl ProjectFilter {
    /// A filter with the given configuration.
    pub fn new(config: ScanConfig) -> (r: Self)
        ensures
            r.config == config,
    {
        Self { config }
    }

    /// Whether the age policy keeps a project at time `now_secs`.
    pub fn check_time_filter(&self, project: &RustProject, now_secs: u64) -> (r: bool)
        ensures
            r == spec_time_keeps(self.config.keep_days, *project, now_secs),
    {
        match self.config.keep_days {
            None => true,
            Some(days) => {
                if !project.has_target {
                    true
                } else if now_secs < project.last_modified {
                    true
                } else {
                    let threshold: u64 = (days as u64) * 86400;
                    now_secs - project.last_modified < threshold
                }
            },
        }
    }

    /// Whether the size policy keeps a project.
    pub fn check_size_filter(&self, project: &RustProject) -> (r: bool)
        ensures
            r == spec_size_keeps(self.config.keep_size, *project),
    {
        match self.config.keep_size {
            None => true,
            Some(keep_size) => project.target_size < keep_size,
        }
    }

    /// Whether a project path lies at or under an ignore path.
    pub fn is_path_ignored(&self, project_path: &str, ignore_path: &str) -> (r: bool)
        ensures
            r == spec_path_starts_with(project_path@, ignore_path@),
    {
        path_starts_with(project_path, ignore_path)
    }

    /// Whether the path policy keeps a project.
    pub fn check_path_filter(&self, project: &RustProject) -> (r: bool)
        ensures
            r == spec_path_keeps(self.config.ignore_paths@, *project),
    {
        if self.config.ignore_paths.len() == 0 {
            return true;
        }
        let mut i: usize = 0;
        while i < self.config.ignore_paths.len()
            invariant
                i <= self.config.ignore_paths@.len(),
                forall|j: int|
                    0 <= j < i ==> !spec_path_starts_with(
                        project.path@,
                        self.config.ignore_paths@[j]@,
                    ),
            decreases self.config.ignore_paths@.len() - i,
        {
            if self.is_path_ignored(project.path.as_str(), self.config.ignore_paths[i].as_str()) {
                return true;
            }
            i = i + 1;
        }
        false
    }

    /// Whether a project survives all three keep policies at time
    /// `now_secs`.
    pub fn should_keep_project(&self, project: &RustProject, now_secs: u64) -> (r: bool)
        ensures
            r == spec_should_keep(self.config, *project, now_secs),
    {
        if !self.check_time_filter(project, now_secs) {
            return false;
        }
        if !self.check_size_filter(project) {
            return false;
        }
        if !self.check_path_filter(project) {
            return false;
        }
        true
    }

    /// Keeps exactly the projects that survive the policies at time
    /// `now_secs`, in their input order.
    pub fn filter_projects_at(&self, projects: Vec<RustProject>, now_secs: u64) -> (r: Vec<
        RustProject,
    >)
        ensures
            r@ == spec_filter_projects(
                self.config.keep_days,
                self.config.keep_size,
                self.config.ignore_paths@,
                projects@,
                now_secs,
            ),
    {
        let ghost kd = self.config.keep_days;
        let ghost ks = self.config.keep_size;
        let ghost ip = self.config.ignore_paths@;
        let mut out: Vec<RustProject> = Vec::new();
        let mut i: usize = 0;
        proof {
            reveal(Seq::filter);
            assert(spec_filter_projects(kd, ks, ip, projects@.subrange(0, 0), now_secs) =~= Seq::<
                RustProject,
            >::empty());
        }
        while i < projects.len()
            invariant
                i <= projects@.len(),
                kd == self.config.keep_days,
                ks == self.config.keep_size,
                ip == self.config.ignore_paths@,
                out@ == spec_filter_projects(kd, ks, ip, projects@.subrange(0, i as int), now_secs),
            decreases projects@.len() - i,
        {
            let keep = self.should_keep_project(&projects[i], now_secs);
            if keep {
                out.push(projects[i].clone_project());
            }
            proof {
                reveal(Seq::filter);
                let prefix = projects@.subrange(0, i + 1);
                assert(prefix.drop_last() =~= projects@.subrange(0, i as int));
                assert(prefix.last() == projects@[i as int]);
                assert(out@ == spec_filter_projects(kd, ks, ip, prefix, now_secs));
            }
            i = i + 1;
        }
        proof {
            assert(projects@.subrange(0, projects@.len() as int) =~= projects@);
        }
        out
    }

    /// Keeps exactly the projects that survive the policies, judged against
    /// the clock read once at the call.
    pub fn filter_projects(&self, projects: Vec<RustProject>) -> (r: Vec<RustProject>)
        ensures
            exists|now_secs: u64|
                r@ == spec_filter_projects(
                    self.config.keep_days,
                    self.config.keep_size,
                    self.config.ignore_paths@,
                    projects@,
                    now_secs,
                ),
    {
        let now_secs = now_millis() / 1000;
        let ghost input = projects@;
        let r = self.filter_projects_at(projects, now_secs);
        proof {
            assert(r@ == spec_filter_projects(
                self.config.keep_days,
                self.config.keep_size,
                self.config.ignore_paths@,
                input,
                now_secs,
            ));
        }
        r
    }

    /// Parses a size string such as "10MB", "1GiB" or "500" into bytes
    /// (see [`spec_parse_size`]).
    pub fn parse_size_string(size_str: &str) -> (r: Result<u64, SizeError>)
        ensures
            r == spec_parse_size(size_str@),
    {
        let t = trim_str(size_str);
        let ts = t.as_str();
        let len = ts.unicode_len();
        let d1 = span_digits(ts, 0);
        proof {
            lemma_span_digits_props(ts@, 0);
        }
        let has_dot = d1 < len && ts.get_char(d1) == '.';
        let d2: usize = if has_dot {
            let e = span_digits(ts, d1 + 1);
            proof {
                lemma_span_digits_props(ts@, d1 + 1);
            }
            e
        } else {
            d1
        };
        let frac_len: usize = if has_dot {
            d2 - (d1 + 1)
        } else {
            0
        };
        let ghost int_digits = ts@.subrange(0, d1 as int);
        let ghost frac_digits = if has_dot {
            ts@.subrange(d1 + 1, d2 as int)
        } else {
            Seq::<char>::empty()
        };
        if d1 == 0 && frac_len == 0 {
            proof {
                assert(int_digits.len() + frac_digits.len() == 0);
            }
            return Err(SizeError::InvalidNumber);
        }
        let m: u64 = match unit_multiplier(ts, d2) {
            None => {
                return Err(SizeError::UnknownUnit);
            },
            Some(m) => m,
        };
        let ghost unit = ts@.subrange(d2 as int, ts@.len() as int);
        proof {
            assert(match spec_unit_multiplier(unit) {
                Some(mm) => 1 <= mm <= 0x10000000000000,
                None => false,
            });
        }
        let (int_val, int_sat) = digits_value_sat(ts, 0, d1);
        let frac_take: usize = if frac_len > 15 {
            15
        } else {
            frac_len
        };
        let ghost frac15 = if frac_digits.len() <= 15 {
            frac_digits
        } else {
            frac_digits.subrange(0, 15)
        };
        let frac_val: u64 = if frac_take > 0 {
            proof {
                assert(frac15 =~= ts@.subrange(d1 + 1, d1 + 1 + frac_take));
            }
            digits_value_small(ts, d1 + 1, d1 + 1 + frac_take)
        } else {
            proof {
                assert(frac15.len() == 0);
                assert(spec_digits_val(frac15) == 0);
            }
            0
        };
        let p10 = pow10(frac_take as u64);
        proof {
            lemma_pow10_mono(0, frac_take as nat);
            assert(p10 >= 1);
            assert(frac_val == spec_digits_val(frac15));
            assert(spec_digits_val(frac15) * m >= 0) by {
                vstd::arithmetic::mul::lemma_mul_nonnegative(spec_digits_val(frac15), m as int);
            }
            assert(spec_digits_val(frac15) * m / spec_pow10(frac15.len()) >= 0);
        }
        if int_sat {
            proof {
                let iv = spec_digits_val(int_digits);
                assert(iv > u64::MAX);
                assert(iv * m >= iv) by {
                    vstd::arithmetic::mul::lemma_mul_increases(m as int, iv);
                    vstd::arithmetic::mul::lemma_mul_is_commutative(iv, m as int);
                }
                assert(iv * m + spec_digits_val(frac15) * m / spec_pow10(frac15.len()) > u64::MAX);
            }
            return Ok(u64::MAX);
        }
        proof {
            assert(int_val as int * (m as int) <= u64::MAX * 0x10000000000000int) by {
                vstd::arithmetic::mul::lemma_mul_upper_bound(
                    int_val as int,
                    u64::MAX as int,
                    m as int,
                    0x10000000000000int,
                );
            }
            assert(frac_val as int * (m as int) <= 1000000000000000int * 0x10000000000000int) by {
                lemma_pow10_table();
                lemma_pow10_mono(frac15.len(), 15);
                vstd::arithmetic::mul::lemma_mul_upper_bound(
                    frac_val as int,
                    1000000000000000int,
                    m as int,
                    0x10000000000000int,
                );
            }
        }
        let iprod: u128 = (int_val as u128) * (m as u128);
        let fprod: u128 = (frac_val as u128) * (m as u128);
        let v128: u128 = iprod + fprod / (p10 as u128);
        proof {
            vstd::arithmetic::div_mod::lemma_div_is_ordered_by_denominator(fprod as int, 1, p10 as int);
            assert(v128 == spec_digits_val(int_digits) * m + spec_digits_val(frac15) * m
                / spec_pow10(frac15.len()));
        }
        if v128 > u64::MAX as u128 {
            Ok(u64::MAX)
        } else {
            Ok(v128 as u64)
        }
    }
}

/// Why a size string is rejected.
#[derive(Debug, Clone, Copy, PartialEq, Eq, Structural)]
pub enum SizeError {
    /// No usable decimal number opens the string.
    InvalidNumber,
    /// What follows the number is none of the known units.
    UnknownUnit,
}

pub open spec fn spec_is_digit(c: char) -> bool {
    '0' <= c && c <= '9'
}

pub open spec fn spec_digit_val(c: char) -> int {
    c as int - '0' as int
}

/// The first index at or after `i` that holds no decimal digit.
pub open spec fn spec_span_digits(s: Seq<char>, i: int) -> int
    decreases s.len() - i,
{
    if 0 <= i < s.len() && spec_is_digit(s[i]) {
        spec_span_digits(s, i + 1)
    } else {
        i
    }
}

/// The value of a digit string, most significant digit first.
pub open spec fn spec_digits_val(ds: Seq<char>) -> int
    decreases ds.len(),
{
    if ds.len() == 0 {
        0
    } else {
        spec_digits_val(ds.drop_last()) * 10 + spec_digit_val(ds.last())
    }
}

pub open spec fn spec_pow10(n: nat) -> int
    decreases n,
{
    if n == 0 {
        1
    } else {
        10 * spec_pow10((n - 1) as nat)
    }
}

/// Case-insensitive match of one ASCII letter.
pub open spec fn spec_char_ci(c: char, upper: char) -> bool {
    c == upper || c as int == upper as int + 32
}

/// The byte multiplier a unit string denotes: nothing for a plain byte
/// count, powers of 1000 for the decimal units, powers of 1024 for the
/// binary ones; case-insensitive. An unknown unit denotes none.
pub open spec fn spec_unit_multiplier(u: Seq<char>) -> Option<u64> {
    if u.len() == 0 {
        Some(1u64)
    } else if u.len() == 1 {
        if spec_char_ci(u[0], 'B') {
            Some(1u64)
        } else if spec_char_ci(u[0], 'K') {
            Some(1000u64)
        } else if spec_char_ci(u[0], 'M') {
            Some(1000000u64)
        } else if spec_char_ci(u[0], 'G') {
            Some(1000000000u64)
        } else if spec_char_ci(u[0], 'T') {
            Some(1000000000000u64)
        } else {
            None
        }
    } else if u.len() == 2 && spec_char_ci(u[1], 'B') {
        if spec_char_ci(u[0], 'K') {
            Some(1000u64)
        } else if spec_char_ci(u[0], 'M') {
            Some(1000000u64)
        } else if spec_char_ci(u[0], 'G') {
            Some(1000000000u64)
        } else if spec_char_ci(u[0], 'T') {
            Some(1000000000000u64)
        } else {
            None
        }
    } else if u.len() == 3 && spec_char_ci(u[1], 'I') && spec_char_ci(u[2], 'B') {
        if spec_char_ci(u[0], 'K') {
            Some(0x400u64)
        } else if spec_char_ci(u[0], 'M') {
            Some(0x100000u64)
        } else if spec_char_ci(u[0], 'G') {
            Some(0x40000000u64)
        } else if spec_char_ci(u[0], 'T') {
            Some(0x10000000000u64)
        } else {
            None
        }
    } else {
        None
    }
}

/// The byte count a number and multiplier denote: the integer digits scaled
/// by the multiplier, plus the fraction's share rounded down. Fraction
/// digits past the fifteenth are dropped; a value past the maximum
/// saturates there.
pub open spec fn spec_size_value(int_digits: Seq<char>, frac_digits: Seq<char>, m: u64) -> u64 {
    let frac15 = if frac_digits.len() <= 15 {
        frac_digits
    } else {
        frac_digits.subrange(0, 15)
    };
    let v = spec_digits_val(int_digits) * m + spec_digits_val(frac15) * m / spec_pow10(
        frac15.len(),
    );
    if v > u64::MAX {
        u64::MAX
    } else {
        v as u64
    }
}

/// What a size string denotes: optional spaces around a decimal number —
/// digits, a fraction, or both — followed by an optional unit. A string
/// without digits is rejected; so is an unknown unit.
pub open spec fn spec_parse_size(s: Seq<char>) -> Result<u64, SizeError> {
    let t = spec_trimmed(s);
    let d1 = spec_span_digits(t, 0);
    let has_dot = d1 < t.len() && t[d1] == '.';
    let d2 = if has_dot {
        spec_span_digits(t, d1 + 1)
    } else {
        d1
    };
    let int_digits = t.subrange(0, d1);
    let frac_digits = if has_dot {
        t.subrange(d1 + 1, d2)
    } else {
        Seq::empty()
    };
    let unit = t.subrange(d2, t.len() as int);
    if int_digits.len() + frac_digits.len() == 0 {
        Err(SizeError::InvalidNumber)
    } else {
        match spec_unit_multiplier(unit) {
            None => Err(SizeError::UnknownUnit),
            Some(m) => Ok(spec_size_value(int_digits, frac_digits, m)),
        }
    }
}

proof fn lemma_span_digits_props(s: Seq<char>, i: int)
    requires
        0 <= i <= s.len(),
    ensures
        i <= spec_span_digits(s, i) <= s.len(),
        forall|k: int| i <= k < spec_span_digits(s, i) ==> spec_is_digit(s[k]),
        spec_span_digits(s, i) < s.len() ==> !spec_is_digit(s[spec_span_digits(s, i)]),
    decreases s.len() - i,
{
    if i < s.len() && spec_is_digit(s[i]) {
        lemma_span_digits_props(s, i + 1);
    }
}

proof fn lemma_digits_val_bound(ds: Seq<char>)
    requires
        forall|k: int| 0 <= k < ds.len() ==> spec_is_digit(ds[k]),
    ensures
        0 <= spec_digits_val(ds) < spec_pow10(ds.len()),
    decreases ds.len(),
{
    if ds.len() > 0 {
        lemma_digits_val_bound(ds.drop_last());
        assert(spec_is_digit(ds.last()));
        assert(0 <= spec_digit_val(ds.last()) <= 9);
    }
}

proof fn lemma_pow10_table()
    ensures
        spec_pow10(0) == 1,
        spec_pow10(1) == 10,
        spec_pow10(2) == 100,
        spec_pow10(3) == 1000,
        spec_pow10(4) == 10000,
        spec_pow10(5) == 100000,
        spec_pow10(6) == 1000000,
        spec_pow10(7) == 10000000,
        spec_pow10(8) == 100000000,
        spec_pow10(9) == 1000000000,
        spec_pow10(10) == 10000000000,
        spec_pow10(11) == 100000000000,
        spec_pow10(12) == 1000000000000,
        spec_pow10(13) == 10000000000000,
        spec_pow10(14) == 100000000000000,
        spec_pow10(15) == 1000000000000000,
{
    assert(spec_pow10(0) == 1);
    assert(spec_pow10(1) == 10);
    assert(spec_pow10(2) == 100);
    assert(spec_pow10(3) == 1000);
    assert(spec_pow10(4) == 10000);
    assert(spec_pow10(5) == 100000);
    assert(spec_pow10(6) == 1000000);
    assert(spec_pow10(7) == 10000000);
    assert(spec_pow10(8) == 100000000);
    assert(spec_pow10(9) == 1000000000);
    assert(spec_pow10(10) == 10000000000);
    assert(spec_pow10(11) == 100000000000);
    assert(spec_pow10(12) == 1000000000000);
    assert(spec_pow10(13) == 10000000000000);
    assert(spec_pow10(14) == 100000000000000);
    assert(spec_pow10(15) == 1000000000000000);
}

fn is_digit_char(c: char) -> (r: bool)
    ensures
        r == spec_is_digit(c),
{
    c >= '0' && c <= '9'
}

fn char_ci(c: char, upper: char) -> (r: bool)
    ensures
        r == spec_char_ci(c, upper),
{
    if c == upper {
        true
    } else {
        (c as u32) == (upper as u32) + 32
    }
}

/// The first index at or after `from` that holds no decimal digit.
fn span_digits(s: &str, from: usize) -> (r: usize)
    requires
        from <= s@.len(),
    ensures
        r == spec_span_digits(s@, from as int),
        from <= r <= s@.len(),
{
    let len = s.unicode_len();
    let mut i: usize = from;
    while i < len
        invariant
            from <= i <= len,
            len == s@.len(),
            spec_span_digits(s@, from as int) == spec_span_digits(s@, i as int),
        decreases len - i,
    {
        if !is_digit_char(s.get_char(i)) {
            proof {
                assert(spec_span_digits(s@, i as int) == i as int);
            }
            return i;
        }
        i = i + 1;
    }
    proof {
        assert(spec_span_digits(s@, i as int) == i as int);
    }
    i
}

/// The value of the digits in `s[from..to]`, capped: the flag reports a
/// value past the maximum, and the number alone is then meaningless.
fn digits_value_sat(s: &str, from: usize, to: usize) -> (r: (u64, bool))
    requires
        from <= to <= s@.len(),
        forall|k: int| from <= k < to ==> spec_is_digit(s@[k]),
    ensures
        !r.1 ==> r.0 == spec_digits_val(s@.subrange(from as int, to as int)),
        r.1 ==> spec_digits_val(s@.subrange(from as int, to as int)) > u64::MAX,
{
    let mut acc: u64 = 0;
    let mut sat = false;
    let mut i: usize = from;
    proof {
        assert(s@.subrange(from as int, from as int) =~= Seq::<char>::empty());
    }
    while i < to
        invariant
            from <= i <= to <= s@.len(),
            forall|k: int| from <= k < to ==> spec_is_digit(s@[k]),
            !sat ==> acc == spec_digits_val(s@.subrange(from as int, i as int)),
            sat ==> spec_digits_val(s@.subrange(from as int, i as int)) > u64::MAX,
        decreases to - i,
    {
        let c = s.get_char(i);
        let d: u64 = (c as u32 as u64) - 48;
        proof {
            assert(spec_is_digit(s@[i as int]));
            assert(d == spec_digit_val(s@[i as int]));
            assert(s@.subrange(from as int, i + 1).drop_last() =~= s@.subrange(
                from as int,
                i as int,
            ));
            assert(s@.subrange(from as int, i + 1).last() == s@[i as int]);
        }
        let ghost prev = spec_digits_val(s@.subrange(from as int, i as int));
        let ghost cur = spec_digits_val(s@.subrange(from as int, i + 1));
        proof {
            assert(cur == prev * 10 + d);
        }
        if sat {
            proof {
                assert(prev > u64::MAX);
                assert(cur > u64::MAX) by {
                    assert(prev * 10 >= prev) by (nonlinear_arith)
                        requires
                            prev > 0,
                    ;
                }
            }
        } else {
            if acc <= (u64::MAX - d) / 10 {
                acc = acc * 10 + d;
            } else {
                sat = true;
                proof {
                    assert(cur > u64::MAX);
                }
            }
        }
        i = i + 1;
    }
    (acc, sat)
}

/// The value of at most fifteen digits in `s[from..to]`.
fn digits_value_small(s: &str, from: usize, to: usize) -> (r: u64)
    requires
        from <= to <= s@.len(),
        to - from <= 15,
        forall|k: int| from <= k < to ==> spec_is_digit(s@[k]),
    ensures
        r == spec_digits_val(s@.subrange(from as int, to as int)),
        r < spec_pow10((to - from) as nat),
{
    let mut acc: u64 = 0;
    let mut i: usize = from;
    proof {
        assert(s@.subrange(from as int, from as int) =~= Seq::<char>::empty());
        lemma_pow10_table();
    }
    while i < to
        invariant
            from <= i <= to <= s@.len(),
            to - from <= 15,
            forall|k: int| from <= k < to ==> spec_is_digit(s@[k]),
            acc == spec_digits_val(s@.subrange(from as int, i as int)),
            acc < spec_pow10((i - from) as nat),
        decreases to - i,
    {
        let c = s.get_char(i);
        let d: u64 = (c as u32 as u64) - 48;
        proof {
            assert(spec_is_digit(s@[i as int]));
            assert(d == spec_digit_val(s@[i as int]));
            assert(s@.subrange(from as int, i + 1).drop_last() =~= s@.subrange(
                from as int,
                i as int,
            ));
            assert(s@.subrange(from as int, i + 1).last() == s@[i as int]);
            lemma_pow10_table();
            lemma_pow10_mono((i - from) as nat, 14);
            assert(acc < spec_pow10(14));
        }
        acc = acc * 10 + d;
        i = i + 1;
    }
    proof {
        lemma_digits_val_bound(s@.subrange(from as int, to as int));
    }
    acc
}

proof fn lemma_pow10_mono(a: nat, b: nat)
    requires
        a <= b,
    ensures
        1 <= spec_pow10(a) <= spec_pow10(b),
    decreases b,
{
    if a == 0 {
        lemma_pow10_pos(b);
    } else if a < b {
        lemma_pow10_mono(a, (b - 1) as nat);
        assert(spec_pow10(b) == 10 * spec_pow10((b - 1) as nat));
    } else {
        lemma_pow10_pos(a);
    }
}

proof fn lemma_pow10_pos(a: nat)
    ensures
        spec_pow10(a) >= 1,
    decreases a,
{
    if a > 0 {
        lemma_pow10_pos((a - 1) as nat);
    }
}

/// Ten to the given power, for powers up to fifteen.
fn pow10(n: u64) -> (r: u64)
    requires
        n <= 15,
    ensures
        r == spec_pow10(n as nat),
{
    proof {
        lemma_pow10_table();
    }
    let mut p: u64 = 1;
    let mut j: u64 = 0;
    while j < n
        invariant
            j <= n <= 15,
            p == spec_pow10(j as nat),
        decreases n - j,
    {
        proof {
            lemma_pow10_table();
            lemma_pow10_mono(j as nat, 14);
        }
        p = p * 10;
        j = j + 1;
    }
    p
}

/// The multiplier of the unit written at `s[from..]`, if it is known.
fn unit_multiplier(s: &str, from: usize) -> (r: Option<u64>)
    requires
        from <= s@.len(),
    ensures
        r == spec_unit_multiplier(s@.subrange(from as int, s@.len() as int)),
{
    let len = s.unicode_len();
    let n = len - from;
    let ghost u = s@.subrange(from as int, s@.len() as int);
    if n == 0 {
        Some(1)
    } else if n == 1 {
        let c0 = s.get_char(from);
        proof {
            assert(u[0] == s@[from as int]);
        }
        if char_ci(c0, 'B') {
            Some(1)
        } else if char_ci(c0, 'K') {
            Some(1000)
        } else if char_ci(c0, 'M') {
            Some(1000000)
        } else if char_ci(c0, 'G') {
            Some(1000000000)
        } else if char_ci(c0, 'T') {
            Some(1000000000000)
        } else {
            None
        }
    } else if n == 2 {
        let c0 = s.get_char(from);
        let c1 = s.get_char(from + 1);
        proof {
            assert(u[0] == s@[from as int]);
            assert(u[1] == s@[from + 1]);
        }
        if !char_ci(c1, 'B') {
            None
        } else if char_ci(c0, 'K') {
            Some(1000)
        } else if char_ci(c0, 'M') {
            Some(1000000)
        } else if char_ci(c0, 'G') {
            Some(1000000000)
        } else if char_ci(c0, 'T') {
            Some(1000000000000)
        } else {
            None
        }
    } else if n == 3 {
        let c0 = s.get_char(from);
        let c1 = s.get_char(from + 1);
        let c2 = s.get_char(from + 2);
        proof {
            assert(u[0] == s@[from as int]);
            assert(u[1] == s@[from + 1]);
            assert(u[2] == s@[from + 2]);
        }
        if !(char_ci(c1, 'I') && char_ci(c2, 'B')) {
            None
        } else if char_ci(c0, 'K') {
            Some(0x400)
        } else if char_ci(c0, 'M') {
            Some(0x100000)
        } else if char_ci(c0, 'G') {
            Some(0x40000000)
        } else if char_ci(c0, 'T') {
            Some(0x10000000000)
        } else {
            None
        }
    } else {
        None
    }
}

} // verus!
