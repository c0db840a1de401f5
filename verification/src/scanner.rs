//! Discovery of projects under a directory tree: the per-entry descriptor
//! test, and the shaping of the discovered collection.

use vstd::prelude::*;

use crate::paths::{last_component, parent_of, spec_last_component, spec_parent};
use crate::project::RustProject;
use crate::text::str_eq;

verus! {

broadcast use vstd::seq_lib::group_to_multiset_ensures, vstd::multiset::group_multiset_axioms;

/// How a directory tree is walked and which discovered projects are kept.
#[derive(Debug, Clone)]
pub struct ScanConfig {
    pub max_depth: Option<usize>,
    pub follow_links: bool,
    pub respect_gitignore: bool,
    pub ignore_hidden: bool,
    pub parallel: bool,
    pub lazy_size_calculation: bool,
    /// Keep projects whose target directory changed within this many days.
    pub keep_days: Option<u32>,
    /// Keep projects whose target directory is smaller than this many bytes.
    pub keep_size: Option<u64>,
    /// Keep projects lying under one of these canonical paths.
    pub ignore_paths: Vec<String>,
}

impl ScanConfig {
    /// Whether any of the three keep policies is configured at all.
    pub open spec fn spec_has_filters(self) -> bool {
        self.keep_days is Some || self.keep_size is Some || self.ignore_paths@.len() > 0
    }
}

impl Default for ScanConfig {
    /// A walk of at most ten levels that skips hidden entries and honours
    /// ignore files, sizes eagerly in parallel, and keeps everything.
    fn default() -> (r: Self)
        ensures
            r.max_depth == Some(10usize),
            !r.follow_links,
            r.respect_gitignore,
            r.ignore_hidden,
            r.parallel,
            !r.lazy_size_calculation,
            r.keep_days is None,
            r.keep_size is None,
            r.ignore_paths@ =~= Seq::<String>::empty(),
    {
        ScanConfig {
            max_depth: Some(10),
            follow_links: false,
            respect_gitignore: true,
            ignore_hidden: true,
            parallel: true,
            lazy_size_calculation: false,
            keep_days: None,
            keep_size: None,
            ignore_paths: Vec::new(),
        }
    }
}

/// The projects that have a target directory, in their input order.
pub open spec fn spec_with_target(projects: Seq<RustProject>) -> Seq<RustProject> {
    projects.filter(|p: RustProject| p.has_target)
}

/// The name of the descriptor file that marks a project directory.
pub open spec fn spec_descriptor_file_name() -> Seq<char> {
    seq!['C', 'a', 'r', 'g', 'o', '.', 't', 'o', 'm', 'l']
}

/// Walks directory trees for project directories.
pub struct ProjectScanner {
    pub config: ScanConfig,
}

impl Default for ProjectScanner {
    fn default() -> (r: Self)
        ensures
            r.config.max_depth == Some(10usize),
            !r.config.follow_links,
            r.config.respect_gitignore,
            r.config.ignore_hidden,
            r.config.parallel,
            r.config.keep_days is None,
            r.config.keep_size is None,
            r.config.ignore_paths@ =~= Seq::<String>::empty(),
    {
        Self::new(ScanConfig::default())
    }
}

impl ProjectScanner {
    /// A scanner with the given configuration.
    pub fn new(config: ScanConfig) -> (r: Self)
        ensures
            r.config == config,
    {
        Self { config }
    }

    /// Judges one walked entry: a file named like the descriptor marks its
    /// directory as a project directory; everything else is passed over.
    pub fn process_entry(&self, path: &str, is_file: bool) -> (r: Option<String>)
        ensures
            match r {
                Some(dir) => is_file && spec_last_component(path@) == spec_descriptor_file_name()
                    && dir@ == spec_parent(path@),
                None => !(is_file && spec_last_component(path@) == spec_descriptor_file_name()),
            },
    {
        if !is_file {
            return None;
        }
        let base = last_component(path);
        proof {
            reveal_strlit("Cargo.toml");
            assert("Cargo.toml"@ =~= spec_descriptor_file_name());
        }
        if str_eq(base.as_str(), "Cargo.toml") {
            Some(parent_of(path))
        } else {
            None
        }
    }

    /// Keeps exactly the projects that have a target directory.
    pub fn filter_with_target(projects: Vec<RustProject>) -> (r: Vec<RustProject>)
        ensures
            r@ == spec_with_target(projects@),
    {
        let mut out: Vec<RustProject> = Vec::new();
        let mut i: usize = 0;
        proof {
            reveal(Seq::filter);
            assert(spec_with_target(projects@.subrange(0, 0)) =~= Seq::<RustProject>::empty());
        }
        while i < projects.len()
            invariant
                i <= projects@.len(),
                out@ == spec_with_target(projects@.subrange(0, i as int)),
            decreases projects@.len() - i,
        {
            if projects[i].has_target {
                out.push(projects[i].clone_project());
            }
            proof {
                reveal(Seq::filter);
                let prefix = projects@.subrange(0, i + 1);
                assert(prefix.drop_last() =~= projects@.subrange(0, i as int));
                assert(prefix.last() == projects@[i as int]);
                assert(out@ == spec_with_target(prefix));
            }
            i = i + 1;
        }
        proof {
            assert(projects@.subrange(0, projects@.len() as int) =~= projects@);
        }
        out
    }

    /// Orders projects by target size, largest first. The result holds the
    /// same projects.
    pub fn sort_by_size(projects: Vec<RustProject>) -> (r: Vec<RustProject>)
        ensures
            r@.to_multiset() == projects@.to_multiset(),
            r@.len() == projects@.len(),
            forall|a: int, b: int|
                0 <= a < b < r@.len() ==> r@[a].target_size >= r@[b].target_size,
    {
        let mut v = projects;
        let ghost orig = v@;
        let mut i: usize = 1;
        while i < v.len()
            invariant
                1 <= i,
                v@.len() == orig.len(),
                v@.to_multiset() == orig.to_multiset(),
                forall|a: int, b: int|
                    0 <= a < b < i && b < v@.len() ==> v@[a].target_size >= v@[b].target_size,
            decreases v@.len() - i,
        {
            let ghost before = v@;
            let x = v.remove(i);
            let mut pos: usize = 0;
            while pos < i
                invariant
                    pos <= i,
                    i < before.len(),
                    v@ == before.remove(i as int),
                    x == before[i as int],
                    forall|k: int| 0 <= k < pos ==> v@[k].target_size >= x.target_size,
                ensures
                    pos <= i,
                    forall|k: int| 0 <= k < pos ==> v@[k].target_size >= x.target_size,
                    pos < i ==> v@[pos as int].target_size < x.target_size,
                decreases i - pos,
            {
                if v[pos].target_size < x.target_size {
                    break ;
                }
                pos = pos + 1;
            }
            let ghost removed = v@;
            v.insert(pos, x);
            proof {
                removed.insert_ensures(pos as int, x);
                before.remove_ensures(i as int);
                assert forall|k: int| 0 <= k < i implies removed[k] == before[k] by {
                    assert(before.remove(i as int)[k] == before[k]);
                }
                assert(before.to_multiset().count(x) > 0) by {
                    assert(before[i as int] == x);
                    assert(before.contains(x));
                }
                assert(removed.insert(pos as int, x).to_multiset() == removed.to_multiset().insert(
                    x,
                ));
                assert(before.remove(i as int).to_multiset() =~= before.to_multiset().remove(
                    before[i as int],
                ));
                assert(v@.to_multiset() =~= before.to_multiset());
                assert forall|a: int, b: int|
                    0 <= a < b < i + 1 && b < v@.len() implies v@[a].target_size
                    >= v@[b].target_size by {
                    if b < pos {
                    } else if b == pos {
                        assert(v@[b] == x);
                    } else {
                        assert(v@[b] == removed[b - 1]);
                        if a < pos {
                        } else if a == pos {
                            assert(v@[a] == x);
                            assert(removed[pos as int].target_size < x.target_size);
                        } else {
                            assert(v@[a] == removed[a - 1]);
                        }
                    }
                }
            }
            i = i + 1;
        }
        v
    }

    /// Applies the configured keep policies; with none configured the
    /// collection passes through unchanged.
    pub fn apply_filters(&self, projects: Vec<RustProject>) -> (r: Vec<RustProject>)
        ensures
            !self.config.spec_has_filters() ==> r@ == projects@,
            self.config.spec_has_filters() ==> exists|now_secs: u64|
                r@ == crate::filter::spec_filter_projects(
                    self.config.keep_days,
                    self.config.keep_size,
                    self.config.ignore_paths@,
                    projects@,
                    now_secs,
                ),
    {
        if self.config.keep_days.is_none() && self.config.keep_size.is_none()
            && self.config.ignore_paths.len() == 0 {
            return projects;
        }
        let filter = crate::filter::ProjectFilter::new(self.config.clone_config());
        filter.filter_projects(projects)
    }
}

impl ScanConfig {
    /// A field-for-field copy.
    pub fn clone_config(&self) -> (r: Self)
        ensures
            r.max_depth == self.max_depth,
            r.follow_links == self.follow_links,
            r.respect_gitignore == self.respect_gitignore,
            r.ignore_hidden == self.ignore_hidden,
            r.parallel == self.parallel,
            r.lazy_size_calculation == self.lazy_size_calculation,
            r.keep_days == self.keep_days,
            r.keep_size == self.keep_size,
            r.ignore_paths@ == self.ignore_paths@,
    {
        ScanConfig {
            max_depth: self.max_depth,
            follow_links: self.follow_links,
            respect_gitignore: self.respect_gitignore,
            ignore_hidden: self.ignore_hidden,
            parallel: self.parallel,
            lazy_size_calculation: self.lazy_size_calculation,
            keep_days: self.keep_days,
            keep_size: self.keep_size,
            ignore_paths: clone_string_vec(&self.ignore_paths),
        }
    }
}

/// A copy of a string list with an equal view.
pub fn clone_string_vec(v: &Vec<String>) -> (r: Vec<String>)
    ensures
        r@ == v@,
{
    let mut out: Vec<String> = Vec::new();
    let mut i: usize = 0;
    while i < v.len()
        invariant
            i <= v@.len(),
            out@ == v@.subrange(0, i as int),
        decreases v@.len() - i,
    {
        out.push(v[i].clone());
        proof {
            assert(v@.subrange(0, i + 1) =~= v@.subrange(0, i as int).push(v@[i as int]));
        }
        i = i + 1;
    }
    proof {
        assert(v@.subrange(0, v@.len() as int) =~= v@);
    }
    out
}

impl RustProject {
    /// A field-for-field copy.
    pub fn clone_project(&self) -> (r: Self)
        ensures
            r == *self,
    {
        RustProject {
            path: self.path.clone(),
            name: self.name.clone(),
            target_size: self.target_size,
            last_modified: self.last_modified,
            is_workspace: self.is_workspace,
            has_target: self.has_target,
        }
    }
}

} // verus!
