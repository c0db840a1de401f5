//! The model of one discovered project and its construction from the
//! descriptor text and the measured target directory.

use vstd::prelude::*;

use crate::paths::{last_component, path_join, spec_last_component};
use crate::{format_bytes, spec_format_bytes};

verus! {

/// The fields of a project whose directory holds no descriptor file cannot
/// be read; this is the one failure of project construction.
#[derive(Debug, Clone, Copy, PartialEq, Eq, Structural)]
pub enum ProjectError {
    NotAProject,
}

/// What the caller measured about an existing target directory: its total
/// size in bytes (0 when sizing was deferred) and the seconds since the
/// epoch of its last modification.
#[derive(Debug, Clone, Copy, PartialEq, Eq, Structural)]
pub struct TargetInfo {
    pub size: u64,
    pub modified_secs: u64,
}

/// One discovered project. `path` is its canonical directory; `target_size`
/// and `last_modified` describe its target directory, and are 0 when there
/// is none.
#[derive(Debug, Clone)]
pub struct RustProject {
    pub path: String,
    pub name: String,
    pub target_size: u64,
    pub last_modified: u64,
    pub is_workspace: bool,
    pub has_target: bool,
}

/// What parsing a descriptor text yields: whether it parses at all, the
/// package name when one is declared, and whether the document declares a
/// workspace. The result depends on the text alone.
pub uninterp spec fn descriptor_parse(text: Seq<char>) -> (bool, Option<Seq<char>>, bool);

/// Relies on `toml::from_str` and on `Value::get`/`Value::as_str`: parsing
/// a document is a pure function of the text; `package.name` is the
/// declared package name; a document with a top-level `workspace` key
/// declares a workspace.
#[verifier::external_body]
fn parse_descriptor(text: &str) -> (r: Option<(Option<String>, bool)>)
    ensures
        r is Some <==> descriptor_parse(text@).0,
        match r {
            Some((name, workspace)) => {
                &&& workspace == descriptor_parse(text@).2
                &&& match (name, descriptor_parse(text@).1) {
                    (Some(n), Some(m)) => n@ == m,
                    (None, None) => true,
                    _ => false,
                }
            },
            None => true,
        },
{
    match toml::from_str::<toml::Value>(text) {
        Ok(value) => {
            let name = value
                .get("package")
                .and_then(|p| p.get("name"))
                .and_then(|n| n.as_str())
                .map(|s| s.to_string());
            let workspace = value.get("workspace").is_some();
            Some((name, workspace))
        },
        Err(_) => None,
    }
}

/// The name a project falls back to when its descriptor declares none: the
/// directory's base name, or "unknown" where the path has no base name.
pub open spec fn spec_fallback_name(path: Seq<char>) -> Seq<char> {
    if spec_last_component(path).len() == 0 {
        seq!['u', 'n', 'k', 'n', 'o', 'w', 'n']
    } else {
        spec_last_component(path)
    }
}

/// The project name that a parse outcome settles on: the declared package
/// name where the descriptor parsed and declares one, the fallback name
/// otherwise.
pub open spec fn spec_project_name(path: Seq<char>, parsed: (bool, Option<Seq<char>>, bool)) -> Seq<
    char,
> {
    if parsed.0 && parsed.1 is Some {
        parsed.1->Some_0
    } else {
        spec_fallback_name(path)
    }
}

/// Whether a parse outcome marks the project a workspace: only a descriptor
/// that parsed and declares one does.
pub open spec fn spec_project_workspace(parsed: (bool, Option<Seq<char>>, bool)) -> bool {
    parsed.0 && parsed.2
}

impl RustProject {
    /// The model's internal consistency: a measured target size implies the
    /// target directory was seen.
    pub open spec fn wf(self) -> bool {
        self.target_size > 0 ==> self.has_target
    }

    /// Assembles a project from a parse outcome and the measured target
    /// directory. A descriptor that failed to parse or declares no name
    /// falls back to the directory's base name and is no workspace;
    /// malformed metadata never fails construction.
    pub fn from_parsed(path: &str, parsed: Option<(Option<String>, bool)>, target: Option<
        TargetInfo,
    >) -> (r: RustProject)
        ensures
            r.path@ == path@,
            r.name@ == match parsed {
                Some((Some(n), _)) => n@,
                _ => spec_fallback_name(path@),
            },
            r.is_workspace == match parsed {
                Some((_, w)) => w,
                None => false,
            },
            r.has_target == target is Some,
            r.target_size == match target {
                Some(t) => t.size,
                None => 0,
            },
            r.last_modified == match target {
                Some(t) => t.modified_secs,
                None => 0,
            },
            r.wf(),
    {
        let name: String = match &parsed {
            Some((Some(n), _)) => n.clone(),
            _ => fallback_name(path),
        };
        let is_workspace = match &parsed {
            Some((_, w)) => *w,
            None => false,
        };
        let (has_target, target_size, last_modified): (bool, u64, u64) = match target {
            Some(t) => (true, t.size, t.modified_secs),
            None => (false, 0, 0),
        };
        RustProject { path: path.to_owned(), name, target_size, last_modified, is_workspace, has_target }
    }

    /// Builds a project from its directory path, the descriptor text read
    /// there (`None` when the directory holds no descriptor file) and the
    /// measured target directory. Only a missing descriptor fails.
    pub fn from_parts(path: &str, descriptor: Option<&str>, target: Option<TargetInfo>) -> (r:
        Result<RustProject, ProjectError>)
        ensures
            r is Ok <==> descriptor is Some,
            descriptor is None ==> r == Result::<RustProject, ProjectError>::Err(
                ProjectError::NotAProject,
            ),
            match (r, descriptor) {
                (Ok(p), Some(text)) => {
                    &&& p.path@ == path@
                    &&& p.name@ == spec_project_name(path@, descriptor_parse(text@))
                    &&& p.is_workspace == spec_project_workspace(descriptor_parse(text@))
                    &&& p.has_target == target is Some
                    &&& p.target_size == match target {
                        Some(t) => t.size,
                        None => 0,
                    }
                    &&& p.last_modified == match target {
                        Some(t) => t.modified_secs,
                        None => 0,
                    }
                    &&& p.wf()
                },
                (Err(e), None) => e == ProjectError::NotAProject,
                _ => false,
            },
    {
        match descriptor {
            None => Err(ProjectError::NotAProject),
            Some(text) => {
                let parsed = parse_descriptor(text);
                Ok(Self::from_parsed(path, parsed, target))
            },
        }
    }

    /// The target directory's size, formatted for humans.
    pub fn formatted_size(&self) -> (r: String)
        ensures
            r@ == spec_format_bytes(self.target_size),
    {
        format_bytes(self.target_size)
    }

    /// The project's path relative to `base`: what follows `base` when the
    /// project lies strictly under it, empty when it is `base`, and the
    /// full path otherwise.
    pub fn relative_path(&self, base: &str) -> (r: String)
        ensures
            r@ == spec_relative_path(self.path@, base@),
    {
        let stripped = crate::paths::path_strictly_under(self.path.as_str(), base);
        if stripped {
            let len = self.path.as_str().unicode_len();
            let plen = base.unicode_len();
            let part = self.path.as_str().substring_char(plen + 1, len);
            part.to_owned()
        } else if crate::text::str_eq(self.path.as_str(), base) {
            String::new()
        } else {
            self.path.clone()
        }
    }

    /// The path of the project's target directory.
    pub fn target_path(&self) -> (r: String)
        ensures
            r@ == self.path@ + seq!['/'] + seq!['t', 'a', 'r', 'g', 'e', 't'],
    {
        let r = path_join(self.path.as_str(), "target");
        proof {
            reveal_strlit("target");
            assert("target"@ =~= seq!['t', 'a', 'r', 'g', 'e', 't']);
        }
        r
    }
}

/// The project's path relative to `base` (see [`RustProject::relative_path`]).
pub open spec fn spec_relative_path(path: Seq<char>, base: Seq<char>) -> Seq<char> {
    if crate::paths::spec_path_strictly_under(path, base) {
        path.subrange(base.len() as int + 1, path.len() as int)
    } else if path == base {
        Seq::empty()
    } else {
        path
    }
}

/// The descriptor-less fallback name (see [`spec_fallback_name`]).
fn fallback_name(path: &str) -> (r: String)
    ensures
        r@ == spec_fallback_name(path@),
{
    let base = last_component(path);
    if base.as_str().unicode_len() == 0 {
        proof {
            reveal_strlit("unknown");
            assert("unknown"@ =~= seq!['u', 'n', 'k', 'n', 'o', 'w', 'n']);
        }
        "unknown".to_owned()
    } else {
        base
    }
}

/// The saturating total of a set of file sizes, as the eager size
/// accumulation reports it.
pub open spec fn spec_total_size(sizes: Seq<u64>) -> u64
    decreases sizes.len(),
{
    if sizes.len() == 0 {
        0
    } else {
        crate::spec_sat_add_u64(spec_total_size(sizes.drop_last()), sizes.last())
    }
}

/// Sums measured file sizes, saturating at the maximum instead of
/// overflowing.
pub fn total_size(sizes: &Vec<u64>) -> (r: u64)
    ensures
        r == spec_total_size(sizes@),
{
    let mut total: u64 = 0;
    let mut i: usize = 0;
    while i < sizes.len()
        invariant
            i <= sizes@.len(),
            total == spec_total_size(sizes@.subrange(0, i as int)),
        decreases sizes@.len() - i,
    {
        let s = sizes[i];
        if s <= u64::MAX - total {
            total = total + s;
        } else {
            total = u64::MAX;
        }
        proof {
            assert(sizes@.subrange(0, i + 1 as int).drop_last() =~= sizes@.subrange(0, i as int));
        }
        i = i + 1;
    }
    proof {
        assert(sizes@.subrange(0, sizes@.len() as int) =~= sizes@);
    }
    total
}

} // verus!
