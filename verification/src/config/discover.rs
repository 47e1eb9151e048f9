//! Locating `zerum.toml`: the decision part of the upward directory search.
use vstd::prelude::*;
use super::{Config, ConfigView};

verus! {

/// What the file system shows about one directory on the way up from the
/// starting path.
pub struct DirProbe {
    /// `<dir>/.git` exists.
    pub has_git: bool,
    /// `<dir>/pyproject.toml` is a file.
    pub has_pyproject: bool,
    /// `<dir>/zerum.toml` is a file.
    pub has_zerum_toml: bool,
}

/// A directory marks the project root when it holds `.git`, `pyproject.toml`
/// or `zerum.toml`.
pub open spec fn project_root(p: DirProbe) -> bool {
    p.has_git || p.has_pyproject || p.has_zerum_toml
}

/// Whether a probed directory is a project root (the search stops there).
pub fn is_project_root(p: &DirProbe) -> (r: bool)
    ensures
        r == project_root(*p),
{
    p.has_git || p.has_pyproject || p.has_zerum_toml
}

/// Where the configuration comes from.
#[derive(Debug, Clone, Copy, PartialEq, Eq, Structural)]
pub enum ConfigSource {
    /// Load `zerum.toml` from the directory at this position of the probe list.
    Load(usize),
    /// No `zerum.toml` before the project root: use the built-in defaults.
    Builtin,
}

impl Config {
    /// The upward search for `zerum.toml`. `ancestors[0]` is the starting
    /// directory (the parent of the start when it is a file), each next entry
    /// is the parent of the previous one, and the last is the top of the file
    /// system. The first directory holding `zerum.toml` is chosen, unless a
    /// project root without it comes first.
    pub fn discover(ancestors: &Vec<DirProbe>) -> (r: ConfigSource)
        ensures
            match r {
                ConfigSource::Load(i) => i < ancestors@.len() && ancestors@[i as int].has_zerum_toml
                    && forall|j: int| 0 <= j < i ==> !project_root(#[trigger] ancestors@[j]),
                ConfigSource::Builtin => forall|i: int|
                    0 <= i < ancestors@.len() && (#[trigger] ancestors@[i]).has_zerum_toml ==> exists|j: int|
                        0 <= j < i && project_root(#[trigger] ancestors@[j]),
            },
    {
        let mut i: usize = 0;
        while i < ancestors.len()
            invariant
                i <= ancestors@.len(),
                forall|j: int| 0 <= j < i ==> !project_root(#[trigger] ancestors@[j]),
            decreases ancestors.len() - i,
        {
            if ancestors[i].has_zerum_toml {
                return ConfigSource::Load(i);
            }
            if is_project_root(&ancestors[i]) {
                proof {
                    assert forall|k: int| 0 <= k < ancestors@.len() && (#[trigger] ancestors@[k]).has_zerum_toml implies exists|j: int|
                        0 <= j < k && project_root(#[trigger] ancestors@[j]) by {
                        if k < i {
                            assert(project_root(ancestors@[k]));
                        } else if k > i {
                            assert(project_root(ancestors@[i as int]));
                        }
                    }
                }
                return ConfigSource::Builtin;
            }
            i = i + 1;
        }
        proof {
            assert forall|k: int| 0 <= k < ancestors@.len() && (#[trigger] ancestors@[k]).has_zerum_toml implies exists|j: int|
                0 <= j < k && project_root(#[trigger] ancestors@[j]) by {
                assert(project_root(ancestors@[k]));
            }
        }
        ConfigSource::Builtin
    }
}

/// `--profile <name>` on the command line replaces the configured profile.
pub fn apply_profile_override(config: Config, profile: Option<&str>) -> (r: Config)
    ensures
        r@.profile_name == match profile {
            Some(p) => p@,
            None => config@.profile_name,
        },
        r@.profiles == config@.profiles,
        r@.checks == config@.checks,
        r@.external_checkers == config@.external_checkers,
{
    let mut c = config;
    match profile {
        Some(name) => {
            c.profile.name = crate::text::string_of(name);
        },
        None => {},
    }
    c
}

} // verus!
