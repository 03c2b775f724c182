//! Choosing the workspace root.
//!
//! The root directory of the build workspace is resolved from four sources
//! in a fixed priority order: an explicit environment override, the build
//! system's own workspace query, a walk upward from the running executable
//! looking for a workspace marker file, and finally the current working
//! directory. The first source that yields a path wins. Gathering the
//! candidates touches the environment and the filesystem and stays with the
//! caller; the choice itself is decided here.

use vstd::prelude::*;

verus! {

/// Which of the four sources supplied the chosen workspace root.
#[derive(Clone, Copy, Debug, PartialEq, Eq, Structural)]
pub enum RootSource {
    /// An explicit environment override.
    EnvOverride,
    /// The build system's workspace metadata query.
    BuildMetadata,
    /// The walk upward from the running executable's directory.
    ExecutableWalk,
    /// The current working directory, the fallback of last resort.
    CurrentDir,
}

/// Pick the workspace root from the four candidate sources, in priority
/// order: environment override first, then the build metadata query, then
/// the executable walk, and the current working directory if nothing else
/// yielded a path.
pub fn choose_workspace_root(
    env_override: Option<String>,
    metadata_root: Option<String>,
    exe_walk_root: Option<String>,
    current_dir: String,
) -> (r: (String, RootSource))
    ensures
        env_override matches Some(p) ==> r.0@ == p@ && r.1 == RootSource::EnvOverride,
        env_override is None ==> (metadata_root matches Some(p) ==> r.0@ == p@ && r.1
            == RootSource::BuildMetadata),
        env_override is None && metadata_root is None ==> (exe_walk_root matches Some(p) ==> r.0@
            == p@ && r.1 == RootSource::ExecutableWalk),
        env_override is None && metadata_root is None && exe_walk_root is None ==> r.0@
            == current_dir@ && r.1 == RootSource::CurrentDir,
{
    match env_override {
        Some(p) => (p, RootSource::EnvOverride),
        None => match metadata_root {
            Some(p) => (p, RootSource::BuildMetadata),
            None => match exe_walk_root {
                Some(p) => (p, RootSource::ExecutableWalk),
                None => (current_dir, RootSource::CurrentDir),
            },
        },
    }
}

/// The first position whose directory carries the workspace marker, if any:
/// the decision inside the executable walk, over the candidate directories
/// in the order they were visited.
pub fn first_marked(has_marker: &Vec<bool>) -> (r: Option<usize>)
    ensures
        r matches Some(i) ==> 0 <= i < has_marker@.len() && has_marker@[i as int] && (forall|j: int|
            0 <= j < i ==> !has_marker@[j]),
        r is None ==> forall|j: int| 0 <= j < has_marker@.len() ==> !has_marker@[j],
{
    let mut i: usize = 0;
    while i < has_marker.len()
        invariant
            0 <= i <= has_marker@.len(),
            forall|j: int| 0 <= j < i ==> !has_marker@[j],
        decreases has_marker@.len() - i,
    {
        if has_marker[i] {
            return Some(i);
        }
        i = i + 1;
    }
    None
}

} // verus!
