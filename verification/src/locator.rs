//! Deriving the target binary's path and judging the existence probe.

use vstd::prelude::*;
use vstd::string::StringExecFns;
use crate::error::LaunchError;

verus! {

/// What a best-effort existence probe of the target path reported.
///
/// `Unknown` covers a probe the file system could not answer (a permission
/// error, say); the launcher then proceeds optimistically and lets the
/// spawn attempt surface the real error.
#[derive(Clone, Copy, Debug, PartialEq, Eq)]
pub enum Probe {
    Present,
    Absent,
    Unknown,
}

/// The path at which the target binary is expected: the launcher's own
/// directory, the path separator, the fixed base name `uv`, and the
/// platform's executable suffix (`.exe` where one is required, empty
/// elsewhere).
pub open spec fn target_path_spec(
    dir: Seq<char>,
    separator: Seq<char>,
    exe_suffix: Seq<char>,
) -> Seq<char> {
    dir + separator + "uv"@ + exe_suffix
}

/// Builds the expected target path from the launcher's directory.
pub fn target_path(dir: &str, separator: &str, exe_suffix: &str) -> (p: String)
    ensures
        p@ == target_path_spec(dir@, separator@, exe_suffix@),
{
    let mut p = String::from_str(dir);
    p.append(separator);
    p.append("uv");
    p.append(exe_suffix);
    p
}

/// Turns the launcher's own location into the target path.
///
/// `parent` is the launcher's containing directory, or `None` when the
/// operating system could not report the launcher's path or that path has
/// no parent; only then does resolution fail.
pub fn resolve_target(parent: Option<&str>, separator: &str, exe_suffix: &str) -> (r: Result<
    String,
    LaunchError,
>)
    ensures
        parent is None <==> r is Err,
        parent is None ==> r == Err::<String, LaunchError>(LaunchError::Resolution),
        parent matches Some(dir) ==> (r matches Ok(p) && p@ == target_path_spec(
            dir@,
            separator@,
            exe_suffix@,
        )),
{
    match parent {
        None => Err(LaunchError::Resolution),
        Some(dir) => Ok(target_path(dir, separator, exe_suffix)),
    }
}

/// Decides what the existence probe means for the resolved path.
///
/// Only a probe that positively confirmed absence stops the launch, and it
/// does so before any spawn is attempted; a confirmed or unanswerable probe
/// lets the path through unchanged.
pub fn check_target(path: String, probe: Probe) -> (r: Result<String, LaunchError>)
    ensures
        probe is Absent ==> r == (Err::<String, LaunchError>(
            LaunchError::TargetNotFound { path },
        )),
        !(probe is Absent) ==> r == Ok::<String, LaunchError>(path),
{
    match probe {
        Probe::Absent => Err(LaunchError::TargetNotFound { path }),
        Probe::Present | Probe::Unknown => Ok(path),
    }
}

} // verus!
