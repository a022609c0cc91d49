//! The ways a launch can fail, and the one diagnostic line each produces.

use vstd::prelude::*;
use vstd::string::StringExecFns;

verus! {

/// Why the target binary could not be run.
///
/// Every failure is fatal: none is retried or recovered, each surfaces as a
/// single line on the error stream and a fixed exit code.
#[derive(Debug, PartialEq, Eq)]
pub enum LaunchError {
    /// The operating system could not report the launcher's own path, or
    /// that path has no parent directory. A broken installation.
    Resolution,
    /// An existence probe confirmed that no file is present at the path
    /// where the target binary was expected.
    TargetNotFound { path: String },
    /// The operating system refused to spawn the target or to replace the
    /// process image with it; `detail` is the system's own description.
    Spawn { detail: String },
}

impl LaunchError {
    /// The human-readable message for this failure.
    pub open spec fn message_spec(self) -> Seq<char> {
        match self {
            LaunchError::Resolution => "Could not determine the location of the `uvw` binary"@,
            LaunchError::TargetNotFound { path } => "Could not find the `uv` binary at: "@
                + path@,
            LaunchError::Spawn { detail } => detail@,
        }
    }

    /// Renders the message; for a missing target it names the attempted
    /// path, which gives a clearer diagnostic than a bare spawn failure.
    pub fn message(&self) -> (m: String)
        ensures
            m@ == self.message_spec(),
    {
        match self {
            LaunchError::Resolution => String::from_str(
                "Could not determine the location of the `uvw` binary",
            ),
            LaunchError::TargetNotFound { path } => {
                let mut m = String::from_str("Could not find the `uv` binary at: ");
                m.append(path.as_str());
                m
            },
            LaunchError::Spawn { detail } => detail.clone(),
        }
    }

    /// The one line the launcher prints on its error stream.
    pub fn error_line(&self) -> (line: String)
        ensures
            line@ == "error: "@ + self.message_spec(),
    {
        let mut line = String::from_str("error: ");
        let m = self.message();
        line.append(m.as_str());
        line
    }
}

} // verus!
