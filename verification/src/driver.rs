//! Forwarding the argument vector and mapping outcomes to exit codes.

use vstd::prelude::*;
use crate::error::LaunchError;

verus! {

/// The exit code the launcher must adopt for a target exit status:
/// the target's own code when it bore one in the valid range 0..=255,
/// and the fixed fallback 2 when the status carried no code (abnormal
/// termination) or one outside that range.
pub open spec fn exit_code_spec(status: Option<i32>) -> u8 {
    match status {
        Some(n) => if 0 <= n && n <= 255 {
            n as u8
        } else {
            2u8
        },
        None => 2u8,
    }
}

/// The launcher's exit code for a whole run: the target's mapped status on
/// success, the fixed fallback 2 on any launcher-level failure.
pub open spec fn launch_exit_code_spec(outcome: Result<Option<i32>, LaunchError>) -> u8 {
    match outcome {
        Ok(status) => exit_code_spec(status),
        Err(_) => 2u8,
    }
}

/// The argument vector handed to the target: the launcher's own argument
/// vector with the zeroth (program-name) entry dropped, otherwise
/// unmodified and in order. The launcher introduces no entries of its own.
pub fn forward_args(argv: &Vec<String>) -> (out: Vec<String>)
    ensures
        argv@.len() == 0 ==> out@ == Seq::<String>::empty(),
        argv@.len() > 0 ==> out@ == argv@.skip(1),
{
    let mut out: Vec<String> = Vec::new();
    if argv.len() == 0 {
        assert(out@ =~= Seq::<String>::empty());
        return out;
    }
    let mut i: usize = 1;
    while i < argv.len()
        invariant
            1 <= i <= argv@.len(),
            out@ == argv@.subrange(1, i as int),
        decreases argv@.len() - i,
    {
        let next = argv[i].clone();
        out.push(next);
        assert(out@ =~= argv@.subrange(1, i + 1));
        i = i + 1;
    }
    assert(out@ =~= argv@.skip(1));
    out
}

/// Maps the target's exit status to the launcher's exit code.
pub fn exit_code_for_status(status: Option<i32>) -> (c: u8)
    ensures
        c == exit_code_spec(status),
{
    match status {
        Some(n) => if 0 <= n && n <= 255 {
            n as u8
        } else {
            2
        },
        None => 2,
    }
}

/// Maps the outcome of a whole run to the launcher's exit code.
pub fn exit_code_for_outcome(outcome: Result<Option<i32>, LaunchError>) -> (c: u8)
    ensures
        c == launch_exit_code_spec(outcome),
{
    match outcome {
        Ok(status) => exit_code_for_status(status),
        Err(_) => 2,
    }
}

/// A target that exits with a code in the valid range sees that very code
/// become the launcher's exit code.
pub proof fn lemma_exit_code_mirrors_target(n: i32)
    requires
        0 <= n <= 255,
    ensures
        launch_exit_code_spec(Ok(Some(n))) == n as u8,
{
}

/// A run whose target terminated abnormally, so that no exit code is
/// available, exits with the fixed fallback code 2.
pub proof fn lemma_no_code_falls_back(outcome: Result<Option<i32>, LaunchError>)
    requires
        outcome == Ok::<Option<i32>, LaunchError>(None),
    ensures
        launch_exit_code_spec(outcome) == 2u8,
{
}

/// Every launcher-level failure exits with the fixed fallback code 2,
/// whichever failure it was.
pub proof fn lemma_failure_exits_two(e: LaunchError)
    ensures
        launch_exit_code_spec(Err(e)) == 2u8,
{
}

/// A target confirmed absent stops the launch before any spawn: the run's
/// exit code is the fixed fallback 2, and the one line printed on the error
/// stream ends with the attempted path, so the diagnostic always names
/// where the launcher looked.
pub proof fn lemma_missing_target_diagnostic(path: String)
    ensures
        launch_exit_code_spec(
            (Err::<Option<i32>, LaunchError>(LaunchError::TargetNotFound { path })),
        ) == 2u8,
        ({
            let line = "error: "@ + (LaunchError::TargetNotFound { path }).message_spec();
            &&& line.len() >= path@.len()
            &&& line.subrange(line.len() - path@.len(), line.len() as int) == path@
        }),
{
    let m = (LaunchError::TargetNotFound { path }).message_spec();
    let line = "error: "@ + m;
    assert(m == "Could not find the `uv` binary at: "@ + path@);
    assert(line.subrange(line.len() - path@.len(), line.len() as int) =~= path@);
}

/// Launching is free of hidden state: two runs that observe the same
/// outcome adopt the same exit code, so repeated invocations with an
/// unchanged target behave identically.
pub proof fn lemma_exit_code_idempotent(
    first: Result<Option<i32>, LaunchError>,
    second: Result<Option<i32>, LaunchError>,
)
    requires
        first == second,
    ensures
        launch_exit_code_spec(first) == launch_exit_code_spec(second),
{
}

} // verus!
