//! Supervision of the target command: how a child's outcome maps to the
//! supervisor's own exit status, and the diagnostic for a failed spawn.

use vstd::prelude::*;
use crate::error::PipelineError;

verus! {

/// What came back from waiting on the spawned child: its full output streams
/// and how it ended. The captured bytes are relayed to the caller's own
/// stdout and stderr verbatim and in full.
pub struct ChildOutcome {
    /// Everything the child wrote to its stdout.
    pub stdout: Vec<u8>,
    /// Everything the child wrote to its stderr.
    pub stderr: Vec<u8>,
    /// Whether the child exited with status zero.
    pub success: bool,
    /// The child's exit code, absent when it was terminated abnormally
    /// (by a signal, with no code).
    pub code: Option<i32>,
}

/// The exit code the supervisor itself terminates with: zero for a
/// successful child, otherwise the child's own exit code passed through
/// unchanged, or one when the child ended without a code.
pub fn supervisor_exit_code(outcome: &ChildOutcome) -> (r: i32)
    ensures
        outcome.success ==> r == 0,
        !outcome.success ==> r == (match outcome.code {
            Some(c) => c,
            None => 1i32,
        }),
{
    if outcome.success {
        0
    } else {
        match outcome.code {
            Some(c) => c,
            None => 1,
        }
    }
}

/// Everything the supervisor emits for a finished child: the bytes for its
/// own stdout and stderr, and the exit code it terminates with.
pub struct SupervisorReport {
    pub stdout: Vec<u8>,
    pub stderr: Vec<u8>,
    pub exit_code: i32,
}

/// What the supervisor relays for a finished child: the child's stdout and
/// stderr verbatim and in full, and the exit code of `supervisor_exit_code`.
pub fn supervisor_report(outcome: ChildOutcome) -> (r: SupervisorReport)
    ensures
        r.stdout@ == outcome.stdout@,
        r.stderr@ == outcome.stderr@,
        outcome.success ==> r.exit_code == 0,
        !outcome.success ==> r.exit_code == (match outcome.code {
            Some(c) => c,
            None => 1i32,
        }),
{
    let exit_code = supervisor_exit_code(&outcome);
    SupervisorReport { stdout: outcome.stdout, stderr: outcome.stderr, exit_code }
}

/// The diagnostic for a spawn that failed (command not found, exec
/// permission denied): an execution error carrying exactly the command name
/// and argument list that were attempted.
pub fn spawn_failure(command: &str, args: &Vec<String>) -> (r: PipelineError)
    ensures
        r matches PipelineError::Execution { command: c, args: a } && c@ == command@ && a@.len()
            == args@.len() && (forall|i: int| 0 <= i < args@.len() ==> a@[i]@ == args@[i]@),
{
    let mut copied: Vec<String> = Vec::new();
    let mut i: usize = 0;
    while i < args.len()
        invariant
            0 <= i <= args@.len(),
            copied@.len() == i,
            forall|j: int| 0 <= j < copied@.len() ==> copied@[j]@ == args@[j]@,
        decreases args@.len() - i,
    {
        copied.push(args[i].clone());
        i = i + 1;
    }
    PipelineError::Execution { command: String::from_str(command), args: copied }
}

} // verus!
