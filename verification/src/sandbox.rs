//! Planning the sandbox root: binary staging, root change, working-directory
//! reset, and the null-device stand-in, in a strictly ordered sequence.

use vstd::prelude::*;

verus! {

/// One filesystem operation of the sandbox plan. The process that carries a
/// plan out performs each step in sequence and stops at the first failure,
/// which is a setup error.
pub enum SandboxStep {
    /// Create this directory and any missing parents.
    CreateDirAll(String),
    /// Copy the file at the first path to the second, preserving the
    /// permission bits (so an executable stays executable).
    CopyFile(String, String),
    /// Change the process's filesystem root to this path: irreversible, and
    /// only possible while the process holds the privilege to do so.
    ChangeRoot(String),
    /// Reset the process's current working directory to this path.
    SetCurrentDir(String),
}

pub open spec fn is_copy_step(step: SandboxStep) -> bool {
    step is CopyFile
}

pub open spec fn is_root_change_step(step: SandboxStep) -> bool {
    step is ChangeRoot
}

pub open spec fn is_cwd_reset_step(step: SandboxStep) -> bool {
    step is SetCurrentDir
}

/// The ordering every sandbox plan must obey: every copy comes strictly
/// before every root change (the copy's source path is only reachable before
/// the root changes), and every working-directory reset comes strictly after
/// every root change (the reset must land inside the new root).
pub open spec fn plan_is_safely_ordered(steps: Seq<SandboxStep>) -> bool {
    &&& forall|i: int, j: int|
        0 <= i < steps.len() && 0 <= j < steps.len() && #[trigger] is_copy_step(steps[i])
            && #[trigger] is_root_change_step(steps[j]) ==> i < j
    &&& forall|i: int, j: int|
        0 <= i < steps.len() && 0 <= j < steps.len() && #[trigger] is_root_change_step(steps[i])
            && #[trigger] is_cwd_reset_step(steps[j]) ==> i < j
}

/// The sandbox plan for a new root directory, in execution order:
///
/// 1. create `root/usr/local/bin` with its parents;
/// 2. stage the companion binary from its fixed host path into that
///    directory, keeping it executable — this must happen while the source
///    path is still reachable;
/// 3. change the filesystem root to `root`;
/// 4. reset the working directory to `/`, now the new root's top;
/// 5. create `dev/null` as a plain placeholder path (a full device node is
///    out of scope; the path is relative, so it lands inside the new root).
pub fn prepare_steps(root: &str) -> (r: Vec<SandboxStep>)
    ensures
        r@.len() == 5,
        r@[0] matches SandboxStep::CreateDirAll(p) && p@ == root@ + "/usr/local/bin"@,
        r@[1] matches SandboxStep::CopyFile(src, dst) && src@
            == "/usr/local/bin/docker-explorer"@ && dst@ == root@
            + "/usr/local/bin/docker-explorer"@,
        r@[2] matches SandboxStep::ChangeRoot(p) && p@ == root@,
        r@[3] matches SandboxStep::SetCurrentDir(p) && p@ == "/"@,
        r@[4] matches SandboxStep::CreateDirAll(p) && p@ == "dev/null"@,
        plan_is_safely_ordered(r@),
{
    let bin_dir = String::from_str(root).concat("/usr/local/bin");
    let staged = String::from_str(root).concat("/usr/local/bin/docker-explorer");
    let mut steps: Vec<SandboxStep> = Vec::new();
    steps.push(SandboxStep::CreateDirAll(bin_dir));
    steps.push(
        SandboxStep::CopyFile(String::from_str("/usr/local/bin/docker-explorer"), staged),
    );
    steps.push(SandboxStep::ChangeRoot(String::from_str(root)));
    steps.push(SandboxStep::SetCurrentDir(String::from_str("/")));
    steps.push(SandboxStep::CreateDirAll(String::from_str("dev/null")));
    steps
}

} // verus!
