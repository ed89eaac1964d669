//! Cgroup lifecycle: the per-request directory under the configured parent,
//! the control-file writes that populate it, and the teardown protocol that
//! must run on every exit path (kill the whole subtree, then retry removal
//! briefly while the kernel reaps).

use vstd::prelude::*;
use vstd::string::StringExecFns;
use crate::numfmt::{dec_chars, u64_to_string};
use crate::plans::FileWrite;

verus! {

/// How long removal of a busy cgroup directory is retried before giving up,
/// in milliseconds.
pub const CGROUP_REMOVE_MAX_ATTEMPT_TIME_MS: u64 = 100;

/// The absolute path of a file or directory under a cgroup directory.
pub fn cgroup_join(dir: &str, name: &str) -> (r: String)
    ensures
        r@ == dir@ + "/"@ + name@,
{
    let mut r = String::new();
    r.append(dir);
    r.append("/");
    r.append(name);
    assert(r@ =~= dir@ + "/"@ + name@);
    r
}

/// The per-request cgroup directory: the configured parent plus a fresh
/// random identifier.
pub fn cgroup_dir_path(parent: &str, id: &str) -> (r: String)
    ensures
        r@ == parent@ + "/"@ + id@,
{
    cgroup_join(parent, id)
}

/// The writes that populate a fresh cgroup directory: an optional memory
/// ceiling, and always the swap-off write; the remaining limits are POSIX
/// rlimits set inside the child.
pub fn cgroup_setup_writes(dir: &str, memory_max: &Option<u64>) -> (r: Vec<FileWrite>)
    ensures
        memory_max matches Some(m) ==> {
            &&& r@.len() == 2
            &&& r@[0].path@ == dir@ + "/"@ + "memory.max"@
            &&& r@[0].contents@ == dec_chars(m as int)
        },
        memory_max is None ==> r@.len() == 1,
        r@.last().path@ == dir@ + "/"@ + "memory.swap.max"@,
        r@.last().contents@ == "0"@,
{
    let mut r: Vec<FileWrite> = Vec::new();
    if let Some(m) = memory_max {
        let path = cgroup_join(dir, "memory.max");
        let contents = u64_to_string(*m);
        r.push(FileWrite { path, contents });
    }
    let path = cgroup_join(dir, "memory.swap.max");
    let mut contents = String::new();
    contents.append("0");
    assert(contents@ =~= "0"@);
    r.push(FileWrite { path, contents });
    r
}

/// The write that kills every process in the cgroup in one kernel operation.
pub fn cgroup_kill_write(dir: &str) -> (r: FileWrite)
    ensures
        r.path@ == dir@ + "/"@ + "cgroup.kill"@,
        r.contents@ == "1"@,
{
    let path = cgroup_join(dir, "cgroup.kill");
    let mut contents = String::new();
    contents.append("1");
    assert(contents@ =~= "1"@);
    FileWrite { path, contents }
}

/// What one attempt to remove the cgroup directory reported.
#[derive(Debug)]
pub enum RemoveOutcome {
    Removed,
    Busy,
    OtherError,
}

/// What the teardown loop does after one removal attempt.
#[derive(Debug, PartialEq, Eq, Structural)]
pub enum RemovalAction {
    Finished,
    RetryAfterYield,
    GiveUp,
}

/// Decides the teardown loop's next step: a busy directory (the kernel still
/// reaping the killed subtree) is retried with short yields until the
/// attempt-time budget runs out; any other error abandons teardown at once.
pub fn removal_step(outcome: &RemoveOutcome, elapsed_ms: u64) -> (r: RemovalAction)
    ensures
        outcome is Removed ==> r == RemovalAction::Finished,
        outcome is Busy && elapsed_ms < CGROUP_REMOVE_MAX_ATTEMPT_TIME_MS ==> r
            == RemovalAction::RetryAfterYield,
        outcome is Busy && elapsed_ms >= CGROUP_REMOVE_MAX_ATTEMPT_TIME_MS ==> r
            == RemovalAction::GiveUp,
        outcome is OtherError ==> r == RemovalAction::GiveUp,
{
    match outcome {
        RemoveOutcome::Removed => RemovalAction::Finished,
        RemoveOutcome::Busy => {
            if elapsed_ms < CGROUP_REMOVE_MAX_ATTEMPT_TIME_MS {
                RemovalAction::RetryAfterYield
            } else {
                RemovalAction::GiveUp
            }
        },
        RemoveOutcome::OtherError => RemovalAction::GiveUp,
    }
}

} // verus!
