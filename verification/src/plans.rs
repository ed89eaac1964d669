//! Plans for the jailed child's straight-line setup: the clone flags it is
//! born with, the id-map writes that make it root inside its user namespace,
//! the capability drops (in the one order that works), the POSIX resource
//! limits, and the strict order of the setup stages themselves.

use vstd::prelude::*;
use vstd::string::StringExecFns;
use crate::numfmt::{dec_chars, push_dec_u64};
use crate::MiB;

verus! {

/// One write of a small text value into a control file.
pub struct FileWrite {
    pub path: String,
    pub contents: String,
}

/// How the child is cloned: a full set of fresh namespaces, cleared signal
/// handlers, a pidfd for the parent, and birth directly into the prepared
/// cgroup so it can never run outside it.
pub struct CloneConfig {
    pub clear_sighand: bool,
    pub new_cgroup: bool,
    pub new_ipc: bool,
    pub new_mount: bool,
    pub new_net: bool,
    pub new_pid: bool,
    pub new_user: bool,
    pub new_uts: bool,
    pub want_pidfd: bool,
    pub into_cgroup: bool,
}

/// The clone configuration of every jailed child: all seven namespaces are
/// new, and the child starts inside the request's cgroup.
pub fn clone_plan() -> (r: CloneConfig)
    ensures
        r.clear_sighand,
        r.new_cgroup,
        r.new_ipc,
        r.new_mount,
        r.new_net,
        r.new_pid,
        r.new_user,
        r.new_uts,
        r.want_pidfd,
        r.into_cgroup,
{
    CloneConfig {
        clear_sighand: true,
        new_cgroup: true,
        new_ipc: true,
        new_mount: true,
        new_net: true,
        new_pid: true,
        new_user: true,
        new_uts: true,
        want_pidfd: true,
        into_cgroup: true,
    }
}

/// The signal the child receives if the supervisor dies first.
pub const PARENT_DEATH_SIGNAL: i32 = 9;

/// The id-map line mapping in-container root to one outside id.
pub open spec fn id_map_line(outside_id: int) -> Seq<char> {
    "0 "@ + dec_chars(outside_id) + " 1\n"@
}

/// The writes that map the child to root inside its fresh user namespace:
/// uid 0 to the supervisor's uid, `setgroups` denied (required before a gid
/// map may be written), then gid 0 to the supervisor's gid.
pub fn id_map_writes(outside_uid: u32, outside_gid: u32) -> (r: Vec<FileWrite>)
    ensures
        r@.len() == 3,
        r@[0].path@ == "/proc/self/uid_map"@ && r@[0].contents@ == id_map_line(outside_uid as int),
        r@[1].path@ == "/proc/self/setgroups"@ && r@[1].contents@ == "deny"@,
        r@[2].path@ == "/proc/self/gid_map"@ && r@[2].contents@ == id_map_line(outside_gid as int),
{
    let mut r: Vec<FileWrite> = Vec::new();

    let mut uid_path = String::new();
    uid_path.append("/proc/self/uid_map");
    assert(uid_path@ =~= "/proc/self/uid_map"@);
    let uid_line = id_map_text(outside_uid);
    r.push(FileWrite { path: uid_path, contents: uid_line });

    let mut sg_path = String::new();
    sg_path.append("/proc/self/setgroups");
    assert(sg_path@ =~= "/proc/self/setgroups"@);
    let mut deny = String::new();
    deny.append("deny");
    assert(deny@ =~= "deny"@);
    r.push(FileWrite { path: sg_path, contents: deny });

    let mut gid_path = String::new();
    gid_path.append("/proc/self/gid_map");
    assert(gid_path@ =~= "/proc/self/gid_map"@);
    let gid_line = id_map_text(outside_gid);
    r.push(FileWrite { path: gid_path, contents: gid_line });

    r
}

fn id_map_text(outside_id: u32) -> (r: String)
    ensures
        r@ == id_map_line(outside_id as int),
{
    let mut r = String::new();
    r.append("0 ");
    push_dec_u64(&mut r, outside_id as u64);
    r.append(" 1\n");
    assert(r@ =~= id_map_line(outside_id as int));
    r
}

/// The capability-dropping and privilege-hardening steps, in order. The
/// bounding set must go first: clearing it needs `CAP_SETPCAP`, which the
/// final step removes along with every other capability.
#[derive(Debug, PartialEq, Eq, Structural)]
pub enum HardeningStep {
    ClearBoundingCaps,
    ClearAmbientCaps,
    ClearCapState,
    SetNoNewPrivs,
}

/// The fixed hardening order of the jailed child.
pub fn hardening_plan() -> (r: Vec<HardeningStep>)
    ensures
        r@ =~= seq![
            HardeningStep::ClearBoundingCaps,
            HardeningStep::ClearAmbientCaps,
            HardeningStep::ClearCapState,
            HardeningStep::SetNoNewPrivs,
        ],
{
    let mut r: Vec<HardeningStep> = Vec::new();
    r.push(HardeningStep::ClearBoundingCaps);
    r.push(HardeningStep::ClearAmbientCaps);
    r.push(HardeningStep::ClearCapState);
    r.push(HardeningStep::SetNoNewPrivs);
    r
}

/// Which POSIX resource limit a setting applies to.
#[derive(Debug, PartialEq, Eq, Structural, Clone, Copy)]
pub enum RlimitKind {
    Cpu,
    Nproc,
    Fsize,
    Sigpending,
    Locks,
    Msgqueue,
}

/// One (soft, hard) resource-limit pair.
#[derive(Debug, PartialEq, Eq, Structural, Clone, Copy)]
pub struct RlimitSetting {
    pub kind: RlimitKind,
    pub soft: u64,
    pub hard: u64,
}

/// The child's resource limits: CPU time as a backstop behind the cgroup
/// kill, a process cap against fork bombs, a written-file-size cap against
/// tmpfs exhaustion, and small ceilings on signals, locks and queues.
pub fn rlimit_plan() -> (r: Vec<RlimitSetting>)
    ensures
        r@ =~= seq![
            (RlimitSetting { kind: RlimitKind::Cpu, soft: 60, hard: 61 }),
            (RlimitSetting { kind: RlimitKind::Nproc, soft: 100, hard: 100 }),
            (RlimitSetting {
                kind: RlimitKind::Fsize,
                soft: (120 * MiB) as u64,
                hard: (128 * MiB) as u64,
            }),
            (RlimitSetting { kind: RlimitKind::Sigpending, soft: 100, hard: 100 }),
            (RlimitSetting { kind: RlimitKind::Locks, soft: 100, hard: 100 }),
            (RlimitSetting { kind: RlimitKind::Msgqueue, soft: 100, hard: 100 }),
        ],
{
    let mut r: Vec<RlimitSetting> = Vec::new();
    r.push(RlimitSetting { kind: RlimitKind::Cpu, soft: 60, hard: 61 });
    r.push(RlimitSetting { kind: RlimitKind::Nproc, soft: 100, hard: 100 });
    r.push(RlimitSetting { kind: RlimitKind::Fsize, soft: 120 * MiB, hard: 128 * MiB });
    r.push(RlimitSetting { kind: RlimitKind::Sigpending, soft: 100, hard: 100 });
    r.push(RlimitSetting { kind: RlimitKind::Locks, soft: 100, hard: 100 });
    r.push(RlimitSetting { kind: RlimitKind::Msgqueue, soft: 100, hard: 100 });
    r
}

/// The stages of the jailed child's setup, which run in this strict order
/// between the clone and the exec.
#[derive(Debug, PartialEq, Eq, Structural)]
pub enum ChildStage {
    SetParentDeathSignal,
    WriteIdMaps,
    SetupLoopback,
    BuildFilesystem,
    DropCapabilities,
    SetResourceLimits,
}

/// The child's setup order: ids first (everything later needs in-namespace
/// root), network and filesystem while still privileged, then capability
/// drops, then resource limits.
pub fn child_setup_plan() -> (r: Vec<ChildStage>)
    ensures
        r@ =~= seq![
            ChildStage::SetParentDeathSignal,
            ChildStage::WriteIdMaps,
            ChildStage::SetupLoopback,
            ChildStage::BuildFilesystem,
            ChildStage::DropCapabilities,
            ChildStage::SetResourceLimits,
        ],
{
    let mut r: Vec<ChildStage> = Vec::new();
    r.push(ChildStage::SetParentDeathSignal);
    r.push(ChildStage::WriteIdMaps);
    r.push(ChildStage::SetupLoopback);
    r.push(ChildStage::BuildFilesystem);
    r.push(ChildStage::DropCapabilities);
    r.push(ChildStage::SetResourceLimits);
    r
}

/// What the child finally execs: the bind-mounted shell, with the runner
/// script as its one argument, under the image's environment block.
pub fn exec_plan() -> (r: (String, Vec<String>))
    ensures
        r.0@ == "/ATO/bash"@,
        r.1@.len() == 2,
        r.1@[0]@ == "/ATO/bash"@,
        r.1@[1]@ == "/ATO/runner"@,
{
    let mut argv: Vec<String> = Vec::new();
    argv.push(String::from_str("/ATO/bash"));
    argv.push(String::from_str("/ATO/runner"));
    (String::from_str("/ATO/bash"), argv)
}

} // verus!
