//! The container filesystem, as a verified construction plan. The jailed
//! child executes the steps in order: make every mount private, lay a
//! writable overlay over the read-only image, populate the special files
//! under the new root, pivot into it, and write the request files into
//! `/ATO`. The plan is data; the unverified child walks it with the actual
//! mount, mkdir, symlink and write calls.

use vstd::prelude::*;
use vstd::string::StringExecFns;
use crate::paths::{rootfs_chars, runner_chars, default_runner_path};
use crate::records::{join_nul, join_args, views_of};
use crate::request::{Language, Request};

verus! {

/// Mount flags, named as in the mount call.
#[derive(Debug, PartialEq, Eq, Structural, Clone, Copy)]
pub struct MountFlags {
    pub nosuid: bool,
    pub nodev: bool,
    pub noexec: bool,
    pub strictatime: bool,
    pub relatime: bool,
    pub bind: bool,
    pub rdonly: bool,
}

/// One step of the container construction. In a `Mount` step an empty `src`
/// or `options` stands for none.
pub enum FsStep {
    MakeRootPrivate,
    Mount { src: String, dest: String, fstype: String, flags: MountFlags, options: String },
    BindMount { src: String, dest: String, flags: MountFlags },
    Mkdir { path: String, mode: u32 },
    TouchFile { path: String },
    Symlink { target: String, linkpath: String },
    ChangeDir { path: String },
    PivotRoot,
    WriteFile { path: String, contents: Vec<u8> },
}

pub open spec fn mf(
    nosuid: bool,
    nodev: bool,
    noexec: bool,
    strictatime: bool,
    relatime: bool,
    bind: bool,
    rdonly: bool,
) -> MountFlags {
    MountFlags { nosuid, nodev, noexec, strictatime, relatime, bind, rdonly }
}

pub open spec fn is_mount(
    s: FsStep,
    src: Seq<char>,
    dest: Seq<char>,
    fstype: Seq<char>,
    flags: MountFlags,
    options: Seq<char>,
) -> bool {
    s matches FsStep::Mount { src: a, dest: b, fstype: c, flags: f, options: o } && a@ == src && b@
        == dest && c@ == fstype && f == flags && o@ == options
}

pub open spec fn is_bind(s: FsStep, src: Seq<char>, dest: Seq<char>, flags: MountFlags) -> bool {
    s matches FsStep::BindMount { src: a, dest: b, flags: f } && a@ == src && b@ == dest && f
        == flags
}

pub open spec fn is_mkdir(s: FsStep, path: Seq<char>, mode: u32) -> bool {
    s matches FsStep::Mkdir { path: p, mode: m } && p@ == path && m == mode
}

pub open spec fn is_touch(s: FsStep, path: Seq<char>) -> bool {
    s matches FsStep::TouchFile { path: p } && p@ == path
}

pub open spec fn is_symlink(s: FsStep, target: Seq<char>, linkpath: Seq<char>) -> bool {
    s matches FsStep::Symlink { target: t, linkpath: l } && t@ == target && l@ == linkpath
}

pub open spec fn is_chdir(s: FsStep, path: Seq<char>) -> bool {
    s matches FsStep::ChangeDir { path: p } && p@ == path
}

pub open spec fn is_write(s: FsStep, path: Seq<char>, contents: Seq<u8>) -> bool {
    s matches FsStep::WriteFile { path: p, contents: c } && p@ == path && c@ == contents
}

/// The overlay mount options: the writable upper and work directories on the
/// request's tmpfs, over the shared baseline layer and the language's image.
pub open spec fn overlay_options_chars(image: Seq<char>) -> Seq<char> {
    "upperdir=/run/ATO/upper,lowerdir=/usr/local/share/ATO/overlayfs_upper:"@ + rootfs_chars(image)
        + ",workdir=/run/ATO/work"@
}

/// The special files created while `.` is the new root: kernel filesystems,
/// a complete `/dev`, and the bind-mounted helper executables.
pub open spec fn special_files_ok(s: Seq<FsStep>, language_id: Seq<char>) -> bool {
    &&& s.len() == 37
    &&& is_mount(
        s[0],
        "tmpfs"@,
        "./tmp"@,
        "tmpfs"@,
        mf(true, true, false, false, false, false, false),
        "mode=1755,size=655350k"@,
    )
    &&& is_mount(
        s[1],
        "tmpfs"@,
        "./ATO"@,
        "tmpfs"@,
        mf(true, true, false, false, false, false, false),
        "mode=755,size=655350k"@,
    )
    &&& is_mkdir(s[2], "./ATO/context"@, 0o755)
    &&& is_mount(
        s[3],
        "proc"@,
        "./proc"@,
        "proc"@,
        mf(false, false, false, false, false, false, false),
        ""@,
    )
    &&& is_mount(
        s[4],
        "tmpfs"@,
        "./dev"@,
        "tmpfs"@,
        mf(true, false, false, true, false, false, false),
        "mode=755,size=655350k"@,
    )
    &&& is_mkdir(s[5], "./dev/pts"@, 0)
    &&& is_mount(
        s[6],
        "devpts"@,
        "./dev/pts"@,
        "devpts"@,
        mf(true, false, true, false, false, false, false),
        "newinstance,ptmxmode=0666,mode=0620"@,
    )
    &&& is_mkdir(s[7], "./dev/shm"@, 0)
    &&& is_mount(
        s[8],
        "shm"@,
        "./dev/shm"@,
        "tmpfs"@,
        mf(true, true, true, false, false, false, false),
        "mode=1777,size=655350k"@,
    )
    &&& is_mkdir(s[9], "./dev/mqueue"@, 0)
    &&& is_mount(
        s[10],
        "mqueue"@,
        "./dev/mqueue"@,
        "mqueue"@,
        mf(true, true, true, false, false, false, false),
        ""@,
    )
    &&& is_mount(
        s[11],
        "sysfs"@,
        "./sys"@,
        "sysfs"@,
        mf(true, true, true, false, false, false, false),
        ""@,
    )
    &&& is_mount(
        s[12],
        "cgroup2"@,
        "./sys/fs/cgroup"@,
        "cgroup2"@,
        mf(true, true, true, false, true, false, false),
        ""@,
    )
    &&& is_touch(s[13], "./dev/full"@)
    &&& is_bind(s[14], "/dev/full"@, "./dev/full"@, mf(true, false, true, false, false, true, false))
    &&& is_touch(s[15], "./dev/null"@)
    &&& is_bind(s[16], "/dev/null"@, "./dev/null"@, mf(true, false, true, false, false, true, false))
    &&& is_touch(s[17], "./dev/random"@)
    &&& is_bind(
        s[18],
        "/dev/random"@,
        "./dev/random"@,
        mf(true, false, true, false, false, true, false),
    )
    &&& is_touch(s[19], "./dev/tty"@)
    &&& is_bind(s[20], "/dev/tty"@, "./dev/tty"@, mf(true, false, true, false, false, true, false))
    &&& is_touch(s[21], "./dev/urandom"@)
    &&& is_bind(
        s[22],
        "/dev/urandom"@,
        "./dev/urandom"@,
        mf(true, false, true, false, false, true, false),
    )
    &&& is_touch(s[23], "./dev/zero"@)
    &&& is_bind(s[24], "/dev/zero"@, "./dev/zero"@, mf(true, false, true, false, false, true, false))
    &&& is_symlink(s[25], "/proc/self/fd"@, "dev/fd"@)
    &&& is_symlink(s[26], "/proc/self/fd/0"@, "dev/stdin"@)
    &&& is_symlink(s[27], "/proc/self/fd/1"@, "dev/stdout"@)
    &&& is_symlink(s[28], "/proc/self/fd/2"@, "dev/stderr"@)
    &&& is_symlink(s[29], "/proc/kcore"@, "dev/core"@)
    &&& is_symlink(s[30], "pts/ptmx"@, "dev/ptmx"@)
    &&& is_touch(s[31], "./ATO/bash"@)
    &&& is_bind(
        s[32],
        "/usr/local/lib/ATO/bash"@,
        "./ATO/bash"@,
        mf(true, false, false, false, false, true, true),
    )
    &&& is_touch(s[33], "./ATO/yargs"@)
    &&& is_bind(
        s[34],
        "/usr/local/lib/ATO/yargs"@,
        "./ATO/yargs"@,
        mf(true, false, false, false, false, true, true),
    )
    &&& is_touch(s[35], "./ATO/default_runner"@)
    &&& is_bind(
        s[36],
        runner_chars(language_id),
        "./ATO/default_runner"@,
        mf(true, false, false, false, false, true, true),
    )
}

/// The request files written into `/ATO` after the pivot: the code and
/// stdin bytes as given, the argument and option lists as null-terminated
/// records, and the runner (a custom blob, or a link to the default).
pub open spec fn request_files_ok(
    s: Seq<FsStep>,
    code: Seq<u8>,
    input: Seq<u8>,
    arguments: Seq<Seq<u8>>,
    options: Seq<Seq<u8>>,
    custom_runner: Option<Seq<u8>>,
) -> bool {
    &&& s.len() == 5
    &&& is_write(s[0], "/ATO/code"@, code)
    &&& (match custom_runner {
        Some(blob) => is_write(s[1], "/ATO/runner"@, blob),
        None => is_symlink(s[1], "/ATO/default_runner"@, "/ATO/runner"@),
    })
    &&& is_write(s[2], "/ATO/input"@, input)
    &&& is_write(s[3], "/ATO/arguments"@, join_nul(arguments))
    &&& is_write(s[4], "/ATO/options"@, join_nul(options))
}

/// The whole construction, in its strict order: private mounts and the
/// overlay first, then the special files under the not-yet-pivoted root,
/// then the pivot, the request files, and a final change into `/ATO`.
pub open spec fn fs_plan_ok(
    s: Seq<FsStep>,
    image: Seq<char>,
    language_id: Seq<char>,
    code: Seq<u8>,
    input: Seq<u8>,
    arguments: Seq<Seq<u8>>,
    options: Seq<Seq<u8>>,
    custom_runner: Option<Seq<u8>>,
) -> bool {
    &&& s.len() == 51
    &&& s[0] is MakeRootPrivate
    &&& is_mount(
        s[1],
        "tmpfs"@,
        "/run/ATO"@,
        "tmpfs"@,
        mf(true, false, false, false, false, false, false),
        "mode=755,size=655350k"@,
    )
    &&& is_mkdir(s[2], "/run/ATO/upper"@, 0o700)
    &&& is_mkdir(s[3], "/run/ATO/work"@, 0o700)
    &&& is_mkdir(s[4], "/run/ATO/merged"@, 0o700)
    &&& is_mount(
        s[5],
        ""@,
        "/run/ATO/merged"@,
        "overlay"@,
        mf(false, false, false, false, false, false, false),
        overlay_options_chars(image),
    )
    &&& is_chdir(s[6], "/run/ATO/merged"@)
    &&& special_files_ok(s.subrange(7, 44), language_id)
    &&& s[44] is PivotRoot
    &&& request_files_ok(s.subrange(45, 50), code, input, arguments, options, custom_runner)
    &&& is_chdir(s[50], "/ATO"@)
}

fn step_mount(src: &str, dest: &str, fstype: &str, flags: MountFlags, options: &str) -> (s: FsStep)
    ensures
        is_mount(s, src@, dest@, fstype@, flags, options@),
{
    FsStep::Mount {
        src: String::from_str(src),
        dest: String::from_str(dest),
        fstype: String::from_str(fstype),
        flags,
        options: String::from_str(options),
    }
}

fn step_bind(src: &str, dest: &str, flags: MountFlags) -> (s: FsStep)
    ensures
        is_bind(s, src@, dest@, flags),
{
    FsStep::BindMount { src: String::from_str(src), dest: String::from_str(dest), flags }
}

fn step_mkdir(path: &str, mode: u32) -> (s: FsStep)
    ensures
        is_mkdir(s, path@, mode),
{
    FsStep::Mkdir { path: String::from_str(path), mode }
}

fn step_touch(path: &str) -> (s: FsStep)
    ensures
        is_touch(s, path@),
{
    FsStep::TouchFile { path: String::from_str(path) }
}

fn step_symlink(target: &str, linkpath: &str) -> (s: FsStep)
    ensures
        is_symlink(s, target@, linkpath@),
{
    FsStep::Symlink { target: String::from_str(target), linkpath: String::from_str(linkpath) }
}

fn step_chdir(path: &str) -> (s: FsStep)
    ensures
        is_chdir(s, path@),
{
    FsStep::ChangeDir { path: String::from_str(path) }
}

fn step_write(path: &str, contents: Vec<u8>) -> (s: FsStep)
    ensures
        is_write(s, path@, contents@),
{
    FsStep::WriteFile { path: String::from_str(path), contents }
}

fn copy_bytes(v: &Vec<u8>) -> (r: Vec<u8>)
    ensures
        r@ == v@,
{
    let mut r: Vec<u8> = Vec::new();
    let mut i: usize = 0;
    while i < v.len()
        invariant
            i <= v@.len(),
            r@ == v@.take(i as int),
        decreases v@.len() - i,
    {
        let b = v[i];
        r.push(b);
        i = i + 1;
        assert(r@ =~= v@.take(i as int));
    }
    assert(v@.take(v@.len() as int) =~= v@);
    r
}

/// The special-file steps, run while `.` is the new root and `/` still the
/// host's.
#[verifier::rlimit(60)]
pub fn special_files_plan(language_id: &str) -> (r: Vec<FsStep>)
    ensures
        special_files_ok(r@, language_id@),
{
    let nosuid_nodev = MountFlags {
        nosuid: true,
        nodev: true,
        noexec: false,
        strictatime: false,
        relatime: false,
        bind: false,
        rdonly: false,
    };
    let nosuid_nodev_noexec = MountFlags { noexec: true, ..nosuid_nodev };
    let none = MountFlags {
        nosuid: false,
        nodev: false,
        noexec: false,
        strictatime: false,
        relatime: false,
        bind: false,
        rdonly: false,
    };
    let dev_bind = MountFlags { nosuid: true, noexec: true, bind: true, ..none };
    let helper_bind = MountFlags { nosuid: true, bind: true, rdonly: true, ..none };

    let mut r: Vec<FsStep> = Vec::new();
    r.push(step_mount("tmpfs", "./tmp", "tmpfs", nosuid_nodev, "mode=1755,size=655350k"));
    r.push(step_mount("tmpfs", "./ATO", "tmpfs", nosuid_nodev, "mode=755,size=655350k"));
    r.push(step_mkdir("./ATO/context", 0o755));
    r.push(step_mount("proc", "./proc", "proc", none, ""));
    r.push(
        step_mount(
            "tmpfs",
            "./dev",
            "tmpfs",
            MountFlags { nosuid: true, strictatime: true, ..none },
            "mode=755,size=655350k",
        ),
    );
    r.push(step_mkdir("./dev/pts", 0));
    r.push(
        step_mount(
            "devpts",
            "./dev/pts",
            "devpts",
            MountFlags { nosuid: true, noexec: true, ..none },
            "newinstance,ptmxmode=0666,mode=0620",
        ),
    );
    r.push(step_mkdir("./dev/shm", 0));
    r.push(step_mount("shm", "./dev/shm", "tmpfs", nosuid_nodev_noexec, "mode=1777,size=655350k"));
    r.push(step_mkdir("./dev/mqueue", 0));
    r.push(step_mount("mqueue", "./dev/mqueue", "mqueue", nosuid_nodev_noexec, ""));
    r.push(step_mount("sysfs", "./sys", "sysfs", nosuid_nodev_noexec, ""));
    r.push(
        step_mount(
            "cgroup2",
            "./sys/fs/cgroup",
            "cgroup2",
            MountFlags { relatime: true, ..nosuid_nodev_noexec },
            "",
        ),
    );
    r.push(step_touch("./dev/full"));
    r.push(step_bind("/dev/full", "./dev/full", dev_bind));
    r.push(step_touch("./dev/null"));
    r.push(step_bind("/dev/null", "./dev/null", dev_bind));
    r.push(step_touch("./dev/random"));
    r.push(step_bind("/dev/random", "./dev/random", dev_bind));
    r.push(step_touch("./dev/tty"));
    r.push(step_bind("/dev/tty", "./dev/tty", dev_bind));
    r.push(step_touch("./dev/urandom"));
    r.push(step_bind("/dev/urandom", "./dev/urandom", dev_bind));
    r.push(step_touch("./dev/zero"));
    r.push(step_bind("/dev/zero", "./dev/zero", dev_bind));
    r.push(step_symlink("/proc/self/fd", "dev/fd"));
    r.push(step_symlink("/proc/self/fd/0", "dev/stdin"));
    r.push(step_symlink("/proc/self/fd/1", "dev/stdout"));
    r.push(step_symlink("/proc/self/fd/2", "dev/stderr"));
    r.push(step_symlink("/proc/kcore", "dev/core"));
    r.push(step_symlink("pts/ptmx", "dev/ptmx"));
    r.push(step_touch("./ATO/bash"));
    r.push(step_bind("/usr/local/lib/ATO/bash", "./ATO/bash", helper_bind));
    r.push(step_touch("./ATO/yargs"));
    r.push(step_bind("/usr/local/lib/ATO/yargs", "./ATO/yargs", helper_bind));
    r.push(step_touch("./ATO/default_runner"));
    let runner_src = default_runner_path(language_id);
    r.push(
        FsStep::BindMount {
            src: runner_src,
            dest: String::from_str("./ATO/default_runner"),
            flags: helper_bind,
        },
    );
    r
}

/// The view of an optional byte blob.
pub open spec fn opt_bytes(o: Option<Vec<u8>>) -> Option<Seq<u8>> {
    match o {
        Some(b) => Some(b@),
        None => None,
    }
}

/// The request-file steps, run just after the pivot with `/ATO` writable.
pub fn request_files_plan(request: &Request, custom_runner: &Option<Vec<u8>>) -> (r: Vec<FsStep>)
    ensures
        request_files_ok(
            r@,
            request.code@,
            request.input@,
            views_of(request.arguments@),
            views_of(request.options@),
            opt_bytes(*custom_runner),
        ),
{
    let mut r: Vec<FsStep> = Vec::new();
    r.push(step_write("/ATO/code", copy_bytes(&request.code)));
    match custom_runner {
        Some(blob) => r.push(step_write("/ATO/runner", copy_bytes(blob))),
        None => r.push(step_symlink("/ATO/default_runner", "/ATO/runner")),
    }
    r.push(step_write("/ATO/input", copy_bytes(&request.input)));
    r.push(step_write("/ATO/arguments", join_args(&request.arguments)));
    r.push(step_write("/ATO/options", join_args(&request.options)));
    r
}

/// The whole filesystem construction for one request.
#[verifier::rlimit(60)]
pub fn filesystem_plan(
    language: &Language,
    request: &Request,
    custom_runner: &Option<Vec<u8>>,
) -> (r: Vec<FsStep>)
    ensures
        fs_plan_ok(
            r@,
            language.image@,
            request.language@,
            request.code@,
            request.input@,
            views_of(request.arguments@),
            views_of(request.options@),
            opt_bytes(*custom_runner),
        ),
{
    let nosuid = MountFlags {
        nosuid: true,
        nodev: false,
        noexec: false,
        strictatime: false,
        relatime: false,
        bind: false,
        rdonly: false,
    };
    let none = MountFlags { nosuid: false, ..nosuid };

    let mut overlay_options = String::new();
    overlay_options.append("upperdir=/run/ATO/upper,lowerdir=/usr/local/share/ATO/overlayfs_upper:");
    let rootfs = crate::paths::rootfs_path(language);
    overlay_options.append(rootfs.as_str());
    overlay_options.append(",workdir=/run/ATO/work");
    assert(overlay_options@ =~= overlay_options_chars(language.image@));

    let mut r: Vec<FsStep> = Vec::new();
    r.push(FsStep::MakeRootPrivate);
    r.push(step_mount("tmpfs", "/run/ATO", "tmpfs", nosuid, "mode=755,size=655350k"));
    r.push(step_mkdir("/run/ATO/upper", 0o700));
    r.push(step_mkdir("/run/ATO/work", 0o700));
    r.push(step_mkdir("/run/ATO/merged", 0o700));
    r.push(
        FsStep::Mount {
            src: String::new(),
            dest: String::from_str("/run/ATO/merged"),
            fstype: String::from_str("overlay"),
            flags: none,
            options: overlay_options,
        },
    );
    r.push(step_chdir("/run/ATO/merged"));
    let ghost prelude = r@;

    let mut special = special_files_plan(request.language.as_str());
    let ghost special_steps = special@;
    r.append(&mut special);

    r.push(FsStep::PivotRoot);

    let mut reqfiles = request_files_plan(request, custom_runner);
    let ghost reqfile_steps = reqfiles@;
    r.append(&mut reqfiles);

    r.push(step_chdir("/ATO"));

    proof {
        assert(r@.len() == 51);
        assert(r@.subrange(7, 44) =~= special_steps);
        assert(r@.subrange(45, 50) =~= reqfile_steps);
        reveal_strlit("");
        assert(""@ =~= Seq::<char>::empty());
    }
    r
}

} // verus!
