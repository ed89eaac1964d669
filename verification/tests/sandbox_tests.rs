use ato_sandbox::plans::{
    ChildStage, HardeningStep, RlimitKind, child_setup_plan, clone_plan, exec_plan,
    hardening_plan, id_map_writes, rlimit_plan, PARENT_DEATH_SIGNAL,
};
use ato_sandbox::fsplan::{FsStep, filesystem_plan, request_files_plan, special_files_plan};
use ato_sandbox::paths::{default_runner_path, env_file_path, normalize_image, rootfs_path};
use ato_sandbox::cgroup::{
    RemovalAction, RemoveOutcome, cgroup_dir_path, cgroup_kill_write, cgroup_setup_writes,
    removal_step, CGROUP_REMOVE_MAX_ATTEMPT_TIME_MS,
};
use ato_sandbox::netmsg::{
    AddrAttrKind, check_netlink_reply, loopback_addr_request, loopback_link_request, RT_SCOPE_HOST,
};
use ato_sandbox::request::{Language, Request};

#[test]
fn clone_plan_requests_all_seven_namespaces() {
    let c = clone_plan();
    assert!(c.clear_sighand);
    assert!(c.new_cgroup && c.new_ipc && c.new_mount && c.new_net);
    assert!(c.new_pid && c.new_user && c.new_uts);
    assert!(c.want_pidfd && c.into_cgroup);
    assert_eq!(PARENT_DEATH_SIGNAL, 9);
}

#[test]
fn id_maps_grant_root_to_the_outside_user() {
    let w = id_map_writes(1000, 986);
    assert_eq!(w.len(), 3);
    assert_eq!(w[0].path, "/proc/self/uid_map");
    assert_eq!(w[0].contents, "0 1000 1\n");
    assert_eq!(w[1].path, "/proc/self/setgroups");
    assert_eq!(w[1].contents, "deny");
    assert_eq!(w[2].path, "/proc/self/gid_map");
    assert_eq!(w[2].contents, "0 986 1\n");
}

#[test]
fn hardening_clears_bounding_set_before_capability_state() {
    let h = hardening_plan();
    assert_eq!(h.len(), 4);
    assert!(matches!(h[0], HardeningStep::ClearBoundingCaps));
    assert!(matches!(h[1], HardeningStep::ClearAmbientCaps));
    assert!(matches!(h[2], HardeningStep::ClearCapState));
    assert!(matches!(h[3], HardeningStep::SetNoNewPrivs));
}

#[test]
fn rlimits_match_the_fixed_table() {
    let r = rlimit_plan();
    assert_eq!(r.len(), 6);
    assert!(matches!(r[0].kind, RlimitKind::Cpu));
    assert_eq!((r[0].soft, r[0].hard), (60, 61));
    assert!(matches!(r[1].kind, RlimitKind::Nproc));
    assert_eq!((r[1].soft, r[1].hard), (100, 100));
    assert!(matches!(r[2].kind, RlimitKind::Fsize));
    assert_eq!((r[2].soft, r[2].hard), (120 << 20, 128 << 20));
    assert!(matches!(r[3].kind, RlimitKind::Sigpending));
    assert!(matches!(r[4].kind, RlimitKind::Locks));
    assert!(matches!(r[5].kind, RlimitKind::Msgqueue));
    assert_eq!((r[5].soft, r[5].hard), (100, 100));
}

#[test]
fn child_setup_runs_in_strict_order() {
    let p = child_setup_plan();
    assert_eq!(p.len(), 6);
    assert!(matches!(p[0], ChildStage::SetParentDeathSignal));
    assert!(matches!(p[1], ChildStage::WriteIdMaps));
    assert!(matches!(p[2], ChildStage::SetupLoopback));
    assert!(matches!(p[3], ChildStage::BuildFilesystem));
    assert!(matches!(p[4], ChildStage::DropCapabilities));
    assert!(matches!(p[5], ChildStage::SetResourceLimits));
}

#[test]
fn exec_runs_the_runner_under_the_bundled_shell() {
    let (path, argv) = exec_plan();
    assert_eq!(path, "/ATO/bash");
    assert_eq!(argv, vec!["/ATO/bash".to_string(), "/ATO/runner".to_string()]);
}

#[test]
fn image_names_are_normalized_into_file_names() {
    assert_eq!(normalize_image("attemptthisonline/zsh:latest"), "attemptthisonline+zsh+latest");
    assert_eq!(normalize_image("plain"), "plain");
    let l = Language { image: "a/b:c".to_string() };
    assert_eq!(rootfs_path(&l), "/usr/local/lib/ATO/rootfs/a+b+c");
    assert_eq!(env_file_path(&l), "/usr/local/lib/ATO/env/a+b+c");
    assert_eq!(default_runner_path("zsh"), "/usr/local/share/ATO/runners/zsh");
}

#[test]
fn cgroup_files_and_paths() {
    assert_eq!(cgroup_dir_path("/sys/fs/cgroup/ATO", "00ff"), "/sys/fs/cgroup/ATO/00ff");
    let w = cgroup_setup_writes("/sys/fs/cgroup/ATO/00ff", &None);
    assert_eq!(w.len(), 1);
    assert_eq!(w[0].path, "/sys/fs/cgroup/ATO/00ff/memory.swap.max");
    assert_eq!(w[0].contents, "0");
    let w = cgroup_setup_writes("/sys/fs/cgroup/ATO/00ff", &Some(256 << 20));
    assert_eq!(w.len(), 2);
    assert_eq!(w[0].path, "/sys/fs/cgroup/ATO/00ff/memory.max");
    assert_eq!(w[0].contents, "268435456");
    assert_eq!(w[1].path, "/sys/fs/cgroup/ATO/00ff/memory.swap.max");
    assert_eq!(w[1].contents, "0");
    let k = cgroup_kill_write("/sys/fs/cgroup/ATO/00ff");
    assert_eq!(k.path, "/sys/fs/cgroup/ATO/00ff/cgroup.kill");
    assert_eq!(k.contents, "1");
}

#[test]
fn cgroup_removal_retries_briefly_then_gives_up() {
    assert!(matches!(removal_step(&RemoveOutcome::Removed, 0), RemovalAction::Finished));
    assert!(matches!(removal_step(&RemoveOutcome::Busy, 0), RemovalAction::RetryAfterYield));
    assert!(matches!(
        removal_step(&RemoveOutcome::Busy, CGROUP_REMOVE_MAX_ATTEMPT_TIME_MS - 1),
        RemovalAction::RetryAfterYield
    ));
    assert!(matches!(
        removal_step(&RemoveOutcome::Busy, CGROUP_REMOVE_MAX_ATTEMPT_TIME_MS),
        RemovalAction::GiveUp
    ));
    assert!(matches!(removal_step(&RemoveOutcome::OtherError, 0), RemovalAction::GiveUp));
}

#[test]
fn loopback_address_request_is_127_0_0_1_slash_8() {
    let a = loopback_addr_request(4242, 1);
    assert_eq!(a.seq, 0);
    assert_eq!(a.pid, 4242);
    assert!(a.flags.request && a.flags.create && a.flags.excl && a.flags.ack);
    assert!(a.family_inet);
    assert_eq!(a.prefix_len, 8);
    assert!(a.permanent);
    assert_eq!(a.scope, RT_SCOPE_HOST);
    assert_eq!(a.if_index, 1);
    assert_eq!(a.attrs.len(), 2);
    assert!(matches!(a.attrs[0].kind, AddrAttrKind::Local));
    assert_eq!(a.attrs[0].rta_len, 8);
    assert_eq!(a.attrs[0].payload, vec![127, 0, 0, 1]);
    assert!(matches!(a.attrs[1].kind, AddrAttrKind::Address));
    assert_eq!(a.attrs[1].payload, vec![127, 0, 0, 1]);
}

#[test]
fn loopback_link_request_brings_the_interface_up() {
    let l = loopback_link_request(4242, 1);
    assert_eq!(l.seq, 1);
    assert!(l.flags.request && l.flags.ack);
    assert!(!l.flags.create && !l.flags.excl);
    assert!(l.family_unspecified && l.hw_loopback);
    assert!(l.up && l.loopback);
    assert_eq!(l.change_mask, 0xFFFFFFFF);
}

#[test]
fn netlink_replies_must_be_clean_acks() {
    assert!(check_netlink_reply(true, Some(0)).is_ok());
    assert!(check_netlink_reply(true, Some(-17)).is_err());
    assert!(check_netlink_reply(true, None).is_err());
    assert!(check_netlink_reply(false, Some(0)).is_err());
}

fn sample_request() -> Request {
    Request {
        language: "zsh".to_string(),
        code: b"print hi".to_vec(),
        input: b"stdin".to_vec(),
        arguments: vec![b"-x".to_vec()],
        options: vec![b"-e".to_vec()],
        timeout: 5,
    }
}

#[test]
fn filesystem_plan_has_the_documented_shape() {
    let lang = Language { image: "images/zsh:5".to_string() };
    let req = sample_request();
    let plan = filesystem_plan(&lang, &req, &None);
    assert_eq!(plan.len(), 51);
    assert!(matches!(plan[0], FsStep::MakeRootPrivate));
    match &plan[1] {
        FsStep::Mount { dest, fstype, options, .. } => {
            assert_eq!(dest.as_str(), "/run/ATO");
            assert_eq!(fstype.as_str(), "tmpfs");
            assert_eq!(options.as_str(), "mode=755,size=655350k");
        },
        _ => panic!("expected the scratch tmpfs"),
    }
    match &plan[5] {
        FsStep::Mount { dest, fstype, options, .. } => {
            assert_eq!(dest.as_str(), "/run/ATO/merged");
            assert_eq!(fstype.as_str(), "overlay");
            assert_eq!(
                options.as_str(),
                "upperdir=/run/ATO/upper,lowerdir=/usr/local/share/ATO/overlayfs_upper:/usr/local/lib/ATO/rootfs/images+zsh+5,workdir=/run/ATO/work"
            );
        },
        _ => panic!("expected the overlay mount"),
    }
    assert!(matches!(plan[44], FsStep::PivotRoot));
    match &plan[45] {
        FsStep::WriteFile { path, contents } => {
            assert_eq!(path.as_str(), "/ATO/code");
            assert_eq!(contents.as_slice(), b"print hi");
        },
        _ => panic!("expected the code file"),
    }
    match &plan[46] {
        FsStep::Symlink { target, linkpath } => {
            assert_eq!(target.as_str(), "/ATO/default_runner");
            assert_eq!(linkpath.as_str(), "/ATO/runner");
        },
        _ => panic!("expected the runner link"),
    }
    match &plan[48] {
        FsStep::WriteFile { path, contents } => {
            assert_eq!(path.as_str(), "/ATO/arguments");
            assert_eq!(contents.as_slice(), b"-x\x00");
        },
        _ => panic!("expected the arguments file"),
    }
    match &plan[50] {
        FsStep::ChangeDir { path } => assert_eq!(path.as_str(), "/ATO"),
        _ => panic!("expected the final chdir"),
    }
}

#[test]
fn special_files_bind_the_language_runner() {
    let steps = special_files_plan("zsh");
    assert_eq!(steps.len(), 37);
    match &steps[36] {
        FsStep::BindMount { src, dest, flags } => {
            assert_eq!(src.as_str(), "/usr/local/share/ATO/runners/zsh");
            assert_eq!(dest.as_str(), "./ATO/default_runner");
            assert!(flags.nosuid && flags.bind && flags.rdonly);
        },
        _ => panic!("expected the runner bind mount"),
    }
    match &steps[13] {
        FsStep::TouchFile { path } => assert_eq!(path.as_str(), "./dev/full"),
        _ => panic!("expected the device placeholder"),
    }
}

#[test]
fn custom_runner_blob_replaces_the_link() {
    let req = sample_request();
    let blob = Some(b"#!/bin/sh\nexit 0\n".to_vec());
    let steps = request_files_plan(&req, &blob);
    assert_eq!(steps.len(), 5);
    match &steps[1] {
        FsStep::WriteFile { path, contents } => {
            assert_eq!(path.as_str(), "/ATO/runner");
            assert_eq!(contents.as_slice(), b"#!/bin/sh\nexit 0\n");
        },
        _ => panic!("expected the custom runner blob"),
    }
}
