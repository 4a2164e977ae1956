use rk_flash::assembly::{
    board_subtree_path, normalized_mode, plan_step, AssemblyErrorKind, AssemblyOp, AssemblyRun,
    AssemblyStep, OpKind, OpOutcome, CREDENTIALS_MODE, PLAN_LEN,
};

fn run_with(version: &str, board: &str, outcome_of: impl Fn(&AssemblyOp) -> OpOutcome) -> (Vec<AssemblyOp>, Result<String, (AssemblyErrorKind, String)>) {
    let mut run = AssemblyRun::new(version.to_string(), board.to_string());
    let mut performed = vec![];
    let mut op = run.current();
    loop {
        let outcome = outcome_of(&op);
        performed.push(op);
        match run.advance(outcome) {
            AssemblyStep::Perform(next) => op = next,
            AssemblyStep::Finish(r) => {
                return (performed, r.map_err(|e| (e.kind, e.path)));
            }
        }
    }
}

fn count(ops: &[AssemblyOp], kind: OpKind) -> usize {
    ops.iter().filter(|o| o.kind == kind).count()
}

#[test]
fn full_assembly_walks_plan_once() {
    let (ops, r) = run_with("v1", "dc11p626", |_| OpOutcome::Done);
    assert_eq!(r, Ok("tmp/rootfs-v1.img".to_string()));
    assert_eq!(ops.len(), PLAN_LEN);
    assert_eq!(count(&ops, OpKind::Mount), 1);
    assert_eq!(count(&ops, OpKind::Unmount), 1);
    let rename = ops.iter().find(|o| o.kind == OpKind::Rename).unwrap();
    assert_eq!(rename.source, "tmp/rootfs.img");
    assert_eq!(rename.target, "tmp/rootfs-v1.img");
    let mount = ops.iter().find(|o| o.kind == OpKind::Mount).unwrap();
    assert_eq!(mount.target, "tmp/rootfs-v1");
}

#[test]
fn second_assembly_reuses_cached_image() {
    let (first, r1) = run_with("v1", "dc21scu", |_| OpOutcome::Done);
    let (second, r2) = run_with("v1", "dc21scu", |o| {
        if o.kind == OpKind::CheckCached { OpOutcome::Present } else { OpOutcome::Done }
    });
    assert_eq!(r1, r2);
    assert_eq!(count(&first, OpKind::Mount), 1);
    assert_eq!(second.len(), 1);
    assert_eq!(count(&second, OpKind::Mount), 0);
}

#[test]
fn missing_overlay_sources_are_skipped() {
    let (ops, r) = run_with("v2", "dc11p626", |o| {
        if o.kind == OpKind::Overlay || o.kind == OpKind::CheckCached { OpOutcome::Missing } else { OpOutcome::Done }
    });
    assert_eq!(r, Ok("tmp/rootfs-v2.img".to_string()));
    assert_eq!(ops.len(), PLAN_LEN);
    assert_eq!(count(&ops, OpKind::Overlay), 6);
}

#[test]
fn failure_after_mount_unmounts_before_reporting() {
    let (ops, r) = run_with("v3", "dc11p626", |o| {
        if o.kind == OpKind::CopyFile && o.source.ends_with(".bin") { OpOutcome::Failed } else { OpOutcome::Done }
    });
    assert_eq!(r, Err((AssemblyErrorKind::Io, "tmp/v3/board/dc11p626.bin".to_string())));
    let last = ops.last().unwrap();
    assert_eq!(last.kind, OpKind::Unmount);
    assert_eq!(last.target, "tmp/rootfs-v3");
    assert_eq!(count(&ops, OpKind::Rename), 0);
}

#[test]
fn failed_unmount_after_failure_reports_first_failure() {
    let (ops, r) = run_with("v3", "dc11p626", |o| {
        if o.kind == OpKind::WriteText || o.kind == OpKind::Unmount { OpOutcome::Failed } else { OpOutcome::Done }
    });
    assert_eq!(r, Err((AssemblyErrorKind::Io, "tmp/rootfs-v3/etc/hostname".to_string())));
    assert_eq!(ops.last().unwrap().kind, OpKind::Unmount);
}

#[test]
fn missing_release_archive_is_not_found_and_unmounts() {
    let (ops, r) = run_with("v9", "dc11p626", |o| {
        if o.kind == OpKind::ExtractRelease { OpOutcome::Missing } else { OpOutcome::Done }
    });
    assert_eq!(r, Err((AssemblyErrorKind::NotFound, "upgrade/v9.zip".to_string())));
    assert_eq!(ops.last().unwrap().kind, OpKind::Unmount);
}

#[test]
fn mount_failure_reports_mount_error_without_unmount() {
    let (ops, r) = run_with("v4", "dc11p626", |o| {
        if o.kind == OpKind::Mount { OpOutcome::Failed } else { OpOutcome::Done }
    });
    assert_eq!(r, Err((AssemblyErrorKind::Mount, "tmp/rootfs-v4".to_string())));
    assert_eq!(count(&ops, OpKind::Unmount), 0);
    assert_eq!(count(&ops, OpKind::Rename), 0);
}

#[test]
fn failed_unmount_on_success_path_is_mount_error() {
    let (_, r) = run_with("v5", "dc11p626", |o| {
        if o.kind == OpKind::Unmount { OpOutcome::Failed } else { OpOutcome::Done }
    });
    assert_eq!(r, Err((AssemblyErrorKind::Mount, "tmp/rootfs-v5".to_string())));
}

#[test]
fn board_selects_overlay_subtree() {
    assert_eq!(board_subtree_path("dc11scu"), "scu/filesystem");
    assert_eq!(board_subtree_path("dc11p626"), "board/filesystem");
    assert_eq!(board_subtree_path("dc11sc"), "board/filesystem");
    let op = plan_step("v1", "dc11scu", 10);
    assert_eq!(op.kind, OpKind::Overlay);
    assert_eq!(op.source, "tmp/v1/scu/filesystem/etc");
    assert_eq!(op.target, "tmp/rootfs-v1/etc");
}

#[test]
fn board_name_written_to_image() {
    let hostname = plan_step("v1", "dc21scu", 15);
    assert_eq!(hostname.kind, OpKind::WriteText);
    assert_eq!(hostname.source, "dc21scu");
    assert_eq!(hostname.target, "tmp/rootfs-v1/etc/hostname");
    let marker = plan_step("v1", "dc21scu", 16);
    assert_eq!(marker.target, "tmp/rootfs-v1/mnt/config/boardtype");
    let bin = plan_step("v1", "dc21scu", 14);
    assert_eq!(bin.target, "tmp/rootfs-v1/mnt/build/dc21scu.bin");
}

#[test]
fn credentials_mode_is_normalized() {
    assert_eq!(CREDENTIALS_MODE, 0o600);
    assert_eq!(normalized_mode(0o644), Some(0o600));
    assert_eq!(normalized_mode(0o100777), Some(0o600));
    assert_eq!(normalized_mode(0o000), Some(0o600));
    assert_eq!(normalized_mode(0o600), None);
    assert_eq!(normalized_mode(0o100600), None);
    let rc = plan_step("v1", "b", 17);
    assert_eq!((rc.kind, rc.mode), (OpKind::SetMode, 0o755));
    let ssh = plan_step("v1", "b", 18);
    assert_eq!((ssh.kind, ssh.target.as_str(), ssh.mode), (OpKind::NormalizeTree, "tmp/rootfs-v1/root/.ssh", 0o600));
}
