use rk_flash::device::DeviceRecord;
use rk_flash::flash::{
    append_progress, callback_func_register, maskrom_commands, tool_args, FlashAction, FlashRun,
    RunPhase, ToolPaths,
};

fn paths() -> ToolPaths {
    ToolPaths {
        loader: "rockdev/loader.bin".to_string(),
        parameter: "rockdev/parameter.txt".to_string(),
        uboot: "rockdev/uboot.img".to_string(),
        boot: "rockdev/boot.img".to_string(),
    }
}

fn device(loc: &str, checked: bool) -> DeviceRecord {
    DeviceRecord {
        checked,
        dev_no: "1".to_string(),
        loc_id: loc.to_string(),
        mode: "Loader".to_string(),
        serial_no: "s".to_string(),
        progress: "ready".to_string(),
    }
}

fn args_of(a: &FlashAction) -> (usize, Vec<String>) {
    match a {
        FlashAction::RunTool { device, args } => (*device, args.clone()),
        _ => panic!("expected a tool invocation"),
    }
}

#[test]
fn step_arguments_follow_the_tool_protocol() {
    let loc = "13".to_string();
    let img = "tmp/rootfs-v1.img".to_string();
    let p = paths();
    assert_eq!(tool_args(0, &loc, &p, &img), vec!["-s", "13", "ul", "rockdev/loader.bin", "-noreset"]);
    assert_eq!(tool_args(1, &loc, &p, &img), vec!["-s", "13", "di", "-p", "rockdev/parameter.txt"]);
    assert_eq!(tool_args(2, &loc, &p, &img), vec!["-s", "13", "di", "-uboot", "rockdev/uboot.img"]);
    assert_eq!(tool_args(3, &loc, &p, &img), vec!["-s", "13", "di", "-b", "rockdev/boot.img"]);
    assert_eq!(tool_args(4, &loc, &p, &img), vec!["-s", "13", "di", "-rootfs", "tmp/rootfs-v1.img"]);
    assert_eq!(tool_args(5, &loc, &p, &img), vec!["-s", "13", "rd"]);
}

#[test]
fn second_device_failing_uboot_does_not_fail_batch() {
    let devices = vec![device("1", true), device("2", true), device("3", true)];
    let mut run = FlashRun::new("dc11p626".to_string(), "v1".to_string(), paths(), devices);
    assert!(matches!(run.begin(), FlashAction::Assemble));
    let mut action = run.assembled("tmp/rootfs-v1.img".to_string());
    let mut invocations = 0;
    loop {
        match &action {
            FlashAction::Finish => break,
            FlashAction::Assemble => panic!("assembled twice"),
            FlashAction::RunTool { device, args } => {
                invocations += 1;
                let fails = *device == 1 && args[3] == "-uboot";
                action = run.step_finished(!fails);
            }
        }
    }
    assert_eq!(invocations, 6 + 3 + 6);
    assert_eq!(run.phase, RunPhase::Done);
    assert_eq!(run.devices[0].progress, "SUCCESS");
    assert_eq!(run.devices[1].progress, "FAILED: Writing uboot");
    assert_eq!(run.devices[2].progress, "SUCCESS");
    assert_eq!(run.failures.len(), 1);
    assert_eq!(run.failures[0].loc_id, "2");
    assert_eq!(run.failures[0].step, 2);
}

#[test]
fn progress_shows_last_completed_step() {
    let mut run = FlashRun::new("b".to_string(), "v".to_string(), paths(), vec![device("4", true)]);
    run.begin();
    let a = run.assembled("img".to_string());
    assert_eq!(args_of(&a), (0, tool_args(0, &"4".to_string(), &paths(), &"img".to_string())));
    assert_eq!(run.devices[0].progress, "ready");
    let a = run.step_finished(true);
    assert_eq!(run.devices[0].progress, "upgrade loader");
    assert_eq!(run.phase, RunPhase::Flashing { device: 0, step: 1 });
    assert_eq!(args_of(&a).1[3], "-p");
}

#[test]
fn unchecked_devices_are_skipped() {
    let devices = vec![device("1", false), device("2", true), device("3", false)];
    let mut run = FlashRun::new("b".to_string(), "v".to_string(), paths(), devices);
    run.begin();
    let a = run.assembled("img".to_string());
    assert_eq!(args_of(&a).0, 1);
    assert_eq!(args_of(&a).1[1], "2");
    let mut a = a;
    for _ in 0..6 {
        a = run.step_finished(true);
    }
    assert!(matches!(a, FlashAction::Finish));
    assert_eq!(run.devices[0].progress, "ready");
    assert_eq!(run.devices[1].progress, "SUCCESS");
    assert_eq!(run.devices[2].progress, "ready");
}

#[test]
fn nothing_selected_is_done_at_once() {
    let mut run = FlashRun::new("b".to_string(), "v".to_string(), paths(), vec![device("1", false)]);
    run.begin();
    assert!(matches!(run.assembled("img".to_string()), FlashAction::Finish));
    assert_eq!(run.phase, RunPhase::Done);
}

#[test]
fn assembly_failure_fails_run_before_any_device() {
    let mut run = FlashRun::new("b".to_string(), "v".to_string(), paths(), vec![device("1", true)]);
    run.begin();
    assert_eq!(run.phase, RunPhase::Assembling);
    assert!(matches!(run.assembly_failed(), FlashAction::Finish));
    assert_eq!(run.phase, RunPhase::Failed);
    assert_eq!(run.devices[0].progress, "ready");
}

#[test]
fn first_step_failure_skips_rest_of_device() {
    let mut run = FlashRun::new("b".to_string(), "v".to_string(), paths(), vec![device("8", true)]);
    run.begin();
    run.assembled("img".to_string());
    assert!(matches!(run.step_finished(false), FlashAction::Finish));
    assert_eq!(run.devices[0].progress, "FAILED: upgrade loader");
    assert_eq!(run.phase, RunPhase::Done);
}

#[test]
fn maskrom_commands_for_checked_devices() {
    let devices = vec![device("1", true), device("2", false), device("3", true)];
    let c = maskrom_commands(&devices);
    assert_eq!(c, vec![vec!["-s", "1", "rd", "3"], vec!["-s", "3", "rd", "3"]]);
}

#[test]
fn progress_log_appends_lines() {
    let log = append_progress(&"a\n".to_string(), "b");
    assert_eq!(log, "a\nb\n");
    assert!(callback_func_register().is_ok());
}
