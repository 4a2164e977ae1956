//! Flash orchestration: the fixed sequence of tool invocations for one
//! device, and the state machine of a whole flash run over the selected
//! devices of a session.

use vstd::prelude::*;
use crate::device::{DeviceRecord, DeviceView, views};

verus! {

/// Number of tool invocations in the flashing sequence of one device.
pub const STEP_COUNT: usize = 6;

/// The board artifacts that the flashing steps write, besides the assembled image.
pub struct ToolPaths {
    pub loader: String,
    pub parameter: String,
    pub uboot: String,
    pub boot: String,
}

/// The views of a sequence of strings.
pub open spec fn str_views(s: Seq<String>) -> Seq<Seq<char>> {
    s.map_values(|x: String| x@)
}

/// The arguments of step `step` of the sequence for the device at `loc`:
/// upgrade the loader (the device stays in download mode), write the
/// parameter file, u-boot, the boot image and the assembled image, then reset.
pub open spec fn step_args(step: int, loc: Seq<char>, paths: ToolPaths, image: Seq<char>) -> Seq<
    Seq<char>,
> {
    let scope = seq!["-s"@, loc];
    if step == 0 {
        scope + seq!["ul"@, paths.loader@, "-noreset"@]
    } else if step == 1 {
        scope + seq!["di"@, "-p"@, paths.parameter@]
    } else if step == 2 {
        scope + seq!["di"@, "-uboot"@, paths.uboot@]
    } else if step == 3 {
        scope + seq!["di"@, "-b"@, paths.boot@]
    } else if step == 4 {
        scope + seq!["di"@, "-rootfs"@, image]
    } else {
        scope + seq!["rd"@]
    }
}

/// The progress label of a device whose step `step` has completed.
pub open spec fn step_label(step: int) -> Seq<char> {
    if step == 0 {
        "upgrade loader"@
    } else if step == 1 {
        "writing parameter"@
    } else if step == 2 {
        "Writing uboot"@
    } else if step == 3 {
        "Writing boot"@
    } else if step == 4 {
        "Writing rootfs"@
    } else {
        "Reset Device"@
    }
}

/// The progress label of a device whose whole sequence has completed.
pub open spec fn success_label() -> Seq<char> {
    "SUCCESS"@
}

/// The progress label of a device whose step `step` failed.
pub open spec fn failure_label(step: int) -> Seq<char> {
    "FAILED: "@ + step_label(step)
}

fn lit(s: &str) -> (r: String)
    ensures
        r@ == s@,
{
    String::from_str(s)
}

/// The arguments of one step of the sequence for the device at `loc`.
pub fn tool_args(step: usize, loc: &String, paths: &ToolPaths, image: &String) -> (r: Vec<String>)
    requires
        step < STEP_COUNT,
    ensures
        str_views(r@) == step_args(step as int, loc@, *paths, image@),
{
    let mut r: Vec<String> = Vec::new();
    r.push(lit("-s"));
    r.push(loc.clone());
    if step == 0 {
        r.push(lit("ul"));
        r.push(paths.loader.clone());
        r.push(lit("-noreset"));
    } else if step == 1 {
        r.push(lit("di"));
        r.push(lit("-p"));
        r.push(paths.parameter.clone());
    } else if step == 2 {
        r.push(lit("di"));
        r.push(lit("-uboot"));
        r.push(paths.uboot.clone());
    } else if step == 3 {
        r.push(lit("di"));
        r.push(lit("-b"));
        r.push(paths.boot.clone());
    } else if step == 4 {
        r.push(lit("di"));
        r.push(lit("-rootfs"));
        r.push(image.clone());
    } else {
        r.push(lit("rd"));
    }
    assert(str_views(r@) =~= step_args(step as int, loc@, *paths, image@));
    r
}

/// The label of one completed step.
pub fn progress_label(step: usize) -> (r: String)
    requires
        step < STEP_COUNT,
    ensures
        r@ == step_label(step as int),
{
    if step == 0 {
        lit("upgrade loader")
    } else if step == 1 {
        lit("writing parameter")
    } else if step == 2 {
        lit("Writing uboot")
    } else if step == 3 {
        lit("Writing boot")
    } else if step == 4 {
        lit("Writing rootfs")
    } else {
        lit("Reset Device")
    }
}

/// The arguments that reset the device at `loc` into mask-ROM mode.
pub open spec fn maskrom_args(loc: Seq<char>) -> Seq<Seq<char>> {
    seq!["-s"@, loc, "rd"@, "3"@]
}

/// The locations of the checked devices of `devs`, in order.
pub open spec fn selected_locations(devs: Seq<DeviceView>) -> Seq<Seq<char>>
    decreases devs.len(),
{
    if devs.len() == 0 {
        seq![]
    } else {
        let rest = selected_locations(devs.drop_last());
        if devs.last().checked {
            rest.push(devs.last().loc_id)
        } else {
            rest
        }
    }
}

/// The tool invocations that switch every checked device into mask-ROM
/// mode, one per device, in order.
pub fn maskrom_commands(devices: &Vec<DeviceRecord>) -> (r: Vec<Vec<String>>)
    ensures
        r@.len() == selected_locations(views(devices@)).len(),
        forall|i: int|
            0 <= i < r@.len() ==> str_views(#[trigger] r@[i]@) == maskrom_args(
                selected_locations(views(devices@))[i],
            ),
{
    let mut r: Vec<Vec<String>> = Vec::new();
    let mut i: usize = 0;
    while i < devices.len()
        invariant
            i <= devices@.len(),
            r@.len() == selected_locations(views(devices@.subrange(0, i as int))).len(),
            forall|k: int|
                0 <= k < r@.len() ==> str_views(#[trigger] r@[k]@) == maskrom_args(
                    selected_locations(views(devices@.subrange(0, i as int)))[k],
                ),
        decreases devices.len() - i,
    {
        assert(views(devices@.subrange(0, i + 1)).drop_last() =~= views(
            devices@.subrange(0, i as int),
        ));
        let d = &devices[i];
        if d.checked {
            let mut args: Vec<String> = Vec::new();
            args.push(lit("-s"));
            args.push(d.loc_id.clone());
            args.push(lit("rd"));
            args.push(lit("3"));
            assert(str_views(args@) =~= maskrom_args(d.loc_id@));
            r.push(args);
        }
        i = i + 1;
    }
    assert(devices@.subrange(0, i as int) =~= devices@);
    r
}

/// `log` with the line `line` appended.
pub fn append_progress(log: &String, line: &str) -> (r: String)
    ensures
        r@ == log@ + line@ + "\n"@,
{
    log.clone().concat(line).concat("\n")
}

/// Registration of the run's callbacks with the front end; nothing is
/// needed beyond the actions the run hands out, so it always succeeds.
pub fn callback_func_register() -> (r: Result<(), ()>)
    ensures
        r is Ok,
{
    Ok(())
}

/// The global state of a flash run.
#[derive(Clone, Copy, PartialEq, Eq, Structural, Debug)]
pub enum RunPhase {
    Idle,
    Assembling,
    /// Step `step` of the sequence of the device at position `device` is running.
    Flashing { device: usize, step: usize },
    Done,
    Failed,
}

/// A step of one device's sequence that the tool reported as failed.
pub struct StepFailure {
    pub loc_id: String,
    pub step: usize,
}

/// What the caller is asked to do next.
pub enum FlashAction {
    /// Assemble the image for the run's version and board.
    Assemble,
    /// Run the flashing tool with `args` for the device at position `device`,
    /// publish the device's progress, and report how the tool exited.
    RunTool { device: usize, args: Vec<String> },
    /// The run is over; resume polling the registry.
    Finish,
}

/// One flash run over a session: the chosen board and version and the
/// device snapshot, of which the checked devices are flashed in order.
pub struct FlashRun {
    pub board: String,
    pub version: String,
    pub paths: ToolPaths,
    pub phase: RunPhase,
    pub devices: Vec<DeviceRecord>,
    /// The assembled image, once there is one.
    pub image: String,
    pub failures: Vec<StepFailure>,
}

/// The first checked device at position `i` or later.
pub open spec fn next_selected(devs: Seq<DeviceView>, i: int) -> Option<int>
    decreases devs.len() - i,
{
    if i < 0 || i >= devs.len() {
        None
    } else if devs[i].checked {
        Some(i)
    } else {
        next_selected(devs, i + 1)
    }
}

/// `d` with its progress replaced.
pub open spec fn with_progress(d: DeviceView, p: Seq<char>) -> DeviceView {
    DeviceView { progress: p, ..d }
}

/// The failures as (location, step) pairs.
pub open spec fn failure_views(s: Seq<StepFailure>) -> Seq<(Seq<char>, int)> {
    s.map_values(|f: StepFailure| (f.loc_id@, f.step as int))
}

/// The action that starts the sequence of device `d` of `devs`, or ends the run.
pub open spec fn start_of(
    run: FlashRun,
    devs: Seq<DeviceView>,
    next: Option<int>,
    phase: RunPhase,
    action: FlashAction,
) -> bool {
    match next {
        Some(d) => {
            &&& phase == RunPhase::Flashing { device: d as usize, step: 0 }
            &&& action matches FlashAction::RunTool { device, args } && device == d && str_views(
                args@,
            ) == step_args(0, devs[d].loc_id, run.paths, run.image@)
        },
        None => phase == RunPhase::Done && action is Finish,
    }
}

impl FlashRun {
    /// The phase agrees with the devices: a running step belongs to a checked
    /// device and lies within the sequence.
    pub open spec fn wf(&self) -> bool {
        match self.phase {
            RunPhase::Flashing { device, step } => device < self.devices@.len() && step
                < STEP_COUNT && self.devices@[device as int].checked,
            _ => true,
        }
    }

    /// A run that has not started.
    pub fn new(board: String, version: String, paths: ToolPaths, devices: Vec<DeviceRecord>) -> (r:
        FlashRun)
        ensures
            r.phase == RunPhase::Idle,
            r.board == board,
            r.version == version,
            r.paths == paths,
            r.devices == devices,
            r.failures@.len() == 0,
            r.image@.len() == 0,
            r.wf(),
    {
        FlashRun {
            board,
            version,
            paths,
            phase: RunPhase::Idle,
            devices,
            image: String::new(),
            failures: Vec::new(),
        }
    }

    /// Starts the run: the image is assembled first.
    pub fn begin(&mut self) -> (r: FlashAction)
        requires
            old(self).phase == RunPhase::Idle,
        ensures
            final(self).phase == RunPhase::Assembling,
            r is Assemble,
            final(self).board == old(self).board,
            final(self).version == old(self).version,
            final(self).devices == old(self).devices,
            final(self).image == old(self).image,
            final(self).failures == old(self).failures,
            final(self).paths == old(self).paths,
            final(self).wf(),
    {
        self.phase = RunPhase::Assembling;
        FlashAction::Assemble
    }

    /// The assembly failed: the run fails before any device is touched.
    pub fn assembly_failed(&mut self) -> (r: FlashAction)
        requires
            old(self).phase == RunPhase::Assembling,
        ensures
            final(self).phase == RunPhase::Failed,
            r is Finish,
            final(self).board == old(self).board,
            final(self).version == old(self).version,
            final(self).paths == old(self).paths,
            final(self).devices == old(self).devices,
            final(self).image == old(self).image,
            final(self).failures == old(self).failures,
            final(self).wf(),
    {
        self.phase = RunPhase::Failed;
        FlashAction::Finish
    }

    /// The first step of the first checked device at position `from` or
    /// later, or the end of the run where there is none.
    fn start_next(&mut self, from: usize) -> (r: FlashAction)
        ensures
            final(self).devices == old(self).devices,
            final(self).image == old(self).image,
            final(self).failures == old(self).failures,
            final(self).paths == old(self).paths,
            final(self).board == old(self).board,
            final(self).version == old(self).version,
            start_of(
                *final(self),
                views(old(self).devices@),
                next_selected(views(old(self).devices@), from as int),
                final(self).phase,
                r,
            ),
            final(self).wf(),
    {
        let mut d: usize = from;
        while d < self.devices.len() && !self.devices[d].checked
            invariant
                from <= d,
                next_selected(views(self.devices@), from as int) == next_selected(
                    views(self.devices@),
                    d as int,
                ),
            decreases self.devices.len() - d,
        {
            d = d + 1;
        }
        if d < self.devices.len() {
            let args = tool_args(0, &self.devices[d].loc_id, &self.paths, &self.image);
            self.phase = RunPhase::Flashing { device: d, step: 0 };
            FlashAction::RunTool { device: d, args }
        } else {
            self.phase = RunPhase::Done;
            FlashAction::Finish
        }
    }

    /// The image is assembled: flashing starts with the first checked device,
    /// or the run is done where none is checked.
    pub fn assembled(&mut self, image: String) -> (r: FlashAction)
        requires
            old(self).phase == RunPhase::Assembling,
        ensures
            final(self).image == image,
            final(self).board == old(self).board,
            final(self).version == old(self).version,
            final(self).devices == old(self).devices,
            final(self).failures == old(self).failures,
            final(self).paths == old(self).paths,
            start_of(
                *final(self),
                views(old(self).devices@),
                next_selected(views(old(self).devices@), 0),
                final(self).phase,
                r,
            ),
            final(self).wf(),
    {
        self.image = image;
        self.start_next(0)
    }

    fn set_progress(&mut self, d: usize, progress: String)
        requires
            d < old(self).devices@.len(),
        ensures
            views(final(self).devices@) == views(old(self).devices@).update(
                d as int,
                with_progress(views(old(self).devices@)[d as int], progress@),
            ),
            final(self).devices@.len() == old(self).devices@.len(),
            final(self).phase == old(self).phase,
            final(self).image == old(self).image,
            final(self).failures == old(self).failures,
            final(self).paths == old(self).paths,
            final(self).board == old(self).board,
            final(self).version == old(self).version,
    {
        let mut dev = self.devices[d].duplicate();
        dev.progress = progress;
        self.devices.set(d, dev);
        assert(views(self.devices@) =~= views(old(self).devices@).update(
            d as int,
            with_progress(views(old(self).devices@)[d as int], progress@),
        ));
    }

    /// The running step has ended, successfully or not. On success the device
    /// shows the step's label and its next step runs, or, after the last
    /// step, it shows `SUCCESS`. On failure the device shows the failed step,
    /// the failure is recorded, and its remaining steps are skipped. Either
    /// way the run then goes on with the next checked device, and is done
    /// after the last: a failing device never fails the run.
    pub fn step_finished(&mut self, success: bool) -> (r: FlashAction)
        requires
            old(self).phase is Flashing,
            old(self).wf(),
        ensures
            ({
                let (d, s) = match old(self).phase {
                    RunPhase::Flashing { device, step } => (device as int, step as int),
                    _ => (0, 0),
                };
                let devs = views(old(self).devices@);
                let label = if !success {
                    failure_label(s)
                } else if s + 1 < STEP_COUNT {
                    step_label(s)
                } else {
                    success_label()
                };
                let new_devs = devs.update(d, with_progress(devs[d], label));
                &&& views(final(self).devices@) == new_devs
                &&& final(self).board == old(self).board
                &&& final(self).version == old(self).version
                &&& final(self).image == old(self).image
                &&& final(self).paths == old(self).paths
                &&& if success {
                    failure_views(final(self).failures@) == failure_views(old(self).failures@)
                } else {
                    failure_views(final(self).failures@) == failure_views(
                        old(self).failures@,
                    ).push((devs[d].loc_id, s))
                }
                &&& if success && s + 1 < STEP_COUNT {
                    &&& final(self).phase == RunPhase::Flashing {
                        device: d as usize,
                        step: (s + 1) as usize,
                    }
                    &&& r matches FlashAction::RunTool { device, args } && device == d
                        && str_views(args@) == step_args(
                        s + 1,
                        devs[d].loc_id,
                        old(self).paths,
                        old(self).image@,
                    )
                } else {
                    start_of(*final(self), new_devs, next_selected(new_devs, d + 1), final(self).phase, r)
                }
            }),
            final(self).wf(),
    {
        let (d, s) = match self.phase {
            RunPhase::Flashing { device, step } => (device, step),
            _ => (0, 0),
        };
        let ghost devs = views(self.devices@);
        let n = self.devices.len();
        assert(d < n);
        if success && s + 1 < STEP_COUNT {
            let label = progress_label(s);
            self.set_progress(d, label);
            let args = tool_args(s + 1, &self.devices[d].loc_id, &self.paths, &self.image);
            self.phase = RunPhase::Flashing { device: d, step: s + 1 };
            assert(views(self.devices@)[d as int].checked);
            return FlashAction::RunTool { device: d, args };
        }
        if success {
            self.set_progress(d, lit("SUCCESS"));
        } else {
            let loc = self.devices[d].loc_id.clone();
            let label = lit("FAILED: ").concat(progress_label(s).as_str());
            self.set_progress(d, label);
            let ghost before = self.failures@;
            self.failures.push(StepFailure { loc_id: loc, step: s });
            assert(failure_views(self.failures@) =~= failure_views(before).push(
                (devs[d as int].loc_id, s as int),
            ));
        }
        self.start_next(d + 1)
    }
}

} // verus!
