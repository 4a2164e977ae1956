//! Image assembly: the fixed plan of file system, mount and archive
//! operations that turns a release and a board into a flashable root file
//! system image, and the state machine that walks it, skips what may be
//! missing, and releases the loop mount on every exit path.

use vstd::prelude::*;
use crate::text::{char_vec, matches_at};

verus! {

/// The kind of one operation of the assembly plan.
#[derive(Clone, Copy, PartialEq, Eq, Structural, Debug)]
pub enum OpKind {
    /// Does a file exist at `target`? (`Present` if it does.)
    CheckCached,
    /// Create the directory `target` if it is absent.
    EnsureDir,
    /// Copy the file `source` to `target`.
    CopyFile,
    /// Loop-mount the image file `source` onto the directory `target`.
    Mount,
    /// Unpack the gzip-compressed tarball `source` into `target`.
    ExtractTarGz,
    /// Unpack the release archive `source` into `target` (`Missing` if absent).
    ExtractRelease,
    /// Copy the tree `source` file by file onto `target` (`Missing` if absent).
    Overlay,
    /// Write the text `source` to the file `target`, replacing its content.
    WriteText,
    /// Set the mode of `target` to `mode`.
    SetMode,
    /// Bring every entry of the tree `target` to `mode` (see [`normalized_mode`]).
    NormalizeTree,
    /// Unmount the directory `target`.
    Unmount,
    /// Rename `source` to `target`.
    Rename,
    /// Remove the tree `target`.
    RemoveTree,
}

/// One operation of the plan.
pub struct AssemblyOp {
    pub kind: OpKind,
    pub source: String,
    pub target: String,
    pub mode: u32,
}

pub ghost struct OpView {
    pub kind: OpKind,
    pub source: Seq<char>,
    pub target: Seq<char>,
    pub mode: u32,
}

impl View for AssemblyOp {
    type V = OpView;

    open spec fn view(&self) -> OpView {
        OpView { kind: self.kind, source: self.source@, target: self.target@, mode: self.mode }
    }
}

/// How an operation ended, as the caller observed it.
#[derive(Clone, Copy, PartialEq, Eq, Structural, Debug)]
pub enum OpOutcome {
    Done,
    /// The file that `CheckCached` asked about exists.
    Present,
    /// A source that the operation reads does not exist.
    Missing,
    Failed,
}

#[derive(Clone, Copy, PartialEq, Eq, Structural, Debug)]
pub enum AssemblyErrorKind {
    /// The release archive of the requested version is missing.
    NotFound,
    /// Mounting or unmounting the image failed.
    Mount,
    /// Another file operation failed.
    Io,
}

/// Why an assembly failed, with the path concerned.
pub struct AssemblyError {
    pub kind: AssemblyErrorKind,
    pub path: String,
}

pub ghost struct ErrorView {
    pub kind: AssemblyErrorKind,
    pub path: Seq<char>,
}

impl View for AssemblyError {
    type V = ErrorView;

    open spec fn view(&self) -> ErrorView {
        ErrorView { kind: self.kind, path: self.path@ }
    }
}

/// The assembled image of a version: where it is kept, and where a later
/// assembly of the same version finds it.
pub open spec fn target_path(version: Seq<char>) -> Seq<char> {
    "tmp/rootfs-"@ + version + ".img"@
}

/// The mount point of the working copy.
pub open spec fn mount_dir(version: Seq<char>) -> Seq<char> {
    "tmp/rootfs-"@ + version
}

/// Where the release archive of a version is unpacked.
pub open spec fn release_dir(version: Seq<char>) -> Seq<char> {
    "tmp/"@ + version
}

/// The board whose overlay tree lies apart from the others'.
pub open spec fn scu_board() -> Seq<char> {
    seq!['d', 'c', '1', '1', 's', 'c', 'u']
}

/// The sub-path of an unpacked release that holds a board's overlay tree.
pub open spec fn board_subtree(board: Seq<char>) -> Seq<char> {
    if board == scu_board() {
        "scu/filesystem"@
    } else {
        "board/filesystem"@
    }
}

/// The overlay tree of a board within an unpacked release.
pub open spec fn overlay_root(version: Seq<char>, board: Seq<char>) -> Seq<char> {
    release_dir(version) + "/"@ + board_subtree(board)
}

/// Mode of the init script in the image.
pub const SCRIPT_MODE: u32 = 0o755;

/// Mode of every entry under the credentials directory of the image.
pub const CREDENTIALS_MODE: u32 = 0o600;

/// Number of operations in the plan.
pub const PLAN_LEN: usize = 24;

/// Position of the loop mount in the plan.
pub const MOUNT_AT: usize = 4;

/// Position of the unmount in the plan.
pub const UNMOUNT_AT: usize = 19;

/// Position of the rename of the working copy in the plan.
pub const RENAME_AT: usize = 20;

pub open spec fn opv(kind: OpKind, source: Seq<char>, target: Seq<char>, mode: u32) -> OpView {
    OpView { kind, source, target, mode }
}

/// Operation `i` of the plan that assembles `version` for `board`.
pub open spec fn plan_op(version: Seq<char>, board: Seq<char>, i: int) -> OpView {
    let m = mount_dir(version);
    let rel = release_dir(version);
    let fs = overlay_root(version, board);
    let none = Seq::<char>::empty();
    if i == 0 {
        opv(OpKind::CheckCached, none, target_path(version), 0)
    } else if i == 1 {
        opv(OpKind::EnsureDir, none, "tmp"@, 0)
    } else if i == 2 {
        opv(OpKind::EnsureDir, none, m, 0)
    } else if i == 3 {
        opv(OpKind::CopyFile, "rockdev/rootfs.img"@, "tmp/rootfs.img"@, 0)
    } else if i == 4 {
        opv(OpKind::Mount, "tmp/rootfs.img"@, m, 0)
    } else if i == 5 {
        opv(OpKind::ExtractTarGz, "rockdev/update-rootfs.tar.gz"@, "rockdev"@, 0)
    } else if i == 6 {
        opv(OpKind::Overlay, "rockdev/update-rootfs/etc"@, m + "/etc"@, 0)
    } else if i == 7 {
        opv(OpKind::Overlay, "rockdev/update-rootfs/root"@, m + "/root"@, 0)
    } else if i == 8 {
        opv(OpKind::ExtractRelease, "upgrade/"@ + version + ".zip"@, "tmp"@, 0)
    } else if i == 9 {
        opv(OpKind::ExtractTarGz, rel + "/board/filesystem.tar.gz"@, rel + "/board"@, 0)
    } else if i == 10 {
        opv(OpKind::Overlay, fs + "/etc"@, m + "/etc"@, 0)
    } else if i == 11 {
        opv(OpKind::Overlay, fs + "/mnt"@, m + "/mnt"@, 0)
    } else if i == 12 {
        opv(OpKind::Overlay, fs + "/root"@, m + "/root"@, 0)
    } else if i == 13 {
        opv(OpKind::Overlay, fs + "/usr"@, m + "/usr"@, 0)
    } else if i == 14 {
        opv(
            OpKind::CopyFile,
            rel + "/board/"@ + board + ".bin"@,
            m + "/mnt/build/"@ + board + ".bin"@,
            0,
        )
    } else if i == 15 {
        opv(OpKind::WriteText, board, m + "/etc/hostname"@, 0)
    } else if i == 16 {
        opv(OpKind::WriteText, board, m + "/mnt/config/boardtype"@, 0)
    } else if i == 17 {
        opv(OpKind::SetMode, none, m + "/etc/rc.local"@, SCRIPT_MODE)
    } else if i == 18 {
        opv(OpKind::NormalizeTree, none, m + "/root/.ssh"@, CREDENTIALS_MODE)
    } else if i == 19 {
        opv(OpKind::Unmount, none, m, 0)
    } else if i == 20 {
        opv(OpKind::Rename, "tmp/rootfs.img"@, target_path(version), 0)
    } else if i == 21 {
        opv(OpKind::RemoveTree, none, m, 0)
    } else if i == 22 {
        opv(OpKind::RemoveTree, none, rel, 0)
    } else {
        opv(OpKind::RemoveTree, none, "rockdev/update-rootfs"@, 0)
    }
}

fn lit(s: &str) -> (r: String)
    ensures
        r@ == s@,
{
    String::from_str(s)
}

fn op(kind: OpKind, source: String, target: String, mode: u32) -> (r: AssemblyOp)
    ensures
        r@ == opv(kind, source@, target@, mode),
{
    AssemblyOp { kind, source, target, mode }
}

/// The sub-path of an unpacked release that holds the overlay tree of `board`.
pub fn board_subtree_path(board: &str) -> (r: String)
    ensures
        r@ == board_subtree(board@),
{
    let cs = char_vec(board);
    let scu: Vec<char> = vec!['d', 'c', '1', '1', 's', 'c', 'u'];
    assert(scu@ =~= scu_board());
    if cs.len() == scu.len() && matches_at(&cs, &scu, 0) {
        assert(cs@ =~= scu_board());
        lit("scu/filesystem")
    } else {
        assert(board@ != scu_board()) by {
            if board@ == scu_board() {
                assert(cs@.subrange(0, 7) =~= cs@);
            }
        }
        lit("board/filesystem")
    }
}

/// Operation `i` of the plan that assembles `version` for `board`.
pub fn plan_step(version: &str, board: &str, i: usize) -> (r: AssemblyOp)
    requires
        i < PLAN_LEN,
    ensures
        r@ == plan_op(version@, board@, i as int),
{
    let m = lit("tmp/rootfs-").concat(version);
    let rel = lit("tmp/").concat(version);
    let sub = board_subtree_path(board);
    let fs = rel.clone().concat("/").concat(sub.as_str());
    if i == 0 {
        op(OpKind::CheckCached, String::new(), m.concat(".img"), 0)
    } else if i == 1 {
        op(OpKind::EnsureDir, String::new(), lit("tmp"), 0)
    } else if i == 2 {
        op(OpKind::EnsureDir, String::new(), m, 0)
    } else if i == 3 {
        op(OpKind::CopyFile, lit("rockdev/rootfs.img"), lit("tmp/rootfs.img"), 0)
    } else if i == 4 {
        op(OpKind::Mount, lit("tmp/rootfs.img"), m, 0)
    } else if i == 5 {
        op(OpKind::ExtractTarGz, lit("rockdev/update-rootfs.tar.gz"), lit("rockdev"), 0)
    } else if i == 6 {
        op(OpKind::Overlay, lit("rockdev/update-rootfs/etc"), m.concat("/etc"), 0)
    } else if i == 7 {
        op(OpKind::Overlay, lit("rockdev/update-rootfs/root"), m.concat("/root"), 0)
    } else if i == 8 {
        op(OpKind::ExtractRelease, lit("upgrade/").concat(version).concat(".zip"), lit("tmp"), 0)
    } else if i == 9 {
        op(
            OpKind::ExtractTarGz,
            rel.clone().concat("/board/filesystem.tar.gz"),
            rel.concat("/board"),
            0,
        )
    } else if i == 10 {
        op(OpKind::Overlay, fs.concat("/etc"), m.concat("/etc"), 0)
    } else if i == 11 {
        op(OpKind::Overlay, fs.concat("/mnt"), m.concat("/mnt"), 0)
    } else if i == 12 {
        op(OpKind::Overlay, fs.concat("/root"), m.concat("/root"), 0)
    } else if i == 13 {
        op(OpKind::Overlay, fs.concat("/usr"), m.concat("/usr"), 0)
    } else if i == 14 {
        op(
            OpKind::CopyFile,
            rel.concat("/board/").concat(board).concat(".bin"),
            m.concat("/mnt/build/").concat(board).concat(".bin"),
            0,
        )
    } else if i == 15 {
        op(OpKind::WriteText, board.to_owned(), m.concat("/etc/hostname"), 0)
    } else if i == 16 {
        op(OpKind::WriteText, board.to_owned(), m.concat("/mnt/config/boardtype"), 0)
    } else if i == 17 {
        op(OpKind::SetMode, String::new(), m.concat("/etc/rc.local"), SCRIPT_MODE)
    } else if i == 18 {
        op(OpKind::NormalizeTree, String::new(), m.concat("/root/.ssh"), CREDENTIALS_MODE)
    } else if i == 19 {
        op(OpKind::Unmount, String::new(), m, 0)
    } else if i == 20 {
        op(OpKind::Rename, lit("tmp/rootfs.img"), m.concat(".img"), 0)
    } else if i == 21 {
        op(OpKind::RemoveTree, String::new(), m, 0)
    } else if i == 22 {
        op(OpKind::RemoveTree, String::new(), rel, 0)
    } else {
        op(OpKind::RemoveTree, String::new(), lit("rockdev/update-rootfs"), 0)
    }
}

/// What the caller is asked to do next.
pub enum AssemblyStep {
    /// Perform the operation and report its outcome.
    Perform(AssemblyOp),
    /// The assembly is over: the image path, or why it failed.
    Finish(Result<String, AssemblyError>),
}

pub ghost enum StepView {
    Perform(OpView),
    Finish(Result<Seq<char>, ErrorView>),
}

impl View for AssemblyStep {
    type V = StepView;

    open spec fn view(&self) -> StepView {
        match self {
            AssemblyStep::Perform(o) => StepView::Perform(o@),
            AssemblyStep::Finish(Ok(p)) => StepView::Finish(Ok(p@)),
            AssemblyStep::Finish(Err(e)) => StepView::Finish(Err(e@)),
        }
    }
}

/// One assembly of a version for a board, walking the plan.
pub struct AssemblyRun {
    pub version: String,
    pub board: String,
    /// The operation whose outcome is awaited.
    pub cursor: usize,
    /// The image is mounted and no unmount has been attempted since.
    pub mounted: bool,
    /// The failure to report once the image is unmounted.
    pub pending: Option<AssemblyError>,
    pub finished: bool,
}

pub ghost struct RunView {
    pub version: Seq<char>,
    pub board: Seq<char>,
    pub cursor: int,
    pub mounted: bool,
    pub pending: Option<ErrorView>,
    pub finished: bool,
}

impl View for AssemblyRun {
    type V = RunView;

    open spec fn view(&self) -> RunView {
        RunView {
            version: self.version@,
            board: self.board@,
            cursor: self.cursor as int,
            mounted: self.mounted,
            pending: match self.pending {
                Some(e) => Some(e@),
                None => None,
            },
            finished: self.finished,
        }
    }
}

/// The error that `outcome` of `o` amounts to, if any. A missing cache
/// entry and a missing overlay source are no errors; a missing release
/// archive is `NotFound`; mount and unmount failures are `Mount`; every other
/// failure is `Io`, with the archive or file read where the operation reads
/// one, else with the path written.
pub open spec fn outcome_error(o: OpView, outcome: OpOutcome) -> Option<ErrorView> {
    if outcome == OpOutcome::Done || outcome == OpOutcome::Present {
        None
    } else if outcome == OpOutcome::Missing && (o.kind == OpKind::CheckCached || o.kind
        == OpKind::Overlay) {
        None
    } else if outcome == OpOutcome::Missing && o.kind == OpKind::ExtractRelease {
        Some(ErrorView { kind: AssemblyErrorKind::NotFound, path: o.source })
    } else if o.kind == OpKind::Mount || o.kind == OpKind::Unmount {
        Some(ErrorView { kind: AssemblyErrorKind::Mount, path: o.target })
    } else if o.kind == OpKind::CopyFile || o.kind == OpKind::ExtractTarGz || o.kind
        == OpKind::ExtractRelease {
        Some(ErrorView { kind: AssemblyErrorKind::Io, path: o.source })
    } else {
        Some(ErrorView { kind: AssemblyErrorKind::Io, path: o.target })
    }
}

/// The run that has performed nothing yet.
pub open spec fn initial_run(version: Seq<char>, board: Seq<char>) -> RunView {
    RunView { version, board, cursor: 0, mounted: false, pending: None, finished: false }
}

/// The next run and step once the awaited operation of `r` ended with `outcome`.
///
/// - After a failure while the image is mounted, the unmount is performed
///   first, and the failure is reported whatever the unmount's outcome.
/// - A cached image ends the run at once with its path.
/// - Otherwise the plan goes on to its next operation, and ends with the
///   image path after the last.
pub open spec fn transition(r: RunView, outcome: OpOutcome) -> (RunView, StepView) {
    let o = plan_op(r.version, r.board, r.cursor);
    let done = RunView { finished: true, mounted: false, pending: None, ..r };
    if r.pending is Some {
        (done, StepView::Finish(Err(r.pending->0)))
    } else {
        let err = outcome_error(o, outcome);
        let mounted = if o.kind == OpKind::Unmount {
            false
        } else if o.kind == OpKind::Mount && err is None {
            true
        } else {
            r.mounted
        };
        if err is Some {
            if mounted {
                (
                    RunView { cursor: UNMOUNT_AT as int, pending: err, ..r },
                    StepView::Perform(plan_op(r.version, r.board, UNMOUNT_AT as int)),
                )
            } else {
                (done, StepView::Finish(Err(err->0)))
            }
        } else if o.kind == OpKind::CheckCached && outcome == OpOutcome::Present {
            (done, StepView::Finish(Ok(target_path(r.version))))
        } else if r.cursor + 1 < PLAN_LEN {
            (
                RunView { cursor: r.cursor + 1, mounted, ..r },
                StepView::Perform(plan_op(r.version, r.board, r.cursor + 1)),
            )
        } else {
            (done, StepView::Finish(Ok(target_path(r.version))))
        }
    }
}

/// A run in progress: the mount is held exactly between the mount and the
/// unmount of the plan, and a pending failure waits at the unmount.
pub open spec fn run_wf(r: RunView) -> bool {
    &&& 0 <= r.cursor < PLAN_LEN
    &&& !r.finished
    &&& r.mounted <==> MOUNT_AT < r.cursor <= UNMOUNT_AT
    &&& r.pending is Some ==> r.cursor == UNMOUNT_AT && r.mounted
}

impl AssemblyRun {
    /// A run of the plan that assembles `version` for `board`.
    pub fn new(version: String, board: String) -> (r: AssemblyRun)
        ensures
            r@ == initial_run(version@, board@),
            run_wf(r@),
    {
        AssemblyRun { version, board, cursor: 0, mounted: false, pending: None, finished: false }
    }

    /// The operation whose outcome is awaited.
    pub fn current(&self) -> (r: AssemblyOp)
        requires
            run_wf(self@),
        ensures
            r@ == plan_op(self@.version, self@.board, self@.cursor),
    {
        plan_step(self.version.as_str(), self.board.as_str(), self.cursor)
    }

    /// Takes the outcome of the awaited operation and says what comes next.
    pub fn advance(&mut self, outcome: OpOutcome) -> (r: AssemblyStep)
        requires
            run_wf(old(self)@),
        ensures
            (final(self)@, r@) == transition(old(self)@, outcome),
            !final(self).finished ==> run_wf(final(self)@),
    {
        let o = self.current();
        if self.pending.is_some() {
            let e = self.pending.take();
            self.finished = true;
            self.mounted = false;
            return match e {
                Some(e) => AssemblyStep::Finish(Err(e)),
                None => AssemblyStep::Finish(Ok(String::new())),
            };
        }
        let err = outcome_failure(&o, outcome);
        let mounted = if o.kind == OpKind::Unmount {
            false
        } else if o.kind == OpKind::Mount && err.is_none() {
            true
        } else {
            self.mounted
        };
        match err {
            Some(e) => {
                if mounted {
                    self.cursor = UNMOUNT_AT;
                    self.pending = Some(e);
                    AssemblyStep::Perform(self.current())
                } else {
                    self.finished = true;
                    self.mounted = false;
                    AssemblyStep::Finish(Err(e))
                }
            },
            None => {
                if (o.kind == OpKind::CheckCached && outcome == OpOutcome::Present) || self.cursor
                    + 1 >= PLAN_LEN {
                    self.finished = true;
                    self.mounted = false;
                    let v = self.version.as_str();
                    AssemblyStep::Finish(Ok(lit("tmp/rootfs-").concat(v).concat(".img")))
                } else {
                    self.cursor = self.cursor + 1;
                    self.mounted = mounted;
                    AssemblyStep::Perform(self.current())
                }
            },
        }
    }
}

/// The error that `outcome` of `o` amounts to, if any.
pub fn outcome_failure(o: &AssemblyOp, outcome: OpOutcome) -> (r: Option<AssemblyError>)
    ensures
        match r {
            Some(e) => outcome_error(o@, outcome) == Some(e@),
            None => outcome_error(o@, outcome) is None,
        },
{
    if outcome == OpOutcome::Done || outcome == OpOutcome::Present {
        None
    } else if outcome == OpOutcome::Missing && (o.kind == OpKind::CheckCached || o.kind
        == OpKind::Overlay) {
        None
    } else if outcome == OpOutcome::Missing && o.kind == OpKind::ExtractRelease {
        Some(AssemblyError { kind: AssemblyErrorKind::NotFound, path: o.source.clone() })
    } else if o.kind == OpKind::Mount || o.kind == OpKind::Unmount {
        Some(AssemblyError { kind: AssemblyErrorKind::Mount, path: o.target.clone() })
    } else if o.kind == OpKind::CopyFile || o.kind == OpKind::ExtractTarGz || o.kind
        == OpKind::ExtractRelease {
        Some(AssemblyError { kind: AssemblyErrorKind::Io, path: o.source.clone() })
    } else {
        Some(AssemblyError { kind: AssemblyErrorKind::Io, path: o.target.clone() })
    }
}

/// The mode an entry of the credentials tree has after normalization: its
/// own where its permission bits are owner read/write only, else exactly that.
pub open spec fn normalized(mode: u32) -> u32 {
    if mode & 0o777 == CREDENTIALS_MODE {
        mode
    } else {
        CREDENTIALS_MODE
    }
}

/// The mode to give an entry of the credentials tree whose mode is `mode`;
/// `None` where it already has the right permission bits.
pub fn normalized_mode(mode: u32) -> (r: Option<u32>)
    ensures
        r == (if mode & 0o777 == CREDENTIALS_MODE {
            None
        } else {
            Some(CREDENTIALS_MODE)
        }),
        normalized(mode) == match r {
            Some(m) => m,
            None => mode,
        },
{
    if mode & 0o777 == CREDENTIALS_MODE {
        None
    } else {
        Some(CREDENTIALS_MODE)
    }
}

/// After normalization every entry of the credentials tree has exactly the
/// owner read/write permission bits, whatever its mode before, and
/// normalizing again changes nothing.
pub proof fn credentials_normalized(mode: u32)
    ensures
        normalized(mode) & 0o777 == CREDENTIALS_MODE,
        normalized(normalized(mode)) == normalized(mode),
{
    assert(0o600u32 & 0o777u32 == 0o600u32) by (bit_vector);
}

/// The plan mounts the image once, unmounts it once, after the mount, and
/// keeps the mount point the same.
pub proof fn plan_mounts_once(version: Seq<char>, board: Seq<char>)
    ensures
        forall|i: int|
            0 <= i < PLAN_LEN ==> ((#[trigger] plan_op(version, board, i)).kind == OpKind::Mount
                <==> i == MOUNT_AT),
        forall|i: int|
            0 <= i < PLAN_LEN ==> (plan_op(version, board, i).kind == OpKind::Unmount <==> i
                == UNMOUNT_AT),
        plan_op(version, board, MOUNT_AT as int).target == mount_dir(version),
        plan_op(version, board, UNMOUNT_AT as int).target == mount_dir(version),
        MOUNT_AT < UNMOUNT_AT,
{
}

/// Assembling a version whose image is already at its path ends at once with
/// that path, before anything is mounted; a completed assembly puts its image
/// at that same path and reports it. So a second assembly of the same version
/// and board reuses the first one's image and mounts nothing.
pub proof fn cached_image_reused(version: Seq<char>, board: Seq<char>)
    ensures
        plan_op(version, board, 0) == opv(
            OpKind::CheckCached,
            Seq::empty(),
            target_path(version),
            0,
        ),
        transition(initial_run(version, board), OpOutcome::Present) == (
            RunView { finished: true, ..initial_run(version, board) },
            StepView::Finish(Ok(target_path(version))),
        ),
        plan_op(version, board, RENAME_AT as int).kind == OpKind::Rename,
        plan_op(version, board, RENAME_AT as int).target == target_path(version),
        forall|r: RunView, outcome: OpOutcome|
            run_wf(r) && r.version == version ==> ((#[trigger] transition(r, outcome)).1 matches StepView::Finish(Ok(p)) ==> p == target_path(version)),
{
}

/// A declared overlay source that is absent is skipped: the run goes on
/// exactly as if it had been copied, and nothing fails.
pub proof fn missing_overlay_skipped(r: RunView)
    requires
        run_wf(r),
        r.pending is None,
        plan_op(r.version, r.board, r.cursor).kind == OpKind::Overlay,
    ensures
        transition(r, OpOutcome::Missing) == transition(r, OpOutcome::Done),
        transition(r, OpOutcome::Missing).1 == StepView::Perform(
            plan_op(r.version, r.board, r.cursor + 1),
        ),
{
}

/// Between the mount and the unmount the plan writes into the image only
/// through its overlays and five fixed writes: the board binary, the two
/// board-name files, the init script's mode and the credentials tree. The
/// other operations there unpack archives into scratch locations. So an
/// overlay whose source is absent leaves its directory of the image as the
/// base image has it, but for those fixed writes.
pub proof fn image_writes(version: Seq<char>, board: Seq<char>)
    ensures
        forall|k: int|
            MOUNT_AT < k < UNMOUNT_AT ==> {
                let o = #[trigger] plan_op(version, board, k);
                ||| o.kind == OpKind::Overlay
                ||| (o.kind == OpKind::ExtractTarGz || o.kind == OpKind::ExtractRelease) && (
                o.target == "rockdev"@ || o.target == "tmp"@ || o.target == release_dir(version)
                    + "/board"@)
                ||| 14 <= k <= 18
            },
        plan_op(version, board, 14) == opv(
            OpKind::CopyFile,
            release_dir(version) + "/board/"@ + board + ".bin"@,
            mount_dir(version) + "/mnt/build/"@ + board + ".bin"@,
            0,
        ),
        plan_op(version, board, 15) == opv(
            OpKind::WriteText,
            board,
            mount_dir(version) + "/etc/hostname"@,
            0,
        ),
        plan_op(version, board, 16) == opv(
            OpKind::WriteText,
            board,
            mount_dir(version) + "/mnt/config/boardtype"@,
            0,
        ),
        plan_op(version, board, 17) == opv(
            OpKind::SetMode,
            Seq::empty(),
            mount_dir(version) + "/etc/rc.local"@,
            SCRIPT_MODE,
        ),
        plan_op(version, board, 18) == opv(
            OpKind::NormalizeTree,
            Seq::empty(),
            mount_dir(version) + "/root/.ssh"@,
            CREDENTIALS_MODE,
        ),
{
}

/// The loop mount is never leaked: a run never finishes while it holds the
/// mount, a run that held it finishes only from its unmount, and a failure
/// while the mount is held is followed by the unmount of the mount point,
/// with the failure kept to be reported after it.
pub proof fn unmount_on_failure(r: RunView, outcome: OpOutcome)
    requires
        run_wf(r),
    ensures
        transition(r, outcome).1 is Finish ==> !transition(r, outcome).0.mounted,
        transition(r, outcome).1 is Finish && r.mounted ==> plan_op(
            r.version,
            r.board,
            r.cursor,
        ).kind == OpKind::Unmount,
        ({
            let o = plan_op(r.version, r.board, r.cursor);
            r.mounted && r.pending is None && o.kind != OpKind::Unmount && outcome_error(
                o,
                outcome,
            ) is Some ==> {
                &&& transition(r, outcome).1 == StepView::Perform(
                    opv(OpKind::Unmount, Seq::empty(), mount_dir(r.version), 0),
                )
                &&& transition(r, outcome).0.pending == outcome_error(o, outcome)
            }
        }),
        !(transition(r, outcome).1 is Finish) ==> run_wf(transition(r, outcome).0),
{
    plan_mounts_once(r.version, r.board);
}

} // verus!
