//! The flash session: the state that the registry poller and a flash run
//! share — the board and version chosen, the versions on offer and the
//! current device snapshot.

use vstd::prelude::*;
use crate::catalog::{CatalogEntry, list_versions, versions_of};
use crate::device::{
    DeviceRecord, reconciled, devices_of_output, refresh_devices, unique_locations, views,
};
use crate::flash::{FlashRun, RunPhase, ToolPaths, str_views};

verus! {

/// The boards that can be chosen.
pub open spec fn supported_board_names() -> Seq<Seq<char>> {
    seq!["dc11p626"@, "dc21scu"@]
}

/// The boards that can be chosen, in the order they are offered.
pub fn supported_boards() -> (r: Vec<String>)
    ensures
        str_views(r@) == supported_board_names(),
{
    let mut r: Vec<String> = Vec::new();
    r.push(String::from_str("dc11p626"));
    r.push(String::from_str("dc21scu"));
    assert(str_views(r@) =~= supported_board_names());
    r
}

/// Why the enumeration tool gave no listing.
#[derive(Clone, Copy, PartialEq, Eq, Structural, Debug)]
pub enum EnumerationError {
    /// The tool could not be started.
    NotStarted,
    /// The tool exited with a failure status.
    Failed,
}

/// Board, version and devices, as the operator sees and chooses them.
pub struct FlashSession {
    pub supported_board: Vec<String>,
    pub board_type: String,
    pub version_list: Vec<String>,
    pub version_selected: String,
    pub devices: Vec<DeviceRecord>,
}

impl FlashSession {
    /// A session with nothing chosen, no versions and no devices.
    pub fn new() -> (r: FlashSession)
        ensures
            str_views(r.supported_board@) == supported_board_names(),
            r.board_type@.len() == 0,
            r.version_list@.len() == 0,
            r.version_selected@.len() == 0,
            r.devices@.len() == 0,
    {
        FlashSession {
            supported_board: supported_boards(),
            board_type: String::new(),
            version_list: Vec::new(),
            version_selected: String::new(),
            devices: Vec::new(),
        }
    }

    /// One poll of the registry. `listing` is the enumeration tool's output,
    /// or why there is none. With a listing the snapshot is reconciled with
    /// it; without one the error is handed back and the session is left as
    /// it was, previous snapshot included.
    pub fn poll_devices(&mut self, listing: Result<&str, EnumerationError>) -> (r: Result<
        (),
        EnumerationError,
    >)
        ensures
            match listing {
                Ok(out) => {
                    &&& r is Ok
                    &&& views(final(self).devices@) == reconciled(
                        views(old(self).devices@),
                        devices_of_output(out@),
                    )
                    &&& unique_locations(devices_of_output(out@)) ==> unique_locations(
                        views(final(self).devices@),
                    )
                    &&& final(self).supported_board == old(self).supported_board
                    &&& final(self).board_type == old(self).board_type
                    &&& final(self).version_selected == old(self).version_selected
                    &&& final(self).version_list == old(self).version_list
                },
                Err(e) => r == Err::<(), EnumerationError>(e) && *final(self) == *old(self),
            },
    {
        match listing {
            Ok(out) => {
                self.devices = refresh_devices(&self.devices, out);
                Ok(())
            },
            Err(e) => Err(e),
        }
    }

    /// Replaces the versions on offer with those of the release directory's
    /// listing `entries`.
    pub fn load_versions(&mut self, entries: &Vec<CatalogEntry>)
        ensures
            str_views(final(self).version_list@) == versions_of(entries@),
            final(self).supported_board == old(self).supported_board,
            final(self).devices == old(self).devices,
            final(self).board_type == old(self).board_type,
            final(self).version_selected == old(self).version_selected,
    {
        let v = list_versions(entries);
        assert(str_views(v@) =~= versions_of(entries@));
        self.version_list = v;
    }

    /// A flash run over the session as it stands; the session's snapshot is
    /// handed to the run, which owns it until it is over.
    pub fn start_run(&self, paths: ToolPaths) -> (r: FlashRun)
        ensures
            r.phase == RunPhase::Idle,
            r.board@ == self.board_type@,
            r.version@ == self.version_selected@,
            r.paths == paths,
            views(r.devices@) == views(self.devices@),
            r.failures@.len() == 0,
            r.wf(),
    {
        let mut devices: Vec<DeviceRecord> = Vec::new();
        let mut i: usize = 0;
        while i < self.devices.len()
            invariant
                i <= self.devices@.len(),
                views(devices@) == views(self.devices@.subrange(0, i as int)),
            decreases self.devices.len() - i,
        {
            let ghost before = devices@;
            devices.push(self.devices[i].duplicate());
            assert(views(devices@) =~= views(before).push(self.devices@[i as int]@));
            assert(views(self.devices@.subrange(0, i + 1)) =~= views(
                self.devices@.subrange(0, i as int),
            ).push(self.devices@[i as int]@));
            i = i + 1;
        }
        assert(self.devices@.subrange(0, i as int) =~= self.devices@);
        FlashRun::new(self.board_type.clone(), self.version_selected.clone(), paths, devices)
    }
}

} // verus!
