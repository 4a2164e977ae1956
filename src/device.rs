//! Device registry: the records of attached devices, the parser for the
//! enumeration tool's listing, and the reconciliation of a fresh listing with
//! the previous snapshot.

use vstd::prelude::*;
use crate::text::{char_vec, matches_at, occurs_at};

verus! {

/// One attached, flashable device.
pub struct DeviceRecord {
    /// Selected for flashing by the operator.
    pub checked: bool,
    pub dev_no: String,
    /// The connection point of the device; the key that identifies it across
    /// successive listings.
    pub loc_id: String,
    pub mode: String,
    pub serial_no: String,
    /// Describes the last completed flashing step.
    pub progress: String,
}

/// The mathematical value of a [`DeviceRecord`].
pub ghost struct DeviceView {
    pub checked: bool,
    pub dev_no: Seq<char>,
    pub loc_id: Seq<char>,
    pub mode: Seq<char>,
    pub serial_no: Seq<char>,
    pub progress: Seq<char>,
}

impl View for DeviceRecord {
    type V = DeviceView;

    open spec fn view(&self) -> DeviceView {
        DeviceView {
            checked: self.checked,
            dev_no: self.dev_no@,
            loc_id: self.loc_id@,
            mode: self.mode@,
            serial_no: self.serial_no@,
            progress: self.progress@,
        }
    }
}

/// The views of a sequence of records.
pub open spec fn views(s: Seq<DeviceRecord>) -> Seq<DeviceView> {
    s.map_values(|d: DeviceRecord| d@)
}

impl DeviceRecord {
    /// A copy of the record.
    pub fn duplicate(&self) -> (r: DeviceRecord)
        ensures
            r@ == self@,
    {
        DeviceRecord {
            checked: self.checked,
            dev_no: self.dev_no.clone(),
            loc_id: self.loc_id.clone(),
            mode: self.mode.clone(),
            serial_no: self.serial_no.clone(),
            progress: self.progress.clone(),
        }
    }
}

/// The selection given to a device that no earlier listing showed.
pub const DEFAULT_CHECKED: bool = true;

/// The progress label of a device that has not been flashed in this session.
pub open spec fn ready_label() -> Seq<char> {
    seq!['r', 'e', 'a', 'd', 'y']
}

pub open spec fn dev_no_key() -> Seq<char> {
    seq!['D', 'e', 'v', 'N', 'o', '=']
}

pub open spec fn loc_id_key() -> Seq<char> {
    seq!['L', 'o', 'c', 'a', 't', 'i', 'o', 'n', 'I', 'D', '=']
}

pub open spec fn mode_key() -> Seq<char> {
    seq!['M', 'o', 'd', 'e', '=']
}

pub open spec fn serial_no_key() -> Seq<char> {
    seq!['S', 'e', 'r', 'i', 'a', 'l', 'N', 'o', '=']
}

/// An ASCII decimal digit.
pub open spec fn is_digit(c: char) -> bool {
    '0' <= c && c <= '9'
}

/// A word character: an ASCII letter, an ASCII digit or `_`.
pub open spec fn is_word(c: char) -> bool {
    is_digit(c) || ('a' <= c && c <= 'z') || ('A' <= c && c <= 'Z') || c == '_'
}

/// A character that may stand in a value: a digit where `digits_only`, else
/// a word character.
pub open spec fn in_value(c: char, digits_only: bool) -> bool {
    if digits_only {
        is_digit(c)
    } else {
        is_word(c)
    }
}

/// The first position at or after `i` where `key` occurs in `s`.
pub open spec fn find_from(s: Seq<char>, key: Seq<char>, i: int) -> Option<int>
    decreases s.len() - i,
{
    if i < 0 || i >= s.len() {
        None
    } else if occurs_at(s, key, i) {
        Some(i)
    } else {
        find_from(s, key, i + 1)
    }
}

/// The position that `find_from` finds holds `key`.
proof fn lemma_find_from(s: Seq<char>, key: Seq<char>, i: int)
    ensures
        find_from(s, key, i) matches Some(p) ==> i <= p && occurs_at(s, key, p),
    decreases s.len() - i,
{
    if 0 <= i < s.len() && !occurs_at(s, key, i) {
        lemma_find_from(s, key, i + 1);
    }
}

/// The end of the longest run of value characters that starts at `j`.
pub open spec fn value_end(s: Seq<char>, j: int, digits_only: bool) -> int
    decreases s.len() - j,
{
    if j < 0 || j >= s.len() || !in_value(s[j], digits_only) {
        j
    } else {
        value_end(s, j + 1, digits_only)
    }
}

/// The value of the first `key` at or after position `from`, and the
/// position where the search for the next key resumes: the end of that
/// value, or `from` itself where `key` does not occur (the value is then empty).
pub open spec fn field_from(s: Seq<char>, key: Seq<char>, from: int, digits_only: bool) -> (
    Seq<char>,
    int,
) {
    match find_from(s, key, from) {
        Some(i) => {
            let e = value_end(s, i + key.len(), digits_only);
            (s.subrange(i + key.len(), e), e)
        },
        None => (Seq::empty(), from),
    }
}

/// The device that a listing line describes. A line that starts with
/// `DevNo=` is a record; its keys are looked for in the order `DevNo=`,
/// `LocationID=`, `Mode=`, `SerialNo=`, each after the value of the one
/// before that was found. A value is the longest run of digits (device
/// number and location) or of word characters (mode and serial) right after
/// its key, and is empty where the key is missing. Any other line describes
/// none.
pub open spec fn device_of_line(line: Seq<char>) -> Option<DeviceView> {
    if occurs_at(line, dev_no_key(), 0) {
        let (dev_no, p1) = field_from(line, dev_no_key(), 0, true);
        let (loc_id, p2) = field_from(line, loc_id_key(), p1, true);
        let (mode, p3) = field_from(line, mode_key(), p2, false);
        let (serial_no, _p4) = field_from(line, serial_no_key(), p3, false);
        Some(
            DeviceView {
                checked: DEFAULT_CHECKED,
                dev_no,
                loc_id,
                mode,
                serial_no,
                progress: ready_label(),
            },
        )
    } else {
        None
    }
}

fn is_value_char(c: char, digits_only: bool) -> (r: bool)
    ensures
        r == in_value(c, digits_only),
{
    let digit = '0' <= c && c <= '9';
    if digits_only {
        digit
    } else {
        digit || ('a' <= c && c <= 'z') || ('A' <= c && c <= 'Z') || c == '_'
    }
}

/// The first position at or after `from` where `key` occurs in `s`.
fn find_key(s: &Vec<char>, key: &Vec<char>, from: usize) -> (r: Option<usize>)
    ensures
        match r {
            Some(i) => find_from(s@, key@, from as int) == Some(i as int),
            None => find_from(s@, key@, from as int) is None,
        },
{
    let mut i: usize = from;
    while i < s.len()
        invariant
            from <= i,
            find_from(s@, key@, from as int) == find_from(s@, key@, i as int),
        decreases s.len() - i,
    {
        if matches_at(s, key, i) {
            return Some(i);
        }
        i = i + 1;
    }
    None
}

/// The end of the run of value characters that starts at `j`.
fn find_value_end(s: &Vec<char>, j: usize, digits_only: bool) -> (r: usize)
    requires
        j <= s@.len(),
    ensures
        r as int == value_end(s@, j as int, digits_only),
        j <= r <= s@.len(),
{
    let mut k: usize = j;
    while k < s.len() && is_value_char(s[k], digits_only)
        invariant
            j <= k <= s@.len(),
            value_end(s@, j as int, digits_only) == value_end(s@, k as int, digits_only),
        decreases s.len() - k,
    {
        k = k + 1;
    }
    k
}

/// The value of the first `key` at or after `from` in `line`, whose
/// characters are `cs`, and where the search for the next key resumes.
fn field(line: &str, cs: &Vec<char>, key: &Vec<char>, from: usize, digits_only: bool) -> (r: (
    String,
    usize,
))
    requires
        cs@ == line@,
        from <= cs@.len(),
    ensures
        (r.0@, r.1 as int) == field_from(line@, key@, from as int, digits_only),
        r.1 <= cs@.len(),
{
    let n = cs.len();
    match find_key(cs, key, from) {
        None => (String::new(), from),
        Some(i) => {
            proof {
                lemma_find_from(line@, key@, from as int);
            }
            let start = i + key.len();
            let end = find_value_end(cs, start, digits_only);
            (line.substring_char(start, end).to_owned(), end)
        },
    }
}

/// Parses one line of the enumeration tool's listing.
pub fn parse_device_line(line: &str) -> (r: Option<DeviceRecord>)
    ensures
        r is Some <==> device_of_line(line@) is Some,
        r is Some ==> device_of_line(line@) == Some(r->0@),
{
    let cs = char_vec(line);
    let dev_no_key_chars: Vec<char> = vec!['D', 'e', 'v', 'N', 'o', '='];
    if !matches_at(&cs, &dev_no_key_chars, 0) {
        return None;
    }
    let loc_id_key_chars: Vec<char> = vec!['L', 'o', 'c', 'a', 't', 'i', 'o', 'n', 'I', 'D', '='];
    let mode_key_chars: Vec<char> = vec!['M', 'o', 'd', 'e', '='];
    let serial_no_key_chars: Vec<char> = vec!['S', 'e', 'r', 'i', 'a', 'l', 'N', 'o', '='];
    assert(dev_no_key_chars@ =~= dev_no_key());
    assert(loc_id_key_chars@ =~= loc_id_key());
    assert(mode_key_chars@ =~= mode_key());
    assert(serial_no_key_chars@ =~= serial_no_key());
    let (dev_no, p1) = field(line, &cs, &dev_no_key_chars, 0, true);
    let (loc_id, p2) = field(line, &cs, &loc_id_key_chars, p1, true);
    let (mode, p3) = field(line, &cs, &mode_key_chars, p2, false);
    let (serial_no, _p4) = field(line, &cs, &serial_no_key_chars, p3, false);
    let progress = String::from_str("ready");
    proof {
        reveal_strlit("ready");
    }
    assert(progress@ =~= ready_label());
    Some(DeviceRecord { checked: DEFAULT_CHECKED, dev_no, loc_id, mode, serial_no, progress })
}

/// The end of the line that starts at `i`: its newline, or the end of `s`.
pub open spec fn line_end(s: Seq<char>, i: int) -> int
    decreases s.len() - i,
{
    if i < 0 || i >= s.len() || s[i] == '\n' {
        i
    } else {
        line_end(s, i + 1)
    }
}

proof fn lemma_line_end(s: Seq<char>, i: int)
    requires
        0 <= i <= s.len(),
    ensures
        i <= line_end(s, i) <= s.len(),
    decreases s.len() - i,
{
    if i < s.len() && s[i] != '\n' {
        lemma_line_end(s, i + 1);
    }
}

/// The devices described by the lines of `s` from position `i` on, in order.
pub open spec fn devices_from(s: Seq<char>, i: int) -> Seq<DeviceView>
    decreases s.len() - i,
    via devices_from_decreases
{
    if i < 0 || i >= s.len() {
        seq![]
    } else {
        let e = line_end(s, i);
        let rest = if e < s.len() {
            devices_from(s, e + 1)
        } else {
            seq![]
        };
        match device_of_line(s.subrange(i, e)) {
            Some(d) => seq![d] + rest,
            None => rest,
        }
    }
}

#[via_fn]
proof fn devices_from_decreases(s: Seq<char>, i: int) {
    if 0 <= i < s.len() {
        lemma_line_end(s, i);
    }
}

/// The devices that a whole listing describes, one per `DevNo=` line, in order.
pub open spec fn devices_of_output(s: Seq<char>) -> Seq<DeviceView> {
    devices_from(s, 0)
}

/// Parses the enumeration tool's whole listing: each line that starts with
/// `DevNo=` gives one record, every other line is ignored.
pub fn parse_device_list(output: &str) -> (r: Vec<DeviceRecord>)
    ensures
        views(r@) == devices_of_output(output@),
{
    let cs = char_vec(output);
    let n = cs.len();
    let mut r: Vec<DeviceRecord> = Vec::new();
    let mut i: usize = 0;
    while i < n
        invariant
            n == output@.len(),
            cs@ == output@,
            i <= n,
            views(r@) + devices_from(output@, i as int) == devices_of_output(output@),
        decreases n - i,
    {
        let mut e: usize = i;
        while e < n && cs[e] != '\n'
            invariant
                n == output@.len(),
                cs@ == output@,
                i <= e <= n,
                line_end(output@, i as int) == line_end(output@, e as int),
            decreases n - e,
        {
            e = e + 1;
        }
        let line = output.substring_char(i, e);
        let ghost before = r@;
        match parse_device_line(line) {
            Some(d) => {
                r.push(d);
                assert(views(r@) =~= views(before).push(d@));
            },
            None => {},
        }
        assert(views(r@) + devices_from(output@, e + 1) =~= views(before) + devices_from(
            output@,
            i as int,
        ));
        if e < n {
            i = e + 1;
        } else {
            i = n;
        }
    }
    assert(views(r@) + devices_from(output@, i as int) =~= views(r@));
    r
}

/// The first position at or after `i` of a device of `prev` at `loc`.
pub open spec fn find_loc(prev: Seq<DeviceView>, loc: Seq<char>, i: int) -> Option<int>
    decreases prev.len() - i,
{
    if i < 0 || i >= prev.len() {
        None
    } else if prev[i].loc_id == loc {
        Some(i)
    } else {
        find_loc(prev, loc, i + 1)
    }
}

/// A freshly listed device, with the selection and progress that `prev`
/// recorded for its location; unchanged where `prev` has no device there.
pub open spec fn carried_over(prev: Seq<DeviceView>, d: DeviceView) -> DeviceView {
    match find_loc(prev, d.loc_id, 0) {
        Some(j) => DeviceView {
            checked: prev[j].checked,
            dev_no: d.dev_no,
            loc_id: d.loc_id,
            mode: d.mode,
            serial_no: d.serial_no,
            progress: prev[j].progress,
        },
        None => d,
    }
}

/// The snapshot that replaces `prev` when `fresh` is listed: the devices of
/// `fresh`, in its order, each carried over from `prev`.
pub open spec fn reconciled(prev: Seq<DeviceView>, fresh: Seq<DeviceView>) -> Seq<DeviceView> {
    fresh.map_values(|d: DeviceView| carried_over(prev, d))
}

/// The position of the device of `prev` at `loc`, if any.
fn locate(prev: &Vec<DeviceRecord>, loc: &String) -> (r: Option<usize>)
    ensures
        match r {
            Some(j) => j < prev@.len() && find_loc(views(prev@), loc@, 0) == Some(j as int),
            None => find_loc(views(prev@), loc@, 0) is None,
        },
{
    let mut j: usize = 0;
    while j < prev.len()
        invariant
            j <= prev@.len(),
            find_loc(views(prev@), loc@, 0) == find_loc(views(prev@), loc@, j as int),
        decreases prev.len() - j,
    {
        if prev[j].loc_id == *loc {
            return Some(j);
        }
        j = j + 1;
    }
    None
}

/// Replaces the snapshot `previous` with the freshly listed `fresh`: devices
/// no longer listed are dropped, those still listed keep their selection and
/// progress, new ones keep the values they were listed with.
pub fn reconcile(previous: &Vec<DeviceRecord>, fresh: Vec<DeviceRecord>) -> (r: Vec<DeviceRecord>)
    ensures
        views(r@) == reconciled(views(previous@), views(fresh@)),
        unique_locations(views(fresh@)) ==> unique_locations(views(r@)),
{
    let mut r: Vec<DeviceRecord> = Vec::new();
    let mut i: usize = 0;
    while i < fresh.len()
        invariant
            i <= fresh@.len(),
            views(r@) == reconciled(views(previous@), views(fresh@.subrange(0, i as int))),
        decreases fresh.len() - i,
    {
        let d = &fresh[i];
        let next = match locate(previous, &d.loc_id) {
            Some(j) => DeviceRecord {
                checked: previous[j].checked,
                dev_no: d.dev_no.clone(),
                loc_id: d.loc_id.clone(),
                mode: d.mode.clone(),
                serial_no: d.serial_no.clone(),
                progress: previous[j].progress.clone(),
            },
            None => d.duplicate(),
        };
        let ghost before = r@;
        r.push(next);
        assert(views(r@) =~= views(before).push(next@));
        assert(views(fresh@.subrange(0, i + 1)) =~= views(fresh@.subrange(0, i as int)).push(
            d@,
        ));
        assert(reconciled(views(previous@), views(fresh@.subrange(0, i + 1))) =~= reconciled(
            views(previous@),
            views(fresh@.subrange(0, i as int)),
        ).push(carried_over(views(previous@), d@)));
        i = i + 1;
    }
    assert(fresh@.subrange(0, i as int) =~= fresh@);
    proof {
        lemma_reconciled_locations(views(previous@), views(fresh@));
    }
    r
}

/// Reconciliation keeps each device's location, so it keeps locations unique.
proof fn lemma_reconciled_locations(prev: Seq<DeviceView>, fresh: Seq<DeviceView>)
    ensures
        forall|i: int|
            0 <= i < fresh.len() ==> (#[trigger] reconciled(prev, fresh)[i]).loc_id
                == fresh[i].loc_id,
        unique_locations(fresh) ==> unique_locations(reconciled(prev, fresh)),
{
    let r = reconciled(prev, fresh);
    assert forall|i: int| 0 <= i < fresh.len() implies (#[trigger] r[i]).loc_id
        == fresh[i].loc_id by {}
    if unique_locations(fresh) {
        assert forall|a: int, b: int|
            0 <= a < r.len() && 0 <= b < r.len() && #[trigger] r[a].loc_id
                == #[trigger] r[b].loc_id implies a == b by {
            assert(fresh[a].loc_id == fresh[b].loc_id);
        }
    }
}

/// One refresh of the registry: parses the listing and reconciles it with the
/// previous snapshot.
pub fn refresh_devices(previous: &Vec<DeviceRecord>, output: &str) -> (r: Vec<DeviceRecord>)
    ensures
        views(r@) == reconciled(views(previous@), devices_of_output(output@)),
        unique_locations(devices_of_output(output@)) ==> unique_locations(views(r@)),
{
    let fresh = parse_device_list(output);
    reconcile(previous, fresh)
}

proof fn lemma_find_loc(prev: Seq<DeviceView>, loc: Seq<char>, i: int)
    requires
        0 <= i,
    ensures
        match find_loc(prev, loc, i) {
            Some(j) => i <= j < prev.len() && prev[j].loc_id == loc,
            None => forall|k: int| i <= k < prev.len() ==> prev[k].loc_id != loc,
        },
    decreases prev.len() - i,
{
    if i < prev.len() && prev[i].loc_id != loc {
        lemma_find_loc(prev, loc, i + 1);
    }
}

/// Every device of a listing has the selection and progress of a new device.
proof fn lemma_listed_defaults(s: Seq<char>, i: int)
    ensures
        forall|k: int|
            0 <= k < devices_from(s, i).len() ==> (#[trigger] devices_from(s, i)[k]).checked
                == DEFAULT_CHECKED && devices_from(s, i)[k].progress == ready_label(),
    decreases s.len() - i,
{
    if 0 <= i < s.len() {
        lemma_line_end(s, i);
        let e = line_end(s, i);
        if e < s.len() {
            lemma_listed_defaults(s, e + 1);
        }
        let rest = if e < s.len() {
            devices_from(s, e + 1)
        } else {
            seq![]
        };
        if let Some(d) = device_of_line(s.subrange(i, e)) {
            let all = seq![d] + rest;
            assert(devices_from(s, i) == all);
            assert forall|k: int| 0 < k < all.len() implies all[k] == rest[k - 1] by {}
        }
    }
}

/// No two devices of the snapshot share a location.
pub open spec fn unique_locations(s: Seq<DeviceView>) -> bool {
    forall|a: int, b: int|
        0 <= a < s.len() && 0 <= b < s.len() && #[trigger] s[a].loc_id == #[trigger] s[b].loc_id
            ==> a == b
}

/// Refreshing the registry with a listing yields exactly the listed devices,
/// in listing order, so a device that is no longer listed disappears; a
/// listed device at a location that the previous snapshot held keeps the
/// selection and progress recorded there; one at a new location comes with
/// the default selection and the `ready` progress. Where the listing names
/// each location once, so does the new snapshot: a new location appears in
/// exactly one device.
pub proof fn reconciliation_law(prev: Seq<DeviceView>, output: Seq<char>)
    requires
        unique_locations(prev),
    ensures
        reconciled(prev, devices_of_output(output)).len() == devices_of_output(output).len(),
        forall|i: int|
            0 <= i < devices_of_output(output).len() ==> {
                let d = devices_of_output(output)[i];
                let r = #[trigger] reconciled(prev, devices_of_output(output))[i];
                &&& r.loc_id == d.loc_id
                &&& r.dev_no == d.dev_no
                &&& r.mode == d.mode
                &&& r.serial_no == d.serial_no
            },
        forall|i: int, j: int|
            0 <= i < devices_of_output(output).len() && 0 <= j < prev.len() && prev[j].loc_id
                == #[trigger] devices_of_output(output)[i].loc_id ==> {
                let r = reconciled(prev, devices_of_output(output))[i];
                &&& r.checked == (#[trigger] prev[j]).checked
                &&& r.progress == prev[j].progress
            },
        forall|i: int|
            0 <= i < devices_of_output(output).len() && (forall|j: int|
                0 <= j < prev.len() ==> prev[j].loc_id != devices_of_output(output)[i].loc_id)
                ==> {
                let r = #[trigger] reconciled(prev, devices_of_output(output))[i];
                &&& r.checked == DEFAULT_CHECKED
                &&& r.progress == ready_label()
            },
        unique_locations(devices_of_output(output)) ==> unique_locations(
            reconciled(prev, devices_of_output(output)),
        ),
{
    let fresh = devices_of_output(output);
    lemma_listed_defaults(output, 0);
    lemma_reconciled_locations(prev, fresh);
    assert forall|i: int| 0 <= i < fresh.len() implies {
        let r = #[trigger] reconciled(prev, fresh)[i];
        &&& r.loc_id == fresh[i].loc_id
        &&& (forall|j: int|
            0 <= j < prev.len() && prev[j].loc_id == fresh[i].loc_id ==> r.checked
                == prev[j].checked && r.progress == prev[j].progress)
        &&& ((forall|j: int| 0 <= j < prev.len() ==> prev[j].loc_id != fresh[i].loc_id)
            ==> r.checked == DEFAULT_CHECKED && r.progress == ready_label())
    } by {
        let _ = reconciled(prev, fresh)[i];
        lemma_find_loc(prev, fresh[i].loc_id, 0);
        assert(fresh[i] == devices_from(output, 0)[i]);
    }
}

} // verus!
