//! Release catalog: which entries of the release directory are packaged
//! release archives, and the version each one names.

use vstd::prelude::*;
use crate::text::{char_vec, ends_with};

verus! {

/// One entry of the release directory, as listed by the caller.
pub struct CatalogEntry {
    pub name: String,
    pub is_file: bool,
}

/// The extension that marks a packaged release archive.
pub open spec fn archive_suffix() -> Seq<char> {
    seq!['.', 'z', 'i', 'p']
}

/// A file name of the form `<version>.zip` with a non-empty version.
pub open spec fn is_archive_name(name: Seq<char>) -> bool {
    name.len() > archive_suffix().len() && ends_with(name, archive_suffix())
}

/// The version an archive name stands for: the name without its extension.
pub open spec fn version_of_name(name: Seq<char>) -> Seq<char> {
    name.subrange(0, name.len() - archive_suffix().len())
}

/// The versions named by the archive files among `entries`, in listing order.
pub open spec fn versions_of(entries: Seq<CatalogEntry>) -> Seq<Seq<char>>
    decreases entries.len(),
{
    if entries.len() == 0 {
        seq![]
    } else {
        let e = entries.last();
        let rest = versions_of(entries.drop_last());
        if e.is_file && is_archive_name(e.name@) {
            rest.push(version_of_name(e.name@))
        } else {
            rest
        }
    }
}

/// The version named by a release archive file name, if it is one.
pub fn release_version(name: &str) -> (r: Option<String>)
    ensures
        r is Some <==> is_archive_name(name@),
        r is Some ==> r->0@ == version_of_name(name@),
{
    let cs = char_vec(name);
    let n = cs.len();
    if n <= 4 {
        return None;
    }
    if cs[n - 4] == '.' && cs[n - 3] == 'z' && cs[n - 2] == 'i' && cs[n - 1] == 'p' {
        let stem = name.substring_char(0, n - 4);
        assert(name@.subrange(n - 4, n as int) =~= archive_suffix());
        Some(stem.to_owned())
    } else {
        assert(!ends_with(name@, archive_suffix())) by {
            if ends_with(name@, archive_suffix()) {
                let tail = name@.subrange(n - 4, n as int);
                assert(tail[0] == name@[n - 4]);
                assert(tail[1] == name@[n - 3]);
                assert(tail[2] == name@[n - 2]);
                assert(tail[3] == name@[n - 1]);
            }
        }
        None
    }
}

/// The versions of the release archives among `entries`, in listing order.
/// Entries that are not regular files, or whose names do not end in `.zip`,
/// are passed over; an empty listing gives an empty catalog.
pub fn list_versions(entries: &Vec<CatalogEntry>) -> (r: Vec<String>)
    ensures
        r@.len() == versions_of(entries@).len(),
        forall|i: int| 0 <= i < r@.len() ==> #[trigger] r@[i]@ == versions_of(entries@)[i],
{
    let mut r: Vec<String> = Vec::new();
    let mut i: usize = 0;
    while i < entries.len()
        invariant
            i <= entries@.len(),
            r@.len() == versions_of(entries@.subrange(0, i as int)).len(),
            forall|k: int|
                0 <= k < r@.len() ==> #[trigger] r@[k]@ == versions_of(
                    entries@.subrange(0, i as int),
                )[k],
        decreases entries.len() - i,
    {
        let e = &entries[i];
        assert(entries@.subrange(0, i + 1).drop_last() =~= entries@.subrange(0, i as int));
        if e.is_file {
            match release_version(e.name.as_str()) {
                Some(v) => r.push(v),
                None => {},
            }
        }
        i = i + 1;
    }
    assert(entries@.subrange(0, i as int) =~= entries@);
    r
}

} // verus!
