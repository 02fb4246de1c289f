use vstd::prelude::*;
use crate::failure::SyncError;
use crate::git::{path_held, path_of, text_in, url_held};
use crate::layout::{normal, normal_path, same_path};

verus! {

/// One entry of a repository's submodule table, as read at one moment.
#[derive(Debug)]
pub struct SubmoduleRecord {
    /// Where the submodule is mounted, relative to the working tree, as the
    /// table writes it; none where what the table holds is no text.
    pub path: Option<String>,
    /// Where the submodule is fetched from, if the table says so.
    pub url: Option<String>,
}

/// `record` holds what the entry `submodule` of a submodule table holds.
pub open spec fn mirrors(record: SubmoduleRecord, submodule: git2::Submodule<'_>) -> bool {
    text_in(record.path) == path_held(submodule) && text_in(record.url) == url_held(submodule)
}

/// What `held`, the path of an entry, says of `path`: that the entry is
/// mounted there. A path that is no text is no place to be asked for.
pub open spec fn is_at(held: Option<Seq<char>>, path: Seq<char>) -> bool {
    held matches Some(place) && same_path(place, path)
}

/// No entry of a table before position `end` is mounted at `path`.
pub open spec fn none_mounted_before(
    submodules: Seq<git2::Submodule<'_>>,
    path: Seq<char>,
    end: int,
) -> bool {
    forall|i: int|
        0 <= i < end && i < submodules.len() ==> !is_at(
            path_held(#[trigger] submodules[i]),
            path,
        )
}

/// No entry before position `end` is mounted at `path`.
pub open spec fn none_before(records: Seq<SubmoduleRecord>, path: Seq<char>, end: int) -> bool {
    forall|i: int|
        0 <= i < end && i < records.len() ==> !is_at(text_in((#[trigger] records[i]).path), path)
}

/// The position of the first entry mounted at `path`, if there is one.
pub open spec fn first_at(records: Seq<SubmoduleRecord>, path: Seq<char>) -> Option<int>
    decreases records.len(),
{
    if records.len() == 0 {
        None
    } else if is_at(text_in(records[0].path), path) {
        Some(0)
    } else {
        match first_at(records.subrange(1, records.len() as int), path) {
            Some(i) => Some(i + 1),
            None => None,
        }
    }
}

/// `first_at` finds an entry mounted at `path` that no earlier entry matches,
/// and finds nothing only where no entry matches.
pub proof fn first_at_is_first(records: Seq<SubmoduleRecord>, path: Seq<char>)
    ensures
        match first_at(records, path) {
            Some(i) => 0 <= i < records.len() && is_at(text_in(records[i].path), path) && none_before(
                records,
                path,
                i,
            ),
            None => none_before(records, path, records.len() as int),
        },
    decreases records.len(),
{
    if records.len() > 0 && !is_at(text_in(records[0].path), path) {
        let rest = records.subrange(1, records.len() as int);
        first_at_is_first(rest, path);
        assert(forall|i: int| 0 <= i < rest.len() ==> rest[i] == records[i + 1]);
        match first_at(rest, path) {
            Some(k) => {
                assert forall|i: int| 0 <= i < k + 1 && i < records.len() implies !is_at(
                    text_in((#[trigger] records[i]).path),
                    path,
                ) by {
                    if i > 0 {
                        assert(rest[i - 1] == records[i]);
                    }
                }
            },
            None => {
                assert forall|i: int| 0 <= i < records.len() implies !is_at(
                    text_in((#[trigger] records[i]).path),
                    path,
                ) by {
                    if i > 0 {
                        assert(rest[i - 1] == records[i]);
                    }
                }
            },
        }
    }
}

/// An entry mounted at `path` with none before it is the one `first_at` finds.
pub proof fn first_at_is_unique(records: Seq<SubmoduleRecord>, path: Seq<char>, at: int)
    requires
        0 <= at < records.len(),
        is_at(text_in(records[at].path), path),
        none_before(records, path, at),
    ensures
        first_at(records, path) == Some(at),
{
    first_at_is_first(records, path);
    match first_at(records, path) {
        Some(i) => {
            if i < at {
                assert(!is_at(text_in(records[i].path), path));
            } else if at < i {
                assert(!is_at(text_in(records[at].path), path));
            }
        },
        None => {
            assert(!is_at(text_in(records[at].path), path));
        },
    }
}

/// The position of the first entry of `records` mounted at `path`.
///
/// Paths are compared by their components: an entry is mounted at `path`
/// where its path and `path` are the same path, however each is written.
pub fn find_by_path(records: &Vec<SubmoduleRecord>, path: &String) -> (found: Option<usize>)
    ensures
        match found {
            Some(i) => i < records.len() && is_at(text_in(records[i as int].path), path@)
                && none_before(
                records@,
                path@,
                i as int,
            ),
            None => none_before(records@, path@, records.len() as int),
        },
        match found {
            Some(i) => first_at(records@, path@) == Some(i as int),
            None => first_at(records@, path@) is None,
        },
{
    let wanted = normal_path(path.as_str());
    let mut i: usize = 0;
    while i < records.len()
        invariant
            i <= records.len(),
            wanted@ == normal(path@),
            none_before(records@, path@, i as int),
        decreases records.len() - i,
    {
        let here = match &records[i].path {
            Some(place) => normal_path(place.as_str()) == wanted,
            None => false,
        };
        if here {
            proof {
                first_at_is_unique(records@, path@, i as int);
            }
            return Some(i);
        }
        i += 1;
    }
    proof {
        first_at_is_first(records@, path@);
    }
    None
}

/// The entry among `records` that is mounted at `path`: the first one, should
/// there be several. Fails, naming `path`, where there is none.
pub fn select_by_path(records: Vec<SubmoduleRecord>, path: &String) -> (selected: Result<
    SubmoduleRecord,
    SyncError,
>)
    ensures
        match selected {
            Ok(record) => exists|i: int|
                0 <= i < records.len() && records[i] == record && is_at(
                    text_in(record.path),
                    path@,
                ) && none_before(records@, path@, i),
            Err(SyncError::SubmoduleNotFound { path: named }) => named@ == path@ && none_before(
                records@,
                path@,
                records.len() as int,
            ),
            Err(_) => false,
        },
        match first_at(records@, path@) {
            Some(i) => 0 <= i < records.len() && selected == Ok::<SubmoduleRecord, SyncError>(
                records@[i],
            ),
            None => selected matches Err(SyncError::SubmoduleNotFound { path: named }) && named@
                == path@,
        },
{
    let mut records = records;
    match find_by_path(&records, path) {
        Some(i) => Ok(records.swap_remove(i)),
        None => Err(SyncError::SubmoduleNotFound { path: path.clone() }),
    }
}

/// Reads one entry of the submodule table into a record.
pub fn record_of<'repo>(submodule: &git2::Submodule<'repo>) -> (record: SubmoduleRecord)
    ensures
        mirrors(record, *submodule),
{
    SubmoduleRecord { path: path_of(submodule), url: url_of(submodule.url()) }
}

/// The address of a submodule as a record holds it, given what reading it
/// from the table came to: the address where one was read, and none where the
/// table has none or holds one that is no text.
pub fn url_of(read: Result<Option<&str>, git2::Error>) -> (url: Option<String>)
    ensures
        match read {
            Ok(Some(address)) => url matches Some(held) && held@ == address@,
            _ => url is None,
        },
{
    match read {
        Ok(Some(address)) => Some(String::from_str(address)),
        _ => None,
    }
}

/// Reads every entry of `submodules` into a record, in the same order.
pub fn records_of<'repo>(submodules: &Vec<git2::Submodule<'repo>>) -> (read: Vec<
    SubmoduleRecord,
>)
    ensures
        read.len() == submodules.len(),
        forall|i: int| 0 <= i < read.len() ==> mirrors(#[trigger] read[i], submodules[i]),
{
    let mut read: Vec<SubmoduleRecord> = Vec::new();
    let mut i: usize = 0;
    while i < submodules.len()
        invariant
            i <= submodules.len(),
            read.len() == i,
            forall|k: int| 0 <= k < i ==> mirrors(#[trigger] read[k], submodules[k]),
        decreases submodules.len() - i,
    {
        read.push(record_of(&submodules[i]));
        i += 1;
    }
    read
}

/// The entry among `submodules`, the entries listed for one repository, that
/// is mounted at `path`: the first one, should there be several, read into a
/// record. Fails, naming `path`, where none is mounted there.
pub fn select_among<'repo>(submodules: &Vec<git2::Submodule<'repo>>, path: &String) -> (selected:
    Result<SubmoduleRecord, SyncError>)
    ensures
        match selected {
            Ok(record) => exists|i: int|
                0 <= i < submodules.len() && mirrors(record, #[trigger] submodules[i])
                    && is_at(text_in(record.path), path@) && none_mounted_before(
                    submodules@,
                    path@,
                    i,
                ),
            Err(SyncError::SubmoduleNotFound { path: named }) => named@ == path@
                && none_mounted_before(submodules@, path@, submodules.len() as int),
            Err(_) => false,
        },
{
    let read = records_of(submodules);
    let ghost table = read@;
    let selected = select_by_path(read, path);
    proof {
        if selected is Ok {
            let record = selected->Ok_0;
            let i = choose|i: int|
                0 <= i < table.len() && table[i] == record && is_at(
                    text_in(record.path),
                    path@,
                ) && none_before(table, path@, i);
            assert(mirrors(table[i], submodules[i]));
            assert forall|k: int| 0 <= k < i && k < submodules.len() implies !is_at(
                path_held(#[trigger] submodules[k]),
                path@,
            ) by {
                assert(mirrors(table[k], submodules[k]));
            }
        } else {
            assert forall|k: int| 0 <= k < submodules.len() implies !is_at(
                path_held(#[trigger] submodules[k]),
                path@,
            ) by {
                assert(mirrors(table[k], submodules[k]));
            }
        }
    }
    selected
}

} // verus!
