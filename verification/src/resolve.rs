//! Which files a path stands for: the path itself if it is a file, the
//! files directly inside it if it is a directory.

use vstd::prelude::*;
use vstd::string::StringExecFns;
use crate::error::ChecksumError;

verus! {

/// One entry of a directory, as it was found.
#[derive(Clone, Debug, PartialEq, Eq)]
pub struct DirEntry<P> {
    /// The path of the entry.
    pub path: P,
    /// Whether the entry is a regular file.
    pub is_file: bool,
}

/// What an existing path was found to be.
#[derive(Clone, Debug, PartialEq, Eq)]
pub enum PathKind<P> {
    /// A regular file.
    File,
    /// A directory with its entries in the order in which they were listed.
    /// An entry that could not be read stands as nothing.
    Directory(Vec<Option<DirEntry<P>>>),
    /// Neither a file nor anything whose entries can be listed.
    Unlistable,
}

/// The paths of the regular files among `entries`, in their order.
/// Directories and entries that could not be read are passed over.
pub open spec fn listed_files<P>(entries: Seq<Option<DirEntry<P>>>) -> Seq<P>
    decreases entries.len(),
{
    if entries.len() == 0 {
        Seq::empty()
    } else {
        let before = listed_files(entries.drop_last());
        match entries.last() {
            Some(entry) => if entry.is_file {
                before.push(entry.path)
            } else {
                before
            },
            None => before,
        }
    }
}

/// Whether one of `entries` could not be read.
pub open spec fn has_unreadable<P>(entries: Seq<Option<DirEntry<P>>>) -> bool {
    exists|i: int| 0 <= i < entries.len() && (#[trigger] entries[i]) is None
}

/// Whether `path` is the path of a regular file among `entries`.
pub open spec fn is_listed_file<P>(entries: Seq<Option<DirEntry<P>>>, path: P) -> bool {
    exists|i: int|
        0 <= i < entries.len() && (#[trigger] entries[i]) == Some(
            DirEntry { path, is_file: true },
        )
}

/// The files among the entries are exactly the entries that are regular
/// files: none is left out and nothing else is taken in.
pub proof fn lemma_listed_files_members<P>(entries: Seq<Option<DirEntry<P>>>, path: P)
    ensures
        listed_files(entries).contains(path) <==> is_listed_file(entries, path),
    decreases entries.len(),
{
    if entries.len() > 0 {
        let front = entries.drop_last();
        let before = listed_files(front);
        lemma_listed_files_members(front, path);
        if is_listed_file(entries, path) {
            let i = choose|i: int|
                0 <= i < entries.len() && (#[trigger] entries[i]) == Some(
                    DirEntry { path, is_file: true },
                );
            if i < front.len() {
                assert(front[i] == entries[i]);
                assert(is_listed_file(front, path));
                let k = choose|k: int| 0 <= k < before.len() && before[k] == path;
                assert(listed_files(entries)[k] == path);
            } else {
                assert(listed_files(entries) == before.push(path));
                assert(listed_files(entries)[before.len() as int] == path);
            }
        }
        if listed_files(entries).contains(path) {
            let k = choose|k: int|
                0 <= k < listed_files(entries).len() && listed_files(entries)[k] == path;
            if k < before.len() {
                assert(before[k] == path);
                assert(before.contains(path));
                let i = choose|i: int|
                    0 <= i < front.len() && (#[trigger] front[i]) == Some(
                        DirEntry { path, is_file: true },
                    );
                assert(entries[i] == front[i]);
            } else {
                assert(entries[entries.len() - 1] == Some(DirEntry { path, is_file: true }));
            }
        }
    }
}

/// Finds the files to hash for a path that exists.
///
/// A regular file stands for itself. A directory stands for the regular
/// files directly inside it, in the order of its listing; what else it holds
/// is passed over. The run fails if the entries cannot be listed or if one
/// of them could not be read. `shown` is the path as messages show it.
pub fn resolve_files<P>(path: P, shown: &str, kind: PathKind<P>) -> (files: Result<
    Vec<P>,
    ChecksumError,
>)
    ensures
        match kind {
            PathKind::File => files is Ok && files.unwrap()@ == seq![path],
            PathKind::Directory(entries) => if has_unreadable(entries@) {
                files == Err::<Vec<P>, ChecksumError>(ChecksumError::DirectoryEntry)
            } else {
                &&& files is Ok
                &&& files.unwrap()@ == listed_files(entries@)
                &&& forall|file: P| #[trigger]
                    files.unwrap()@.contains(file) <==> is_listed_file(entries@, file)
            },
            PathKind::Unlistable => (files matches Err(ChecksumError::DirectoryListing { path: text })
                && text@ == shown@),
        },
{
    match kind {
        PathKind::File => {
            let mut files: Vec<P> = Vec::new();
            files.push(path);
            Ok(files)
        },
        PathKind::Directory(entries) => {
            let ghost all = entries@;
            let mut files: Vec<P> = Vec::new();
            for entry in it: entries.into_iter()
                invariant
                    (kind matches PathKind::Directory(listing) && listing@ == all),
                    it.seq() == all,
                    files@ == listed_files(all.take(it.index() as int)),
                    !has_unreadable(all.take(it.index() as int)),
            {
                let ghost i = it.index() as int;
                proof {
                    assert(all.take(i + 1).drop_last() =~= all.take(i));
                    assert(all.take(i + 1).last() == all[i]);
                }
                match entry {
                    Some(found) => {
                        if found.is_file {
                            files.push(found.path);
                        }
                        proof {
                            if has_unreadable(all.take(i + 1)) {
                                let k = choose|k: int|
                                    0 <= k < i + 1 && (#[trigger] all.take(i + 1)[k]) is None;
                                assert(all.take(i)[k] is None);
                            }
                        }
                    },
                    None => {
                        assert(all[i] is None);
                        return Err(ChecksumError::DirectoryEntry);
                    },
                }
            }
            proof {
                assert(all.take(all.len() as int) =~= all);
                assert forall|file: P| #[trigger]
                    files@.contains(file) <==> is_listed_file(all, file) by {
                    lemma_listed_files_members(all, file);
                }
            }
            Ok(files)
        },
        PathKind::Unlistable => Err(ChecksumError::DirectoryListing { path: String::from_str(shown) }),
    }
}

} // verus!
