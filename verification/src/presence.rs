use vstd::prelude::*;

use crate::kinds::{EntryKind, ErrorKind};

verus! {

/// What the existence checks conclude from one metadata lookup of a path
/// (following symlinks): an entry that was found counts when `wanted`
/// accepts its kind; a lookup that failed with `NotFound` means the path
/// is absent; any other failure is passed on, since existence can then be
/// neither confirmed nor denied.
pub open spec fn spec_presence(
    probe: Result<EntryKind, ErrorKind>,
    wanted: spec_fn(EntryKind) -> bool,
) -> Result<bool, ErrorKind> {
    match probe {
        Ok(kind) => Ok(wanted(kind)),
        Err(ErrorKind::NotFound) => Ok(false),
        Err(kind) => Err(kind),
    }
}

/// Any entry at the path counts.
pub open spec fn spec_path_exists(probe: Result<EntryKind, ErrorKind>) -> Result<bool, ErrorKind> {
    spec_presence(probe, |kind: EntryKind| true)
}

/// Only a regular file counts.
pub open spec fn spec_file_exists(probe: Result<EntryKind, ErrorKind>) -> Result<bool, ErrorKind> {
    spec_presence(probe, |kind: EntryKind| kind == EntryKind::File)
}

/// Only a directory counts.
pub open spec fn spec_dir_exists(probe: Result<EntryKind, ErrorKind>) -> Result<bool, ErrorKind> {
    spec_presence(probe, |kind: EntryKind| kind == EntryKind::Directory)
}

/// Whether a path exists, given the outcome of its metadata lookup.
/// A missing path is `Ok(false)`; other failures, such as a denied access,
/// are preserved.
pub fn path_exists(probe: Result<EntryKind, ErrorKind>) -> (r: Result<bool, ErrorKind>)
    ensures
        r == spec_path_exists(probe),
{
    match probe {
        Ok(_) => Ok(true),
        Err(ErrorKind::NotFound) => Ok(false),
        Err(kind) => Err(kind),
    }
}

/// Whether a path is a regular file, given the outcome of its metadata
/// lookup. A missing path is `Ok(false)`; other failures are preserved.
pub fn file_exists(probe: Result<EntryKind, ErrorKind>) -> (r: Result<bool, ErrorKind>)
    ensures
        r == spec_file_exists(probe),
{
    match probe {
        Ok(kind) => Ok(kind == EntryKind::File),
        Err(ErrorKind::NotFound) => Ok(false),
        Err(kind) => Err(kind),
    }
}

/// Whether a path is a directory, given the outcome of its metadata
/// lookup. A missing path is `Ok(false)`; other failures are preserved.
pub fn dir_exists(probe: Result<EntryKind, ErrorKind>) -> (r: Result<bool, ErrorKind>)
    ensures
        r == spec_dir_exists(probe),
{
    match probe {
        Ok(kind) => Ok(kind == EntryKind::Directory),
        Err(ErrorKind::NotFound) => Ok(false),
        Err(kind) => Err(kind),
    }
}

/// The three checks agree on one lookup: a regular file or a directory
/// exists, no path is both, all three answer `Ok(false)` for a missing
/// path, and all three pass on the same failure otherwise; no check ever
/// reports `NotFound` as a failure.
pub proof fn lemma_presence_checks_agree(probe: Result<EntryKind, ErrorKind>)
    ensures
        spec_file_exists(probe) == Ok::<bool, ErrorKind>(true) ==> spec_path_exists(probe) == Ok::<
            bool,
            ErrorKind,
        >(true),
        spec_dir_exists(probe) == Ok::<bool, ErrorKind>(true) ==> spec_path_exists(probe) == Ok::<
            bool,
            ErrorKind,
        >(true),
        !(spec_file_exists(probe) == Ok::<bool, ErrorKind>(true) && spec_dir_exists(probe) == Ok::<
            bool,
            ErrorKind,
        >(true)),
        spec_path_exists(probe) == Ok::<bool, ErrorKind>(false) ==> spec_file_exists(probe) == Ok::<
            bool,
            ErrorKind,
        >(false) && spec_dir_exists(probe) == Ok::<bool, ErrorKind>(false),
        spec_path_exists(probe) is Err ==> spec_file_exists(probe) == spec_path_exists(probe)
            && spec_dir_exists(probe) == spec_path_exists(probe),
        spec_path_exists(probe) != Err::<bool, ErrorKind>(ErrorKind::NotFound),
{
}

/// What each check answers, case by case: a regular file exists and is a
/// file, a directory exists and is a directory, any other entry exists
/// and is neither; a missing path is none of them; any other failure of
/// the lookup is passed on unchanged by all three.
pub proof fn lemma_presence_answers(probe: Result<EntryKind, ErrorKind>)
    ensures
        probe is Ok ==> spec_path_exists(probe) == Ok::<bool, ErrorKind>(true),
        probe == Ok::<EntryKind, ErrorKind>(EntryKind::File) ==> spec_file_exists(probe) == Ok::<
            bool,
            ErrorKind,
        >(true) && spec_dir_exists(probe) == Ok::<bool, ErrorKind>(false),
        probe == Ok::<EntryKind, ErrorKind>(EntryKind::Directory) ==> spec_dir_exists(probe) == Ok::<
            bool,
            ErrorKind,
        >(true) && spec_file_exists(probe) == Ok::<bool, ErrorKind>(false),
        (probe == Ok::<EntryKind, ErrorKind>(EntryKind::Symlink) || probe == Ok::<
            EntryKind,
            ErrorKind,
        >(EntryKind::Other)) ==> spec_file_exists(probe) == Ok::<bool, ErrorKind>(false)
            && spec_dir_exists(probe) == Ok::<bool, ErrorKind>(false),
        probe == Err::<EntryKind, ErrorKind>(ErrorKind::NotFound) ==> spec_path_exists(probe) == Ok::<
            bool,
            ErrorKind,
        >(false) && spec_file_exists(probe) == Ok::<bool, ErrorKind>(false) && spec_dir_exists(probe)
            == Ok::<bool, ErrorKind>(false),
        probe matches Err(kind) ==> (kind != ErrorKind::NotFound ==> spec_path_exists(probe) == Err::<
            bool,
            ErrorKind,
        >(kind) && spec_file_exists(probe) == Err::<bool, ErrorKind>(kind) && spec_dir_exists(probe)
            == Err::<bool, ErrorKind>(kind)),
{
}

} // verus!
