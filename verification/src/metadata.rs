use vstd::prelude::*;

use crate::kinds::{EntryKind, FileMetadata};

verus! {

/// The kind of an entry from the three tests of its file type, asked in
/// this order: regular file, directory, symlink; anything else is `Other`.
pub open spec fn spec_entry_kind(is_file: bool, is_dir: bool, is_symlink: bool) -> EntryKind {
    if is_file {
        EntryKind::File
    } else if is_dir {
        EntryKind::Directory
    } else if is_symlink {
        EntryKind::Symlink
    } else {
        EntryKind::Other
    }
}

/// Classifies an entry by its file type.
pub fn entry_kind(is_file: bool, is_dir: bool, is_symlink: bool) -> (kind: EntryKind)
    ensures
        kind == spec_entry_kind(is_file, is_dir, is_symlink),
{
    if is_file {
        EntryKind::File
    } else if is_dir {
        EntryKind::Directory
    } else if is_symlink {
        EntryKind::Symlink
    } else {
        EntryKind::Other
    }
}

/// Nanoseconds in one second.
pub const NANOS_PER_SECOND: i128 = 1_000_000_000i128;

/// The largest count of nanoseconds after the epoch that a system time
/// can lie at: its whole seconds fit in a `u64`.
pub open spec fn fits_system_time(nanos_since_epoch: i128) -> bool {
    nanos_since_epoch < 18446744073709551616 * 1_000_000_000
}

/// The modification time as reported: `None` where the platform gives no
/// time, or a time before the Unix epoch; otherwise the whole seconds
/// since the epoch, rounded down. A time is given as its signed distance
/// from the epoch in nanoseconds, negative before the epoch.
pub open spec fn spec_modified_seconds(modified: Option<i128>) -> Option<u64> {
    match modified {
        None => None,
        Some(nanos) => if nanos < 0 {
            None
        } else {
            Some((nanos / NANOS_PER_SECOND) as u64)
        },
    }
}

/// Converts a modification time, as the signed distance from the Unix
/// epoch in nanoseconds, to whole seconds since the epoch.
pub fn modified_seconds(modified: Option<i128>) -> (seconds: Option<u64>)
    requires
        modified matches Some(nanos) ==> fits_system_time(nanos),
    ensures
        seconds == spec_modified_seconds(modified),
        seconds matches Some(s) ==> modified matches Some(nanos) && s * NANOS_PER_SECOND <= nanos
            < (s + 1) * NANOS_PER_SECOND,
{
    match modified {
        None => None,
        Some(nanos) => {
            if nanos < 0 {
                None
            } else {
                let whole: i128 = nanos / NANOS_PER_SECOND;
                assert(0 <= whole < 18446744073709551616) by (nonlinear_arith)
                    requires
                        whole == nanos / NANOS_PER_SECOND,
                        NANOS_PER_SECOND == 1_000_000_000,
                        0 <= nanos < 18446744073709551616 * 1_000_000_000,
                ;
                assert(whole * NANOS_PER_SECOND <= nanos < (whole + 1) * NANOS_PER_SECOND)
                    by (nonlinear_arith)
                    requires
                        whole == nanos / NANOS_PER_SECOND,
                        NANOS_PER_SECOND == 1_000_000_000,
                        0 <= nanos,
                ;
                Some(whole as u64)
            }
        },
    }
}

/// Every time at or after the epoch is reported, as the whole seconds
/// elapsed since the epoch, rounded down; only a missing time or a time
/// before the epoch is reported as `None`.
pub proof fn lemma_modified_seconds_rounds_down(modified: Option<i128>)
    requires
        modified matches Some(nanos) ==> fits_system_time(nanos),
    ensures
        modified is None ==> spec_modified_seconds(modified) is None,
        modified matches Some(nanos) ==> (nanos < 0 <==> spec_modified_seconds(modified) is None),
        modified matches Some(nanos) ==> (0 <= nanos ==> (spec_modified_seconds(modified) matches Some(
            s,
        ) && s * 1_000_000_000 <= nanos < (s + 1) * 1_000_000_000)),
{
    if let Some(nanos) = modified {
        if nanos >= 0 {
            let s = nanos / NANOS_PER_SECOND;
            assert(0 <= s < 18446744073709551616 && s * 1_000_000_000 <= nanos < (s + 1)
                * 1_000_000_000) by (nonlinear_arith)
                requires
                    s == nanos / NANOS_PER_SECOND,
                    NANOS_PER_SECOND == 1_000_000_000,
                    0 <= nanos < 18446744073709551616 * 1_000_000_000,
            ;
        }
    }
}

/// Portable metadata of an entry, read without following a final symlink:
/// its kind, its length in bytes, whether it is read-only, and its
/// modification time in whole seconds since the Unix epoch, rounded down,
/// where the platform reports one at or after the epoch. The modification
/// time is given as its signed distance from the epoch in nanoseconds.
pub fn metadata(
    is_file: bool,
    is_dir: bool,
    is_symlink: bool,
    length: u64,
    readonly: bool,
    modified: Option<i128>,
) -> (m: FileMetadata)
    requires
        modified matches Some(nanos) ==> fits_system_time(nanos),
    ensures
        m.kind == spec_entry_kind(is_file, is_dir, is_symlink),
        m.length == length,
        m.readonly == readonly,
        m.modified_unix_seconds == spec_modified_seconds(modified),
{
    FileMetadata {
        kind: entry_kind(is_file, is_dir, is_symlink),
        length,
        readonly,
        modified_unix_seconds: modified_seconds(modified),
    }
}

/// Each kind of entry is reported for exactly one combination of the
/// type tests that the platform can give (a file type is at most one of
/// regular file, directory and symlink): a regular file is `File`, a
/// directory `Directory`, a symlink `Symlink`, and an entry that is none of
/// them `Other`.
pub proof fn lemma_entry_kind_matches_file_type(is_file: bool, is_dir: bool, is_symlink: bool)
    requires
        !(is_file && is_dir),
        !(is_file && is_symlink),
        !(is_dir && is_symlink),
    ensures
        (spec_entry_kind(is_file, is_dir, is_symlink) == EntryKind::File) == is_file,
        (spec_entry_kind(is_file, is_dir, is_symlink) == EntryKind::Directory) == is_dir,
        (spec_entry_kind(is_file, is_dir, is_symlink) == EntryKind::Symlink) == is_symlink,
        (spec_entry_kind(is_file, is_dir, is_symlink) == EntryKind::Other) == (!is_file && !is_dir
            && !is_symlink),
{
}

} // verus!
