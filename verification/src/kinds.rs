use vstd::prelude::*;

verus! {

/// How `open` accesses a file.
#[derive(Clone, Copy, Debug, PartialEq, Eq, Structural)]
pub enum OpenMode {
    Read,
    Write,
    Append,
    ReadWrite,
}

/// What a directory entry is, as reported without following a final symlink.
#[derive(Clone, Copy, Debug, PartialEq, Eq, Structural)]
pub enum EntryKind {
    File,
    Directory,
    Symlink,
    Other,
}

/// Portable metadata of one filesystem entry.
#[derive(Clone, Copy, Debug, PartialEq, Eq, Structural)]
pub struct FileMetadata {
    pub kind: EntryKind,
    pub length: u64,
    pub readonly: bool,
    pub modified_unix_seconds: Option<u64>,
}

/// The categories of filesystem failure that this package tells apart.
/// Every other kind of failure is `Other`.
#[derive(Clone, Copy, Debug, PartialEq, Eq, Structural)]
pub enum ErrorKind {
    NotFound,
    PermissionDenied,
    AlreadyExists,
    InvalidInput,
    InvalidData,
    NotADirectory,
    IsADirectory,
    DirectoryNotEmpty,
    ReadOnlyFilesystem,
    Other,
}

/// The stable code that the command interface reports for a failure kind.
pub open spec fn spec_error_code(kind: ErrorKind) -> Seq<char> {
    match kind {
        ErrorKind::NotFound => "not_found"@,
        ErrorKind::PermissionDenied => "permission_denied"@,
        ErrorKind::AlreadyExists => "already_exists"@,
        ErrorKind::InvalidInput => "invalid_input"@,
        ErrorKind::InvalidData => "invalid_input"@,
        ErrorKind::NotADirectory => "not_a_directory"@,
        ErrorKind::IsADirectory => "is_a_directory"@,
        ErrorKind::DirectoryNotEmpty => "directory_not_empty"@,
        ErrorKind::ReadOnlyFilesystem => "read_only"@,
        ErrorKind::Other => "io_error"@,
    }
}

/// Stable category used by the command interface. The operating-system
/// message is reported separately for diagnostics.
pub fn error_code(kind: ErrorKind) -> (code: &'static str)
    ensures
        code@ == spec_error_code(kind),
{
    match kind {
        ErrorKind::NotFound => "not_found",
        ErrorKind::PermissionDenied => "permission_denied",
        ErrorKind::AlreadyExists => "already_exists",
        ErrorKind::InvalidInput => "invalid_input",
        ErrorKind::InvalidData => "invalid_input",
        ErrorKind::NotADirectory => "not_a_directory",
        ErrorKind::IsADirectory => "is_a_directory",
        ErrorKind::DirectoryNotEmpty => "directory_not_empty",
        ErrorKind::ReadOnlyFilesystem => "read_only",
        ErrorKind::Other => "io_error",
    }
}

/// Each kind of failure has a code of its own, except that invalid input
/// and invalid data share `invalid_input`.
pub proof fn lemma_error_codes_distinct(a: ErrorKind, b: ErrorKind)
    ensures
        spec_error_code(a) == spec_error_code(b) <==> (a == b || ((a == ErrorKind::InvalidInput
            || a == ErrorKind::InvalidData) && (b == ErrorKind::InvalidInput || b
            == ErrorKind::InvalidData))),
{
    reveal_strlit("not_found");
    reveal_strlit("permission_denied");
    reveal_strlit("already_exists");
    reveal_strlit("invalid_input");
    reveal_strlit("not_a_directory");
    reveal_strlit("is_a_directory");
    reveal_strlit("directory_not_empty");
    reveal_strlit("read_only");
    reveal_strlit("io_error");
    assert("not_found"@[0] == 'n' && "not_found"@.len() == 9);
    assert("permission_denied"@[0] == 'p' && "permission_denied"@.len() == 17);
    assert("already_exists"@[0] == 'a' && "already_exists"@.len() == 14);
    assert("invalid_input"@[0] == 'i' && "invalid_input"@.len() == 13);
    assert("not_a_directory"@[0] == 'n' && "not_a_directory"@.len() == 15);
    assert("is_a_directory"@[0] == 'i' && "is_a_directory"@.len() == 14);
    assert("directory_not_empty"@[0] == 'd' && "directory_not_empty"@.len() == 19);
    assert("read_only"@[0] == 'r' && "read_only"@.len() == 9);
    assert("io_error"@[0] == 'i' && "io_error"@.len() == 8);
}

} // verus!
