use adamantium_files::{
    append_options, create_file_options, dir_exists, entry_kind, error_code, file_exists,
    metadata, modified_seconds, open_options, path_exists, EntryKind, ErrorKind, FileMetadata, OpenMode,
    OpenOptionsPlan,
};

#[test]
fn error_codes_are_stable() {
    assert_eq!(error_code(ErrorKind::NotFound), "not_found");
    assert_eq!(error_code(ErrorKind::PermissionDenied), "permission_denied");
    assert_eq!(error_code(ErrorKind::AlreadyExists), "already_exists");
    assert_eq!(error_code(ErrorKind::InvalidInput), "invalid_input");
    assert_eq!(error_code(ErrorKind::InvalidData), "invalid_input");
    assert_eq!(error_code(ErrorKind::NotADirectory), "not_a_directory");
    assert_eq!(error_code(ErrorKind::IsADirectory), "is_a_directory");
    assert_eq!(error_code(ErrorKind::DirectoryNotEmpty), "directory_not_empty");
    assert_eq!(error_code(ErrorKind::ReadOnlyFilesystem), "read_only");
    assert_eq!(error_code(ErrorKind::Other), "io_error");
}

fn plan(read: bool, write: bool, append: bool, create: bool, truncate: bool) -> OpenOptionsPlan {
    OpenOptionsPlan { read, write, append, create, truncate }
}

#[test]
fn open_modes_use_their_flags() {
    assert_eq!(open_options(OpenMode::Read), plan(true, false, false, false, false));
    assert_eq!(open_options(OpenMode::Write), plan(false, true, false, true, true));
    assert_eq!(open_options(OpenMode::Append), plan(false, false, true, true, false));
    assert_eq!(open_options(OpenMode::ReadWrite), plan(true, true, false, false, false));
}

#[test]
fn create_file_and_append_open_like_append_mode() {
    assert_eq!(create_file_options(), open_options(OpenMode::Append));
    assert_eq!(append_options(), open_options(OpenMode::Append));
    assert!(create_file_options().create && !create_file_options().truncate);
}

#[test]
fn only_write_truncates_and_only_write_or_append_creates() {
    for mode in [OpenMode::Read, OpenMode::Write, OpenMode::Append, OpenMode::ReadWrite] {
        let flags = open_options(mode);
        assert_eq!(flags.truncate, mode == OpenMode::Write);
        assert_eq!(flags.create, mode == OpenMode::Write || mode == OpenMode::Append);
        assert!(flags.read || flags.write || flags.append);
        assert!(!flags.truncate || (flags.write && !flags.append));
    }
}

#[test]
fn missing_paths_do_not_exist() {
    let probe = Err(ErrorKind::NotFound);
    assert_eq!(path_exists(probe), Ok(false));
    assert_eq!(file_exists(probe), Ok(false));
    assert_eq!(dir_exists(probe), Ok(false));
}

#[test]
fn access_errors_are_preserved() {
    let probe = Err(ErrorKind::PermissionDenied);
    assert_eq!(path_exists(probe), Err(ErrorKind::PermissionDenied));
    assert_eq!(file_exists(probe), Err(ErrorKind::PermissionDenied));
    assert_eq!(dir_exists(probe), Err(ErrorKind::PermissionDenied));
    assert_eq!(path_exists(Err(ErrorKind::NotADirectory)), Err(ErrorKind::NotADirectory));
}

#[test]
fn existing_entries_are_told_apart() {
    assert_eq!(path_exists(Ok(EntryKind::File)), Ok(true));
    assert_eq!(file_exists(Ok(EntryKind::File)), Ok(true));
    assert_eq!(dir_exists(Ok(EntryKind::File)), Ok(false));
    assert_eq!(path_exists(Ok(EntryKind::Directory)), Ok(true));
    assert_eq!(file_exists(Ok(EntryKind::Directory)), Ok(false));
    assert_eq!(dir_exists(Ok(EntryKind::Directory)), Ok(true));
    assert_eq!(path_exists(Ok(EntryKind::Other)), Ok(true));
    assert_eq!(file_exists(Ok(EntryKind::Other)), Ok(false));
    assert_eq!(dir_exists(Ok(EntryKind::Other)), Ok(false));
}

#[test]
fn entry_kinds_follow_the_file_type() {
    assert_eq!(entry_kind(true, false, false), EntryKind::File);
    assert_eq!(entry_kind(false, true, false), EntryKind::Directory);
    assert_eq!(entry_kind(false, false, true), EntryKind::Symlink);
    assert_eq!(entry_kind(false, false, false), EntryKind::Other);
}

#[test]
fn metadata_keeps_its_fields() {
    let m = metadata(false, false, true, 42, true, Some(1_700_000_000_999_999_999));
    assert_eq!(
        m,
        FileMetadata {
            kind: EntryKind::Symlink,
            length: 42,
            readonly: true,
            modified_unix_seconds: Some(1_700_000_000),
        }
    );
    let m = metadata(true, false, false, 0, false, None);
    assert_eq!(m.kind, EntryKind::File);
    assert_eq!(m.modified_unix_seconds, None);
}

#[test]
fn modification_times_are_whole_seconds_since_the_epoch() {
    assert_eq!(modified_seconds(None), None);
    assert_eq!(modified_seconds(Some(0)), Some(0));
    assert_eq!(modified_seconds(Some(999_999_999)), Some(0));
    assert_eq!(modified_seconds(Some(1_000_000_000)), Some(1));
    assert_eq!(modified_seconds(Some(1_500_000_000_500_000_000)), Some(1_500_000_000));
    assert_eq!(modified_seconds(Some(-1)), None);
    assert_eq!(modified_seconds(Some(-5_000_000_000)), None);
    let latest = 18_446_744_073_709_551_615i128 * 1_000_000_000 + 999_999_999;
    assert_eq!(modified_seconds(Some(latest)), Some(u64::MAX));
    assert_eq!(metadata(true, false, false, 1, false, Some(-1)).modified_unix_seconds, None);
}
