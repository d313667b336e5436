use adamantium_files::{
    answer_line, arity, command_named, decimal, exit_code, failure_message, help_text, kind_name,
    metadata_line, open_mode_named, parse_request, refusal_report, rejection_detail,
    rejection_error_kind, rejection_outcome, text_is, Command, EntryKind, ErrorKind,
    FileMetadata, OpenMode, Outcome, Rejection, Request,
};

fn args(items: &[Option<&str>]) -> Vec<Option<String>> {
    items.iter().map(|a| a.map(|s| s.to_string())).collect()
}

#[test]
fn help_is_exactly_one_argument() {
    assert!(matches!(parse_request(&args(&[Some("--help")])), Ok(Request::Help)));
    assert!(matches!(
        parse_request(&args(&[Some("--help"), Some("x")])),
        Err(Rejection::Usage)
    ));
}

#[test]
fn extra_arguments_are_refused_before_anything_runs() {
    let r = parse_request(&args(&[Some("write"), Some("file"), Some("replacement"), Some("extra")]));
    assert!(matches!(r, Err(Rejection::Usage)));
    assert_eq!(exit_code(rejection_outcome(Rejection::Usage)), 2);
}

#[test]
fn unknown_or_missing_commands_are_usage_errors() {
    assert!(matches!(parse_request(&args(&[])), Err(Rejection::Usage)));
    assert!(matches!(parse_request(&args(&[Some("delete"), Some("x")])), Err(Rejection::Usage)));
    assert!(matches!(parse_request(&args(&[None, Some("x")])), Err(Rejection::Usage)));
    assert!(matches!(parse_request(&args(&[Some("read")])), Err(Rejection::Usage)));
    assert!(matches!(parse_request(&args(&[Some("copy"), Some("a")])), Err(Rejection::Usage)));
}

#[test]
fn read_of_a_missing_file_is_a_filesystem_failure() {
    match parse_request(&args(&[Some("read"), Some("missing")])) {
        Ok(Request::Run { command, mode, text }) => {
            assert_eq!(command, Command::Read);
            assert_eq!(mode, None);
            assert_eq!(text, None);
        }
        _ => panic!("read with a path is accepted"),
    }
    let message = failure_message("not_found", "read", "root/missing", "No such file or directory (os error 2)");
    assert!(message.contains("read:"));
    assert_eq!(
        message,
        "filesystem_error:not_found:read: root/missing: No such file or directory (os error 2)"
    );
    assert_eq!(exit_code(Outcome::FilesystemError), 1);
}

#[test]
fn paths_need_not_be_text() {
    match parse_request(&args(&[Some("copy"), None, None])) {
        Ok(Request::Run { command, .. }) => assert_eq!(command, Command::Copy),
        _ => panic!("copy takes any two paths"),
    }
}

#[test]
fn open_modes_are_named() {
    match parse_request(&args(&[Some("open"), Some("f"), Some("read-write")])) {
        Ok(Request::Run { command, mode, text }) => {
            assert_eq!(command, Command::Open);
            assert_eq!(mode, Some(OpenMode::ReadWrite));
            assert_eq!(text, None);
        }
        _ => panic!("read-write is a mode"),
    }
    assert!(matches!(
        parse_request(&args(&[Some("open"), Some("f"), Some("readwrite")])),
        Err(Rejection::InvalidMode)
    ));
    assert!(matches!(
        parse_request(&args(&[Some("open"), Some("f"), None])),
        Err(Rejection::InvalidMode)
    ));
    assert_eq!(open_mode_named(&Some("append".to_string())), Some(OpenMode::Append));
    assert_eq!(open_mode_named(&Some("write".to_string())), Some(OpenMode::Write));
    assert_eq!(open_mode_named(&Some("read".to_string())), Some(OpenMode::Read));
    assert_eq!(open_mode_named(&Some("Read".to_string())), None);
    assert_eq!(open_mode_named(&None), None);
}

#[test]
fn write_and_append_need_text() {
    match parse_request(&args(&[Some("append"), Some("f"), Some("Hello ą")])) {
        Ok(Request::Run { command, mode, text }) => {
            assert_eq!(command, Command::Append);
            assert_eq!(mode, None);
            assert_eq!(text.as_deref(), Some("Hello ą"));
        }
        _ => panic!("append with text is accepted"),
    }
    let r = parse_request(&args(&[Some("write"), Some("f"), None]));
    assert!(matches!(r, Err(Rejection::InvalidText)));
    assert_eq!(exit_code(rejection_outcome(Rejection::InvalidText)), 1);
    assert_eq!(rejection_detail(Rejection::InvalidText), Some("text must be UTF-8"));
    assert_eq!(
        rejection_detail(Rejection::InvalidMode),
        Some("mode must be read, write, append, or read-write")
    );
    assert_eq!(rejection_detail(Rejection::Usage), None);
}

#[test]
fn every_command_has_its_name_and_arity() {
    let table = [
        ("open", Command::Open, 3),
        ("read", Command::Read, 2),
        ("create", Command::Create, 2),
        ("write", Command::Write, 3),
        ("append", Command::Append, 3),
        ("exists", Command::Exists, 2),
        ("file-exists", Command::FileExists, 2),
        ("dir-exists", Command::DirExists, 2),
        ("copy", Command::Copy, 3),
        ("rename", Command::Rename, 3),
        ("remove", Command::Remove, 2),
        ("mkdir", Command::MakeDir, 2),
        ("rmdir", Command::RemoveDir, 2),
        ("list", Command::List, 2),
        ("metadata", Command::Metadata, 2),
    ];
    for (name, command, n) in table {
        assert_eq!(command_named(name), Some(command));
        assert_eq!(arity(command), n);
    }
    assert_eq!(command_named("Read"), None);
    assert_eq!(command_named(""), None);
}

#[test]
fn exit_codes_follow_the_outcome() {
    assert_eq!(exit_code(Outcome::Success), 0);
    assert_eq!(exit_code(Outcome::FilesystemError), 1);
    assert_eq!(exit_code(Outcome::UsageError), 2);
    assert_eq!(rejection_outcome(Rejection::InvalidMode), Outcome::FilesystemError);
    assert_eq!(rejection_outcome(Rejection::Usage), Outcome::UsageError);
}

#[test]
fn text_comparison_is_by_characters() {
    assert!(text_is("ą世界", "ą世界"));
    assert!(!text_is("ą世", "ą世界"));
    assert!(!text_is("abc", "abd"));
    assert!(text_is("", ""));
}

#[test]
fn refused_mode_is_reported_as_invalid_input() {
    let rejection = match parse_request(&args(&[Some("open"), Some("dir/f"), Some("rw")])) {
        Err(r) => r,
        Ok(_) => panic!("rw is not a mode"),
    };
    assert_eq!(
        refusal_report(rejection, "open", "dir/f"),
        (
            1,
            "filesystem_error:invalid_input:open: dir/f: mode must be read, write, append, or read-write"
                .to_string()
        )
    );
    assert_eq!(rejection_error_kind(rejection), Some(ErrorKind::InvalidInput));
}

#[test]
fn refused_text_is_reported_as_invalid_input() {
    for command in ["write", "append"] {
        let rejection = match parse_request(&args(&[Some(command), Some("p"), None])) {
            Err(r) => r,
            Ok(_) => panic!("text must be UTF-8"),
        };
        assert_eq!(
            refusal_report(rejection, command, "p"),
            (1, format!("filesystem_error:invalid_input:{command}: p: text must be UTF-8"))
        );
    }
}

#[test]
fn usage_errors_show_the_help_text() {
    let (code, message) = refusal_report(Rejection::Usage, "write", "file");
    assert_eq!(code, 2);
    assert_eq!(message, help_text());
    assert!(help_text().starts_with("Usage: adamantium-files <command> <path> [argument]\n"));
    assert!(help_text().ends_with("  --help                   Show this help\n"));
    assert_eq!(rejection_error_kind(Rejection::Usage), None);
}

#[test]
fn answers_are_printed_as_lines() {
    assert_eq!(answer_line(true), "true\n");
    assert_eq!(answer_line(false), "false\n");
}

#[test]
fn numbers_are_written_in_decimal() {
    assert_eq!(decimal(0), "0");
    assert_eq!(decimal(7), "7");
    assert_eq!(decimal(10), "10");
    assert_eq!(decimal(1_700_000_000), "1700000000");
    assert_eq!(decimal(u64::MAX), u64::MAX.to_string());
}

#[test]
fn metadata_lines_list_kind_length_flag_and_time() {
    let m = FileMetadata {
        kind: EntryKind::File,
        length: 4,
        readonly: false,
        modified_unix_seconds: Some(1_700_000_123),
    };
    assert_eq!(metadata_line(m), "file|4|false|1700000123\n");
    let m = FileMetadata {
        kind: EntryKind::Directory,
        length: 0,
        readonly: true,
        modified_unix_seconds: None,
    };
    assert_eq!(metadata_line(m), "directory|0|true|None\n");
    assert_eq!(kind_name(EntryKind::Symlink), "symlink");
    assert_eq!(kind_name(EntryKind::Other), "other");
}
