use vstd::prelude::*;

use crate::kinds::{error_code, spec_error_code, EntryKind, ErrorKind, FileMetadata, OpenMode};

verus! {

/// The commands of the command-line interface.
#[derive(Clone, Copy, Debug, PartialEq, Eq, Structural)]
pub enum Command {
    Open,
    Read,
    Create,
    Write,
    Append,
    Exists,
    FileExists,
    DirExists,
    Copy,
    Rename,
    Remove,
    MakeDir,
    RemoveDir,
    List,
    Metadata,
}

/// Why a command line is not carried out.
#[derive(Clone, Copy, Debug, PartialEq, Eq, Structural)]
pub enum Rejection {
    /// An unknown command, or a wrong number of arguments for it.
    Usage,
    /// The mode given to `open` is not one of the four names.
    InvalidMode,
    /// The text given to `write` or `append` is not UTF-8.
    InvalidText,
}

/// What a command line asks for, once it has been checked.
#[derive(Debug)]
pub enum Request {
    Help,
    Run { command: Command, mode: Option<OpenMode>, text: Option<String> },
}

/// How the program ends.
#[derive(Clone, Copy, Debug, PartialEq, Eq, Structural)]
pub enum Outcome {
    Success,
    FilesystemError,
    UsageError,
}

/// The command that a name on the command line stands for.
pub open spec fn spec_command_named(name: Seq<char>) -> Option<Command> {
    if name == "open"@ {
        Some(Command::Open)
    } else if name == "read"@ {
        Some(Command::Read)
    } else if name == "create"@ {
        Some(Command::Create)
    } else if name == "write"@ {
        Some(Command::Write)
    } else if name == "append"@ {
        Some(Command::Append)
    } else if name == "exists"@ {
        Some(Command::Exists)
    } else if name == "file-exists"@ {
        Some(Command::FileExists)
    } else if name == "dir-exists"@ {
        Some(Command::DirExists)
    } else if name == "copy"@ {
        Some(Command::Copy)
    } else if name == "rename"@ {
        Some(Command::Rename)
    } else if name == "remove"@ {
        Some(Command::Remove)
    } else if name == "mkdir"@ {
        Some(Command::MakeDir)
    } else if name == "rmdir"@ {
        Some(Command::RemoveDir)
    } else if name == "list"@ {
        Some(Command::List)
    } else if name == "metadata"@ {
        Some(Command::Metadata)
    } else {
        None
    }
}

/// The number of command-line arguments that a command takes, its own
/// name included: a path, and for five commands a second argument.
pub open spec fn spec_arity(command: Command) -> nat {
    match command {
        Command::Open | Command::Write | Command::Append | Command::Copy | Command::Rename => 3,
        _ => 2,
    }
}

/// The open mode that an argument names, if it is text and names one.
pub open spec fn spec_open_mode_named(arg: Option<Seq<char>>) -> Option<OpenMode> {
    match arg {
        Some(name) => if name == "read"@ {
            Some(OpenMode::Read)
        } else if name == "write"@ {
            Some(OpenMode::Write)
        } else if name == "append"@ {
            Some(OpenMode::Append)
        } else if name == "read-write"@ {
            Some(OpenMode::ReadWrite)
        } else {
            None
        },
        None => None,
    }
}

/// The arguments are exactly `--help`.
pub open spec fn is_help_request(args: Seq<Option<Seq<char>>>) -> bool {
    args.len() == 1 && args[0] == Some("--help"@)
}

/// The command that the first argument names, if it is text and names one.
pub open spec fn spec_requested_command(args: Seq<Option<Seq<char>>>) -> Option<Command> {
    if args.len() > 0 {
        match args[0] {
            Some(name) => spec_command_named(name),
            None => None,
        }
    } else {
        None
    }
}

/// The help text.
pub const HELP_LITERAL: &'static str = "Usage: adamantium-files <command> <path> [argument]
Commands:
  open <path> <mode>        Open and close using read, write, append, or read-write
  read <path>               Write raw file bytes to stdout
  create <path>             Create a missing file without truncating it
  write <path> <text>       Create or overwrite a UTF-8 text file
  append <path> <text>      Append UTF-8 text without adding a newline
  exists <path>             Print true or false
  file-exists <path>        Print whether the path is a regular file
  dir-exists <path>         Print whether the path is a directory
  copy <source> <target>    Copy a file, replacing an existing target
  rename <source> <target>  Rename a file or directory
  remove <path>            Remove a file
  mkdir <path>             Create directories, including missing parents
  rmdir <path>             Remove an empty directory
  list <path>              Print sorted entry names, one per line
  metadata <path>          Print kind, length, readonly flag, and modification time
  --help                   Show this help
";

/// Why a command line is refused, in the order the checks are made: help
/// first, then the command and its argument count, then the open mode or
/// the text.
pub open spec fn spec_rejection(args: Seq<Option<Seq<char>>>) -> Option<Rejection> {
    if is_help_request(args) {
        None
    } else {
        match spec_requested_command(args) {
            None => Some(Rejection::Usage),
            Some(command) => if args.len() != spec_arity(command) {
                Some(Rejection::Usage)
            } else if command == Command::Open && spec_open_mode_named(args[2]) is None {
                Some(Rejection::InvalidMode)
            } else if (command == Command::Write || command == Command::Append) && args[2] is None {
                Some(Rejection::InvalidText)
            } else {
                None
            },
        }
    }
}

/// Whether two strings hold the same characters.
pub fn text_is(s: &str, expected: &str) -> (r: bool)
    ensures
        r == (s@ == expected@),
{
    let n = s.unicode_len();
    if n != expected.unicode_len() {
        return false;
    }
    let mut i: usize = 0;
    while i < n
        invariant
            n == s@.len(),
            n == expected@.len(),
            i <= n,
            forall|j: int| 0 <= j < i ==> s@[j] == expected@[j],
        decreases n - i,
    {
        if s.get_char(i) != expected.get_char(i) {
            return false;
        }
        i = i + 1;
    }
    assert(s@ =~= expected@);
    true
}

/// The command that a name stands for, if any.
pub fn command_named(name: &str) -> (r: Option<Command>)
    ensures
        r == spec_command_named(name@),
{
    if text_is(name, "open") {
        Some(Command::Open)
    } else if text_is(name, "read") {
        Some(Command::Read)
    } else if text_is(name, "create") {
        Some(Command::Create)
    } else if text_is(name, "write") {
        Some(Command::Write)
    } else if text_is(name, "append") {
        Some(Command::Append)
    } else if text_is(name, "exists") {
        Some(Command::Exists)
    } else if text_is(name, "file-exists") {
        Some(Command::FileExists)
    } else if text_is(name, "dir-exists") {
        Some(Command::DirExists)
    } else if text_is(name, "copy") {
        Some(Command::Copy)
    } else if text_is(name, "rename") {
        Some(Command::Rename)
    } else if text_is(name, "remove") {
        Some(Command::Remove)
    } else if text_is(name, "mkdir") {
        Some(Command::MakeDir)
    } else if text_is(name, "rmdir") {
        Some(Command::RemoveDir)
    } else if text_is(name, "list") {
        Some(Command::List)
    } else if text_is(name, "metadata") {
        Some(Command::Metadata)
    } else {
        None
    }
}

/// The number of arguments a command takes, its own name included.
pub fn arity(command: Command) -> (n: usize)
    ensures
        n == spec_arity(command),
{
    match command {
        Command::Open | Command::Write | Command::Append | Command::Copy | Command::Rename => 3,
        _ => 2,
    }
}

/// The open mode that an argument names, if any.
pub fn open_mode_named(arg: &Option<String>) -> (r: Option<OpenMode>)
    ensures
        r == spec_open_mode_named(arg.deep_view()),
{
    match arg {
        Some(name) => {
            let name = name.as_str();
            if text_is(name, "read") {
                Some(OpenMode::Read)
            } else if text_is(name, "write") {
                Some(OpenMode::Write)
            } else if text_is(name, "append") {
                Some(OpenMode::Append)
            } else if text_is(name, "read-write") {
                Some(OpenMode::ReadWrite)
            } else {
                None
            }
        },
        None => None,
    }
}

/// Checks a command line. Each argument is given as its text, or `None`
/// where it is not valid UTF-8. Exactly `--help` asks for help; otherwise
/// the first argument must name a command and the count must match it, the
/// mode of `open` must be one of its four names, and the text of `write`
/// and `append` must be UTF-8. Nothing is touched on disk before this
/// check has passed.
pub fn parse_request(args: &Vec<Option<String>>) -> (r: Result<Request, Rejection>)
    ensures
        r is Err <==> spec_rejection(args.deep_view()) is Some,
        r matches Err(e) ==> spec_rejection(args.deep_view()) == Some(e),
        (r matches Ok(Request::Help)) <==> is_help_request(args.deep_view()),
        r matches Ok(Request::Run { command, mode, text }) ==> {
            &&& spec_requested_command(args.deep_view()) == Some(command)
            &&& mode == (if command == Command::Open {
                spec_open_mode_named(args.deep_view()[2])
            } else {
                None
            })
            &&& text.deep_view() == (if command == Command::Write || command == Command::Append {
                args.deep_view()[2]
            } else {
                None
            })
        },
{
    let ghost a = args.deep_view();
    if args.len() == 1 {
        if let Some(first) = &args[0] {
            if text_is(first.as_str(), "--help") {
                return Ok(Request::Help);
            }
        }
    }
    assert(!is_help_request(a));
    let named = if args.len() > 0 {
        match &args[0] {
            Some(name) => command_named(name.as_str()),
            None => None,
        }
    } else {
        None
    };
    let command = match named {
        Some(c) => c,
        None => {
            return Err(Rejection::Usage);
        },
    };
    if args.len() != arity(command) {
        return Err(Rejection::Usage);
    }
    match command {
        Command::Open => match open_mode_named(&args[2]) {
            Some(mode) => Ok(Request::Run { command, mode: Some(mode), text: None }),
            None => Err(Rejection::InvalidMode),
        },
        Command::Write | Command::Append => match &args[2] {
            Some(text) => Ok(Request::Run { command, mode: None, text: Some(text.clone()) }),
            None => Err(Rejection::InvalidText),
        },
        _ => Ok(Request::Run { command, mode: None, text: None }),
    }
}

/// The exit status of each outcome: success is 0, a filesystem failure 1,
/// and an unknown command or a wrong argument count 2.
pub open spec fn spec_exit_code(outcome: Outcome) -> u8 {
    match outcome {
        Outcome::Success => 0,
        Outcome::FilesystemError => 1,
        Outcome::UsageError => 2,
    }
}

/// The exit status that the program ends with.
pub fn exit_code(outcome: Outcome) -> (code: u8)
    ensures
        code == spec_exit_code(outcome),
{
    match outcome {
        Outcome::Success => 0,
        Outcome::FilesystemError => 1,
        Outcome::UsageError => 2,
    }
}

/// A refused command line ends as a usage error when the command or its
/// argument count is wrong, and as an invalid-input failure of the
/// command otherwise.
pub open spec fn spec_rejection_outcome(rejection: Rejection) -> Outcome {
    if rejection == Rejection::Usage {
        Outcome::UsageError
    } else {
        Outcome::FilesystemError
    }
}

/// How a refused command line ends.
pub fn rejection_outcome(rejection: Rejection) -> (outcome: Outcome)
    ensures
        outcome == spec_rejection_outcome(rejection),
{
    match rejection {
        Rejection::Usage => Outcome::UsageError,
        _ => Outcome::FilesystemError,
    }
}

/// A command line that is not exactly `--help` is refused with exit status
/// 2 exactly when its first argument names no command or the number of
/// arguments does not fit the command; a refused open mode or text ends
/// with status 1, like any other failed filesystem operation.
pub proof fn lemma_refusal_exit_codes(args: Seq<Option<Seq<char>>>)
    ensures
        (spec_rejection(args) == Some(Rejection::Usage)) <==> (!is_help_request(args) && (
        spec_requested_command(args) is None || args.len() != spec_arity(
            spec_requested_command(args)->0,
        ))),
        spec_rejection(args) == Some(Rejection::Usage) ==> spec_exit_code(
            spec_rejection_outcome(Rejection::Usage),
        ) == 2,
        spec_rejection(args) matches Some(r) ==> (r != Rejection::Usage ==> spec_exit_code(
            spec_rejection_outcome(r),
        ) == 1),
{
}

/// `write` and `append` accept any text that is UTF-8, the empty text
/// included: with a path and a text argument the command line is
/// accepted, and the text refusal happens only where the text argument is
/// not UTF-8.
pub proof fn lemma_text_commands_accept_any_text(args: Seq<Option<Seq<char>>>)
    requires
        args.len() == 3,
        args[0] == Some("write"@) || args[0] == Some("append"@),
    ensures
        spec_requested_command(args) == (if args[0] == Some("write"@) {
            Some(Command::Write)
        } else {
            Some(Command::Append)
        }),
        args[2] is Some ==> spec_rejection(args) is None,
        args[2] is None ==> spec_rejection(args) == Some(Rejection::InvalidText),
{
    reveal_strlit("write");
    reveal_strlit("append");
    reveal_strlit("open");
    reveal_strlit("read");
    reveal_strlit("create");
    assert("write"@[0] == 'w');
    assert("append"@[0] == 'a');
    assert("open"@[0] == 'o');
    assert("read"@[0] == 'r');
    assert("create"@[0] == 'c');
    assert("write"@ != "open"@ && "write"@ != "read"@ && "write"@ != "create"@);
    assert("append"@ != "open"@ && "append"@ != "read"@ && "append"@ != "create"@ && "append"@
        != "write"@);
}

/// Each command and each open mode is recognised by its own name.
pub proof fn lemma_names_recognised()
    ensures
        spec_command_named("open"@) == Some(Command::Open),
        spec_command_named("read"@) == Some(Command::Read),
        spec_command_named("create"@) == Some(Command::Create),
        spec_command_named("write"@) == Some(Command::Write),
        spec_command_named("append"@) == Some(Command::Append),
        spec_command_named("exists"@) == Some(Command::Exists),
        spec_command_named("file-exists"@) == Some(Command::FileExists),
        spec_command_named("dir-exists"@) == Some(Command::DirExists),
        spec_command_named("copy"@) == Some(Command::Copy),
        spec_command_named("rename"@) == Some(Command::Rename),
        spec_command_named("remove"@) == Some(Command::Remove),
        spec_command_named("mkdir"@) == Some(Command::MakeDir),
        spec_command_named("rmdir"@) == Some(Command::RemoveDir),
        spec_command_named("list"@) == Some(Command::List),
        spec_command_named("metadata"@) == Some(Command::Metadata),
        spec_command_named(""@) is None,
        spec_open_mode_named(Some("read"@)) == Some(OpenMode::Read),
        spec_open_mode_named(Some("write"@)) == Some(OpenMode::Write),
        spec_open_mode_named(Some("append"@)) == Some(OpenMode::Append),
        spec_open_mode_named(Some("read-write"@)) == Some(OpenMode::ReadWrite),
        spec_open_mode_named(None) is None,
{
    reveal_strlit("open");
    reveal_strlit("read");
    reveal_strlit("create");
    reveal_strlit("write");
    reveal_strlit("append");
    reveal_strlit("exists");
    reveal_strlit("file-exists");
    reveal_strlit("dir-exists");
    reveal_strlit("copy");
    reveal_strlit("rename");
    reveal_strlit("remove");
    reveal_strlit("mkdir");
    reveal_strlit("rmdir");
    reveal_strlit("list");
    reveal_strlit("metadata");
    reveal_strlit("read-write");
    reveal_strlit("");
    assert("rename"@[2] != "remove"@[2]);
    assert("open"@[0] == 'o' && "open"@.len() == 4);
    assert("read"@[0] == 'r' && "read"@.len() == 4);
    assert("create"@[0] == 'c' && "create"@.len() == 6);
    assert("write"@[0] == 'w' && "write"@.len() == 5);
    assert("append"@[0] == 'a' && "append"@.len() == 6);
    assert("exists"@[0] == 'e' && "exists"@.len() == 6);
    assert("file-exists"@[0] == 'f' && "file-exists"@.len() == 11);
    assert("dir-exists"@[0] == 'd' && "dir-exists"@.len() == 10);
    assert("copy"@[0] == 'c' && "copy"@.len() == 4);
    assert("rename"@[0] == 'r' && "rename"@.len() == 6);
    assert("remove"@[0] == 'r' && "remove"@.len() == 6);
    assert("mkdir"@[0] == 'm' && "mkdir"@.len() == 5);
    assert("rmdir"@[0] == 'r' && "rmdir"@.len() == 5);
    assert("list"@[0] == 'l' && "list"@.len() == 4);
    assert("metadata"@[0] == 'm' && "metadata"@.len() == 8);
    assert("read-write"@[0] == 'r' && "read-write"@.len() == 10);
}

/// A text refusal is only ever for a `write` or `append` whose text
/// argument is not UTF-8, and a mode refusal only for an `open` whose mode
/// argument names none of the four modes.
pub proof fn lemma_refusals_have_their_cause(args: Seq<Option<Seq<char>>>)
    ensures
        spec_rejection(args) == Some(Rejection::InvalidText) ==> args.len() == 3 && args[2] is None
            && (spec_requested_command(args) == Some(Command::Write) || spec_requested_command(args)
            == Some(Command::Append)),
        spec_rejection(args) == Some(Rejection::InvalidMode) ==> args.len() == 3
            && spec_requested_command(args) == Some(Command::Open) && args[2] != Some("read"@)
            && args[2] != Some("write"@) && args[2] != Some("append"@) && args[2] != Some(
            "read-write"@,
        ),
{
}

/// The explanation reported for a refused mode or text; a usage error
/// is answered with the help text instead.
pub open spec fn spec_rejection_detail(rejection: Rejection) -> Option<Seq<char>> {
    match rejection {
        Rejection::Usage => None,
        Rejection::InvalidMode => Some("mode must be read, write, append, or read-write"@),
        Rejection::InvalidText => Some("text must be UTF-8"@),
    }
}

/// The explanation of a refused mode or text.
pub fn rejection_detail(rejection: Rejection) -> (detail: Option<&'static str>)
    ensures
        detail.deep_view() == spec_rejection_detail(rejection),
{
    match rejection {
        Rejection::Usage => None,
        Rejection::InvalidMode => Some("mode must be read, write, append, or read-write"),
        Rejection::InvalidText => Some("text must be UTF-8"),
    }
}

/// The line reported on standard error when a command fails:
/// `filesystem_error:<code>:<command>: <path>: <detail>`.
pub open spec fn spec_failure_message(
    code: Seq<char>,
    command: Seq<char>,
    path: Seq<char>,
    detail: Seq<char>,
) -> Seq<char> {
    "filesystem_error:"@ + code + ":"@ + command + ": "@ + path + ": "@ + detail
}

/// Builds the report of a failed command from its error code, the command
/// name, the path as displayed, and the operating system's message.
pub fn failure_message(code: &str, command: &str, path: &str, detail: &str) -> (message: String)
    ensures
        message@ == spec_failure_message(code@, command@, path@, detail@),
{
    let mut message = String::from_str("filesystem_error:");
    message.append(code);
    message.append(":");
    message.append(command);
    message.append(": ");
    message.append(path);
    message.append(": ");
    message.append(detail);
    message
}

/// The failure kind that a refused mode or text is reported as; a usage
/// error is not a failure of any operation.
pub open spec fn spec_rejection_error_kind(rejection: Rejection) -> Option<ErrorKind> {
    match rejection {
        Rejection::Usage => None,
        _ => Some(ErrorKind::InvalidInput),
    }
}

/// The failure kind of a refused mode or text.
pub fn rejection_error_kind(rejection: Rejection) -> (kind: Option<ErrorKind>)
    ensures
        kind == spec_rejection_error_kind(rejection),
{
    match rejection {
        Rejection::Usage => None,
        _ => Some(ErrorKind::InvalidInput),
    }
}

/// The text printed for `--help` and for a usage error.
pub open spec fn spec_help_text() -> Seq<char> {
    HELP_LITERAL@
}

/// The text printed for `--help` and for a usage error.
pub fn help_text() -> (text: &'static str)
    ensures
        text@ == spec_help_text(),
{
    HELP_LITERAL
}

/// How a refused command line is reported: the exit status and the
/// message for standard error. A usage error shows the help text; a
/// refused mode or text is an invalid-input failure of the command on its
/// path, with the explanation of the refusal.
pub open spec fn spec_refusal_message(
    rejection: Rejection,
    command: Seq<char>,
    path: Seq<char>,
) -> Seq<char> {
    match rejection {
        Rejection::Usage => spec_help_text(),
        _ => spec_failure_message(
            spec_error_code(ErrorKind::InvalidInput),
            command,
            path,
            spec_rejection_detail(rejection)->0,
        ),
    }
}

/// The exit status and the message with which a refused command line
/// ends, given the command name and the path as displayed.
pub fn refusal_report(rejection: Rejection, command: &str, path: &str) -> (report: (u8, String))
    ensures
        report.0 == spec_exit_code(spec_rejection_outcome(rejection)),
        report.1@ == spec_refusal_message(rejection, command@, path@),
{
    let status = exit_code(rejection_outcome(rejection));
    match (rejection_error_kind(rejection), rejection_detail(rejection)) {
        (Some(kind), Some(detail)) => (status, failure_message(error_code(kind), command, path, detail)),
        _ => (status, String::from_str(help_text())),
    }
}

/// A refused mode or text is reported as
/// `filesystem_error:invalid_input:<command>: <path>: <explanation>`, and a
/// usage error with the help text.
pub proof fn lemma_refusal_messages(command: Seq<char>, path: Seq<char>)
    ensures
        spec_refusal_message(Rejection::InvalidMode, command, path) == "filesystem_error:"@
            + "invalid_input"@ + ":"@ + command + ": "@ + path + ": "@
            + "mode must be read, write, append, or read-write"@,
        spec_refusal_message(Rejection::InvalidText, command, path) == "filesystem_error:"@
            + "invalid_input"@ + ":"@ + command + ": "@ + path + ": "@ + "text must be UTF-8"@,
        spec_refusal_message(Rejection::Usage, command, path) == HELP_LITERAL@,
{
}

/// The digit that a number below ten is written with.
pub open spec fn spec_digit(d: nat) -> Seq<char> {
    if d == 0 {
        "0"@
    } else if d == 1 {
        "1"@
    } else if d == 2 {
        "2"@
    } else if d == 3 {
        "3"@
    } else if d == 4 {
        "4"@
    } else if d == 5 {
        "5"@
    } else if d == 6 {
        "6"@
    } else if d == 7 {
        "7"@
    } else if d == 8 {
        "8"@
    } else {
        "9"@
    }
}

/// A number written in decimal, without leading zeros.
pub open spec fn spec_decimal(n: nat) -> Seq<char>
    decreases n,
{
    if n < 10 {
        spec_digit(n)
    } else {
        spec_decimal(n / 10) + spec_digit(n % 10)
    }
}

/// The value of a string of decimal digits, most significant first.
pub open spec fn numeral_value(s: Seq<char>) -> int
    decreases s.len(),
{
    if s.len() == 0 {
        0
    } else {
        numeral_value(s.drop_last()) * 10 + (s.last() as int - '0' as int)
    }
}

/// A non-empty string of the digits `0` to `9` without a leading zero,
/// unless it is `0` itself.
pub open spec fn is_numeral(s: Seq<char>) -> bool {
    &&& s.len() > 0
    &&& forall|i: int| 0 <= i < s.len() ==> '0' as int <= #[trigger] s[i] as int <= '9' as int
    &&& s.len() > 1 ==> s[0] != '0'
}

/// The string holds no field separator and no line end.
pub open spec fn is_plain_field(s: Seq<char>) -> bool {
    forall|i: int| 0 <= i < s.len() ==> #[trigger] s[i] != '|' && s[i] != '\n'
}

proof fn lemma_digit_char(d: nat)
    requires
        d < 10,
    ensures
        spec_digit(d).len() == 1,
        spec_digit(d)[0] as int == '0' as int + d,
{
    reveal_strlit("0");
    reveal_strlit("1");
    reveal_strlit("2");
    reveal_strlit("3");
    reveal_strlit("4");
    reveal_strlit("5");
    reveal_strlit("6");
    reveal_strlit("7");
    reveal_strlit("8");
    reveal_strlit("9");
}

/// `decimal` writes every number as its numeral: digits only, no leading
/// zero, and reading the digits back gives the number.
pub proof fn lemma_decimal_is_numeral(n: nat)
    ensures
        is_numeral(spec_decimal(n)),
        numeral_value(spec_decimal(n)) == n,
        n >= 1 ==> spec_decimal(n)[0] != '0',
        is_plain_field(spec_decimal(n)),
    decreases n,
{
    let s = spec_decimal(n);
    if n < 10 {
        lemma_digit_char(n);
        assert(s.drop_last() =~= Seq::<char>::empty());
        assert(numeral_value(Seq::<char>::empty()) == 0);
        assert(numeral_value(s) == numeral_value(s.drop_last()) * 10 + (s.last() as int - '0' as int));
    } else {
        lemma_decimal_is_numeral(n / 10);
        lemma_digit_char(n % 10);
        let high = spec_decimal(n / 10);
        assert(s == high + spec_digit(n % 10));
        assert(s.drop_last() =~= high);
        assert(s.last() == spec_digit(n % 10)[0]);
        assert(s[0] == high[0]);
        assert(numeral_value(s) == numeral_value(s.drop_last()) * 10 + (s.last() as int - '0' as int));
        assert((n / 10) * 10 + n % 10 == n);
        assert forall|i: int| 0 <= i < s.len() implies '0' as int <= #[trigger] s[i] as int <= '9'
            as int && s[i] != '|' && s[i] != '\n' by {
            if i < high.len() {
                assert(s[i] == high[i]);
            }
        }
    }
}

/// The four fields of a metadata line, separated by `|` and ended by a
/// line end: the kind's name, the length as a numeral of its value for
/// every kind of entry, `true` or `false` as the entry is read-only, and
/// the modification time as a numeral of its seconds or `None`. No field
/// holds a separator, so each can be read back from the line.
pub proof fn lemma_metadata_line_fields(m: FileMetadata)
    ensures
        ({
            let time = match m.modified_unix_seconds {
                Some(seconds) => spec_decimal(seconds as nat),
                None => "None"@,
            };
            &&& spec_metadata_line(m) == spec_kind_name(m.kind) + "|"@ + spec_decimal(m.length as nat)
                + "|"@ + spec_bool_text(m.readonly) + "|"@ + time + "\n"@
            &&& is_plain_field(spec_kind_name(m.kind))
            &&& is_plain_field(spec_decimal(m.length as nat))
            &&& is_numeral(spec_decimal(m.length as nat))
            &&& numeral_value(spec_decimal(m.length as nat)) == m.length
            &&& is_plain_field(spec_bool_text(m.readonly))
            &&& (spec_bool_text(m.readonly) == "true"@) == m.readonly
            &&& is_plain_field(time)
            &&& (time == "None"@) == (m.modified_unix_seconds is None)
            &&& (m.modified_unix_seconds matches Some(seconds) ==> numeral_value(time) == seconds)
        }),
{
    reveal_strlit("file");
    reveal_strlit("directory");
    reveal_strlit("symlink");
    reveal_strlit("other");
    reveal_strlit("true");
    reveal_strlit("false");
    reveal_strlit("None");
    lemma_decimal_is_numeral(m.length as nat);
    assert("true"@ != "false"@) by {
        assert("true"@.len() != "false"@.len());
    }
    if let Some(seconds) = m.modified_unix_seconds {
        lemma_decimal_is_numeral(seconds as nat);
        assert(spec_decimal(seconds as nat) != "None"@) by {
            assert("None"@[0] == 'N');
        }
    }
}

/// Each kind of entry is printed under a name of its own.
pub proof fn lemma_kind_names_distinct(a: EntryKind, b: EntryKind)
    ensures
        spec_kind_name(a) == spec_kind_name(b) <==> a == b,
{
    reveal_strlit("file");
    reveal_strlit("directory");
    reveal_strlit("symlink");
    reveal_strlit("other");
    assert("file"@[0] == 'f');
    assert("directory"@[0] == 'd');
    assert("symlink"@[0] == 's');
    assert("other"@[0] == 'o');
}

fn digit(d: u64) -> (text: &'static str)
    requires
        d < 10,
    ensures
        text@ == spec_digit(d as nat),
{
    if d == 0 {
        "0"
    } else if d == 1 {
        "1"
    } else if d == 2 {
        "2"
    } else if d == 3 {
        "3"
    } else if d == 4 {
        "4"
    } else if d == 5 {
        "5"
    } else if d == 6 {
        "6"
    } else if d == 7 {
        "7"
    } else if d == 8 {
        "8"
    } else {
        "9"
    }
}

fn append_decimal(text: &mut String, n: u64)
    ensures
        final(text)@ == old(text)@ + spec_decimal(n as nat),
    decreases n,
{
    let ghost before = text@;
    if n >= 10 {
        append_decimal(text, n / 10);
    }
    text.append(digit(n % 10));
    proof {
        if n >= 10 {
            assert(text@ =~= before + (spec_decimal((n / 10) as nat) + spec_digit((n % 10) as nat)));
        } else {
            assert(text@ =~= before + spec_digit(n as nat));
        }
    }
}

/// A number written in decimal, as `u64`'s `Display` writes it.
pub fn decimal(n: u64) -> (text: String)
    ensures
        text@ == spec_decimal(n as nat),
{
    let mut text = String::new();
    append_decimal(&mut text, n);
    assert(text@ =~= spec_decimal(n as nat));
    text
}

/// A boolean as `bool`'s `Display` writes it.
pub open spec fn spec_bool_text(b: bool) -> Seq<char> {
    if b {
        "true"@
    } else {
        "false"@
    }
}

/// The line that `exists`, `file-exists` and `dir-exists` print.
pub fn answer_line(answer: bool) -> (line: String)
    ensures
        line@ == spec_bool_text(answer) + "\n"@,
{
    let mut line = String::from_str(if answer {
        "true"
    } else {
        "false"
    });
    line.append("\n");
    line
}

/// The name that `metadata` prints for a kind of entry.
pub open spec fn spec_kind_name(kind: EntryKind) -> Seq<char> {
    match kind {
        EntryKind::File => "file"@,
        EntryKind::Directory => "directory"@,
        EntryKind::Symlink => "symlink"@,
        EntryKind::Other => "other"@,
    }
}

/// The name of a kind of entry.
pub fn kind_name(kind: EntryKind) -> (name: &'static str)
    ensures
        name@ == spec_kind_name(kind),
{
    match kind {
        EntryKind::File => "file",
        EntryKind::Directory => "directory",
        EntryKind::Symlink => "symlink",
        EntryKind::Other => "other",
    }
}

/// The line that `metadata` prints: kind, length, read-only flag and
/// modification time in seconds (or `None`), separated by `|`.
pub open spec fn spec_metadata_line(m: FileMetadata) -> Seq<char> {
    spec_kind_name(m.kind) + "|"@ + spec_decimal(m.length as nat) + "|"@ + spec_bool_text(
        m.readonly,
    ) + "|"@ + match m.modified_unix_seconds {
        Some(seconds) => spec_decimal(seconds as nat),
        None => "None"@,
    } + "\n"@
}

/// The line that `metadata` prints for an entry.
pub fn metadata_line(m: FileMetadata) -> (line: String)
    ensures
        line@ == spec_metadata_line(m),
{
    let mut line = String::from_str(kind_name(m.kind));
    line.append("|");
    append_decimal(&mut line, m.length);
    line.append("|");
    line.append(if m.readonly {
        "true"
    } else {
        "false"
    });
    line.append("|");
    match m.modified_unix_seconds {
        Some(seconds) => append_decimal(&mut line, seconds),
        None => line.append("None"),
    }
    line.append("\n");
    line
}

} // verus!
