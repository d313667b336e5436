use vstd::prelude::*;

use crate::kinds::OpenMode;

verus! {

/// The access flags that a file is opened with: the settings of
/// `std::fs::OpenOptions` that this package uses.
#[derive(Clone, Copy, Debug, PartialEq, Eq, Structural)]
pub struct OpenOptionsPlan {
    pub read: bool,
    pub write: bool,
    pub append: bool,
    pub create: bool,
    pub truncate: bool,
}

/// The flags for each explicit open mode.
pub open spec fn spec_open_options(mode: OpenMode) -> OpenOptionsPlan {
    match mode {
        OpenMode::Read => OpenOptionsPlan {
            read: true,
            write: false,
            append: false,
            create: false,
            truncate: false,
        },
        OpenMode::Write => OpenOptionsPlan {
            read: false,
            write: true,
            append: false,
            create: true,
            truncate: true,
        },
        OpenMode::Append => OpenOptionsPlan {
            read: false,
            write: false,
            append: true,
            create: true,
            truncate: false,
        },
        OpenMode::ReadWrite => OpenOptionsPlan {
            read: true,
            write: true,
            append: false,
            create: false,
            truncate: false,
        },
    }
}

/// The flags that create a missing file and write at its end.
pub open spec fn spec_create_or_append() -> OpenOptionsPlan {
    OpenOptionsPlan { read: false, write: false, append: true, create: true, truncate: false }
}

/// A combination that `OpenOptions::open` accepts: some access is asked
/// for, creation comes with write or append access, and truncation with
/// write access and without append.
pub open spec fn is_accepted_combination(plan: OpenOptionsPlan) -> bool {
    &&& plan.read || plan.write || plan.append
    &&& plan.create ==> (plan.write || plan.append)
    &&& plan.truncate ==> (plan.write && !plan.append)
}

/// The flags that `open` uses for a mode: `Read` reads an existing file,
/// `Write` creates or truncates, `Append` creates a missing file and keeps
/// the contents of an existing one, `ReadWrite` opens an existing file for
/// both without truncating it.
pub fn open_options(mode: OpenMode) -> (plan: OpenOptionsPlan)
    ensures
        plan == spec_open_options(mode),
{
    match mode {
        OpenMode::Read => OpenOptionsPlan {
            read: true,
            write: false,
            append: false,
            create: false,
            truncate: false,
        },
        OpenMode::Write => OpenOptionsPlan {
            read: false,
            write: true,
            append: false,
            create: true,
            truncate: true,
        },
        OpenMode::Append => OpenOptionsPlan {
            read: false,
            write: false,
            append: true,
            create: true,
            truncate: false,
        },
        OpenMode::ReadWrite => OpenOptionsPlan {
            read: true,
            write: true,
            append: false,
            create: false,
            truncate: false,
        },
    }
}

/// The flags that `create_file` uses: a missing file is created and an
/// existing one is left as it is.
pub fn create_file_options() -> (plan: OpenOptionsPlan)
    ensures
        plan == spec_create_or_append(),
        plan.create && !plan.truncate,
{
    OpenOptionsPlan { read: false, write: false, append: true, create: true, truncate: false }
}

/// The flags that `append` writes through: a missing file is created and
/// every write goes to the end of the file.
pub fn append_options() -> (plan: OpenOptionsPlan)
    ensures
        plan == spec_create_or_append(),
        plan.create && plan.append && !plan.truncate,
{
    OpenOptionsPlan { read: false, write: false, append: true, create: true, truncate: false }
}

/// Every mode of `open` asks `OpenOptions` for a combination that it
/// accepts, so no open fails for its flags alone.
pub proof fn lemma_open_options_accepted(mode: OpenMode)
    ensures
        is_accepted_combination(spec_open_options(mode)),
        is_accepted_combination(spec_create_or_append()),
{
}

/// Only `Write` and `Append` can create a file, only `Write` can truncate
/// one, and `Read` never writes; `Read` and `ReadWrite` read, `Write` and
/// `ReadWrite` write from the start, and `Append` writes at the end.
pub proof fn lemma_open_modes_effects(mode: OpenMode)
    ensures
        spec_open_options(mode).create <==> (mode == OpenMode::Write || mode == OpenMode::Append),
        spec_open_options(mode).truncate <==> mode == OpenMode::Write,
        mode == OpenMode::Read ==> !spec_open_options(mode).write && !spec_open_options(mode).append,
        spec_open_options(mode).read <==> (mode == OpenMode::Read || mode == OpenMode::ReadWrite),
        spec_open_options(mode).write <==> (mode == OpenMode::Write || mode == OpenMode::ReadWrite),
        spec_open_options(mode).append <==> mode == OpenMode::Append,
{
}

/// `create_file` and `append` open the file exactly as `open` does in
/// `Append` mode.
pub proof fn lemma_create_file_opens_like_append()
    ensures
        spec_create_or_append() == spec_open_options(OpenMode::Append),
{
}

} // verus!
