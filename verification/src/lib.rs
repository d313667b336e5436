//! Decision logic of a small, synchronous file-operations package.
//!
//! The filesystem calls themselves are made by the host program; this crate
//! holds what those calls are configured with and what is concluded from
//! their outcomes, each stated as a contract:
//!
//! - `kinds`: the data types and the stable error codes;
//! - `options`: the open flags of each operation that opens a file;
//! - `presence`: the existence checks, from a metadata lookup's outcome;
//! - `metadata`: the classification of entries and their portable metadata;
//! - `listing`: the sorted order of a directory listing;
//! - `cli`: checking a command line, exit statuses and failure reports.

pub mod cli;
pub mod kinds;
pub mod listing;
pub mod metadata;
pub mod options;
pub mod presence;

pub use cli::{
    answer_line, arity, command_named, decimal, exit_code, failure_message, help_text, kind_name,
    metadata_line, open_mode_named, parse_request, refusal_report, rejection_detail,
    rejection_error_kind, rejection_outcome, text_is, Command, Outcome, Rejection, Request,
};
pub use kinds::{error_code, EntryKind, ErrorKind, FileMetadata, OpenMode};
pub use listing::{list_order, name_le};
pub use metadata::{entry_kind, metadata, modified_seconds};
pub use options::{append_options, create_file_options, open_options, OpenOptionsPlan};
pub use presence::{dir_exists, file_exists, path_exists};
