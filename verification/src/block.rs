//! What a block of the terminal shows.

use vstd::prelude::*;

verus! {

/// The kind of a file that is shown.
#[derive(Debug, Clone)]
pub enum FileType {
    Text,
    Json,
    Yaml,
    /// Source code in the named language.
    Code(String),
    Image,
    Binary,
}

/// What a block holds.
#[derive(Debug, Clone)]
pub enum BlockContent {
    Command { input: String, output: String, working_dir: String },
    Markdown(String),
    FilePreview { path: String, content: String, file_type: FileType },
    Error { message: String, details: Option<String> },
}

/// What the user asks of a block.
#[derive(Debug, Clone, Copy, PartialEq, Eq, Structural)]
pub enum BlockMessage {
    Copy,
    Rerun,
    Delete,
    Export,
}

} // verus!
