//! Workflows: named command templates with declared arguments. This module
//! holds the data model; its parts validate a workflow, resolve it for a
//! shell, rank it in a search, and keep it in a store with its usage.

pub mod category;
pub mod environment;
pub mod escape;
pub mod executor;
pub mod manager;
pub mod number;
pub mod placeholders;
pub mod ranking;
pub mod resolution;
pub mod score;
pub mod selection;
pub mod substitution;
pub mod usage;
pub mod validation;
pub mod values;

pub use executor::{
    CommandOutput, WorkflowDryRun, WorkflowExecution, WorkflowExecutionResult, WorkflowExecutor,
};
pub use manager::{WorkflowManager, WorkflowSearchResult};
pub use score::SearchScore;
pub use usage::WorkflowUsageStats;

use vstd::prelude::*;
use crate::outside::{lowercase, to_lowercase};
use crate::text::{joined_text, opt_text, owned, same_text, texts};
use crate::time::Timestamp;

verus! {

/// A shell that a workflow can run in.
#[derive(Debug, Clone, Copy, PartialEq, Eq, Structural)]
pub enum Shell {
    Zsh,
    Bash,
    Fish,
}

/// The kind of value an argument takes.
#[derive(Debug, Clone, Copy, PartialEq, Eq, Structural)]
pub enum ArgumentType {
    String,
    Number,
    Boolean,
    Path,
    Url,
    Email,
    Enum,
}

impl Default for ArgumentType {
    fn default() -> (t: ArgumentType)
        ensures
            t == ArgumentType::String,
    {
        ArgumentType::String
    }
}

/// A coarse classification of a workflow, derived from its tags.
#[derive(Debug, Clone, Copy, PartialEq, Eq, Structural)]
pub enum WorkflowCategory {
    Git,
    Docker,
    Kubernetes,
    Aws,
    Database,
    Network,
    FileSystem,
    System,
    Other,
}

/// A declared argument of a workflow.
#[derive(Debug)]
pub struct WorkflowArgument {
    /// The name, which stands in the command as `{{name}}`.
    pub name: String,
    pub description: Option<String>,
    /// The value taken where none is supplied.
    pub default_value: Option<String>,
    pub arg_type: ArgumentType,
    pub required: bool,
    /// The values an `Enum` argument may take.
    pub options: Option<Vec<String>>,
}

/// What a `WorkflowArgument` holds, as mathematical values.
pub struct ArgumentModel {
    pub name: Seq<char>,
    pub description: Option<Seq<char>>,
    pub default_value: Option<Seq<char>>,
    pub arg_type: ArgumentType,
    pub required: bool,
    pub options: Option<Seq<Seq<char>>>,
}

/// A named, shell-templated command.
#[derive(Debug)]
pub struct Workflow {
    pub name: String,
    /// The template; `{{name}}` stands for the argument `name`.
    pub command: String,
    pub tags: Vec<String>,
    pub description: Option<String>,
    pub source_url: Option<String>,
    pub author: Option<String>,
    pub author_url: Option<String>,
    /// The shells the workflow runs in; `None` stands for all of them.
    pub shells: Option<Vec<Shell>>,
    pub arguments: Vec<WorkflowArgument>,
    /// The file the definition was read from.
    pub file_path: Option<String>,
    pub last_used: Option<Timestamp>,
    pub usage_count: u32,
}

/// What a `Workflow` holds, as mathematical values.
pub struct WorkflowModel {
    pub name: Seq<char>,
    pub command: Seq<char>,
    pub tags: Seq<Seq<char>>,
    pub description: Option<Seq<char>>,
    pub source_url: Option<Seq<char>>,
    pub author: Option<Seq<char>>,
    pub author_url: Option<Seq<char>>,
    pub shells: Option<Seq<Shell>>,
    pub arguments: Seq<ArgumentModel>,
    pub file_path: Option<Seq<char>>,
    pub last_used: Option<Timestamp>,
    pub usage_count: u32,
}

/// What can go wrong with a workflow.
#[derive(Debug)]
pub enum WorkflowError {
    ParseError(String),
    ValidationError(String),
    IoError(String),
    ArgumentError(String),
    UnsupportedShell(Shell),
    MissingArgument(String),
    InvalidArgumentValue(String),
    WorkflowNotFound(String),
}

/// What a `WorkflowError` holds, as mathematical values.
pub enum ErrorModel {
    ParseError(Seq<char>),
    ValidationError(Seq<char>),
    IoError(Seq<char>),
    ArgumentError(Seq<char>),
    UnsupportedShell(Shell),
    MissingArgument(Seq<char>),
    InvalidArgumentValue(Seq<char>),
    WorkflowNotFound(Seq<char>),
}

/// The view of an optional list of strings.
pub open spec fn opt_texts(o: Option<Vec<String>>) -> Option<Seq<Seq<char>>> {
    match o {
        Some(v) => Some(texts(v@)),
        None => None,
    }
}

/// The views of a sequence of arguments.
pub open spec fn argument_models(v: Seq<WorkflowArgument>) -> Seq<ArgumentModel> {
    v.map_values(|a: WorkflowArgument| a@)
}

impl View for WorkflowArgument {
    type V = ArgumentModel;

    open spec fn view(&self) -> ArgumentModel {
        ArgumentModel {
            name: self.name@,
            description: opt_text(self.description),
            default_value: opt_text(self.default_value),
            arg_type: self.arg_type,
            required: self.required,
            options: opt_texts(self.options),
        }
    }
}

impl View for Workflow {
    type V = WorkflowModel;

    open spec fn view(&self) -> WorkflowModel {
        WorkflowModel {
            name: self.name@,
            command: self.command@,
            tags: texts(self.tags@),
            description: opt_text(self.description),
            source_url: opt_text(self.source_url),
            author: opt_text(self.author),
            author_url: opt_text(self.author_url),
            shells: match self.shells {
                Some(s) => Some(s@),
                None => None,
            },
            arguments: argument_models(self.arguments@),
            file_path: opt_text(self.file_path),
            last_used: self.last_used,
            usage_count: self.usage_count,
        }
    }
}

impl View for WorkflowError {
    type V = ErrorModel;

    open spec fn view(&self) -> ErrorModel {
        match *self {
            WorkflowError::ParseError(m) => ErrorModel::ParseError(m@),
            WorkflowError::ValidationError(m) => ErrorModel::ValidationError(m@),
            WorkflowError::IoError(m) => ErrorModel::IoError(m@),
            WorkflowError::ArgumentError(m) => ErrorModel::ArgumentError(m@),
            WorkflowError::UnsupportedShell(s) => ErrorModel::UnsupportedShell(s),
            WorkflowError::MissingArgument(m) => ErrorModel::MissingArgument(m@),
            WorkflowError::InvalidArgumentValue(m) => ErrorModel::InvalidArgumentValue(m@),
            WorkflowError::WorkflowNotFound(m) => ErrorModel::WorkflowNotFound(m@),
        }
    }
}

/// A copy of an optional string.
pub fn clone_opt_text(o: &Option<String>) -> (out: Option<String>)
    ensures
        opt_text(out) == opt_text(*o),
{
    match o {
        Some(s) => Some(s.clone()),
        None => None,
    }
}

/// A copy of a list of strings.
pub fn clone_texts(v: &Vec<String>) -> (out: Vec<String>)
    ensures
        texts(out@) == texts(v@),
{
    let mut out: Vec<String> = Vec::new();
    let mut i: usize = 0;
    while i < v.len()
        invariant
            i <= v.len(),
            out.len() == i,
            forall|j: int| 0 <= j < i ==> out@[j]@ == v@[j]@,
        decreases v.len() - i,
    {
        out.push(v[i].clone());
        i += 1;
    }
    assert(texts(out@) =~= texts(v@));
    out
}

impl Clone for WorkflowArgument {
    fn clone(&self) -> (out: Self)
        ensures
            out@ == self@,
    {
        WorkflowArgument {
            name: self.name.clone(),
            description: clone_opt_text(&self.description),
            default_value: clone_opt_text(&self.default_value),
            arg_type: self.arg_type,
            required: self.required,
            options: match &self.options {
                Some(v) => Some(clone_texts(v)),
                None => None,
            },
        }
    }
}

/// A copy of a list of arguments.
pub fn clone_arguments(v: &Vec<WorkflowArgument>) -> (out: Vec<WorkflowArgument>)
    ensures
        argument_models(out@) == argument_models(v@),
{
    let mut out: Vec<WorkflowArgument> = Vec::new();
    let mut i: usize = 0;
    while i < v.len()
        invariant
            i <= v.len(),
            out.len() == i,
            forall|j: int| 0 <= j < i ==> out@[j]@ == v@[j]@,
        decreases v.len() - i,
    {
        out.push(v[i].clone());
        i += 1;
    }
    assert(argument_models(out@) =~= argument_models(v@));
    out
}

/// A copy of a list of shells.
pub fn clone_shells(v: &Vec<Shell>) -> (out: Vec<Shell>)
    ensures
        out@ == v@,
{
    let mut out: Vec<Shell> = Vec::new();
    let mut i: usize = 0;
    while i < v.len()
        invariant
            i <= v.len(),
            out@ =~= v@.take(i as int),
        decreases v.len() - i,
    {
        out.push(v[i]);
        i += 1;
    }
    assert(v@.take(v@.len() as int) =~= v@);
    out
}

impl Clone for Workflow {
    fn clone(&self) -> (out: Self)
        ensures
            out@ == self@,
    {
        Workflow {
            name: self.name.clone(),
            command: self.command.clone(),
            tags: clone_texts(&self.tags),
            description: clone_opt_text(&self.description),
            source_url: clone_opt_text(&self.source_url),
            author: clone_opt_text(&self.author),
            author_url: clone_opt_text(&self.author_url),
            shells: match &self.shells {
                Some(s) => Some(clone_shells(s)),
                None => None,
            },
            arguments: clone_arguments(&self.arguments),
            file_path: clone_opt_text(&self.file_path),
            last_used: self.last_used,
            usage_count: self.usage_count,
        }
    }
}

impl Shell {
    /// The name by which the shell is called.
    pub open spec fn name(self) -> Seq<char> {
        match self {
            Shell::Zsh => "zsh"@,
            Shell::Bash => "bash"@,
            Shell::Fish => "fish"@,
        }
    }

    /// The shell that a lower-case name stands for.
    pub open spec fn named(lowered: Seq<char>) -> Option<Shell> {
        if lowered == "zsh"@ {
            Some(Shell::Zsh)
        } else if lowered == "bash"@ {
            Some(Shell::Bash)
        } else if lowered == "fish"@ {
            Some(Shell::Fish)
        } else {
            None
        }
    }

    /// The name by which the shell is called: `zsh`, `bash` or `fish`.
    pub fn to_string(&self) -> (out: String)
        ensures
            out@ == self.name(),
    {
        match self {
            Shell::Zsh => owned("zsh"),
            Shell::Bash => owned("bash"),
            Shell::Fish => owned("fish"),
        }
    }

    /// The shell that a lower-case name stands for.
    pub fn from_lowered(lowered: &str) -> (r: Result<Shell, WorkflowError>)
        ensures
            match Shell::named(lowered@) {
                Some(shell) => r == Ok::<Shell, WorkflowError>(shell),
                None => r == Err::<Shell, WorkflowError>(
                    WorkflowError::UnsupportedShell(Shell::Bash),
                ),
            },
    {
        if same_text(lowered, "zsh") {
            Ok(Shell::Zsh)
        } else if same_text(lowered, "bash") {
            Ok(Shell::Bash)
        } else if same_text(lowered, "fish") {
            Ok(Shell::Fish)
        } else {
            Err(WorkflowError::UnsupportedShell(Shell::Bash))
        }
    }

    /// The shell that a name stands for, whatever the case of its letters.
    /// A name that stands for none gives `UnsupportedShell(Bash)`.
    pub fn parse(s: &str) -> (r: Result<Shell, WorkflowError>)
        ensures
            match Shell::named(lowercase(s@)) {
                Some(shell) => r == Ok::<Shell, WorkflowError>(shell),
                None => r == Err::<Shell, WorkflowError>(
                    WorkflowError::UnsupportedShell(Shell::Bash),
                ),
            },
    {
        let lowered = to_lowercase(s);
        Shell::from_lowered(lowered.as_str())
    }
}

impl std::str::FromStr for Shell {
    type Err = WorkflowError;

    fn from_str(s: &str) -> (r: Result<Shell, WorkflowError>)
        ensures
            match Shell::named(lowercase(s@)) {
                Some(shell) => r == Ok::<Shell, WorkflowError>(shell),
                None => r == Err::<Shell, WorkflowError>(
                    WorkflowError::UnsupportedShell(Shell::Bash),
                ),
            },
    {
        Shell::parse(s)
    }
}

impl WorkflowCategory {
    /// The heading under which the category is shown.
    pub open spec fn title(self) -> Seq<char> {
        match self {
            WorkflowCategory::Git => "Git"@,
            WorkflowCategory::Docker => "Docker"@,
            WorkflowCategory::Kubernetes => "Kubernetes"@,
            WorkflowCategory::Aws => "AWS"@,
            WorkflowCategory::Database => "Database"@,
            WorkflowCategory::Network => "Network"@,
            WorkflowCategory::FileSystem => "File System"@,
            WorkflowCategory::System => "System"@,
            WorkflowCategory::Other => "Other"@,
        }
    }

    /// The heading under which the category is shown.
    pub fn to_string(&self) -> (out: String)
        ensures
            out@ == self.title(),
    {
        match self {
            WorkflowCategory::Git => owned("Git"),
            WorkflowCategory::Docker => owned("Docker"),
            WorkflowCategory::Kubernetes => owned("Kubernetes"),
            WorkflowCategory::Aws => owned("AWS"),
            WorkflowCategory::Database => owned("Database"),
            WorkflowCategory::Network => owned("Network"),
            WorkflowCategory::FileSystem => owned("File System"),
            WorkflowCategory::System => owned("System"),
            WorkflowCategory::Other => owned("Other"),
        }
    }
}

impl ErrorModel {
    /// The sentence that describes the error.
    pub open spec fn sentence(self) -> Seq<char> {
        match self {
            ErrorModel::ParseError(m) => "Parse error: "@ + m,
            ErrorModel::ValidationError(m) => "Validation error: "@ + m,
            ErrorModel::IoError(m) => "IO error: "@ + m,
            ErrorModel::ArgumentError(m) => "Argument error: "@ + m,
            ErrorModel::UnsupportedShell(s) => "Shell not supported: "@ + match s {
                Shell::Zsh => "Zsh"@,
                Shell::Bash => "Bash"@,
                Shell::Fish => "Fish"@,
            },
            ErrorModel::MissingArgument(m) => "Missing required argument: "@ + m,
            ErrorModel::InvalidArgumentValue(m) => "Invalid argument value: "@ + m,
            ErrorModel::WorkflowNotFound(m) => "Workflow not found: "@ + m,
        }
    }
}

impl WorkflowError {
    /// The sentence that describes the error.
    pub fn to_string(&self) -> (out: String)
        ensures
            out@ == self@.sentence(),
    {
        match self {
            WorkflowError::ParseError(m) => joined_text("Parse error: ", m.as_str()),
            WorkflowError::ValidationError(m) => joined_text("Validation error: ", m.as_str()),
            WorkflowError::IoError(m) => joined_text("IO error: ", m.as_str()),
            WorkflowError::ArgumentError(m) => joined_text("Argument error: ", m.as_str()),
            WorkflowError::UnsupportedShell(s) => match s {
                Shell::Zsh => joined_text("Shell not supported: ", "Zsh"),
                Shell::Bash => joined_text("Shell not supported: ", "Bash"),
                Shell::Fish => joined_text("Shell not supported: ", "Fish"),
            },
            WorkflowError::MissingArgument(m) => joined_text(
                "Missing required argument: ",
                m.as_str(),
            ),
            WorkflowError::InvalidArgumentValue(m) => joined_text(
                "Invalid argument value: ",
                m.as_str(),
            ),
            WorkflowError::WorkflowNotFound(m) => joined_text("Workflow not found: ", m.as_str()),
        }
    }
}

} // verus!
