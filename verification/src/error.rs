//! The ways in which an operation can fail.

use vstd::prelude::*;
use crate::text::{decimal, to_decimal};

verus! {

/// The external tool whose run failed.
#[derive(Debug, Clone, Copy, PartialEq, Eq, Structural)]
pub enum Tool {
    Git,
    Compiler,
    Cleaner,
}

/// The broad classes of failure.
#[derive(Debug, Clone, Copy, PartialEq, Eq, Structural)]
pub enum FailureKind {
    /// The request itself is not acceptable.
    Usage,
    /// Something that was named does not exist.
    NotFound,
    /// The destination is already taken.
    Conflict,
    /// An external tool did not run to a successful end.
    Process,
    /// A configuration file is malformed.
    Parse,
    /// The operating system refused an operation.
    Io,
}

/// A failure, with what is needed to report it. Every failure is final: nothing is
/// retried.
#[derive(Debug, PartialEq, Eq)]
pub enum Failure {
    /// A new name was given for more than one source.
    RenameMany,
    /// A link was asked for where links cannot be made.
    SymlinkUnsupported,
    /// The path has no final component to name the template after.
    NoFileName { path: String },
    /// The source is a file that is not a zip archive.
    NotAnArchive,
    /// The source is neither a file nor a directory.
    NotFileOrDirectory { path: String },
    /// The path within the repository is neither a directory nor a zip archive.
    InvalidRepositoryPath { path: String, url: String },
    /// No template goes by this name.
    TemplateNotFound { name: String },
    /// The scratch directory is empty after the clone.
    RepositoryNotFound,
    /// The platform's directories for application files are not known.
    NoProjectDirectories,
    /// The log of the last compilation is not where it should be.
    LogNotFound { path: String },
    /// The path has no directory above it.
    NoParent { path: String },
    /// No template was picked from those offered.
    NoTemplateChosen,
    /// No main file was picked from those offered.
    NoFileChosen,
    /// A template is already stored at the destination.
    TemplateExists { name: String },
    /// A file already exists where one is to be written.
    FileExists { path: String },
    /// The tool ended with a code other than zero.
    ProcessFailed { tool: Tool, code: i32 },
    /// The tool ended without a code.
    ProcessStopped { tool: Tool },
    /// The text is not valid TOML.
    Parse { message: String },
    /// The `repo` key of a remote template is not a string.
    RepositoryNotText,
    /// A remote template given as a table has no `repo` key.
    RepositoryMissing { name: String },
    /// A remote template is neither a string nor a table.
    MalformedRemote { name: String },
    /// The operating system refused an operation.
    Io { message: String },
}

/// What a [`Failure`] holds, as mathematical values.
pub enum FailureView {
    RenameMany,
    SymlinkUnsupported,
    NoFileName { path: Seq<char> },
    NotAnArchive,
    NotFileOrDirectory { path: Seq<char> },
    InvalidRepositoryPath { path: Seq<char>, url: Seq<char> },
    TemplateNotFound { name: Seq<char> },
    RepositoryNotFound,
    NoProjectDirectories,
    LogNotFound { path: Seq<char> },
    NoParent { path: Seq<char> },
    NoTemplateChosen,
    NoFileChosen,
    TemplateExists { name: Seq<char> },
    FileExists { path: Seq<char> },
    ProcessFailed { tool: Tool, code: i32 },
    ProcessStopped { tool: Tool },
    Parse { message: Seq<char> },
    RepositoryNotText,
    RepositoryMissing { name: Seq<char> },
    MalformedRemote { name: Seq<char> },
    Io { message: Seq<char> },
}

impl View for Failure {
    type V = FailureView;

    open spec fn view(&self) -> FailureView {
        match *self {
            Failure::RenameMany => FailureView::RenameMany,
            Failure::SymlinkUnsupported => FailureView::SymlinkUnsupported,
            Failure::NoFileName { path } => FailureView::NoFileName { path: path@ },
            Failure::NotAnArchive => FailureView::NotAnArchive,
            Failure::NotFileOrDirectory { path } => FailureView::NotFileOrDirectory { path: path@ },
            Failure::InvalidRepositoryPath { path, url } => FailureView::InvalidRepositoryPath { path: path@, url: url@ },
            Failure::TemplateNotFound { name } => FailureView::TemplateNotFound { name: name@ },
            Failure::RepositoryNotFound => FailureView::RepositoryNotFound,
            Failure::NoProjectDirectories => FailureView::NoProjectDirectories,
            Failure::LogNotFound { path } => FailureView::LogNotFound { path: path@ },
            Failure::NoParent { path } => FailureView::NoParent { path: path@ },
            Failure::NoTemplateChosen => FailureView::NoTemplateChosen,
            Failure::NoFileChosen => FailureView::NoFileChosen,
            Failure::TemplateExists { name } => FailureView::TemplateExists { name: name@ },
            Failure::FileExists { path } => FailureView::FileExists { path: path@ },
            Failure::ProcessFailed { tool, code } => FailureView::ProcessFailed { tool, code },
            Failure::ProcessStopped { tool } => FailureView::ProcessStopped { tool },
            Failure::Parse { message } => FailureView::Parse { message: message@ },
            Failure::RepositoryNotText => FailureView::RepositoryNotText,
            Failure::RepositoryMissing { name } => FailureView::RepositoryMissing { name: name@ },
            Failure::MalformedRemote { name } => FailureView::MalformedRemote { name: name@ },
            Failure::Io { message } => FailureView::Io { message: message@ },
        }
    }
}

/// The message that reports a failure to the user.
pub open spec fn message_of(f: FailureView) -> Seq<char> {
    match f {
        FailureView::RenameMany => "Cannot rename when adding more than one file or directory."@,
        FailureView::SymlinkUnsupported => "You can only use symlinks om UNIX systems."@,
        FailureView::NoFileName { path } => "Cannot find file name for path '"@ + path + "'."@,
        FailureView::NotAnArchive => "Templates should be zip files or directories."@,
        FailureView::NotFileOrDirectory { path } => "File `"@ + path + "` is neither a file or directory."@,
        FailureView::InvalidRepositoryPath { path, url } => "Path `"@ + path + "` is not a directory, or zip archive, within repository at `"@ + url + "`."@,
        FailureView::TemplateNotFound { name } => "Could not find template '"@ + name + "'."@,
        FailureView::RepositoryNotFound => "Could not find cloned repository directory."@,
        FailureView::NoProjectDirectories => "Could not determine application directories."@,
        FailureView::LogNotFound { path } => "Cannot find log file `"@ + path + "`."@,
        FailureView::NoParent { path } => "Could not get parrent of '"@ + path + "'"@,
        FailureView::NoTemplateChosen => "No template chosen."@,
        FailureView::NoFileChosen => "\nNo file chosen."@,
        FailureView::TemplateExists { name } => "Template `"@ + name + "` already exists. Use --force to override."@,
        FailureView::FileExists { path } => "File `"@ + path + "` already exists. Run with --force to override."@,
        FailureView::Parse { message } => message,
        FailureView::RepositoryNotText => "ERROR: Repository url must be string."@,
        FailureView::RepositoryMissing { name } => "ERROR: Repository for '"@ + name + "' is not defined."@,
        FailureView::MalformedRemote { name } => "Error in remote template '"@ + name + "'. Must be string or table of options."@,
        FailureView::Io { message } => message,
        FailureView::ProcessFailed { tool, code } => match tool {
            Tool::Git => "Git failed to clone repo. Exit code was "@ + decimal(code as int) + "."@,
            Tool::Compiler => "\nCompilation process exited with non-zero exit code: "@ + decimal(
                code as int,
            ),
            Tool::Cleaner => "\nCleaning process exited with non-zero exit code: "@ + decimal(
                code as int,
            ),
        },
        FailureView::ProcessStopped { tool } => match tool {
            Tool::Git => "Git process stopped unexpectedly"@,
            Tool::Compiler => "Compilation process stopped unexpectedly"@,
            Tool::Cleaner => "Cleaning process stopped unexpectedly"@,
        },
    }
}

impl Failure {
    /// The class of this failure.
    pub open spec fn spec_kind(&self) -> FailureKind {
        match self {
            Failure::RenameMany => FailureKind::Usage,
            Failure::SymlinkUnsupported => FailureKind::Usage,
            Failure::NoFileName { .. } => FailureKind::Usage,
            Failure::NotAnArchive => FailureKind::Usage,
            Failure::NotFileOrDirectory { .. } => FailureKind::Usage,
            Failure::InvalidRepositoryPath { .. } => FailureKind::Usage,
            Failure::TemplateNotFound { .. } => FailureKind::NotFound,
            Failure::RepositoryNotFound => FailureKind::NotFound,
            Failure::NoProjectDirectories => FailureKind::NotFound,
            Failure::LogNotFound { .. } => FailureKind::NotFound,
            Failure::NoParent { .. } => FailureKind::Usage,
            Failure::NoTemplateChosen => FailureKind::Usage,
            Failure::NoFileChosen => FailureKind::Usage,
            Failure::TemplateExists { .. } => FailureKind::Conflict,
            Failure::FileExists { .. } => FailureKind::Conflict,
            Failure::ProcessFailed { .. } => FailureKind::Process,
            Failure::ProcessStopped { .. } => FailureKind::Process,
            Failure::Parse { .. } => FailureKind::Parse,
            Failure::RepositoryNotText => FailureKind::Parse,
            Failure::RepositoryMissing { .. } => FailureKind::Parse,
            Failure::MalformedRemote { .. } => FailureKind::Parse,
            Failure::Io { .. } => FailureKind::Io,
        }
    }

    /// The class of this failure.
    #[verifier::when_used_as_spec(spec_kind)]
    pub fn kind(&self) -> (r: FailureKind)
        ensures
            r == self.spec_kind(),
    {
        match self {
            Failure::RenameMany => FailureKind::Usage,
            Failure::SymlinkUnsupported => FailureKind::Usage,
            Failure::NoFileName { .. } => FailureKind::Usage,
            Failure::NotAnArchive => FailureKind::Usage,
            Failure::NotFileOrDirectory { .. } => FailureKind::Usage,
            Failure::InvalidRepositoryPath { .. } => FailureKind::Usage,
            Failure::TemplateNotFound { .. } => FailureKind::NotFound,
            Failure::RepositoryNotFound => FailureKind::NotFound,
            Failure::NoProjectDirectories => FailureKind::NotFound,
            Failure::LogNotFound { .. } => FailureKind::NotFound,
            Failure::NoParent { .. } => FailureKind::Usage,
            Failure::NoTemplateChosen => FailureKind::Usage,
            Failure::NoFileChosen => FailureKind::Usage,
            Failure::TemplateExists { .. } => FailureKind::Conflict,
            Failure::FileExists { .. } => FailureKind::Conflict,
            Failure::ProcessFailed { .. } => FailureKind::Process,
            Failure::ProcessStopped { .. } => FailureKind::Process,
            Failure::Parse { .. } => FailureKind::Parse,
            Failure::RepositoryNotText => FailureKind::Parse,
            Failure::RepositoryMissing { .. } => FailureKind::Parse,
            Failure::MalformedRemote { .. } => FailureKind::Parse,
            Failure::Io { .. } => FailureKind::Io,
        }
    }

    /// The message that reports this failure to the user: it names what is missing
    /// or in the way, and echoes the exit code of a tool that failed.
    pub fn message(&self) -> (r: String)
        ensures
            r@ == message_of(self@),
    {
        match self {
            Failure::RenameMany => String::from_str("Cannot rename when adding more than one file or directory."),
            Failure::SymlinkUnsupported => String::from_str("You can only use symlinks om UNIX systems."),
            Failure::NoFileName { path } => {
                let mut out = String::from_str("Cannot find file name for path '");
                out.append(path.as_str());
                out.append("'.");
                out
            },
            Failure::NotAnArchive => String::from_str("Templates should be zip files or directories."),
            Failure::NotFileOrDirectory { path } => {
                let mut out = String::from_str("File `");
                out.append(path.as_str());
                out.append("` is neither a file or directory.");
                out
            },
            Failure::InvalidRepositoryPath { path, url } => {
                let mut out = String::from_str("Path `");
                out.append(path.as_str());
                out.append("` is not a directory, or zip archive, within repository at `");
                out.append(url.as_str());
                out.append("`.");
                out
            },
            Failure::TemplateNotFound { name } => {
                let mut out = String::from_str("Could not find template '");
                out.append(name.as_str());
                out.append("'.");
                out
            },
            Failure::RepositoryNotFound => String::from_str("Could not find cloned repository directory."),
            Failure::NoProjectDirectories => String::from_str("Could not determine application directories."),
            Failure::LogNotFound { path } => {
                let mut out = String::from_str("Cannot find log file `");
                out.append(path.as_str());
                out.append("`.");
                out
            },
            Failure::NoParent { path } => {
                let mut out = String::from_str("Could not get parrent of '");
                out.append(path.as_str());
                out.append("'");
                out
            },
            Failure::NoTemplateChosen => String::from_str("No template chosen."),
            Failure::NoFileChosen => String::from_str("\nNo file chosen."),
            Failure::TemplateExists { name } => {
                let mut out = String::from_str("Template `");
                out.append(name.as_str());
                out.append("` already exists. Use --force to override.");
                out
            },
            Failure::FileExists { path } => {
                let mut out = String::from_str("File `");
                out.append(path.as_str());
                out.append("` already exists. Run with --force to override.");
                out
            },
            Failure::Parse { message } => message.clone(),
            Failure::RepositoryNotText => String::from_str("ERROR: Repository url must be string."),
            Failure::RepositoryMissing { name } => {
                let mut out = String::from_str("ERROR: Repository for '");
                out.append(name.as_str());
                out.append("' is not defined.");
                out
            },
            Failure::MalformedRemote { name } => {
                let mut out = String::from_str("Error in remote template '");
                out.append(name.as_str());
                out.append("'. Must be string or table of options.");
                out
            },
            Failure::Io { message } => message.clone(),
            Failure::ProcessFailed { tool, code } => match tool {
                Tool::Git => {
                    let mut out = String::from_str("Git failed to clone repo. Exit code was ");
                    out.append(to_decimal(*code).as_str());
                    out.append(".");
                    out
                },
                Tool::Compiler => {
                    let mut out = String::from_str(
                        "\nCompilation process exited with non-zero exit code: ",
                    );
                    out.append(to_decimal(*code).as_str());
                    out
                },
                Tool::Cleaner => {
                    let mut out = String::from_str(
                        "\nCleaning process exited with non-zero exit code: ",
                    );
                    out.append(to_decimal(*code).as_str());
                    out
                },
            },
            Failure::ProcessStopped { tool } => match tool {
                Tool::Git => String::from_str("Git process stopped unexpectedly"),
                Tool::Compiler => String::from_str("Compilation process stopped unexpectedly"),
                Tool::Cleaner => String::from_str("Cleaning process stopped unexpectedly"),
            },
        }
    }
}

/// Judges how an external tool ended: with code zero it succeeded; any other code,
/// or no code at all, is a failure.
pub fn check_exit(tool: Tool, code: Option<i32>) -> (r: Result<(), Failure>)
    ensures
        match code {
            Some(c) => if c == 0 {
                r is Ok
            } else {
                r == Err::<(), Failure>(Failure::ProcessFailed { tool, code: c })
            },
            None => r == Err::<(), Failure>(Failure::ProcessStopped { tool }),
        },
{
    match code {
        Some(c) => if c == 0 {
            Ok(())
        } else {
            Err(Failure::ProcessFailed { tool, code: c })
        },
        None => Err(Failure::ProcessStopped { tool }),
    }
}

} // verus!
