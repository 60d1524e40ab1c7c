//! Plans of file operations: what to do is decided here, and done elsewhere.

use vstd::prelude::*;
use crate::error::{Failure, FailureView};

verus! {

/// What lies at a path.
#[derive(Debug, Clone, Copy, PartialEq, Eq, Structural)]
pub enum PathKind {
    /// Nothing.
    Missing,
    /// A regular file.
    File,
    /// A directory.
    Directory,
    /// Something that is neither.
    Other,
}

/// One operation on the file system.
#[derive(Debug, PartialEq, Eq)]
pub enum Action {
    /// Remove a directory with all that it holds.
    RemoveDirectory { path: String },
    /// Remove a file.
    RemoveFile { path: String },
    /// Create a directory whose parent exists.
    CreateDirectory { path: String },
    /// Create a directory and the directories above it that are missing.
    CreateDirectories { path: String },
    /// Pack the contents of a directory into a new zip archive.
    Archive { directory: String, archive: String },
    /// Unpack a zip archive into a directory.
    Extract { archive: String, directory: String },
    /// Make a symbolic link at `destination` that points to `source`.
    Link { source: String, destination: String },
    /// Copy the bytes of the file `source` to `destination`.
    Copy { source: String, destination: String },
    /// Write `contents` to the file at `path`.
    Write { path: String, contents: String },
}

/// What an [`Action`] holds, as mathematical values.
pub enum ActionView {
    RemoveDirectory { path: Seq<char> },
    RemoveFile { path: Seq<char> },
    CreateDirectory { path: Seq<char> },
    CreateDirectories { path: Seq<char> },
    Archive { directory: Seq<char>, archive: Seq<char> },
    Extract { archive: Seq<char>, directory: Seq<char> },
    Link { source: Seq<char>, destination: Seq<char> },
    Copy { source: Seq<char>, destination: Seq<char> },
    Write { path: Seq<char>, contents: Seq<char> },
}

impl View for Action {
    type V = ActionView;

    open spec fn view(&self) -> ActionView {
        match *self {
            Action::RemoveDirectory { path } => ActionView::RemoveDirectory { path: path@ },
            Action::RemoveFile { path } => ActionView::RemoveFile { path: path@ },
            Action::CreateDirectory { path } => ActionView::CreateDirectory { path: path@ },
            Action::CreateDirectories { path } => ActionView::CreateDirectories { path: path@ },
            Action::Archive { directory, archive } => ActionView::Archive {
                directory: directory@,
                archive: archive@,
            },
            Action::Extract { archive, directory } => ActionView::Extract {
                archive: archive@,
                directory: directory@,
            },
            Action::Link { source, destination } => ActionView::Link {
                source: source@,
                destination: destination@,
            },
            Action::Copy { source, destination } => ActionView::Copy {
                source: source@,
                destination: destination@,
            },
            Action::Write { path, contents } => ActionView::Write {
                path: path@,
                contents: contents@,
            },
        }
    }
}

/// What is reported when the operating system refuses an operation: what was
/// being done, to what, and the system's own words for the refusal.
pub open spec fn refusal(action: ActionView, cause: Seq<char>) -> Seq<char> {
    match action {
        ActionView::RemoveDirectory { path } => "Could not remove directory with its children '"@
            + path + "': "@ + cause,
        ActionView::RemoveFile { path } => "Could not remove file '"@ + path + "': "@ + cause,
        ActionView::CreateDirectory { path } => "Could not create directory '"@ + path + "': "@
            + cause,
        ActionView::CreateDirectories { path } =>
            "Could not create directory and its parrents '"@ + path + "': "@ + cause,
        ActionView::Archive { directory, archive } =>
            "Could not create zip archive from directory '"@ + directory + "': "@ + cause,
        ActionView::Extract { archive, directory } => "Could not extract zip archive '"@ + archive
            + "' to '"@ + directory + "': "@ + cause,
        ActionView::Link { source, destination } => "Could not create symling from '"@ + source
            + "' to '"@ + destination + "': "@ + cause,
        ActionView::Copy { source, destination } => "Could not copy '"@ + source + "' to '"@
            + destination + "': "@ + cause,
        ActionView::Write { path, contents } => "Could not write to file '"@ + path + "': "@
            + cause,
    }
}

impl Action {
    /// The failure to report when the operating system refuses this operation,
    /// giving `cause` as its reason.
    pub fn refused(&self, cause: &str) -> (r: Failure)
        ensures
            r@ == (FailureView::Io { message: refusal(self@, cause@) }),
    {
        let mut message = match self {
            Action::RemoveDirectory { path } => {
                let mut out = String::from_str("Could not remove directory with its children '");
                out.append(path.as_str());
                out
            },
            Action::RemoveFile { path } => {
                let mut out = String::from_str("Could not remove file '");
                out.append(path.as_str());
                out
            },
            Action::CreateDirectory { path } => {
                let mut out = String::from_str("Could not create directory '");
                out.append(path.as_str());
                out
            },
            Action::CreateDirectories { path } => {
                let mut out = String::from_str("Could not create directory and its parrents '");
                out.append(path.as_str());
                out
            },
            Action::Archive { directory, archive: _ } => {
                let mut out = String::from_str("Could not create zip archive from directory '");
                out.append(directory.as_str());
                out
            },
            Action::Extract { archive, directory } => {
                let mut out = String::from_str("Could not extract zip archive '");
                out.append(archive.as_str());
                out.append("' to '");
                out.append(directory.as_str());
                out
            },
            Action::Link { source, destination } => {
                let mut out = String::from_str("Could not create symling from '");
                out.append(source.as_str());
                out.append("' to '");
                out.append(destination.as_str());
                out
            },
            Action::Copy { source, destination } => {
                let mut out = String::from_str("Could not copy '");
                out.append(source.as_str());
                out.append("' to '");
                out.append(destination.as_str());
                out
            },
            Action::Write { path, contents: _ } => {
                let mut out = String::from_str("Could not write to file '");
                out.append(path.as_str());
                out
            },
        };
        message.append("': ");
        message.append(cause);
        assert(message@ =~= refusal(self@, cause@));
        Failure::Io { message }
    }
}

/// The operations to carry out, in order, and the failure to report once they are
/// done, if the request cannot be met. Operations that precede a failure are not
/// undone.
#[derive(Debug, PartialEq, Eq)]
pub struct Plan {
    pub actions: Vec<Action>,
    pub failure: Option<Failure>,
}

/// What a [`Plan`] holds, as mathematical values.
pub struct PlanView {
    pub actions: Seq<ActionView>,
    pub failure: Option<FailureView>,
}

/// The views of the actions in `list`.
pub open spec fn action_views(list: Seq<Action>) -> Seq<ActionView> {
    Seq::new(list.len(), |i: int| list[i]@)
}

impl View for Plan {
    type V = PlanView;

    open spec fn view(&self) -> PlanView {
        PlanView {
            actions: action_views(self.actions@),
            failure: match self.failure {
                Some(f) => Some(f@),
                None => None,
            },
        }
    }
}

} // verus!
