//! Why a backup can fail.

use vstd::prelude::*;

verus! {

#[verifier::external_type_specification]
#[verifier::external_body]
pub struct ExIoError(std::io::Error);

/// Why a path cannot be backed up, whatever the file system holds.
#[derive(Clone, Copy, Debug, PartialEq, Eq, Structural)]
pub enum InvalidPath {
    /// The path has no parent directory: it is the root.
    Root,
    /// The parent directory or the final segment does not decode as text.
    NotText,
    /// The path has no final segment to name the backup after: it ends in
    /// `..`.
    NoFileName,
}

/// Why a backup failed.
#[derive(Debug)]
pub enum BackupError {
    /// Nothing exists at the path.
    NotFound,
    /// The path cannot be backed up.
    InvalidPath(InvalidPath),
    /// The file system refused the rename; the error is handed on as it came.
    Io(std::io::Error),
}

impl InvalidPath {
    /// The description of this reason.
    pub open spec fn text(self) -> Seq<char> {
        match self {
            InvalidPath::Root => "Path is root."@,
            InvalidPath::NotText => "Path is not a valid UTF-8."@,
            InvalidPath::NoFileName => "Path ends in '..'."@,
        }
    }

    /// The description of this reason.
    pub fn message(&self) -> (text: String)
        ensures
            text@ == self.text(),
    {
        match self {
            InvalidPath::Root => "Path is root.".to_string(),
            InvalidPath::NotText => "Path is not a valid UTF-8.".to_string(),
            InvalidPath::NoFileName => "Path ends in '..'.".to_string(),
        }
    }
}

/// The description that the file system gave with `error`.
///
/// Calls `to_string` on a `std::io::Error`; nothing is claimed of the text.
#[verifier::external_body]
fn io_message(error: &std::io::Error) -> (text: String) {
    error.to_string()
}

impl BackupError {
    /// The description of this error, where it is the library's to give: a
    /// file system error brings its own.
    pub open spec fn text(self) -> Option<Seq<char>> {
        match self {
            BackupError::NotFound => Some("Path does not exist."@),
            BackupError::InvalidPath(reason) => Some(reason.text()),
            BackupError::Io(_) => None,
        }
    }

    /// A description of this error for people to read.
    pub fn message(&self) -> (text: String)
        ensures
            self.text() matches Some(own) ==> text@ == own,
    {
        match self {
            BackupError::NotFound => "Path does not exist.".to_string(),
            BackupError::InvalidPath(reason) => reason.message(),
            BackupError::Io(error) => io_message(error),
        }
    }
}

} // verus!
