//! The error taxonomy of the linker.
//!
//! Every filesystem and parse failure is surfaced to the immediate caller as
//! one of these variants; the library never logs and swallows.  The variants
//! that carry a `String` preserve the underlying OS error text for
//! diagnostics.

use vstd::prelude::*;

verus! {

/// An error of the link/unlink engine or of the manifest reader.
#[derive(Debug, PartialEq, Eq)]
pub enum LinkerError {
    /// The manifest file is absent from the modpack directory.
    NotFound,
    /// The manifest is not JSON of the expected shape.
    ParseError,
    /// The instance name is empty or would escape the destination root
    /// (path separators, `.` or `..`, or control characters).
    InvalidName,
    /// The destination already holds a directory of the instance's name.
    NameConflict,
    /// The OS denied creation of the symlink; carries the OS error text.
    SymlinkPermission(String),
    /// Unlink was asked for an instance whose directory does not exist.
    NotLinked,
    /// Any other filesystem failure; carries the OS error text.
    Io(String),
}

impl LinkerError {
    /// The human-readable message of this error.
    pub open spec fn sp_message(&self) -> Seq<char> {
        match self {
            LinkerError::NotFound => "manifest file not found"@,
            LinkerError::ParseError => "manifest is not of the expected shape"@,
            LinkerError::InvalidName => "instance name is not a valid directory name"@,
            LinkerError::NameConflict => "an instance of this name already exists"@,
            LinkerError::SymlinkPermission(m) => "symlink creation was denied: "@ + m@,
            LinkerError::NotLinked => "instance is not linked"@,
            LinkerError::Io(m) => "filesystem error: "@ + m@,
        }
    }

    /// Renders the error as text for direct display to a user.
    pub fn message(&self) -> (r: String)
        ensures
            r@ == self.sp_message(),
    {
        match self {
            LinkerError::NotFound => String::from_str("manifest file not found"),
            LinkerError::ParseError => String::from_str("manifest is not of the expected shape"),
            LinkerError::InvalidName => String::from_str(
                "instance name is not a valid directory name",
            ),
            LinkerError::NameConflict => String::from_str("an instance of this name already exists"),
            LinkerError::SymlinkPermission(m) => String::from_str(
                "symlink creation was denied: ",
            ).concat(m.as_str()),
            LinkerError::NotLinked => String::from_str("instance is not linked"),
            LinkerError::Io(m) => String::from_str("filesystem error: ").concat(m.as_str()),
        }
    }
}

impl Clone for LinkerError {
    fn clone(&self) -> (r: Self)
        ensures
            r == self,
    {
        match self {
            LinkerError::NotFound => LinkerError::NotFound,
            LinkerError::ParseError => LinkerError::ParseError,
            LinkerError::InvalidName => LinkerError::InvalidName,
            LinkerError::NameConflict => LinkerError::NameConflict,
            LinkerError::SymlinkPermission(m) => LinkerError::SymlinkPermission(m.clone()),
            LinkerError::NotLinked => LinkerError::NotLinked,
            LinkerError::Io(m) => LinkerError::Io(m.clone()),
        }
    }
}

} // verus!
