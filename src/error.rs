use vstd::prelude::*;

verus! {

/// The two kinds of file system work that can be refused.
#[derive(Clone, Copy, Debug, PartialEq, Eq, Structural)]
pub enum PermissionType {
    /// Creating a directory or a file.
    Create,
    /// Writing the record into an opened file.
    Write,
}

/// Why a configuration operation failed.
#[derive(Clone, Debug)]
pub enum Error {
    /// The host offers no per-user directory to keep the configuration in.
    ProjectDir,
    /// Creating or writing the given path failed.
    Permissions(PermissionType, String),
    /// The file at the given path exists but does not hold a configuration record.
    MalformedFile(String),
}

impl Error {
    /// A copy of this error, field for field.
    pub fn duplicate(&self) -> (r: Error)
        ensures
            r == *self,
    {
        match self {
            Error::ProjectDir => Error::ProjectDir,
            Error::Permissions(kind, path) => Error::Permissions(*kind, path.clone()),
            Error::MalformedFile(path) => Error::MalformedFile(path.clone()),
        }
    }
}

} // verus!
