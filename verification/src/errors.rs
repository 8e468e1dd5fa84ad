//! Errors of file input and output, with the path they concern.

use vstd::prelude::*;
use crate::text::concat2;

verus! {

/// The standard library's I/O error, carried through opaquely.
#[verifier::external_type_specification]
#[verifier::external_body]
pub struct ExIoError(std::io::Error);

/// A failed file operation.
#[derive(Debug)]
pub enum IOError {
    FileRead { path: String, source: std::io::Error },
    FileWrite { path: String, source: std::io::Error },
    DirectoryCreation { path: String, source: std::io::Error },
}

impl IOError {
    /// The message, as the error is displayed.
    pub fn message(&self) -> (res: String)
        ensures
            res@ == match self {
                IOError::FileRead { path, .. } => "File read failed: "@ + path@,
                IOError::FileWrite { path, .. } => "File write failed: "@ + path@,
                IOError::DirectoryCreation { path, .. } => "Directory creation failed: "@ + path@,
            },
    {
        match self {
            IOError::FileRead { path, .. } => concat2("File read failed: ", path.as_str()),
            IOError::FileWrite { path, .. } => concat2("File write failed: ", path.as_str()),
            IOError::DirectoryCreation { path, .. } => concat2("Directory creation failed: ", path.as_str()),
        }
    }

    /// The path the error concerns.
    pub fn path(&self) -> (res: &String)
        ensures
            *res == match self {
                IOError::FileRead { path, .. } => *path,
                IOError::FileWrite { path, .. } => *path,
                IOError::DirectoryCreation { path, .. } => *path,
            },
    {
        match self {
            IOError::FileRead { path, .. } => path,
            IOError::FileWrite { path, .. } => path,
            IOError::DirectoryCreation { path, .. } => path,
        }
    }
}

} // verus!
