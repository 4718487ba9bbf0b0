//! The failures a directory operation can end in.

use vstd::prelude::*;

verus! {

/// What a lookup did not find.
#[derive(Debug, Clone, Copy, PartialEq, Eq, Structural)]
pub enum Subject {
    /// No classroom has the requested name.
    Classroom,
    /// None of the images a classroom refers to is in the image store.
    Images,
}

/// Why a directory operation failed.
#[derive(Debug, Clone, Copy, PartialEq, Eq, Structural)]
pub enum DirectoryError {
    /// The record store did not answer the liveness probe.
    Connectivity,
    /// A payload is not well-formed JSON, or a record in it lacks a field.
    Parse,
    /// The record store was reached but a store operation failed, or a
    /// record was refused because its key is empty.
    Persistence,
    /// The requested data is absent.
    NotFound(Subject),
    /// A read came before the directory finished loading.
    NotInitialized,
}

impl Subject {
    /// The name of the subject as the text `classroom` or `images`.
    pub open spec fn label(self) -> Seq<char> {
        match self {
            Subject::Classroom => "classroom"@,
            Subject::Images => "images"@,
        }
    }

    /// The name of the subject as text.
    pub fn name(&self) -> (text: &'static str)
        ensures
            text@ == self.label(),
    {
        match self {
            Subject::Classroom => "classroom",
            Subject::Images => "images",
        }
    }
}

impl DirectoryError {
    /// The sentence that describes the error to a client.
    pub open spec fn description(self) -> Seq<char> {
        match self {
            DirectoryError::Connectivity => "Record store unreachable"@,
            DirectoryError::Parse => "Malformed payload"@,
            DirectoryError::Persistence => "Record store operation failed"@,
            DirectoryError::NotFound(Subject::Classroom) => "Classroom not found"@,
            DirectoryError::NotFound(Subject::Images) => "No images found"@,
            DirectoryError::NotInitialized => "Directory not initialized"@,
        }
    }

    /// A human-readable reason for the error.
    pub fn reason(&self) -> (text: &'static str)
        ensures
            text@ == self.description(),
    {
        match self {
            DirectoryError::Connectivity => "Record store unreachable",
            DirectoryError::Parse => "Malformed payload",
            DirectoryError::Persistence => "Record store operation failed",
            DirectoryError::NotFound(Subject::Classroom) => "Classroom not found",
            DirectoryError::NotFound(Subject::Images) => "No images found",
            DirectoryError::NotInitialized => "Directory not initialized",
        }
    }
}

} // verus!
