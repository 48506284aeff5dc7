//! The error taxonomy of the store.

use vstd::prelude::*;

verus! {

/// Everything that can go wrong while loading or persisting a store.
///
/// `FilecontentNotValid` is an intermediate classification only: a parse
/// failure is always refined into one of its two backup variants before it
/// reaches a caller, so that the caller knows whether the corrupt original
/// is still safely preserved.
#[derive(Debug, Clone, Copy, PartialEq, Eq, Structural)]
pub enum JsonStoreError {
    /// The file to load does not exist or could not be read.
    FileNotFound,
    /// The path cannot be represented as text for the filesystem call;
    /// reported before any filesystem access.
    PathNotValid,
    /// The file was read but its content does not parse as the stored type.
    FilecontentNotValid,
    /// The content is corrupt, and a backup copy of the corrupt file was
    /// created; proceeding with a fresh value is safe.
    #[allow(non_camel_case_types)]
    FilecontentNotValid_CreatedBackupfile,
    /// The content is corrupt and the backup copy failed; the original
    /// data may be unrecoverable.
    #[allow(non_camel_case_types)]
    FilecontentNotValid_CouldNotCreateBackupfile,
    /// Serializing or writing the value to the file failed.
    WriteFailed,
}

impl JsonStoreError {
    /// A short human-readable description of the error.
    pub open spec fn spec_message(self) -> Seq<char> {
        match self {
            JsonStoreError::FileNotFound => "file not found"@,
            JsonStoreError::PathNotValid => "path not valid"@,
            JsonStoreError::FilecontentNotValid => "file content not valid"@,
            JsonStoreError::FilecontentNotValid_CreatedBackupfile => (
                "file content not valid; backup file created"@
            ),
            JsonStoreError::FilecontentNotValid_CouldNotCreateBackupfile => (
                "file content not valid; backup file could not be created"@
            ),
            JsonStoreError::WriteFailed => "could not write the file"@,
        }
    }

    /// The description as a borrowed string, for callers that display errors.
    pub fn message(&self) -> (r: &'static str)
        ensures
            r@ == self.spec_message(),
    {
        match self {
            JsonStoreError::FileNotFound => "file not found",
            JsonStoreError::PathNotValid => "path not valid",
            JsonStoreError::FilecontentNotValid => "file content not valid",
            JsonStoreError::FilecontentNotValid_CreatedBackupfile => (
                "file content not valid; backup file created"
            ),
            JsonStoreError::FilecontentNotValid_CouldNotCreateBackupfile => (
                "file content not valid; backup file could not be created"
            ),
            JsonStoreError::WriteFailed => "could not write the file",
        }
    }

    /// The error that a load reports for corrupt file content, refined
    /// by whether the backup copy of the corrupt file succeeded: with
    /// the original preserved the caller may proceed with a fresh
    /// value, without it the caller should escalate.
    pub fn refined_corruption(backup_created: bool) -> (e: JsonStoreError)
        ensures
            e == if backup_created {
                JsonStoreError::FilecontentNotValid_CreatedBackupfile
            } else {
                JsonStoreError::FilecontentNotValid_CouldNotCreateBackupfile
            },
    {
        if backup_created {
            JsonStoreError::FilecontentNotValid_CreatedBackupfile
        } else {
            JsonStoreError::FilecontentNotValid_CouldNotCreateBackupfile
        }
    }

    /// Whether the error reports corrupt file content (in either backup
    /// refinement).
    pub open spec fn spec_is_corruption(self) -> bool {
        ||| self == JsonStoreError::FilecontentNotValid
        ||| self == JsonStoreError::FilecontentNotValid_CreatedBackupfile
        ||| self == JsonStoreError::FilecontentNotValid_CouldNotCreateBackupfile
    }

    /// Whether the error reports corrupt file content.
    pub fn is_corruption(&self) -> (r: bool)
        ensures
            r == self.spec_is_corruption(),
    {
        match self {
            JsonStoreError::FilecontentNotValid => true,
            JsonStoreError::FilecontentNotValid_CreatedBackupfile => true,
            JsonStoreError::FilecontentNotValid_CouldNotCreateBackupfile => true,
            _ => false,
        }
    }
}

} // verus!
