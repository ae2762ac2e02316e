//! What can go wrong in a command, and how it is worded.

use vstd::prelude::*;

verus! {

/// Why a command failed. Where the file system refused an operation, the
/// variant carries the file system's own account of the refusal.
#[derive(Clone, Debug, PartialEq, Eq)]
pub enum StoreError {
    /// Writing an entry failed.
    SaveFailed(String),
    /// An entry exists but reading it failed.
    LoadFailed(String),
    /// An entry exists but removing it failed.
    DeleteFailed(String),
    /// The entry to delete does not exist.
    NotFound,
    /// The journal directory could not be read.
    ReadDirFailed(String),
    /// The settings could not be put into their stored form.
    SerializeFailed(String),
    /// Writing the settings file failed.
    WriteSettingsFailed(String),
}

impl StoreError {
    /// The wording of the error: what was attempted, then the cause.
    pub open spec fn text(self) -> Seq<char> {
        match self {
            StoreError::SaveFailed(cause) => "Failed to save journal entry: "@ + cause@,
            StoreError::LoadFailed(cause) => "Failed to load journal entry: "@ + cause@,
            StoreError::DeleteFailed(cause) => "Failed to delete journal entry: "@ + cause@,
            StoreError::NotFound => "File does not exist"@,
            StoreError::ReadDirFailed(cause) => "Failed to read directory: "@ + cause@,
            StoreError::SerializeFailed(cause) => "Failed to serialize settings: "@ + cause@,
            StoreError::WriteSettingsFailed(cause) => "Failed to write settings: "@ + cause@,
        }
    }

    /// The error as the user is to read it.
    pub fn message(&self) -> (r: String)
        ensures
            r@ == self.text(),
    {
        match self {
            StoreError::SaveFailed(cause) => worded("Failed to save journal entry: ", cause),
            StoreError::LoadFailed(cause) => worded("Failed to load journal entry: ", cause),
            StoreError::DeleteFailed(cause) => worded("Failed to delete journal entry: ", cause),
            StoreError::NotFound => String::from_str("File does not exist"),
            StoreError::ReadDirFailed(cause) => worded("Failed to read directory: ", cause),
            StoreError::SerializeFailed(cause) => worded("Failed to serialize settings: ", cause),
            StoreError::WriteSettingsFailed(cause) => worded("Failed to write settings: ", cause),
        }
    }
}

fn worded(attempt: &str, cause: &String) -> (r: String)
    ensures
        r@ == attempt@ + cause@,
{
    let mut out = String::from_str(attempt);
    out.append(cause.as_str());
    out
}

} // verus!
