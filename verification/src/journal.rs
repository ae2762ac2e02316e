//! The commands on single entries: save, load and delete.
//!
//! An entry is named by its file name, suffix included, and that name is used
//! as it is given: no command adds or removes a suffix. Loading an entry that
//! does not exist is no failure and yields nothing; deleting one is a failure.
//!
//! A command that has to look before it acts is a conversation. The
//! application reports what the file system said as an event, and the command
//! answers with what to do next, or with its result.

use vstd::prelude::*;
use crate::error::StoreError;

verus! {

/// What the file system said while an entry was being loaded.
#[derive(Debug, PartialEq, Eq)]
pub enum LoadEvent {
    /// Whether the entry's path exists.
    Probed(bool),
    /// The entry's text, or why it could not be read.
    Read(Result<String, String>),
}

/// What loading an entry asks for next.
#[derive(Debug, PartialEq, Eq)]
pub enum LoadAction {
    /// Read the entry's file as text.
    ReadFile,
    /// Nothing more: this is the result.
    Finish(Result<Option<String>, StoreError>),
}

/// What the file system said while an entry was being deleted.
#[derive(Debug, PartialEq, Eq)]
pub enum DeleteEvent {
    /// Whether the entry's path exists.
    Probed(bool),
    /// That the file is gone, or why it could not be removed.
    Removed(Result<(), String>),
}

/// What deleting an entry asks for next.
#[derive(Debug, PartialEq, Eq)]
pub enum DeleteAction {
    /// Remove the entry's file.
    RemoveFile,
    /// Nothing more: this is the result.
    Finish(Result<(), StoreError>),
}

/// The answer of the load command to each event.
pub open spec fn load_journal_next(event: LoadEvent) -> LoadAction {
    match event {
        LoadEvent::Probed(true) => LoadAction::ReadFile,
        LoadEvent::Probed(false) => LoadAction::Finish(Ok(None)),
        LoadEvent::Read(Ok(text)) => LoadAction::Finish(Ok(Some(text))),
        LoadEvent::Read(Err(cause)) => LoadAction::Finish(Err(StoreError::LoadFailed(cause))),
    }
}

/// The answer of the delete command to each event.
pub open spec fn delete_journal_next(event: DeleteEvent) -> DeleteAction {
    match event {
        DeleteEvent::Probed(true) => DeleteAction::RemoveFile,
        DeleteEvent::Probed(false) => DeleteAction::Finish(Err(StoreError::NotFound)),
        DeleteEvent::Removed(Ok(())) => DeleteAction::Finish(Ok(())),
        DeleteEvent::Removed(Err(cause)) => DeleteAction::Finish(
            Err(StoreError::DeleteFailed(cause)),
        ),
    }
}

/// The result of the save command, given how writing the entry went.
pub open spec fn save_journal_result(written: Result<(), String>) -> Result<(), StoreError> {
    match written {
        Ok(()) => Ok(()),
        Err(cause) => Err(StoreError::SaveFailed(cause)),
    }
}

/// Saving an entry writes the given text to the file of the given name,
/// replacing what the file held. This is the command's result once the write
/// was attempted.
pub fn save_journal(written: Result<(), String>) -> (r: Result<(), StoreError>)
    ensures
        r == save_journal_result(written),
{
    match written {
        Ok(()) => Ok(()),
        Err(cause) => Err(StoreError::SaveFailed(cause)),
    }
}

/// Loading an entry: told whether the path exists, asks for the file to be
/// read or finishes with nothing; told how reading went, finishes with the
/// text or with the failure.
pub fn load_journal(event: LoadEvent) -> (action: LoadAction)
    ensures
        action == load_journal_next(event),
{
    match event {
        LoadEvent::Probed(exists) => {
            if exists {
                LoadAction::ReadFile
            } else {
                LoadAction::Finish(Ok(None))
            }
        },
        LoadEvent::Read(Ok(text)) => LoadAction::Finish(Ok(Some(text))),
        LoadEvent::Read(Err(cause)) => LoadAction::Finish(Err(StoreError::LoadFailed(cause))),
    }
}

/// Deleting an entry: told whether the path exists, asks for the file to be
/// removed or finishes with [`StoreError::NotFound`]; told how removing went,
/// finishes with success or with the failure.
pub fn delete_journal(event: DeleteEvent) -> (action: DeleteAction)
    ensures
        action == delete_journal_next(event),
{
    match event {
        DeleteEvent::Probed(exists) => {
            if exists {
                DeleteAction::RemoveFile
            } else {
                DeleteAction::Finish(Err(StoreError::NotFound))
            }
        },
        DeleteEvent::Removed(Ok(())) => DeleteAction::Finish(Ok(())),
        DeleteEvent::Removed(Err(cause)) => DeleteAction::Finish(
            Err(StoreError::DeleteFailed(cause)),
        ),
    }
}

/// A journal directory as the commands see it: the text of every file in it,
/// by file name.
pub struct Directory {
    pub files: Map<Seq<char>, Seq<char>>,
}

impl Directory {
    /// The directory has a file of this name.
    pub open spec fn holds(self, name: Seq<char>) -> bool {
        self.files.dom().contains(name)
    }

    /// The directory once `content` was written to the file `name`.
    pub open spec fn with_file(self, name: Seq<char>, content: Seq<char>) -> Directory {
        Directory { files: self.files.insert(name, content) }
    }

    /// The directory once the file `name` was removed.
    pub open spec fn without_file(self, name: Seq<char>) -> Directory {
        Directory { files: self.files.remove(name) }
    }

    /// `result` is what loading `name` yields in this directory, when the file
    /// system reports what the directory holds and reads without failure.
    pub open spec fn loads(self, name: Seq<char>, result: Result<Option<String>, StoreError>) -> bool {
        if self.holds(name) {
            exists|text: String|
                text@ == self.files[name] && load_journal_next(LoadEvent::Probed(true))
                    == LoadAction::ReadFile && #[trigger] load_journal_next(
                    LoadEvent::Read(Ok(text)),
                ) == LoadAction::Finish(result)
        } else {
            load_journal_next(LoadEvent::Probed(false)) == LoadAction::Finish(result)
        }
    }

    /// `result` is what deleting `name` yields in this directory, when the
    /// file system reports what the directory holds and removes without
    /// failure.
    pub open spec fn deletes(self, name: Seq<char>, result: Result<(), StoreError>) -> bool {
        if self.holds(name) {
            delete_journal_next(DeleteEvent::Probed(true)) == DeleteAction::RemoveFile
                && delete_journal_next(DeleteEvent::Removed(Ok(()))) == DeleteAction::Finish(
                result,
            )
        } else {
            delete_journal_next(DeleteEvent::Probed(false)) == DeleteAction::Finish(result)
        }
    }
}

/// An entry that was saved loads as the text that was saved: in a directory
/// that took the write, whatever it held before, loading the entry succeeds
/// with that text.
pub proof fn lemma_saved_entry_loads(
    dir: Directory,
    name: Seq<char>,
    content: Seq<char>,
    result: Result<Option<String>, StoreError>,
)
    requires
        dir.with_file(name, content).loads(name, result),
    ensures
        save_journal_result(Ok(())) is Ok,
        result matches Ok(Some(text)) && text@ == content,
{
}

/// Deleting an entry that does not exist fails, and says that it does not
/// exist.
pub proof fn lemma_delete_absent_fails(
    dir: Directory,
    name: Seq<char>,
    result: Result<(), StoreError>,
)
    requires
        !dir.holds(name),
        dir.deletes(name, result),
    ensures
        result == Err::<(), StoreError>(StoreError::NotFound),
{
}

/// Deleting an entry that exists succeeds, and loading it afterwards yields
/// nothing, without failure.
pub proof fn lemma_deleted_entry_is_absent(
    dir: Directory,
    name: Seq<char>,
    deleted: Result<(), StoreError>,
    loaded: Result<Option<String>, StoreError>,
)
    requires
        dir.holds(name),
        dir.deletes(name, deleted),
        dir.without_file(name).loads(name, loaded),
    ensures
        deleted is Ok,
        loaded == Ok::<Option<String>, StoreError>(None),
{
}

/// Entries of different names do not touch each other: saving or deleting one
/// leaves what loading another yields as it was.
pub proof fn lemma_other_entries_untouched(
    dir: Directory,
    name: Seq<char>,
    other: Seq<char>,
    content: Seq<char>,
    result: Result<Option<String>, StoreError>,
)
    requires
        name != other,
    ensures
        dir.with_file(name, content).loads(other, result) == dir.loads(other, result),
        dir.without_file(name).loads(other, result) == dir.loads(other, result),
{
}

} // verus!
