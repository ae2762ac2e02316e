//! The rules of a small journal kept as Markdown files in one directory.
//!
//! Nothing here reads or writes a file. Each command is split into the
//! decisions it takes, which live in this crate and are proved against their
//! contracts, and the file operations those decisions ask for, which the
//! application performs and whose results it hands back.
//!
//! * [`text`]: how two texts are ordered, character by character.
//! * [`entry`]: what a file name says about the entry it holds.
//! * [`listing`]: the order in which entries are listed.
//! * [`journal`]: saving, loading and deleting single entries.
//! * [`settings`]: the user's preferences.
//! * [`config`]: where the preferences are kept.
//! * [`error`]: what can go wrong, and how it is worded.

pub mod config;
pub mod entry;
pub mod error;
pub mod journal;
pub mod listing;
pub mod settings;
pub mod text;

pub use config::{settings_location, settings_location_under, ConfigRoot, SettingsLocation};
pub use entry::{classify, has_markdown_suffix, is_daily_entry, EntryType, JournalEntry};
pub use error::StoreError;
pub use journal::{
    delete_journal, load_journal, save_journal, DeleteAction, DeleteEvent, LoadAction, LoadEvent,
};
pub use listing::{collect_entries, comes_before, list_journal_entries, sort_entries};
pub use settings::{
    get_dark_mode, get_journal_directory, load_settings, save_settings, set_dark_mode,
    set_journal_directory, LoadSettingsAction, LoadSettingsEvent, SaveSettingsAction,
    SaveSettingsEvent, Settings,
};
pub use text::{chars_of, same_text, text_before};
