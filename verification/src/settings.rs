//! The user's preferences and the commands that read and change them.
//!
//! The settings are read afresh from their file by every command. A file that
//! is missing, cannot be read, or does not hold settings counts as holding
//! none: every preference is then unset, and no command fails on that account.
//! A preference is set only by the command that sets it; none is ever made up.

use vstd::prelude::*;
use crate::error::StoreError;

verus! {

/// The user's preferences. A preference that was never set is absent.
#[derive(Clone, Debug, PartialEq, Eq)]
pub struct Settings {
    /// The directory in which the journal is kept.
    pub journal_directory: Option<String>,
    /// Whether the dark colour scheme is chosen.
    pub dark_mode: Option<bool>,
}

impl Settings {
    /// The settings in which nothing is set.
    pub open spec fn unset() -> Settings {
        Settings { journal_directory: None, dark_mode: None }
    }
}

impl Default for Settings {
    fn default() -> (r: Settings)
        ensures
            r == Settings::unset(),
    {
        Settings { journal_directory: None, dark_mode: None }
    }
}

/// What came of an attempt while the settings were being loaded.
#[derive(Debug, PartialEq, Eq)]
pub enum LoadSettingsEvent {
    /// Whether the settings file exists.
    Probed(bool),
    /// The text of the settings file, if it could be read.
    Read(Option<String>),
    /// The settings that the text holds, if it holds any.
    Parsed(Option<Settings>),
}

/// What loading the settings asks for next.
#[derive(Debug, PartialEq, Eq)]
pub enum LoadSettingsAction {
    /// Read the settings file as text.
    ReadFile,
    /// Take this text apart.
    Parse(String),
    /// Nothing more: these are the settings.
    Finish(Settings),
}

/// What came of an attempt while the settings were being saved.
#[derive(Debug, PartialEq, Eq)]
pub enum SaveSettingsEvent {
    /// The settings in their stored form, or why they could not be put into it.
    Serialized(Result<String, String>),
    /// That the settings file was written, or why it could not be.
    Written(Result<(), String>),
}

/// What saving the settings asks for next.
#[derive(Debug, PartialEq, Eq)]
pub enum SaveSettingsAction {
    /// Write this text as the whole of the settings file.
    WriteFile(String),
    /// Nothing more: this is the result.
    Finish(Result<(), StoreError>),
}

/// The answer of loading the settings to each event.
pub open spec fn load_settings_next(event: LoadSettingsEvent) -> LoadSettingsAction {
    match event {
        LoadSettingsEvent::Probed(true) => LoadSettingsAction::ReadFile,
        LoadSettingsEvent::Read(Some(text)) => LoadSettingsAction::Parse(text),
        LoadSettingsEvent::Parsed(Some(settings)) => LoadSettingsAction::Finish(settings),
        LoadSettingsEvent::Probed(false) | LoadSettingsEvent::Read(None)
        | LoadSettingsEvent::Parsed(None) => LoadSettingsAction::Finish(Settings::unset()),
    }
}

/// The answer of saving the settings to each event.
pub open spec fn save_settings_next(event: SaveSettingsEvent) -> SaveSettingsAction {
    match event {
        SaveSettingsEvent::Serialized(Ok(text)) => SaveSettingsAction::WriteFile(text),
        SaveSettingsEvent::Serialized(Err(cause)) => SaveSettingsAction::Finish(
            Err(StoreError::SerializeFailed(cause)),
        ),
        SaveSettingsEvent::Written(Ok(())) => SaveSettingsAction::Finish(Ok(())),
        SaveSettingsEvent::Written(Err(cause)) => SaveSettingsAction::Finish(
            Err(StoreError::WriteSettingsFailed(cause)),
        ),
    }
}

/// The given settings with the journal directory set.
pub open spec fn with_journal_directory(settings: Settings, directory: String) -> Settings {
    Settings { journal_directory: Some(directory), dark_mode: settings.dark_mode }
}

/// The given settings with the colour scheme set.
pub open spec fn with_dark_mode(settings: Settings, dark_mode: bool) -> Settings {
    Settings { journal_directory: settings.journal_directory, dark_mode: Some(dark_mode) }
}

/// Loading the settings: asks for the file to be read if it exists and for
/// its text to be taken apart if it was read, and finishes with the settings
/// found there. Whatever else happens, it finishes with nothing set.
pub fn load_settings(event: LoadSettingsEvent) -> (action: LoadSettingsAction)
    ensures
        action == load_settings_next(event),
{
    match event {
        LoadSettingsEvent::Probed(true) => LoadSettingsAction::ReadFile,
        LoadSettingsEvent::Read(Some(text)) => LoadSettingsAction::Parse(text),
        LoadSettingsEvent::Parsed(Some(settings)) => LoadSettingsAction::Finish(settings),
        _ => LoadSettingsAction::Finish(Settings::default()),
    }
}

/// Saving the settings: asks for their stored form to be written as the whole
/// file, and finishes with success or with the step that failed.
pub fn save_settings(event: SaveSettingsEvent) -> (action: SaveSettingsAction)
    ensures
        action == save_settings_next(event),
{
    match event {
        SaveSettingsEvent::Serialized(Ok(text)) => SaveSettingsAction::WriteFile(text),
        SaveSettingsEvent::Serialized(Err(cause)) => SaveSettingsAction::Finish(
            Err(StoreError::SerializeFailed(cause)),
        ),
        SaveSettingsEvent::Written(Ok(())) => SaveSettingsAction::Finish(Ok(())),
        SaveSettingsEvent::Written(Err(cause)) => SaveSettingsAction::Finish(
            Err(StoreError::WriteSettingsFailed(cause)),
        ),
    }
}

/// The journal directory that the loaded settings name, if any.
pub fn get_journal_directory(settings: Settings) -> (r: Option<String>)
    ensures
        r == settings.journal_directory,
{
    settings.journal_directory
}

/// The settings to save in order to set the journal directory: the loaded
/// ones, with that one preference replaced. The directory is not looked at.
pub fn set_journal_directory(settings: Settings, directory: String) -> (r: Settings)
    ensures
        r == with_journal_directory(settings, directory),
{
    Settings { journal_directory: Some(directory), dark_mode: settings.dark_mode }
}

/// The colour scheme that the loaded settings name, if any.
pub fn get_dark_mode(settings: &Settings) -> (r: Option<bool>)
    ensures
        r == settings.dark_mode,
{
    settings.dark_mode
}

/// The settings to save in order to set the colour scheme: the loaded ones,
/// with that one preference replaced.
pub fn set_dark_mode(settings: Settings, dark_mode: bool) -> (r: Settings)
    ensures
        r == with_dark_mode(settings, dark_mode),
{
    Settings { journal_directory: settings.journal_directory, dark_mode: Some(dark_mode) }
}

/// A preference that was set is what the settings then hold, and the other
/// preference is as it was. So where the file gives back what was saved into
/// it, a preference reads as it was last set.
pub proof fn lemma_set_then_get(settings: Settings, directory: String, dark_mode: bool)
    ensures
        with_dark_mode(settings, dark_mode).dark_mode == Some(dark_mode),
        with_dark_mode(settings, dark_mode).journal_directory == settings.journal_directory,
        with_journal_directory(settings, directory).journal_directory == Some(directory),
        with_journal_directory(settings, directory).dark_mode == settings.dark_mode,
        load_settings_next(LoadSettingsEvent::Parsed(Some(with_dark_mode(settings, dark_mode))))
            == LoadSettingsAction::Finish(with_dark_mode(settings, dark_mode)),
        load_settings_next(
            LoadSettingsEvent::Parsed(Some(with_journal_directory(settings, directory))),
        ) == LoadSettingsAction::Finish(with_journal_directory(settings, directory)),
{
}

/// Where there is no settings file, no preference is set: neither is given a
/// value of its own accord.
pub proof fn lemma_missing_file_sets_nothing()
    ensures
        load_settings_next(LoadSettingsEvent::Probed(false)) == LoadSettingsAction::Finish(
            Settings::unset(),
        ),
        Settings::unset().journal_directory is None,
        Settings::unset().dark_mode is None,
{
}

/// A settings file that cannot be read, or that does not hold settings, is
/// treated as a missing one: loading finishes, with the same settings.
pub proof fn lemma_unusable_file_is_missing_file()
    ensures
        load_settings_next(LoadSettingsEvent::Read(None)) == load_settings_next(
            LoadSettingsEvent::Probed(false),
        ),
        load_settings_next(LoadSettingsEvent::Parsed(None)) == load_settings_next(
            LoadSettingsEvent::Probed(false),
        ),
        load_settings_next(LoadSettingsEvent::Probed(false)) is Finish,
{
}

} // verus!
