//! Where the settings file is kept.
//!
//! The file is `settings.json` in the folder `illien` of the directory that
//! the platform keeps for the user's configuration. Where the platform names
//! no such directory, the folder is looked for where the program runs.

use vstd::prelude::*;
use std::path::PathBuf;

verus! {

/// `std::path::PathBuf`: a path as the operating system writes it. Nothing is
/// known of what a value holds.
#[verifier::external_type_specification]
#[verifier::external_body]
pub struct ExPathBuf(PathBuf);

/// `dirs::config_dir`: the directory that the platform keeps for the user's
/// configuration, if it names one. What comes back depends on the platform
/// and on the variables the process was started with, so nothing is claimed
/// of it.
pub assume_specification[ dirs::config_dir ]() -> (r: Option<PathBuf>);

/// The directory under which the settings folder lies.
#[derive(Debug, PartialEq, Eq)]
pub enum ConfigRoot {
    /// The platform's directory for the user's configuration.
    Platform(PathBuf),
    /// The platform names no such directory: this path instead, relative to
    /// where the program runs.
    Relative(String),
}

/// The place of the settings file, part by part: `file` in `folder` in `root`.
#[derive(Debug, PartialEq, Eq)]
pub struct SettingsLocation {
    pub root: ConfigRoot,
    pub folder: String,
    pub file: String,
}

/// The name of the settings folder.
pub open spec fn folder_name() -> Seq<char> {
    "illien"@
}

/// The name of the settings file.
pub open spec fn file_name() -> Seq<char> {
    "settings.json"@
}

/// What stands for the platform's directory where it names none.
pub open spec fn fallback_root() -> Seq<char> {
    "."@
}

impl SettingsLocation {
    /// The location is the one that belongs to what the platform reported.
    pub open spec fn is_for(self, found: Option<PathBuf>) -> bool {
        &&& match found {
            Some(path) => self.root == ConfigRoot::Platform(path),
            None => self.root matches ConfigRoot::Relative(text) && text@ == fallback_root(),
        }
        &&& self.folder@ == folder_name()
        &&& self.file@ == file_name()
    }
}

/// The place of the settings file, given the directory that the platform
/// reported for the user's configuration.
pub fn settings_location_under(found: Option<PathBuf>) -> (r: SettingsLocation)
    ensures
        r.is_for(found),
{
    let root = match found {
        Some(path) => ConfigRoot::Platform(path),
        None => ConfigRoot::Relative(String::from_str(".")),
    };
    SettingsLocation {
        root,
        folder: String::from_str("illien"),
        file: String::from_str("settings.json"),
    }
}

/// The place of the settings file on this machine. The folder and the file
/// are the same everywhere; the root is the platform's to say.
pub fn settings_location() -> (r: SettingsLocation)
    ensures
        r.folder@ == folder_name(),
        r.file@ == file_name(),
        r.root matches ConfigRoot::Relative(text) ==> text@ == fallback_root(),
{
    settings_location_under(dirs::config_dir())
}

} // verus!
