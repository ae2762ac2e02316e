use illien::{
    get_dark_mode, get_journal_directory, load_settings, save_settings, set_dark_mode,
    set_journal_directory, settings_location, settings_location_under, ConfigRoot,
    LoadSettingsAction, LoadSettingsEvent, SaveSettingsAction, SaveSettingsEvent, Settings,
    StoreError,
};
use std::path::PathBuf;

fn loaded(event: LoadSettingsEvent) -> Settings {
    match load_settings(event) {
        LoadSettingsAction::Finish(settings) => settings,
        other => panic!("loading went on: {:?}", other),
    }
}

#[test]
fn nothing_is_set_where_there_is_no_file() {
    let settings = loaded(LoadSettingsEvent::Probed(false));
    assert_eq!(settings, Settings::default());
    assert_eq!(get_dark_mode(&settings), None);
    assert_eq!(get_journal_directory(settings), None);
}

#[test]
fn default_settings_hold_nothing() {
    let settings = Settings::default();
    assert_eq!(settings.journal_directory, None);
    assert_eq!(settings.dark_mode, None);
}

#[test]
fn dark_mode_reads_as_it_was_set() {
    let saved = set_dark_mode(loaded(LoadSettingsEvent::Probed(false)), true);
    let read_back = loaded(LoadSettingsEvent::Parsed(Some(saved)));
    assert_eq!(get_dark_mode(&read_back), Some(true));
    assert_eq!(get_journal_directory(read_back.clone()), None);
    let saved = set_dark_mode(read_back, false);
    assert_eq!(get_dark_mode(&saved), Some(false));
}

#[test]
fn journal_directory_reads_as_it_was_set() {
    let saved = set_journal_directory(Settings::default(), "/home/alice/journal".to_string());
    let read_back = loaded(LoadSettingsEvent::Parsed(Some(saved)));
    assert_eq!(get_dark_mode(&read_back), None);
    assert_eq!(get_journal_directory(read_back), Some("/home/alice/journal".to_string()));
}

#[test]
fn setting_one_preference_keeps_the_other() {
    let both = Settings { journal_directory: Some("/j".to_string()), dark_mode: Some(true) };
    assert_eq!(
        set_dark_mode(both.clone(), false),
        Settings { journal_directory: Some("/j".to_string()), dark_mode: Some(false) }
    );
    assert_eq!(
        set_journal_directory(both, String::new()),
        Settings { journal_directory: Some(String::new()), dark_mode: Some(true) }
    );
}

#[test]
fn file_without_settings_counts_as_missing() {
    assert_eq!(loaded(LoadSettingsEvent::Parsed(None)), loaded(LoadSettingsEvent::Probed(false)));
    assert_eq!(loaded(LoadSettingsEvent::Read(None)), loaded(LoadSettingsEvent::Probed(false)));
    let settings = loaded(LoadSettingsEvent::Parsed(None));
    assert_eq!(get_dark_mode(&settings), None);
    assert_eq!(get_journal_directory(settings), None);
}

#[test]
fn loading_goes_from_file_to_text_to_settings() {
    assert_eq!(load_settings(LoadSettingsEvent::Probed(true)), LoadSettingsAction::ReadFile);
    assert_eq!(
        load_settings(LoadSettingsEvent::Read(Some("{}".to_string()))),
        LoadSettingsAction::Parse("{}".to_string())
    );
    let found = Settings { journal_directory: None, dark_mode: Some(false) };
    assert_eq!(
        load_settings(LoadSettingsEvent::Parsed(Some(found.clone()))),
        LoadSettingsAction::Finish(found)
    );
}

#[test]
fn saving_writes_the_stored_form_and_reports_what_failed() {
    assert_eq!(
        save_settings(SaveSettingsEvent::Serialized(Ok("{\n}".to_string()))),
        SaveSettingsAction::WriteFile("{\n}".to_string())
    );
    assert_eq!(
        save_settings(SaveSettingsEvent::Serialized(Err("key must be a string".to_string()))),
        SaveSettingsAction::Finish(Err(StoreError::SerializeFailed(
            "key must be a string".to_string()
        )))
    );
    assert_eq!(
        save_settings(SaveSettingsEvent::Written(Ok(()))),
        SaveSettingsAction::Finish(Ok(()))
    );
    assert_eq!(
        save_settings(SaveSettingsEvent::Written(Err("Read-only file system".to_string()))),
        SaveSettingsAction::Finish(Err(StoreError::WriteSettingsFailed(
            "Read-only file system".to_string()
        )))
    );
}

#[test]
fn settings_lie_under_the_platform_directory() {
    let location = settings_location_under(Some(PathBuf::from("/home/alice/.config")));
    assert_eq!(location.root, ConfigRoot::Platform(PathBuf::from("/home/alice/.config")));
    assert_eq!(location.folder, "illien");
    assert_eq!(location.file, "settings.json");
}

#[test]
fn settings_lie_where_the_program_runs_without_a_platform_directory() {
    let location = settings_location_under(None);
    assert_eq!(location.root, ConfigRoot::Relative(".".to_string()));
    assert_eq!(location.folder, "illien");
    assert_eq!(location.file, "settings.json");
}

#[test]
fn settings_location_on_this_machine() {
    let location = settings_location();
    assert_eq!(location.folder, "illien");
    assert_eq!(location.file, "settings.json");
    match location.root {
        ConfigRoot::Platform(_) => {}
        ConfigRoot::Relative(text) => assert_eq!(text, "."),
    }
}
