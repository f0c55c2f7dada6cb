use settings_store::path::Platform;
use settings_store::settings::AppSettings;
use settings_store::settings_manager::{
    load_settings, save_settings, LoadOutcome, SaveReport, SettingsManager, StoredFile, SETTINGS_FILE,
};

fn custom() -> AppSettings {
    AppSettings {
        close_servers_on_exit: false,
        auto_accept_eula: true,
        default_max_memory: 8192,
        default_min_memory: 1024,
        default_port: 25570,
        console_font_size: 16,
        max_log_lines: 200,
    }
}

fn store(found: StoredFile) -> SettingsManager {
    SettingsManager::new(Platform::Linux, "/home/alice/.local/share/sea-lantern".to_string(), found)
}

#[test]
fn default_settings_have_the_documented_values() {
    let d = AppSettings::default();
    assert!(d.close_servers_on_exit);
    assert!(!d.auto_accept_eula);
    assert_eq!(d.default_max_memory, 2048);
    assert_eq!(d.default_min_memory, 512);
    assert_eq!(d.default_port, 25565);
    assert_eq!(d.console_font_size, 13);
    assert_eq!(d.max_log_lines, 5000);
}

#[test]
fn settings_file_has_its_fixed_name() {
    assert_eq!(SETTINGS_FILE, "sea_lantern_settings.json");
}

#[test]
fn missing_file_gives_default_and_owes_a_save() {
    let s = store(StoredFile::Missing);
    assert_eq!(s.get(), AppSettings::default());
    assert_eq!(s.load_outcome, LoadOutcome::DefaultedDueToMissing);
    let request = s.initial_save().expect("a save is owed");
    assert_eq!(request.path, "/home/alice/.local/share/sea-lantern/sea_lantern_settings.json");
    assert_eq!(request.settings, AppSettings::default());
}

#[test]
fn malformed_file_gives_default_and_owes_nothing() {
    let s = store(StoredFile::Malformed);
    assert_eq!(s.get(), AppSettings::default());
    assert_eq!(s.load_outcome, LoadOutcome::DefaultedDueToCorruption);
    assert!(s.initial_save().is_none());
}

#[test]
fn unreadable_file_gives_default_and_owes_nothing() {
    let s = store(StoredFile::Unreadable);
    assert_eq!(s.get(), AppSettings::default());
    assert_eq!(s.load_outcome, LoadOutcome::DefaultedDueToUnreadable);
    assert!(s.initial_save().is_none());
}

#[test]
fn parsed_file_is_adopted() {
    let s = store(StoredFile::Parsed(custom()));
    assert_eq!(s.get(), custom());
    assert_eq!(s.load_outcome, LoadOutcome::Loaded);
    assert!(s.initial_save().is_none());
    assert_eq!(s.data_dir, "/home/alice/.local/share/sea-lantern");
    assert_eq!(s.platform, Platform::Linux);
}

#[test]
fn load_settings_decides_value_and_outcome() {
    assert_eq!(load_settings(StoredFile::Missing), (AppSettings::default(), LoadOutcome::DefaultedDueToMissing));
    assert_eq!(load_settings(StoredFile::Unreadable), (AppSettings::default(), LoadOutcome::DefaultedDueToUnreadable));
    assert_eq!(load_settings(StoredFile::Malformed), (AppSettings::default(), LoadOutcome::DefaultedDueToCorruption));
    assert_eq!(load_settings(StoredFile::Parsed(custom())), (custom(), LoadOutcome::Loaded));
}

#[test]
fn update_replaces_the_value_and_asks_for_a_save() {
    let mut s = store(StoredFile::Missing);
    let request = s.update(custom());
    assert_eq!(s.get(), custom());
    assert_eq!(request.settings, custom());
    assert_eq!(request.path, "/home/alice/.local/share/sea-lantern/sea_lantern_settings.json");
    assert_eq!(s.data_dir, "/home/alice/.local/share/sea-lantern");
    assert_eq!(s.load_outcome, LoadOutcome::DefaultedDueToMissing);
}

#[test]
fn update_is_kept_by_a_store_made_from_the_saved_value() {
    let mut s = store(StoredFile::Missing);
    let request = s.update(custom());
    let again = store(StoredFile::Parsed(request.settings));
    assert_eq!(again.get(), custom());
}

#[test]
fn update_holds_in_memory_even_when_the_save_fails() {
    let mut s = store(StoredFile::Parsed(AppSettings::default()));
    let _request = s.update(custom());
    let result = save_settings(SaveReport::WriteFailed("disk full".to_string()));
    assert_eq!(result, Err("Failed to save settings: disk full".to_string()));
    assert_eq!(s.get(), custom());
}

#[test]
fn last_update_wins() {
    let mut s = store(StoredFile::Missing);
    let mut other = custom();
    other.default_port = 1;
    s.update(other);
    s.update(custom());
    assert_eq!(s.get(), custom());
}

#[test]
fn reset_restores_the_default_and_asks_for_a_save() {
    let mut s = store(StoredFile::Parsed(custom()));
    let request = s.reset();
    assert_eq!(s.get(), AppSettings::default());
    assert_eq!(request.settings, AppSettings::default());
    assert_eq!(request.path, "/home/alice/.local/share/sea-lantern/sea_lantern_settings.json");
    assert_eq!(s.reset_result(SaveReport::Saved), Ok(AppSettings::default()));
}

#[test]
fn reset_reports_a_failed_save() {
    let mut s = store(StoredFile::Parsed(custom()));
    s.reset();
    assert_eq!(
        s.reset_result(SaveReport::SerializeFailed("bad value".to_string())),
        Err("Failed to serialize settings: bad value".to_string())
    );
    assert_eq!(
        s.reset_result(SaveReport::WriteFailed("denied".to_string())),
        Err("Failed to save settings: denied".to_string())
    );
    assert_eq!(s.get(), AppSettings::default());
}

#[test]
fn get_returns_a_copy() {
    let s = store(StoredFile::Parsed(custom()));
    let mut mine = s.get();
    mine.default_port = 1;
    mine.close_servers_on_exit = true;
    assert_eq!(s.get(), custom());
    assert_ne!(s.get(), mine);
}

#[test]
fn save_results_name_the_failed_step() {
    assert_eq!(save_settings(SaveReport::Saved), Ok(()));
    assert_eq!(
        save_settings(SaveReport::SerializeFailed("key must be a string".to_string())),
        Err("Failed to serialize settings: key must be a string".to_string())
    );
    assert_eq!(
        save_settings(SaveReport::WriteFailed("No such file or directory (os error 2)".to_string())),
        Err("Failed to save settings: No such file or directory (os error 2)".to_string())
    );
    assert_eq!(save_settings(SaveReport::WriteFailed(String::new())), Err("Failed to save settings: ".to_string()));
}

#[test]
fn settings_path_follows_the_platform() {
    let linux = SettingsManager::new(Platform::Linux, "/d/".to_string(), StoredFile::Missing);
    assert_eq!(linux.settings_path(), "/d/sea_lantern_settings.json");
    let windows = SettingsManager::new(
        Platform::Windows,
        "C:\\Users\\Alice\\AppData\\Roaming\\Sea Lantern".to_string(),
        StoredFile::Missing,
    );
    assert_eq!(
        windows.settings_path(),
        "C:\\Users\\Alice\\AppData\\Roaming\\Sea Lantern\\sea_lantern_settings.json"
    );
    let here = SettingsManager::new(Platform::Other, ".".to_string(), StoredFile::Missing);
    assert_eq!(here.settings_path(), "./sea_lantern_settings.json");
}
