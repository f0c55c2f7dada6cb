//! The settings store: one settings value in memory, the directory it is
//! saved in, and the decisions taken when it is loaded, replaced and reset.
//!
//! The store never touches the disk. It is told what was found there when it
//! is made, it hands out a `SaveRequest` whenever the file has to be written,
//! and it turns the report of that write into the caller's result.

use vstd::prelude::*;
use vstd::string::*;
use crate::path::{join_dir, joined, Platform};
use crate::settings::{default_settings, AppSettings};

verus! {

/// The name of the settings file inside the data directory.
pub const SETTINGS_FILE: &'static str = "sea_lantern_settings.json";

/// What was found at the settings file's place when the store is made.
#[derive(Clone, Copy, Debug, PartialEq, Eq, Structural)]
pub enum StoredFile {
    /// There is no such file.
    Missing,
    /// The file is there but could not be read.
    Unreadable,
    /// The file was read, and its text is no settings value.
    Malformed,
    /// The file was read, and its text is this settings value.
    Parsed(AppSettings),
}

/// How the store came by its first value.
#[derive(Clone, Copy, Debug, PartialEq, Eq, Structural)]
pub enum LoadOutcome {
    Loaded,
    DefaultedDueToMissing,
    DefaultedDueToUnreadable,
    DefaultedDueToCorruption,
}

/// A request to write `settings`, as pretty-printed JSON, to the file `path`,
/// replacing whatever the file holds.
pub struct SaveRequest {
    pub path: String,
    pub settings: AppSettings,
}

/// What became of a `SaveRequest`.
pub enum SaveReport {
    /// The file now holds the settings.
    Saved,
    /// The settings could not be turned into text; the cause is given.
    SerializeFailed(String),
    /// The text could not be written; the cause is given.
    WriteFailed(String),
}

/// The value a store starts with, given what was found on disk: the parsed
/// value if there is one, the default in every other case.
pub open spec fn loaded_settings(found: StoredFile) -> AppSettings {
    match found {
        StoredFile::Parsed(s) => s,
        _ => default_settings(),
    }
}

/// How a store that found `found` on disk came by its value.
pub open spec fn loaded_outcome(found: StoredFile) -> LoadOutcome {
    match found {
        StoredFile::Missing => LoadOutcome::DefaultedDueToMissing,
        StoredFile::Unreadable => LoadOutcome::DefaultedDueToUnreadable,
        StoredFile::Malformed => LoadOutcome::DefaultedDueToCorruption,
        StoredFile::Parsed(_) => LoadOutcome::Loaded,
    }
}

/// The text of the error that a failed save is reported with; `None` when the
/// save succeeded.
pub open spec fn save_error(report: SaveReport) -> Option<Seq<char>> {
    match report {
        SaveReport::Saved => None,
        SaveReport::SerializeFailed(cause) => Some("Failed to serialize settings: "@ + cause@),
        SaveReport::WriteFailed(cause) => Some("Failed to save settings: "@ + cause@),
    }
}

/// Decides the value a store starts with, and records why. Loading never
/// fails: a missing, unreadable or malformed file gives the default.
pub fn load_settings(found: StoredFile) -> (r: (AppSettings, LoadOutcome))
    ensures
        r.0 == loaded_settings(found),
        r.1 == loaded_outcome(found),
{
    match found {
        StoredFile::Missing => (AppSettings::default(), LoadOutcome::DefaultedDueToMissing),
        StoredFile::Unreadable => (AppSettings::default(), LoadOutcome::DefaultedDueToUnreadable),
        StoredFile::Malformed => (AppSettings::default(), LoadOutcome::DefaultedDueToCorruption),
        StoredFile::Parsed(s) => (s, LoadOutcome::Loaded),
    }
}

/// Turns the report of a save into the caller's result: success, or the
/// message that says which step failed and why.
pub fn save_settings(report: SaveReport) -> (r: Result<(), String>)
    ensures
        r.is_ok() <==> report is Saved,
        match r {
            Ok(_) => save_error(report) is None,
            Err(message) => save_error(report) == Some(message@),
        },
{
    match report {
        SaveReport::Saved => Ok(()),
        SaveReport::SerializeFailed(cause) => {
            let mut message = String::from_str("Failed to serialize settings: ");
            message.append(cause.as_str());
            Err(message)
        },
        SaveReport::WriteFailed(cause) => {
            let mut message = String::from_str("Failed to save settings: ");
            message.append(cause.as_str());
            Err(message)
        },
    }
}

/// The settings store.
pub struct SettingsManager {
    /// The current settings.
    pub settings: AppSettings,
    /// The directory that holds the settings file.
    pub data_dir: String,
    /// The platform whose path conventions `data_dir` follows.
    pub platform: Platform,
    /// How the store came by its first value.
    pub load_outcome: LoadOutcome,
}

impl SettingsManager {
    /// The path of the settings file.
    pub open spec fn file_path(self) -> Seq<char> {
        joined(self.platform, self.data_dir@, SETTINGS_FILE@)
    }

    /// The store as it is after its value was replaced by `new_settings`.
    pub open spec fn replaced(self, new_settings: AppSettings) -> SettingsManager {
        SettingsManager {
            settings: new_settings,
            data_dir: self.data_dir,
            platform: self.platform,
            load_outcome: self.load_outcome,
        }
    }

    /// Whether `request` asks to write `settings` to this store's file.
    pub open spec fn requests_save(self, request: SaveRequest, settings: AppSettings) -> bool {
        request.path@ == self.file_path() && request.settings == settings
    }

    /// Makes the store for the directory `data_dir`, given what was found at
    /// the settings file's place. It never fails.
    pub fn new(platform: Platform, data_dir: String, found: StoredFile) -> (r: Self)
        ensures
            r.settings == loaded_settings(found),
            r.load_outcome == loaded_outcome(found),
            r.data_dir@ == data_dir@,
            r.platform == platform,
    {
        let (settings, load_outcome) = load_settings(found);
        SettingsManager { settings, data_dir, platform, load_outcome }
    }

    /// The path of the settings file: the file's name inside the data
    /// directory.
    pub fn settings_path(&self) -> (r: String)
        ensures
            r@ == self.file_path(),
    {
        join_dir(self.platform, self.data_dir.as_str(), SETTINGS_FILE)
    }

    /// The save that a fresh store owes: when no file was found, the default
    /// it started with is to be written; in every other case nothing is.
    pub fn initial_save(&self) -> (r: Option<SaveRequest>)
        ensures
            r.is_some() <==> self.load_outcome == LoadOutcome::DefaultedDueToMissing,
            r matches Some(request) ==> self.requests_save(request, self.settings),
    {
        match self.load_outcome {
            LoadOutcome::DefaultedDueToMissing => Some(
                SaveRequest { path: self.settings_path(), settings: self.settings },
            ),
            _ => None,
        }
    }

    /// A copy of the current settings.
    pub fn get(&self) -> (r: AppSettings)
        ensures
            r == self.settings,
    {
        self.settings
    }

    /// Replaces the current settings by `new_settings` and asks for them to
    /// be saved. The value in memory is replaced first, whatever becomes of
    /// the save.
    pub fn update(&mut self, new_settings: AppSettings) -> (r: SaveRequest)
        ensures
            *final(self) == old(self).replaced(new_settings),
            final(self).requests_save(r, new_settings),
    {
        self.settings = new_settings;
        SaveRequest { path: self.settings_path(), settings: new_settings }
    }

    /// Replaces the current settings by the default and asks for it to be
    /// saved.
    pub fn reset(&mut self) -> (r: SaveRequest)
        ensures
            *final(self) == old(self).replaced(default_settings()),
            final(self).requests_save(r, default_settings()),
    {
        let default = AppSettings::default();
        self.update(default)
    }

    /// The result of a reset whose save was reported as `report`: the
    /// default that was stored, or the save's error.
    pub fn reset_result(&self, report: SaveReport) -> (r: Result<AppSettings, String>)
        ensures
            r.is_ok() <==> report is Saved,
            match r {
                Ok(stored) => stored == self.settings,
                Err(message) => save_error(report) == Some(message@),
            },
    {
        match save_settings(report) {
            Ok(_) => Ok(self.settings),
            Err(message) => Err(message),
        }
    }
}

/// A file that is missing, unreadable or malformed never stops a store from
/// starting: it starts with the default settings, and only a missing file
/// leaves a save owing.
pub proof fn lemma_unusable_file_gives_default(found: StoredFile)
    requires
        !(found is Parsed),
    ensures
        loaded_settings(found) == default_settings(),
        loaded_outcome(found) != LoadOutcome::Loaded,
        loaded_outcome(found) == LoadOutcome::DefaultedDueToMissing <==> found is Missing,
{
}

/// After an update the store holds the new value, whatever it held before,
/// and a store that is later made from a file holding that value starts with
/// it.
pub proof fn lemma_update_is_kept(store: SettingsManager, new_settings: AppSettings)
    ensures
        store.replaced(new_settings).settings == new_settings,
        store.replaced(new_settings).file_path() == store.file_path(),
        loaded_settings(StoredFile::Parsed(new_settings)) == new_settings,
        loaded_outcome(StoredFile::Parsed(new_settings)) == LoadOutcome::Loaded,
{
}

/// A later update wins: only the last value replaced in is held.
pub proof fn lemma_last_update_wins(store: SettingsManager, first: AppSettings, second: AppSettings)
    ensures
        store.replaced(first).replaced(second) == store.replaced(second),
{
}

/// After a reset the store holds the default settings, as a store does that
/// was made where no file existed.
pub proof fn lemma_reset_gives_default(store: SettingsManager)
    ensures
        store.replaced(default_settings()).settings == default_settings(),
        store.replaced(default_settings()).settings == loaded_settings(StoredFile::Missing),
{
}

/// Every failed save is reported with a message that names the step that
/// failed and ends with the cause; a save that went through has no message.
pub proof fn lemma_save_error_names_step(report: SaveReport)
    ensures
        save_error(report) is None <==> report is Saved,
        report matches SaveReport::SerializeFailed(cause) ==> save_error(report)
            == Some("Failed to serialize settings: "@ + cause@),
        report matches SaveReport::WriteFailed(cause) ==> save_error(report)
            == Some("Failed to save settings: "@ + cause@),
        forall|a: String, b: String|
            save_error(SaveReport::SerializeFailed(a)) != save_error(SaveReport::WriteFailed(b)),
{
    reveal_strlit("Failed to serialize settings: ");
    reveal_strlit("Failed to save settings: ");
    assert forall|a: String, b: String|
        save_error(SaveReport::SerializeFailed(a)) != save_error(
            SaveReport::WriteFailed(b),
        ) by {
        let x = "Failed to serialize settings: "@ + a@;
        let y = "Failed to save settings: "@ + b@;
        assert(x[11] == 'e');
        assert(y[11] == 'a');
    }
}

} // verus!
