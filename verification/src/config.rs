//! The settings the user edits, and how they are taken from the config file.

use vstd::prelude::*;

verus! {

/// The persisted settings.
#[derive(Debug)]
pub struct ConfigFile {
    pub api_url: String,
    pub api_key: String,
    pub poll_interval_secs: u64,
    pub toggle_hotkey: String,
    pub quick_input_hotkey: String,
    pub language: String,
}

impl Clone for ConfigFile {
    fn clone(&self) -> (r: Self)
        ensures
            r == *self,
    {
        ConfigFile {
            api_url: self.api_url.clone(),
            api_key: self.api_key.clone(),
            poll_interval_secs: self.poll_interval_secs,
            toggle_hotkey: self.toggle_hotkey.clone(),
            quick_input_hotkey: self.quick_input_hotkey.clone(),
            language: self.language.clone(),
        }
    }
}

/// The language of a config file that names none: English.
pub fn default_language() -> (r: String)
    ensures
        r@ == "en"@,
{
    "en".to_owned()
}

impl ConfigFile {
    /// The settings of a fresh install: the local agent on port 8642, no
    /// key, a poll every 3 seconds, Alt+Space to toggle the window,
    /// Ctrl+Alt+Shift+C for quick input, English.
    pub open spec fn is_default(self) -> bool {
        &&& self.api_url@ == "http://localhost:8642"@
        &&& self.api_key@ == ""@
        &&& self.poll_interval_secs == 3
        &&& self.toggle_hotkey@ == "Alt+Space"@
        &&& self.quick_input_hotkey@ == "Ctrl+Alt+Shift+C"@
        &&& self.language@ == "en"@
    }
}

impl Default for ConfigFile {
    fn default() -> (r: Self)
        ensures
            r.is_default(),
    {
        ConfigFile {
            api_url: "http://localhost:8642".to_owned(),
            api_key: "".to_owned(),
            poll_interval_secs: 3,
            toggle_hotkey: "Alt+Space".to_owned(),
            quick_input_hotkey: "Ctrl+Alt+Shift+C".to_owned(),
            language: default_language(),
        }
    }
}

/// Where a file path starts: the user's home directory, or a given path.
#[derive(Debug, PartialEq, Eq)]
pub enum PathBase {
    Home,
    Given(String),
}

/// A file path: its start, then the names joined onto it in order.
#[derive(Debug, PartialEq, Eq)]
pub struct FileLocation {
    pub base: PathBase,
    pub components: Vec<String>,
}

/// The config file is `HermesTray/config.json` under the home directory, or
/// under `.` where the home directory is not known.
pub open spec fn is_config_location(loc: FileLocation, home_known: bool) -> bool {
    &&& if home_known {
        loc.base is Home
    } else {
        loc.base matches PathBase::Given(p) && p@ == "."@
    }
    &&& loc.components@.len() == 2
    &&& loc.components@[0]@ == "HermesTray"@
    &&& loc.components@[1]@ == "config.json"@
}

/// Where the config file lives, given whether the home directory is known.
pub fn config_location(home_known: bool) -> (r: FileLocation)
    ensures
        is_config_location(r, home_known),
{
    let base = if home_known {
        PathBase::Home
    } else {
        PathBase::Given(".".to_owned())
    };
    let mut components: Vec<String> = Vec::new();
    components.push("HermesTray".to_owned());
    components.push("config.json".to_owned());
    FileLocation { base, components }
}

/// What reading the config file gave: no file content at all, or the
/// content, decoded into settings where it is a valid config document.
#[derive(Debug)]
pub enum StoredConfig {
    Unreadable,
    Read(Option<ConfigFile>),
}

/// Whether `(cfg, write_back)` is what loading gives from `stored`: the
/// stored settings where the file holds valid ones, else the defaults; the
/// defaults are written back only where the file could not be read.
pub open spec fn loaded(stored: StoredConfig, cfg: ConfigFile, write_back: bool) -> bool {
    match stored {
        StoredConfig::Read(Some(c)) => cfg == c && !write_back,
        StoredConfig::Read(None) => cfg.is_default() && !write_back,
        StoredConfig::Unreadable => cfg.is_default() && write_back,
    }
}

impl ConfigFile {
    /// The settings to start with, and whether they must be written to the
    /// config file.
    pub fn load(stored: StoredConfig) -> (r: (ConfigFile, bool))
        ensures
            loaded(stored, r.0, r.1),
    {
        match stored {
            StoredConfig::Read(Some(c)) => (c, false),
            StoredConfig::Read(None) => (ConfigFile::default(), false),
            StoredConfig::Unreadable => (ConfigFile::default(), true),
        }
    }
}

/// What saving writes, loading reads back: settings read from the config
/// file are used exactly as they were written, and nothing is written back.
pub proof fn lemma_saved_settings_reload(saved: ConfigFile, cfg: ConfigFile, write_back: bool)
    requires
        loaded(StoredConfig::Read(Some(saved)), cfg, write_back),
    ensures
        cfg == saved,
        !write_back,
{
}

/// Whatever the config file held, loading gives either the settings it held
/// or the defaults.
pub proof fn lemma_load_total(stored: StoredConfig, cfg: ConfigFile, write_back: bool)
    requires
        loaded(stored, cfg, write_back),
    ensures
        cfg.is_default() || stored == StoredConfig::Read(Some(cfg)),
{
}

/// The settings in use while the application runs.
#[derive(Debug)]
pub struct Config {
    pub file: ConfigFile,
}

impl Config {
    /// The settings to run with, taken from what reading the config file gave,
    /// and whether they must be written to the file.
    pub fn load(stored: StoredConfig) -> (r: (Config, bool))
        ensures
            loaded(stored, r.0.file, r.1),
    {
        let (file, write_back) = ConfigFile::load(stored);
        (Config { file }, write_back)
    }

    /// The settings that saving writes to the config file: those in use.
    pub fn save(&self) -> (r: &ConfigFile)
        ensures
            *r == self.file,
    {
        &self.file
    }
}

} // verus!
