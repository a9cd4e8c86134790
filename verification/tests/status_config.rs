use hermes_tray::config::{config_location, default_language, Config, ConfigFile, FileLocation, PathBase, StoredConfig};
use hermes_tray::status::{cached_icon_for, connection_test, startup_tooltip, ConnectionStatus, StatusTracker};

#[test]
fn status_names() {
    assert_eq!(ConnectionStatus::Disconnected.as_str(), "disconnected");
    assert_eq!(ConnectionStatus::Idle.as_str(), "idle");
    assert_eq!(ConnectionStatus::Busy.as_str(), "busy");
}

#[test]
fn status_tooltips_and_colors() {
    assert_eq!(ConnectionStatus::Disconnected.tooltip(), "HermesTray — disconnected");
    assert_eq!(ConnectionStatus::Idle.tooltip(), "HermesTray — idle");
    assert_eq!(ConnectionStatus::Busy.tooltip(), "HermesTray — busy");
    assert_eq!(ConnectionStatus::Disconnected.color(), (160, 160, 160));
    assert_eq!(ConnectionStatus::Idle.color(), (80, 220, 100));
    assert_eq!(ConnectionStatus::Busy.color(), (255, 170, 50));
    assert_eq!(startup_tooltip(), "HermesTray — connecting...");
}

#[test]
fn cached_icons_round_trip() {
    for st in [ConnectionStatus::Disconnected, ConnectionStatus::Idle, ConnectionStatus::Busy] {
        let (r, g, b) = st.color();
        assert_eq!(cached_icon_for(r, g, b), Some(st));
    }
    assert_eq!(cached_icon_for(160, 160, 161), None);
    assert_eq!(cached_icon_for(0, 0, 0), None);
}

#[test]
fn connection_test_results() {
    assert_eq!(connection_test(ConnectionStatus::Disconnected), Err("Cannot reach Hermes API".to_string()));
    assert_eq!(connection_test(ConnectionStatus::Idle), Ok(ConnectionStatus::Idle));
    assert_eq!(connection_test(ConnectionStatus::Busy), Ok(ConnectionStatus::Busy));
}

#[test]
fn tracker_reports_changes_only() {
    let mut t = StatusTracker::new();
    assert_eq!(t.last(), None);
    assert!(t.observe(ConnectionStatus::Disconnected));
    assert!(!t.observe(ConnectionStatus::Disconnected));
    assert!(t.observe(ConnectionStatus::Idle));
    assert!(!t.observe(ConnectionStatus::Idle));
    assert!(t.observe(ConnectionStatus::Busy));
    assert_eq!(t.last(), Some(ConnectionStatus::Busy));
}

fn assert_default(c: &ConfigFile) {
    assert_eq!(c.api_url, "http://localhost:8642");
    assert_eq!(c.api_key, "");
    assert_eq!(c.poll_interval_secs, 3);
    assert_eq!(c.toggle_hotkey, "Alt+Space");
    assert_eq!(c.quick_input_hotkey, "Ctrl+Alt+Shift+C");
    assert_eq!(c.language, "en");
}

fn custom() -> ConfigFile {
    ConfigFile {
        api_url: "https://example.com/hermes".to_string(),
        api_key: "SECRET-REDACTED".to_string(),
        poll_interval_secs: 10,
        toggle_hotkey: "Ctrl+H".to_string(),
        quick_input_hotkey: "Ctrl+Alt+Shift+C".to_string(),
        language: "zh".to_string(),
    }
}

#[test]
fn defaults() {
    assert_default(&ConfigFile::default());
    assert_eq!(default_language(), "en");
}

#[test]
fn load_uses_stored_settings() {
    let (c, write) = ConfigFile::load(StoredConfig::Read(Some(custom())));
    assert!(!write);
    assert_eq!(c.api_url, "https://example.com/hermes");
    assert_eq!(c.poll_interval_secs, 10);
    assert_eq!(c.language, "zh");
}

#[test]
fn load_falls_back_to_defaults() {
    let (c, write) = ConfigFile::load(StoredConfig::Read(None));
    assert!(!write);
    assert_default(&c);
    let (c, write) = ConfigFile::load(StoredConfig::Unreadable);
    assert!(write);
    assert_default(&c);
}

#[test]
fn config_load_and_save() {
    let (cfg, write) = Config::load(StoredConfig::Unreadable);
    assert!(write);
    assert_default(&cfg.file);
    assert_default(cfg.save());
    let (cfg, write) = Config::load(StoredConfig::Read(Some(custom())));
    assert!(!write);
    assert_eq!(cfg.save().toggle_hotkey, "Ctrl+H");
    let (again, write) = Config::load(StoredConfig::Read(Some(cfg.save().clone())));
    assert!(!write);
    assert_eq!(again.file.api_key, cfg.file.api_key);
    assert_eq!(again.file.language, "zh");
}

#[test]
fn config_file_location() {
    let parts = vec!["HermesTray".to_string(), "config.json".to_string()];
    assert_eq!(config_location(true), FileLocation { base: PathBase::Home, components: parts.clone() });
    assert_eq!(config_location(false), FileLocation { base: PathBase::Given(".".to_string()), components: parts });
}
