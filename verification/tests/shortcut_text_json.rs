use hermes_tray::json::{Json, JsonNumber};
use hermes_tray::shortcut::{
    last_key_index, menu_action, parse_toggle_shortcut, quick_input_shortcut, registers_toggle, shortcut_action,
    toggle_window, tray_event_toggles, tray_menu, MenuAction, MenuLine, Modifiers,
    ShortcutAction, ToggleShortcut, TrayEvent, WindowAction,
};
use hermes_tray::text::{decimal_string, join_text, trim_end_char};

fn mods(alt: bool, control: bool, shift: bool, super_key: bool) -> Modifiers {
    Modifiers { alt, control, shift, super_key }
}

fn shortcut(m: Modifiers, keys: &[&str]) -> ToggleShortcut {
    ToggleShortcut { modifiers: m, keys: keys.iter().map(|k| k.to_string()).collect() }
}

#[test]
fn parse_default_toggle() {
    assert_eq!(parse_toggle_shortcut("Alt+Space"), shortcut(mods(true, false, false, false), &["Space"]));
}

#[test]
fn parse_many_modifiers() {
    assert_eq!(parse_toggle_shortcut("Ctrl+Alt+Shift+C"), shortcut(mods(true, true, true, false), &["C"]));
    assert_eq!(parse_toggle_shortcut("Control+Win+H"), shortcut(mods(false, true, false, true), &["H"]));
    assert_eq!(parse_toggle_shortcut("Cmd+Super+S"), shortcut(mods(false, false, false, true), &["S"]));
}

#[test]
fn parse_any_key() {
    assert_eq!(parse_toggle_shortcut("Alt+K"), shortcut(mods(true, false, false, false), &["K"]));
    assert_eq!(parse_toggle_shortcut("Alt+F1"), shortcut(mods(true, false, false, false), &["F1"]));
    assert_eq!(parse_toggle_shortcut("Shift+Enter"), shortcut(mods(false, false, true, false), &["Enter"]));
}

#[test]
fn parse_order_and_last_key() {
    assert_eq!(parse_toggle_shortcut("Space+Alt"), parse_toggle_shortcut("Alt+Space"));
    assert_eq!(parse_toggle_shortcut("H+S"), shortcut(mods(false, false, false, false), &["H", "S"]));
    assert_eq!(parse_toggle_shortcut("Alt+H+Q"), shortcut(mods(true, false, false, false), &["H", "Q"]));
}

#[test]
fn parse_edge_cases() {
    assert_eq!(parse_toggle_shortcut(""), shortcut(mods(false, false, false, false), &[]));
    assert_eq!(parse_toggle_shortcut("Alt+Ctrl"), shortcut(mods(true, true, false, false), &[]));
    assert_eq!(parse_toggle_shortcut("Alt++Space+"), shortcut(mods(true, false, false, false), &["Space"]));
    assert_eq!(parse_toggle_shortcut(" Alt+Space"), shortcut(mods(false, false, false, false), &[" Alt", "Space"]));
    assert_eq!(parse_toggle_shortcut("alt+space"), shortcut(mods(false, false, false, false), &["alt", "space"]));
}

#[test]
fn last_known_key_wins() {
    assert_eq!(last_key_index(&vec![]), None);
    assert_eq!(last_key_index(&vec![false, false]), None);
    assert_eq!(last_key_index(&vec![true, false]), Some(0));
    assert_eq!(last_key_index(&vec![true, true, false]), Some(1));
    assert_eq!(last_key_index(&vec![false, true]), Some(1));
}

#[test]
fn registration_and_actions() {
    assert!(registers_toggle("Alt+Space"));
    assert!(!registers_toggle(""));
    assert_eq!(shortcut_action(false, true, true), ShortcutAction::Ignore);
    assert_eq!(shortcut_action(true, true, true), ShortcutAction::ToggleWindow);
    assert_eq!(shortcut_action(true, false, true), ShortcutAction::QuickInput);
    assert_eq!(shortcut_action(true, false, false), ShortcutAction::Ignore);
    assert_eq!(quick_input_shortcut(), (mods(true, true, true, false), "C".to_string()));
}

#[test]
fn window_and_tray_clicks() {
    assert_eq!(toggle_window(true), WindowAction::Hide);
    assert_eq!(toggle_window(false), WindowAction::ShowAndFocus);
    assert!(tray_event_toggles(TrayEvent::DoubleClick));
    assert!(tray_event_toggles(TrayEvent::Click { left_button: true, released: true }));
    assert!(!tray_event_toggles(TrayEvent::Click { left_button: true, released: false }));
    assert!(!tray_event_toggles(TrayEvent::Click { left_button: false, released: true }));
    assert!(!tray_event_toggles(TrayEvent::Other));
}

#[test]
fn menu() {
    assert_eq!(menu_action("show"), MenuAction::ShowWindow);
    assert_eq!(menu_action("settings"), MenuAction::OpenSettings);
    assert_eq!(menu_action("quit"), MenuAction::Quit);
    assert_eq!(menu_action("Quit"), MenuAction::Nothing);
    let lines = tray_menu();
    assert_eq!(lines.len(), 4);
    let ids: Vec<Option<(String, String, Option<String>)>> = lines
        .iter()
        .map(|l| match l {
            MenuLine::Item(it) => Some((it.id.clone(), it.label.clone(), it.accelerator.clone())),
            MenuLine::Separator => None,
        })
        .collect();
    assert_eq!(ids[0], Some(("show".to_string(), "Open Window".to_string(), Some("Alt+Space".to_string()))));
    assert_eq!(ids[1], Some(("settings".to_string(), "Settings...".to_string(), None)));
    assert_eq!(ids[2], None);
    assert_eq!(ids[3], Some(("quit".to_string(), "Quit".to_string(), Some("CmdOrCtrl+Q".to_string()))));
    for (id, _, _) in ids.into_iter().flatten() {
        assert_ne!(menu_action(&id), MenuAction::Nothing);
    }
}

#[test]
fn text_helpers() {
    assert_eq!(decimal_string(0), "0");
    assert_eq!(decimal_string(7), "7");
    assert_eq!(decimal_string(10), "10");
    assert_eq!(decimal_string(404), "404");
    assert_eq!(decimal_string(u64::MAX), u64::MAX.to_string());
    assert_eq!(trim_end_char("a//", '/'), "a");
    assert_eq!(trim_end_char("/a/b", '/'), "/a/b");
    assert_eq!(trim_end_char("héé", 'é'), "h");
    assert_eq!(join_text("ab", "cd"), "abcd");
    let once = trim_end_char("http://h:1///", '/');
    assert_eq!(trim_end_char(once, '/'), once);
    assert!(!once.ends_with('/'));
}

#[test]
fn json_reads() {
    let j = Json::Object(vec![
        (
            "a".to_string(),
            Json::Array(vec![Json::Bool(true), Json::Null, Json::Str("x".to_string()), Json::Number(JsonNumber::NegInt(-5))]),
        ),
        ("b".to_string(), Json::Number(JsonNumber::PosInt(1))),
    ]);
    assert_eq!(j.get("b").and_then(|v| v.as_u64()), Some(1));
    assert_eq!(j.get("c"), None);
    assert_eq!(j.get("a").and_then(|v| v.as_array()).map(|v| v.len()), Some(4));
    assert_eq!(j.get("a").and_then(|v| v.as_u64()), None);
    assert_eq!(Json::Bool(true).as_bool(), Some(true));
    assert_eq!(Json::Number(JsonNumber::NegInt(-1)).as_u64(), None);
    assert_eq!(Json::Number(JsonNumber::Float("2.0".to_string())).as_u64(), None);
    assert_eq!(Json::Null.as_str(), None);
    assert_eq!(Json::Str("q".to_string()).as_str(), Some(&"q".to_string()));
    assert_eq!(Json::Null.get("a"), None);
}
