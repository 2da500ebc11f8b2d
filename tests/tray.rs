use tray_menu::controller::{dispatch, tray_icon_click, Action, MouseButton, Registration, TrayState};
use tray_menu::events::{PinnedFromTrayEvent, PinnedFromWindowEvent};
use tray_menu::menu::{build_menu, EntryId, HotkeyConfig, Label, Menu, MenuEntry};

fn item(id: EntryId, label: Label, accelerator: Option<&str>) -> MenuEntry {
    MenuEntry::Item {
        id,
        label,
        accelerator: accelerator.map(|a| a.to_string()),
        enabled: true,
    }
}

fn no_hotkeys() -> HotkeyConfig {
    HotkeyConfig::new(None, None)
}

fn label_of(menu: &Menu, id: EntryId) -> Label {
    for e in &menu.entries {
        if let MenuEntry::Item { id: x, label, .. } = e {
            if *x == id {
                return *label;
            }
        }
    }
    panic!("no entry {:?}", id);
}

#[test]
fn initial_menu_layout() {
    let menu = build_menu(&no_hotkeys(), false, &None::<Option<String>>);
    let expected = vec![
        item(EntryId::CheckForUpdates, Label::CheckForUpdates, None),
        MenuEntry::Separator,
        item(EntryId::Settings, Label::Settings, Some("CmdOrCtrl+,")),
        item(EntryId::Ocr, Label::Ocr, None),
        item(EntryId::Show, Label::Show, None),
        item(EntryId::Hide, Label::Hide, None),
        item(EntryId::Pin, Label::Pin, None),
        MenuEntry::Separator,
        item(EntryId::Quit, Label::Quit, None),
    ];
    assert_eq!(menu.entries, expected);
    assert_eq!(Label::CheckForUpdates.fallback_text(), "Check for Updates...");
    assert_eq!(Label::Pin.fallback_text(), "Pin");
}

#[test]
fn menu_carries_configured_hotkeys() {
    let config = HotkeyConfig::new(Some("Alt+O".to_string()), Some("Alt+S".to_string()));
    let menu = build_menu(&config, false, &None::<Option<String>>);
    assert_eq!(menu.entries[3], item(EntryId::Ocr, Label::Ocr, Some("Alt+O")));
    assert_eq!(menu.entries[4], item(EntryId::Show, Label::Show, Some("Alt+S")));
}

#[test]
fn pin_label_follows_always_on_top() {
    let off = build_menu(&no_hotkeys(), false, &None::<Option<String>>);
    let on = build_menu(&no_hotkeys(), true, &None::<Option<String>>);
    assert_eq!(label_of(&off, EntryId::Pin), Label::Pin);
    assert_eq!(label_of(&on, EntryId::Pin), Label::Unpin);
    assert_eq!(Label::Unpin.fallback_text(), "Unpin");
}

#[test]
fn update_label_follows_pending_update() {
    let absent = build_menu(&no_hotkeys(), false, &None::<Option<String>>);
    let none = build_menu(&no_hotkeys(), false, &Some(None::<String>));
    let some = build_menu(&no_hotkeys(), false, &Some(Some("2.0.0".to_string())));
    assert_eq!(label_of(&absent, EntryId::CheckForUpdates), Label::CheckForUpdates);
    assert_eq!(label_of(&none, EntryId::CheckForUpdates), Label::CheckForUpdates);
    assert_eq!(label_of(&some, EntryId::CheckForUpdates), Label::NewVersionAvailable);
}

#[test]
fn rebuild_twice_attaches_handlers_once() {
    let mut state = TrayState::new(false);
    let first = state.rebuild(&no_hotkeys(), &None::<Option<String>>);
    let second = state.rebuild(&no_hotkeys(), &None::<Option<String>>);
    assert!(first.attach_handlers);
    assert!(!second.attach_handlers);
    assert_eq!(first.menu, second.menu);
    assert_eq!(state.registration, Registration::Registered);
}

#[test]
fn unknown_id_dispatches_nothing() {
    assert_eq!(dispatch("unknown"), None);
    assert_eq!(dispatch(""), None);
    assert_eq!(dispatch("Pin"), None);
    assert_eq!(dispatch("pinned"), None);
}

#[test]
fn known_ids_dispatch_their_actions() {
    assert_eq!(dispatch("check_for_updates"), Some(Action::ShowUpdater));
    assert_eq!(dispatch("settings"), Some(Action::ShowSettings));
    assert_eq!(dispatch("ocr"), Some(Action::Ocr));
    assert_eq!(dispatch("show"), Some(Action::ShowMainWindow));
    assert_eq!(dispatch("pin"), Some(Action::TogglePin));
    assert_eq!(dispatch("quit"), Some(Action::Exit(0)));
    assert_eq!(dispatch("hide"), None);
}

#[test]
fn left_click_shows_main_window() {
    assert_eq!(tray_icon_click(MouseButton::Left), Some(Action::ShowMainWindow));
    assert_eq!(tray_icon_click(MouseButton::Right), None);
    assert_eq!(tray_icon_click(MouseButton::Middle), None);
}

#[test]
fn pin_toggles_publishes_and_relabels() {
    let mut state = TrayState::new(false);
    let (event, rebuilt) = state.toggle_pin(&no_hotkeys(), &None::<Option<String>>);
    assert!(state.always_on_top);
    assert!(*event.pinned());
    assert_eq!(label_of(&rebuilt.menu, EntryId::Pin), Label::Unpin);
    assert!(rebuilt.attach_handlers);
    let (event, rebuilt) = state.toggle_pin(&no_hotkeys(), &None::<Option<String>>);
    assert!(!state.always_on_top);
    assert!(!*event.pinned());
    assert_eq!(label_of(&rebuilt.menu, EntryId::Pin), Label::Pin);
    assert!(!rebuilt.attach_handlers);
}

#[test]
fn pinned_from_window_updates_flag() {
    let mut state = TrayState::new(false);
    let event = PinnedFromWindowEvent::new(true);
    assert!(*event.pinned());
    let rebuilt = state.pinned_from_window(&event, &no_hotkeys(), &None::<Option<String>>);
    assert!(state.always_on_top);
    assert_eq!(label_of(&rebuilt.menu, EntryId::Pin), Label::Unpin);
    assert!(*PinnedFromTrayEvent::new(true).pinned());
}

#[test]
fn rebind_ocr_patches_only_that_entry() {
    let mut menu = build_menu(&no_hotkeys(), false, &None::<Option<String>>);
    let before = menu.clone();
    let found = menu.rebind_hotkey("ocr", Some("Ctrl+Shift+O".to_string()));
    assert!(found);
    assert_eq!(menu.entries.len(), before.entries.len());
    for i in 0..menu.entries.len() {
        if i == 3 {
            assert_eq!(
                menu.entries[i],
                item(EntryId::Ocr, Label::Ocr, Some("Ctrl+Shift+O"))
            );
        } else {
            assert_eq!(menu.entries[i], before.entries[i]);
        }
    }
}

#[test]
fn rebind_unknown_id_is_noop() {
    let mut menu = build_menu(&no_hotkeys(), false, &None::<Option<String>>);
    let before = menu.clone();
    let found = menu.rebind_hotkey("translate", Some("Ctrl+T".to_string()));
    assert!(!found);
    assert_eq!(menu, before);
}

#[test]
fn rebind_can_clear_accelerator() {
    let config = HotkeyConfig::new(None, Some("Alt+S".to_string()));
    let mut menu = build_menu(&config, false, &None::<Option<String>>);
    assert!(menu.rebind_hotkey("show", None));
    assert_eq!(menu.entries[4], item(EntryId::Show, Label::Show, None));
}

#[test]
fn full_rebuild_on_hotkey_rebind_matches_patch() {
    let mut state = TrayState::new(true);
    let mut config = no_hotkeys();
    let mut patched = build_menu(&config, true, &None::<Option<String>>);
    patched.rebind_hotkey("ocr", Some("Ctrl+Shift+O".to_string()));
    let rebuilt = state.hotkey_rebind(
        &mut config,
        "ocr",
        Some("Ctrl+Shift+O".to_string()),
        &None::<Option<String>>,
    );
    assert_eq!(config.ocr_hotkey, Some("Ctrl+Shift+O".to_string()));
    assert_eq!(config.display_window_hotkey, None);
    assert_eq!(rebuilt.menu, patched);
}

#[test]
fn set_hotkey_ignores_other_ids() {
    let mut config = no_hotkeys();
    assert!(!config.set_hotkey("pin", Some("Ctrl+P".to_string())));
    assert_eq!(config, no_hotkeys());
    assert!(config.set_hotkey("show", Some("Ctrl+W".to_string())));
    assert_eq!(config.display_window_hotkey, Some("Ctrl+W".to_string()));
}

#[test]
fn entry_names_round_trip() {
    let ids = [
        EntryId::CheckForUpdates,
        EntryId::Settings,
        EntryId::Ocr,
        EntryId::Show,
        EntryId::Hide,
        EntryId::Pin,
        EntryId::Quit,
    ];
    for id in ids {
        assert_eq!(EntryId::parse(id.name()), Some(id));
    }
    assert_eq!(EntryId::CheckForUpdates.name(), "check_for_updates");
    assert_eq!(EntryId::parse("ocr "), None);
}

#[test]
fn label_keys() {
    assert_eq!(Label::Ocr.key(), "OCR");
    assert_eq!(Label::NewVersionAvailable.key(), "NewVersionAvailable");
    assert_eq!(Label::Unpin.key(), "Unpin");
}
