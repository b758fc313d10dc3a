use desktop_indicator::config::{HotKey, Settings};
use desktop_indicator::shortcuts::{
    focus_target, hotkey_actions, on_trigger, parse_hotkeys, Command, HotkeyAction, KeyLookup, ShortcutError,
    WindowCandidate,
};

fn hotkey(mods: &[&str], key: &str, target: u32) -> HotKey {
    HotKey {
        modifier_keys: mods.iter().map(|m| m.to_string()).collect(),
        trigger_key: key.to_string(),
        target_desktop_index: target,
    }
}

#[test]
fn parse_resolves_all_keys() {
    let h = hotkey(&["CTRL", "ALT"], "VK_1", 0);
    let parsed = h.parse(Some(49u16), &vec![Some(17u16), Some(18u16)]).unwrap();
    assert_eq!(parsed.trigger_key, 49);
    assert_eq!(parsed.modifier_keys, vec![17, 18]);
    assert_eq!(parsed.target_desktop_index, 0);
}

#[test]
fn parse_reports_unknown_trigger_first() {
    let h = hotkey(&["BOGUS"], "NOPE", 0);
    assert_eq!(
        h.parse::<u16>(None, &vec![None]),
        Err(ShortcutError::InvalidKey("NOPE".to_string()))
    );
}

#[test]
fn parse_reports_first_unknown_modifier() {
    let h = hotkey(&["CTRL", "BAD1", "BAD2"], "VK_1", 0);
    assert_eq!(
        h.parse(Some(49u16), &vec![Some(17u16), None, None]),
        Err(ShortcutError::InvalidKey("BAD1".to_string()))
    );
}

#[test]
fn actions_in_registration_order() {
    let s = Settings {
        default_icon_path: "default.ico".to_string(),
        desktop_name_to_icon_path: vec![],
        desktop_index_to_icon_path: vec![],
        switch_desktop_hotkeys: vec![hotkey(&["CTRL"], "VK_1", 0), hotkey(&["CTRL"], "VK_2", 1)],
        move_window_hotkeys: vec![hotkey(&["CTRL", "SHIFT"], "VK_3", 2)],
        follow_moved_windows: true,
    };
    assert_eq!(
        hotkey_actions(&s),
        vec![
            HotkeyAction::SwitchDesktop { target: 0 },
            HotkeyAction::SwitchDesktop { target: 1 },
            HotkeyAction::MoveWindow { target: 2, follow: true },
        ]
    );
}

#[test]
fn switch_out_of_range_issues_nothing() {
    // the list shrank to indices {0, 1}; the binding targets 2
    assert_eq!(on_trigger(HotkeyAction::SwitchDesktop { target: 2 }, 2, 0), vec![]);
    assert_eq!(on_trigger(HotkeyAction::SwitchDesktop { target: 7 }, 0, 0), vec![]);
}

#[test]
fn switch_in_range_switches() {
    assert_eq!(
        on_trigger(HotkeyAction::SwitchDesktop { target: 1 }, 2, 0),
        vec![Command::SwitchDesktop { desktop: 1 }]
    );
}

#[test]
fn move_with_follow_moves_and_switches() {
    assert_eq!(
        on_trigger(HotkeyAction::MoveWindow { target: 3, follow: true }, 4, 0xabc),
        vec![
            Command::MoveWindow { window: 0xabc, desktop: 3 },
            Command::SwitchDesktop { desktop: 3 },
        ]
    );
}

#[test]
fn move_without_follow_only_moves() {
    assert_eq!(
        on_trigger(HotkeyAction::MoveWindow { target: 3, follow: false }, 4, 0xabc),
        vec![Command::MoveWindow { window: 0xabc, desktop: 3 }]
    );
}

#[test]
fn move_out_of_range_issues_nothing() {
    assert_eq!(on_trigger(HotkeyAction::MoveWindow { target: 3, follow: true }, 3, 5), vec![]);
}

fn window(id: u64, x: i32, y: i32, full: bool, here: bool) -> WindowCandidate {
    WindowCandidate { id, x, y, is_full_screen: full, on_current_desktop: here }
}

#[test]
fn focus_skips_minimized_and_foreign_windows() {
    let windows = vec![
        window(1, -32000, -32000, false, true),
        window(2, 100, 100, false, false),
        window(3, 0, 50, false, true),
        window(4, 10, 20, false, true),
        window(5, 30, 40, false, true),
    ];
    assert_eq!(focus_target(&windows), Some(4));
}

#[test]
fn focus_accepts_full_screen_with_negative_origin() {
    let windows = vec![window(8, -8, -8, true, true), window(9, 10, 10, false, true)];
    assert_eq!(focus_target(&windows), Some(8));
}

#[test]
fn focus_without_candidates_is_none() {
    assert_eq!(focus_target(&vec![]), None);
    assert_eq!(focus_target(&vec![window(1, -1, 5, false, true)]), None);
}

#[test]
fn parse_hotkeys_all_valid() {
    let hotkeys = vec![hotkey(&["CTRL"], "VK_1", 0), hotkey(&[], "VK_2", 1)];
    let lookups = vec![
        KeyLookup { trigger: Some(49u16), modifiers: vec![Some(17u16)] },
        KeyLookup { trigger: Some(50u16), modifiers: vec![] },
    ];
    let parsed = parse_hotkeys(&hotkeys, &lookups).unwrap();
    assert_eq!(parsed.len(), 2);
    assert_eq!(parsed[0].trigger_key, 49);
    assert_eq!(parsed[0].modifier_keys, vec![17]);
    assert_eq!(parsed[1].trigger_key, 50);
    assert_eq!(parsed[1].target_desktop_index, 1);
}

#[test]
fn parse_hotkeys_fails_on_first_bad_entry() {
    let hotkeys = vec![
        hotkey(&["CTRL"], "VK_1", 0),
        hotkey(&["WHAT"], "VK_2", 1),
        hotkey(&["CTRL"], "HUH", 2),
    ];
    let lookups = vec![
        KeyLookup { trigger: Some(49u16), modifiers: vec![Some(17u16)] },
        KeyLookup { trigger: Some(50u16), modifiers: vec![None] },
        KeyLookup { trigger: None, modifiers: vec![Some(17u16)] },
    ];
    assert_eq!(
        parse_hotkeys(&hotkeys, &lookups),
        Err(ShortcutError::InvalidKey("WHAT".to_string()))
    );
}

#[test]
fn parse_hotkeys_empty_configuration() {
    let hotkeys: Vec<HotKey> = vec![];
    let lookups: Vec<KeyLookup<u16>> = vec![];
    assert_eq!(parse_hotkeys(&hotkeys, &lookups), Ok(vec![]));
}
