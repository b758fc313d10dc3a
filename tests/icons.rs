use desktop_indicator::config::Settings;
use desktop_indicator::desktop::DesktopInfo;
use desktop_indicator::icon::IconSelector;
use desktop_indicator::shortcuts::{on_trigger, HotkeyAction};

fn settings() -> Settings {
    Settings {
        default_icon_path: "default.ico".to_string(),
        desktop_name_to_icon_path: vec![("mail".to_string(), "mail.ico".to_string())],
        desktop_index_to_icon_path: vec![(2, "work.ico".to_string())],
        switch_desktop_hotkeys: vec![],
        move_window_hotkeys: vec![],
        follow_moved_windows: false,
    }
}

fn info(name: &str, index: u32) -> DesktopInfo {
    DesktopInfo::new(name.to_string(), index)
}

#[test]
fn configured_paths_by_name_then_index() {
    let s = settings();
    let sel: IconSelector<&str> = IconSelector::new(s, Some("D"));
    let desktops = vec![info("main", 0), info("mail", 1), info("third", 2), info("mail", 2)];
    let paths = sel.icon_paths(&desktops);
    assert_eq!(
        paths,
        vec![
            None,
            Some("mail.ico".to_string()),
            Some("work.ico".to_string()),
            Some("mail.ico".to_string()),
        ]
    );
}

#[test]
fn path_for_prefers_name_entry() {
    let s = settings();
    assert_eq!(s.path_for(&"mail".to_string(), 2), Some("mail.ico".to_string()));
    assert_eq!(s.path_for(&"other".to_string(), 2), Some("work.ico".to_string()));
    assert_eq!(s.path_for(&"other".to_string(), 0), None);
}

#[test]
fn resolution_order_name_index_default() {
    let mut sel: IconSelector<&str> = IconSelector::new(settings(), Some("D"));
    sel.build_icons(
        vec![info("main", 0), info("mail", 1), info("work", 2)],
        vec![None, Some("M"), Some("W")],
    );
    // name match wins over the index given
    assert_eq!(sel.select(&info("mail", 2)), Some(&"M"));
    // no name match: the index decides
    assert_eq!(sel.select(&info("renamed", 2)), Some(&"W"));
    // neither: the default
    assert_eq!(sel.select(&info("main", 0)), Some(&"D"));
    assert_eq!(sel.get_by_name("main"), None);
    assert_eq!(sel.get_by_index(0), None);
    assert_eq!(sel.get_by_index(1), Some(&"M"));
    assert_eq!(sel.get_default(), Some(&"D"));
}

#[test]
fn missing_default_is_visible_at_construction() {
    let sel: IconSelector<&str> = IconSelector::new(settings(), None);
    assert_eq!(sel.get_default(), None);
    assert_eq!(sel.select(&info("main", 0)), None);
}

#[test]
fn rebuild_drops_desktops_that_are_gone() {
    let mut sel: IconSelector<&str> = IconSelector::new(settings(), Some("D"));
    sel.build_icons(vec![info("main", 0), info("work", 2)], vec![None, Some("W")]);
    assert_eq!(sel.get_by_index(2), Some(&"W"));
    sel.build_icons(vec![info("main", 0), info("mail", 1)], vec![None, Some("M")]);
    assert_eq!(sel.get_by_index(2), None);
    assert_eq!(sel.get_by_name("mail"), Some(&"M"));
    assert_eq!(sel.select(&info("gone", 2)), Some(&"D"));
}

#[test]
fn empty_desktop_list_falls_back_to_default() {
    let mut sel: IconSelector<&str> = IconSelector::new(settings(), Some("D"));
    sel.build_icons(vec![], vec![]);
    assert_eq!(sel.select(&info("any", 7)), Some(&"D"));
}

#[test]
fn shrunk_desktop_list_switch_scenario() {
    // index 2 maps to work.ico, the default is default.ico
    let s = settings();
    let mut sel: IconSelector<&str> = IconSelector::new(s, Some("default.ico"));
    let desktops = vec![info("main", 0), info("second", 1)];
    let paths = sel.icon_paths(&desktops);
    assert_eq!(paths, vec![None, None]);
    sel.build_icons(desktops, vec![None, None]);
    // the active desktop stays 0: switching to 2 issues no command
    assert_eq!(on_trigger(HotkeyAction::SwitchDesktop { target: 2 }, 2, 0), vec![]);
    assert_eq!(sel.select(&info("main", 0)), Some(&"default.ico"));
}
