use mcprouter::tray::{build_tray_menu, tray_menu_action, TrayAction, TrayEntry};

fn item_of(e: &TrayEntry) -> (&str, &str, Option<&str>) {
    match e {
        TrayEntry::Item(i) => (i.id.as_str(), i.label.as_str(), i.accelerator.as_deref()),
        _ => panic!("expected a plain entry"),
    }
}

#[test]
fn english_menu_with_dark_theme() {
    let m = build_tray_menu("en-US", "dark");
    assert_eq!(m.len(), 12);
    assert_eq!(item_of(&m[0]), ("show_window", "Show Main Window", Some("CmdOrCtrl+Shift+M")));
    assert!(matches!(m[1], TrayEntry::Separator));
    assert_eq!(item_of(&m[2]), ("server_management", "Server Management", None));
    assert_eq!(item_of(&m[3]), ("marketplace", "Marketplace", None));
    assert_eq!(item_of(&m[4]), ("settings", "Settings", None));
    match &m[6] {
        TrayEntry::Submenu { label, items } => {
            assert_eq!(label, "Theme");
            let checked: Vec<(&str, bool)> = items.iter().map(|c| (c.id.as_str(), c.checked)).collect();
            assert_eq!(checked, vec![("theme_auto", false), ("theme_light", false), ("theme_dark", true)]);
            assert_eq!(items[1].label, "Light");
        },
        _ => panic!("expected the theme submenu"),
    }
    match &m[7] {
        TrayEntry::Submenu { label, items } => {
            assert_eq!(label, "Language");
            assert_eq!(items[0].label, "简体中文");
            assert!(!items[0].checked);
            assert!(items[1].checked);
        },
        _ => panic!("expected the language submenu"),
    }
    assert_eq!(item_of(&m[9]), ("about", "About MCP Router", None));
    assert_eq!(item_of(&m[11]), ("quit", "Quit", Some("CmdOrCtrl+Q")));
}

#[test]
fn chinese_menu_with_auto_theme() {
    let m = build_tray_menu("zh-CN", "auto");
    assert_eq!(item_of(&m[0]).1, "显示主窗口");
    assert_eq!(item_of(&m[11]).1, "退出");
    match &m[6] {
        TrayEntry::Submenu { items, .. } => assert!(items[0].checked && !items[1].checked && !items[2].checked),
        _ => panic!("expected the theme submenu"),
    }
    match &m[7] {
        TrayEntry::Submenu { items, .. } => assert!(items[0].checked && !items[1].checked),
        _ => panic!("expected the language submenu"),
    }
}

#[test]
fn menu_actions() {
    assert_eq!(tray_menu_action("show_window"), TrayAction::ShowWindow);
    assert_eq!(tray_menu_action("server_management"), TrayAction::Navigate("servers".to_string()));
    assert_eq!(tray_menu_action("marketplace"), TrayAction::Navigate("marketplace".to_string()));
    assert_eq!(tray_menu_action("settings"), TrayAction::Navigate("settings".to_string()));
    assert_eq!(tray_menu_action("about"), TrayAction::ShowAbout);
    assert_eq!(tray_menu_action("theme_light"), TrayAction::ChangeTheme("light".to_string()));
    assert_eq!(tray_menu_action("language_en_us"), TrayAction::ChangeLanguage("en-US".to_string()));
    assert_eq!(tray_menu_action("quit"), TrayAction::Quit);
    assert_eq!(tray_menu_action("unknown"), TrayAction::Ignore);
    for e in build_tray_menu("en-US", "light") {
        match e {
            TrayEntry::Item(i) => assert_ne!(tray_menu_action(&i.id), TrayAction::Ignore),
            TrayEntry::Submenu { items, .. } => {
                for c in items {
                    assert_ne!(tray_menu_action(&c.id), TrayAction::Ignore);
                }
            },
            TrayEntry::Separator => {},
        }
    }
}
