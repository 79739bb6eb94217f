//! The system tray: the entries of its menu, in the configured language
//! and with the configured theme and language checked, and what choosing
//! an entry does.
use vstd::prelude::*;
use crate::settings::{get_tray_text, tray_text};
use crate::text::str_eq;

verus! {

/// A plain entry of the tray menu.
#[derive(Debug)]
pub struct MenuItemSpec {
    /// The identifier its events carry.
    pub id: String,
    /// The label shown.
    pub label: String,
    /// Its keyboard shortcut.
    pub accelerator: Option<String>,
}

/// An entry of a tray submenu that shows a check mark.
#[derive(Debug)]
pub struct CheckItemSpec {
    /// The identifier its events carry.
    pub id: String,
    /// The label shown.
    pub label: String,
    /// Whether it is checked.
    pub checked: bool,
}

/// An entry of the tray menu.
#[derive(Debug)]
pub enum TrayEntry {
    /// A plain entry.
    Item(MenuItemSpec),
    /// A separator line.
    Separator,
    /// A submenu of checkable entries.
    Submenu {
        /// The submenu's label.
        label: String,
        /// Its entries.
        items: Vec<CheckItemSpec>,
    },
}

/// `e` is a plain entry with this identifier, the label of `key` in
/// `language`, and this shortcut.
pub open spec fn is_item(e: TrayEntry, id: Seq<char>, key: Seq<char>, language: Seq<char>, accel: Option<Seq<char>>) -> bool {
    &&& e matches TrayEntry::Item(i)
    &&& i.id@ == id
    &&& i.label@ == tray_text(key, language)
    &&& (match i.accelerator {
        Some(a) => accel == Some(a@),
        None => accel is None,
    })
}

/// `c` is a checkable entry with this identifier, the label of its
/// identifier in `language`, checked as given.
pub open spec fn is_check(c: CheckItemSpec, id: Seq<char>, language: Seq<char>, checked: bool) -> bool {
    c.id@ == id && c.label@ == tray_text(id, language) && c.checked == checked
}

/// The tray menu: show window, a separator, server management,
/// marketplace, settings, a separator, the theme submenu (auto, light,
/// dark; the current theme checked), the language submenu (Simplified
/// Chinese, English; the current language checked), a separator, about,
/// a separator, quit.
pub open spec fn is_tray_menu(m: Seq<TrayEntry>, language: Seq<char>, theme: Seq<char>) -> bool {
    &&& m.len() == 12
    &&& is_item(m[0], "show_window"@, "show_window"@, language, Some("CmdOrCtrl+Shift+M"@))
    &&& m[1] is Separator
    &&& is_item(m[2], "server_management"@, "servers"@, language, None)
    &&& is_item(m[3], "marketplace"@, "marketplace"@, language, None)
    &&& is_item(m[4], "settings"@, "settings"@, language, None)
    &&& m[5] is Separator
    &&& (m[6] matches TrayEntry::Submenu { label, items } && label@ == tray_text("theme"@, language)
        && items@.len() == 3 && is_check(items@[0], "theme_auto"@, language, theme == "auto"@) && is_check(
        items@[1],
        "theme_light"@,
        language,
        theme == "light"@,
    ) && is_check(items@[2], "theme_dark"@, language, theme == "dark"@))
    &&& (m[7] matches TrayEntry::Submenu { label, items } && label@ == tray_text("language"@, language)
        && items@.len() == 2 && is_check(items@[0], "language_zh_cn"@, language, language == "zh-CN"@)
        && is_check(items@[1], "language_en_us"@, language, language == "en-US"@))
    &&& m[8] is Separator
    &&& is_item(m[9], "about"@, "about"@, language, None)
    &&& m[10] is Separator
    &&& is_item(m[11], "quit"@, "quit"@, language, Some("CmdOrCtrl+Q"@))
}

fn item(id: &str, key: &str, language: &str, accelerator: Option<&str>) -> (r: TrayEntry)
    ensures
        is_item(
            r,
            id@,
            key@,
            language@,
            match accelerator {
                Some(a) => Some(a@),
                None => None,
            },
        ),
{
    TrayEntry::Item(
        MenuItemSpec {
            id: id.to_owned(),
            label: get_tray_text(key, language).to_owned(),
            accelerator: match accelerator {
                Some(a) => Some(a.to_owned()),
                None => None,
            },
        },
    )
}

fn check(id: &str, language: &str, checked: bool) -> (r: CheckItemSpec)
    ensures
        is_check(r, id@, language@, checked),
{
    CheckItemSpec { id: id.to_owned(), label: get_tray_text(id, language).to_owned(), checked }
}

/// The tray menu in `language`, with `theme` and `language` checked.
pub fn build_tray_menu(language: &str, theme: &str) -> (r: Vec<TrayEntry>)
    ensures
        is_tray_menu(r@, language@, theme@),
{
    let mut theme_items: Vec<CheckItemSpec> = Vec::new();
    theme_items.push(check("theme_auto", language, str_eq(theme, "auto")));
    theme_items.push(check("theme_light", language, str_eq(theme, "light")));
    theme_items.push(check("theme_dark", language, str_eq(theme, "dark")));
    let mut language_items: Vec<CheckItemSpec> = Vec::new();
    language_items.push(check("language_zh_cn", language, str_eq(language, "zh-CN")));
    language_items.push(check("language_en_us", language, str_eq(language, "en-US")));
    let mut m: Vec<TrayEntry> = Vec::new();
    m.push(item("show_window", "show_window", language, Some("CmdOrCtrl+Shift+M")));
    m.push(TrayEntry::Separator);
    m.push(item("server_management", "servers", language, None));
    m.push(item("marketplace", "marketplace", language, None));
    m.push(item("settings", "settings", language, None));
    m.push(TrayEntry::Separator);
    m.push(TrayEntry::Submenu { label: get_tray_text("theme", language).to_owned(), items: theme_items });
    m.push(TrayEntry::Submenu { label: get_tray_text("language", language).to_owned(), items: language_items });
    m.push(TrayEntry::Separator);
    m.push(item("about", "about", language, None));
    m.push(TrayEntry::Separator);
    m.push(item("quit", "quit", language, Some("CmdOrCtrl+Q")));
    m
}

/// What choosing a tray entry does.
#[derive(Debug, PartialEq, Eq)]
pub enum TrayAction {
    /// Bring the main window forward.
    ShowWindow,
    /// Tell the window to open a page, and bring it forward.
    Navigate(String),
    /// Tell the window to show the about dialog, and bring it forward.
    ShowAbout,
    /// Announce a new theme and rebuild the menu.
    ChangeTheme(String),
    /// Announce a new language and rebuild the menu.
    ChangeLanguage(String),
    /// Leave the application.
    Quit,
    /// Nothing.
    Ignore,
}

/// What the tray entry with identifier `id` does.
pub open spec fn tray_action_of(id: Seq<char>) -> Option<(Seq<char>, Seq<char>)> {
    if id == "show_window"@ {
        Some(("show"@, ""@))
    } else if id == "server_management"@ {
        Some(("navigate"@, "servers"@))
    } else if id == "marketplace"@ {
        Some(("navigate"@, "marketplace"@))
    } else if id == "settings"@ {
        Some(("navigate"@, "settings"@))
    } else if id == "about"@ {
        Some(("about"@, ""@))
    } else if id == "theme_auto"@ {
        Some(("theme"@, "auto"@))
    } else if id == "theme_light"@ {
        Some(("theme"@, "light"@))
    } else if id == "theme_dark"@ {
        Some(("theme"@, "dark"@))
    } else if id == "language_zh_cn"@ {
        Some(("language"@, "zh-CN"@))
    } else if id == "language_en_us"@ {
        Some(("language"@, "en-US"@))
    } else if id == "quit"@ {
        Some(("quit"@, ""@))
    } else {
        None
    }
}

/// The kind of an action and its argument, as `tray_action_of` names them.
pub open spec fn action_view(a: TrayAction) -> Option<(Seq<char>, Seq<char>)> {
    match a {
        TrayAction::ShowWindow => Some(("show"@, ""@)),
        TrayAction::Navigate(p) => Some(("navigate"@, p@)),
        TrayAction::ShowAbout => Some(("about"@, ""@)),
        TrayAction::ChangeTheme(t) => Some(("theme"@, t@)),
        TrayAction::ChangeLanguage(l) => Some(("language"@, l@)),
        TrayAction::Quit => Some(("quit"@, ""@)),
        TrayAction::Ignore => None,
    }
}

/// What choosing the tray entry `id` does; an unknown entry does nothing.
pub fn tray_menu_action(id: &str) -> (r: TrayAction)
    ensures
        action_view(r) == tray_action_of(id@),
{
    if str_eq(id, "show_window") {
        TrayAction::ShowWindow
    } else if str_eq(id, "server_management") {
        TrayAction::Navigate("servers".to_owned())
    } else if str_eq(id, "marketplace") {
        TrayAction::Navigate("marketplace".to_owned())
    } else if str_eq(id, "settings") {
        TrayAction::Navigate("settings".to_owned())
    } else if str_eq(id, "about") {
        TrayAction::ShowAbout
    } else if str_eq(id, "theme_auto") {
        TrayAction::ChangeTheme("auto".to_owned())
    } else if str_eq(id, "theme_light") {
        TrayAction::ChangeTheme("light".to_owned())
    } else if str_eq(id, "theme_dark") {
        TrayAction::ChangeTheme("dark".to_owned())
    } else if str_eq(id, "language_zh_cn") {
        TrayAction::ChangeLanguage("zh-CN".to_owned())
    } else if str_eq(id, "language_en_us") {
        TrayAction::ChangeLanguage("en-US".to_owned())
    } else if str_eq(id, "quit") {
        TrayAction::Quit
    } else {
        TrayAction::Ignore
    }
}

/// A checkable entry switches the theme or the language, and is checked
/// exactly when that is the current one.
pub open spec fn check_handled(c: CheckItemSpec, language: Seq<char>, theme: Seq<char>) -> bool {
    match tray_action_of(c.id@) {
        Some((kind, arg)) => (kind == "theme"@ && (c.checked <==> theme == arg)) || (kind == "language"@ && (
        c.checked <==> language == arg)),
        None => false,
    }
}

/// Choosing the entry does something.
pub open spec fn entry_handled(e: TrayEntry, language: Seq<char>, theme: Seq<char>) -> bool {
    match e {
        TrayEntry::Item(i) => tray_action_of(i.id@) is Some,
        TrayEntry::Separator => true,
        TrayEntry::Submenu { items, .. } => forall|j: int|
            0 <= j < items@.len() ==> check_handled(#[trigger] items@[j], language, theme),
    }
}

/// Every entry of the tray menu is handled: choosing any plain entry or
/// any entry of its submenus does something, and a theme or language entry
/// is checked exactly when the theme or language it switches to is the
/// current one.
pub proof fn law_every_menu_entry_is_handled(m: Seq<TrayEntry>, language: Seq<char>, theme: Seq<char>)
    requires
        is_tray_menu(m, language, theme),
    ensures
        forall|k: int| 0 <= k < m.len() ==> entry_handled(#[trigger] m[k], language, theme),
{
    reveal_strlit("show");
    reveal_strlit("navigate");
    reveal_strlit("about");
    reveal_strlit("theme");
    reveal_strlit("language");
    reveal_strlit("quit");
    reveal_strlit("show_window");
    reveal_strlit("server_management");
    reveal_strlit("marketplace");
    reveal_strlit("settings");
    reveal_strlit("theme_auto");
    reveal_strlit("theme_light");
    reveal_strlit("theme_dark");
    reveal_strlit("language_zh_cn");
    reveal_strlit("language_en_us");
    assert("show_window"@.len() == 11);
    assert("server_management"@.len() == 17);
    assert("marketplace"@.len() == 11);
    assert("settings"@.len() == 8);
    assert("about"@.len() == 5);
    assert("theme_auto"@.len() == 10);
    assert("theme_light"@.len() == 11);
    assert("theme_dark"@.len() == 10);
    assert("language_zh_cn"@.len() == 14);
    assert("language_en_us"@.len() == 14);
    assert("quit"@.len() == 4);
    assert("show_window"@[0] != "theme_light"@[0]);
    assert("marketplace"@[0] != "show_window"@[0]);
    assert("marketplace"@[0] != "theme_light"@[0]);
    assert("theme_auto"@[6] != "theme_dark"@[6]);
    assert("language_en_us"@[9] != "language_zh_cn"@[9]);
    assert(tray_action_of("theme_auto"@) == Some(("theme"@, "auto"@)));
    assert(tray_action_of("theme_light"@) == Some(("theme"@, "light"@)));
    assert(tray_action_of("theme_dark"@) == Some(("theme"@, "dark"@)));
    assert(tray_action_of("language_zh_cn"@) == Some(("language"@, "zh-CN"@)));
    assert(tray_action_of("language_en_us"@) == Some(("language"@, "en-US"@)));
    assert("theme"@.len() == 5 && "language"@.len() == 8);
    match m[6] {
        TrayEntry::Submenu { items, .. } => {
            assert forall|j: int| 0 <= j < items@.len() implies check_handled(#[trigger] items@[j], language, theme) by {
                assert(j == 0 || j == 1 || j == 2);
            }
        },
        _ => {},
    }
    match m[7] {
        TrayEntry::Submenu { items, .. } => {
            assert forall|j: int| 0 <= j < items@.len() implies check_handled(#[trigger] items@[j], language, theme) by {
                assert(j == 0 || j == 1);
            }
        },
        _ => {},
    }
    assert(entry_handled(m[6], language, theme));
    assert(entry_handled(m[7], language, theme));
}

} // verus!
