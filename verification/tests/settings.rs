use mcprouter::keyed::KeyedList;
use mcprouter::settings::{log_level, path_validity, show_autostart_state, LogLevel, LoggingSettings};
use mcprouter::settings::{
    apply_settings_edit, apply_tray_edit, autostart_toggle_result, get_language_preference, get_tray_text,
    needs_aggregator_restart_with_configs, save_language_preference, save_outcome, tray_language_and_theme,
    AppConfig, FieldEdit, LoggingEdit, ServerConfig, ServerEdit, SettingsEdit, SystemTraySettings, TrayEdit,
};

fn config() -> AppConfig {
    AppConfig { server: ServerConfig::default_config(), logging: None, settings: None, mcp_servers: vec![] }
}

fn empty_edit() -> SettingsEdit {
    SettingsEdit {
        theme: None,
        language: None,
        autostart: None,
        system_tray: None,
        uv_index_url: FieldEdit::Absent,
        npm_registry: FieldEdit::Absent,
        command_paths: None,
        logging: None,
        server: None,
    }
}

#[test]
fn defaults_are_filled_in() {
    let mut c = config();
    apply_settings_edit(&mut c, empty_edit());
    let s = c.settings.as_ref().unwrap();
    assert_eq!(s.theme.as_deref(), Some("auto"));
    assert_eq!(s.language.as_deref(), Some("en-US"));
    assert_eq!(s.autostart, Some(false));
    let t = s.system_tray.as_ref().unwrap();
    assert_eq!((t.enabled, t.close_to_tray, t.start_to_tray), (Some(true), Some(false), Some(false)));
}

#[test]
fn disabling_tray_turns_close_to_tray_off() {
    let mut t = SystemTraySettings { enabled: Some(true), close_to_tray: Some(true), start_to_tray: None };
    apply_tray_edit(&mut t, TrayEdit { enabled: Some(false), close_to_tray: Some(true), start_to_tray: Some(true) });
    assert_eq!(t.enabled, Some(false));
    assert_eq!(t.close_to_tray, Some(false));
    assert_eq!(t.start_to_tray, Some(true));
    apply_tray_edit(&mut t, TrayEdit { enabled: None, close_to_tray: Some(true), start_to_tray: None });
    assert_eq!(t.close_to_tray, Some(false));
    apply_tray_edit(&mut t, TrayEdit { enabled: Some(true), close_to_tray: Some(true), start_to_tray: None });
    assert_eq!(t.close_to_tray, Some(true));
}

#[test]
fn null_clears_mirrors_and_logging_defaults_apply() {
    let mut c = config();
    let mut e = empty_edit();
    e.uv_index_url = FieldEdit::Assign("https://pypi".to_string());
    e.logging = Some(LoggingEdit { level: None, file_name: FieldEdit::Absent });
    apply_settings_edit(&mut c, e);
    assert_eq!(c.settings.as_ref().unwrap().uv_index_url.as_deref(), Some("https://pypi"));
    let l = c.logging.as_ref().unwrap();
    assert_eq!(l.level, "info");
    assert_eq!(l.file_name.as_deref(), Some("mcprouter.log"));
    let mut e = empty_edit();
    e.uv_index_url = FieldEdit::Clear;
    e.logging = Some(LoggingEdit { level: Some("debug".to_string()), file_name: FieldEdit::Clear });
    apply_settings_edit(&mut c, e);
    assert_eq!(c.settings.as_ref().unwrap().uv_index_url, None);
    assert_eq!(c.logging.as_ref().unwrap().level, "debug");
    assert_eq!(c.logging.as_ref().unwrap().file_name, None);
}

#[test]
fn server_edit_and_restart_message() {
    let prev = config();
    let mut next = config();
    let mut e = empty_edit();
    e.server = Some(ServerEdit { host: None, port: Some(65536 + 9000), max_connections: None, timeout_seconds: None, auth: Some(true) });
    let mut paths = KeyedList::new();
    paths.insert("node".to_string(), "/usr/bin/node".to_string());
    e.command_paths = Some(paths);
    apply_settings_edit(&mut next, e);
    assert_eq!(next.server.port, 9000);
    assert!(next.server.auth);
    let out = save_outcome(&prev, &next);
    assert!(out.restart_aggregator);
    assert_eq!(out.message, "Settings saved successfully. Aggregator restarted on 127.0.0.1:9000");
    assert!(!out.tray_changed);
    assert!(needs_aggregator_restart_with_configs(&prev, &next));
    let same = save_outcome(&prev, &config());
    assert_eq!(same.message, "Settings saved successfully");
    assert_eq!(next.settings.as_ref().unwrap().command_paths.len(), 1);
}

#[test]
fn auth_change_alone_does_not_need_listener_restart() {
    let prev = config();
    let mut next = config();
    next.server.auth = true;
    assert!(!needs_aggregator_restart_with_configs(&prev, &next));
    assert!(save_outcome(&prev, &next).restart_aggregator);
}

#[test]
fn tray_visibility_change_is_reported() {
    let prev = config();
    let mut next = config();
    let mut e = empty_edit();
    e.system_tray = Some(TrayEdit { enabled: Some(false), close_to_tray: None, start_to_tray: None });
    apply_settings_edit(&mut next, e);
    let out = save_outcome(&prev, &next);
    assert!(out.tray_changed);
    assert!(!out.tray_visible);
}

#[test]
fn language_preference() {
    let mut c = config();
    let err = save_language_preference(&mut c, "fr-FR").unwrap_err();
    assert_eq!(err.message(), "Configuration error: Unsupported language: fr-FR");
    assert!(c.settings.is_none());
    assert_eq!(save_language_preference(&mut c, "zh-CN").unwrap(), "Language preference saved: zh-CN");
    assert_eq!(get_language_preference(&c), Some("zh-CN".to_string()));
    assert_eq!(c.settings.as_ref().unwrap().theme.as_deref(), Some("auto"));
    assert_eq!(tray_language_and_theme(&c), ("zh-CN".to_string(), "auto".to_string()));
    assert_eq!(tray_language_and_theme(&config()), ("zh-CN".to_string(), "auto".to_string()));
}

#[test]
fn tray_texts() {
    assert_eq!(get_tray_text("quit", "zh-CN"), "退出");
    assert_eq!(get_tray_text("quit", "en-US"), "Quit");
    assert_eq!(get_tray_text("theme_auto", "fr"), "Auto (Follow System)");
    assert_eq!(get_tray_text("language_zh_cn", "en-US"), "简体中文");
    assert_eq!(get_tray_text("unknown", "zh-CN"), "");
}

#[test]
fn autostart_messages() {
    assert_eq!(autostart_toggle_result(true, Ok(())).unwrap(), "Auto-startup disabled");
    assert_eq!(autostart_toggle_result(false, Ok(())).unwrap(), "Auto-startup enabled");
    let e = autostart_toggle_result(false, Err("denied".to_string())).unwrap_err();
    assert_eq!(e.message(), "Configuration error: Failed to enable autostart: denied");
}

#[test]
fn command_paths_sorted_once() {
    let found = vec!["/usr/bin/node".to_string(), "/bin/node".to_string(), "/usr/bin/node".to_string(), "/opt/ü".to_string(), "/opt/z".to_string()];
    assert_eq!(
        mcprouter::settings::get_system_command_paths(found),
        vec!["/bin/node", "/opt/z", "/opt/ü", "/usr/bin/node"]
    );
}

#[test]
fn path_validity_from_mode_bits() {
    let v = path_validity(true, Some(0o755));
    assert!(v.exists && v.is_executable);
    let v = path_validity(true, Some(0o644));
    assert!(v.exists && !v.is_executable);
    let v = path_validity(true, Some(0o010));
    assert!(v.is_executable);
    let v = path_validity(true, None);
    assert!(v.exists && !v.is_executable);
    let v = path_validity(false, Some(0o777));
    assert!(!v.exists && !v.is_executable);
}

#[test]
fn log_levels_ignore_case() {
    let level = |name: &str| log_level(&Some(LoggingSettings { level: name.to_string(), file_name: None }));
    assert_eq!(level("TRACE"), LogLevel::Trace);
    assert_eq!(level("Debug"), LogLevel::Debug);
    assert_eq!(level("info"), LogLevel::Info);
    assert_eq!(level("wArN"), LogLevel::Warn);
    assert_eq!(level("error"), LogLevel::Error);
    assert_eq!(level("verbose"), LogLevel::Info);
    assert_eq!(log_level(&None), LogLevel::Info);
}

#[test]
fn shown_autostart_follows_the_system() {
    let mut c = config();
    show_autostart_state(&mut c, None);
    assert!(c.settings.is_none());
    show_autostart_state(&mut c, Some(true));
    let s = c.settings.as_ref().unwrap();
    assert_eq!(s.autostart, Some(true));
    assert!(s.theme.is_none() && s.language.is_none() && s.system_tray.is_none());
    let mut c = config();
    let mut e = empty_edit();
    e.theme = Some("dark".to_string());
    apply_settings_edit(&mut c, e);
    show_autostart_state(&mut c, Some(false));
    let s = c.settings.as_ref().unwrap();
    assert_eq!(s.autostart, Some(false));
    assert_eq!(s.theme.as_deref(), Some("dark"));
}

#[test]
fn settings_payload_is_read_from_json() {
    let v: serde_json::Value = serde_json::from_str(
        "{\"theme\":\"dark\",\"autostart\":true,\"system_tray\":{\"enabled\":false,\"close_to_tray\":true},\
         \"uv_index_url\":null,\"npm_registry\":7,\"command_paths\":{\"node\":\"/usr/bin/node\",\"bad\":1},\
         \"logging\":{\"level\":\"debug\",\"file_name\":\"x.log\"},\"server\":{\"port\":9000,\"auth\":true}}",
    )
    .unwrap();
    let e = mcprouter::settings::settings_edit_from_json(&v).unwrap();
    assert_eq!(e.theme.as_deref(), Some("dark"));
    assert_eq!(e.language, None);
    assert_eq!(e.autostart, Some(true));
    let t = e.system_tray.as_ref().unwrap();
    assert_eq!((t.enabled, t.close_to_tray, t.start_to_tray), (Some(false), Some(true), None));
    assert!(matches!(e.uv_index_url, FieldEdit::Clear));
    assert!(matches!(e.npm_registry, FieldEdit::Absent));
    let paths = e.command_paths.as_ref().unwrap();
    assert_eq!(paths.get("node").map(|s| s.as_str()), Some("/usr/bin/node"));
    assert!(paths.get("bad").is_none());
    let l = e.logging.as_ref().unwrap();
    assert_eq!(l.level.as_deref(), Some("debug"));
    assert!(matches!(&l.file_name, FieldEdit::Assign(f) if f == "x.log"));
    let s = e.server.as_ref().unwrap();
    assert_eq!((s.port, s.auth, s.host.clone()), (Some(9000), Some(true), None));

    let mut c = config();
    apply_settings_edit(&mut c, e);
    let tray = c.settings.as_ref().unwrap().system_tray.as_ref().unwrap();
    assert_eq!((tray.enabled, tray.close_to_tray), (Some(false), Some(false)));

    let not_object: serde_json::Value = serde_json::from_str("[1]").unwrap();
    assert!(mcprouter::settings::settings_edit_from_json(&not_object).is_none());
}
