//! Application settings: the aggregator's server settings, the user's
//! preferences, and the rules by which an edit from the settings page is
//! applied and what it causes (a restart of the aggregator, a change of the
//! tray icon).
use vstd::prelude::*;
use crate::error::McpError;
use crate::keyed::{text_values, KeyedList};
use crate::json::{
    bool_member, json_as_string, json_is_null, json_is_object, json_member, json_member_text, json_null_text,
    json_object_text, json_string_text, json_text_of, object_member, pair_views, read_bool_member, read_string_member,
    read_string_pairs_member, read_u64_member, string_member, string_pairs_member, u64_member,
};
use crate::text::opt_text;
use crate::text::{concat2, concat3, decimal, str_eq, usize_to_string};
use crate::types::McpServerConfig;

verus! {

/// Where and how the aggregating endpoint listens.
#[derive(Debug)]
pub struct ServerConfig {
    /// Host to bind.
    pub host: String,
    /// Port to bind.
    pub port: u16,
    /// Most simultaneous connections.
    pub max_connections: usize,
    /// Request timeout in seconds.
    pub timeout_seconds: u64,
    /// Whether clients must present a bearer token.
    pub auth: bool,
}

impl ServerConfig {
    /// The documented defaults: `127.0.0.1:8000`, 100 connections, 30 s,
    /// no authentication.
    pub fn default_config() -> (r: Self)
        ensures
            r.host@ == "127.0.0.1"@,
            r.port == 8000,
            r.max_connections == 100,
            r.timeout_seconds == 30,
            !r.auth,
    {
        ServerConfig {
            host: "127.0.0.1".to_owned(),
            port: 8000,
            max_connections: 100,
            timeout_seconds: 30,
            auth: false,
        }
    }
}

/// The tray icon's settings.
#[derive(Debug)]
pub struct SystemTraySettings {
    /// Whether the tray icon is shown.
    pub enabled: Option<bool>,
    /// Whether closing the window hides it to the tray.
    pub close_to_tray: Option<bool>,
    /// Whether the application starts hidden in the tray.
    pub start_to_tray: Option<bool>,
}

/// The user's preferences.
#[derive(Debug)]
pub struct Settings {
    /// `auto`, `light` or `dark`.
    pub theme: Option<String>,
    /// `zh-CN` or `en-US`.
    pub language: Option<String>,
    /// Whether the application starts with the system.
    pub autostart: Option<bool>,
    /// The tray icon's settings.
    pub system_tray: Option<SystemTraySettings>,
    /// The Python package index handed to `uv`.
    pub uv_index_url: Option<String>,
    /// The npm registry handed to `npm`/`npx`.
    pub npm_registry: Option<String>,
    /// Paths chosen for system commands, by command name.
    pub command_paths: KeyedList<String>,
}

/// Where the log goes and how much of it.
#[derive(Debug)]
pub struct LoggingSettings {
    /// The level name.
    pub level: String,
    /// The log file's name, if logging to a file.
    pub file_name: Option<String>,
}

/// The whole configuration file.
#[derive(Debug)]
pub struct AppConfig {
    /// The aggregator's server settings.
    pub server: ServerConfig,
    /// Logging settings.
    pub logging: Option<LoggingSettings>,
    /// User preferences.
    pub settings: Option<Settings>,
    /// The configured MCP servers.
    pub mcp_servers: Vec<McpServerConfig>,
}

/// An edit of a field that can be set, cleared (JSON `null`) or left alone.
#[derive(Debug)]
pub enum FieldEdit {
    /// The field was not in the edit.
    Absent,
    /// The field was `null`: clear it.
    Clear,
    /// The field was a string: set it.
    Assign(String),
}

/// An edit of the tray settings.
#[derive(Debug)]
pub struct TrayEdit {
    /// New `enabled`, if given as a boolean.
    pub enabled: Option<bool>,
    /// New `close_to_tray`, if given as a boolean.
    pub close_to_tray: Option<bool>,
    /// New `start_to_tray`, if given as a boolean.
    pub start_to_tray: Option<bool>,
}

/// An edit of the logging settings.
#[derive(Debug)]
pub struct LoggingEdit {
    /// New level, if given as a string.
    pub level: Option<String>,
    /// Edit of the file name.
    pub file_name: FieldEdit,
}

/// An edit of the server settings; numbers as the JSON gave them.
#[derive(Debug)]
pub struct ServerEdit {
    /// New host, if given as a string.
    pub host: Option<String>,
    /// New port, if given as an unsigned number.
    pub port: Option<u64>,
    /// New connection limit, if given as an unsigned number.
    pub max_connections: Option<u64>,
    /// New timeout, if given as an unsigned number.
    pub timeout_seconds: Option<u64>,
    /// New authentication switch, if given as a boolean.
    pub auth: Option<bool>,
}

/// An edit from the settings page: each field as it was found in the JSON
/// object sent, with the right type, or absent.
#[derive(Debug)]
pub struct SettingsEdit {
    /// New theme.
    pub theme: Option<String>,
    /// New language.
    pub language: Option<String>,
    /// New autostart flag.
    pub autostart: Option<bool>,
    /// Tray edit, if a `system_tray` object was sent.
    pub system_tray: Option<TrayEdit>,
    /// Edit of the Python package index.
    pub uv_index_url: FieldEdit,
    /// Edit of the npm registry.
    pub npm_registry: FieldEdit,
    /// New command paths (the string-valued entries of the object sent),
    /// replacing the old ones, if a `command_paths` object was sent.
    pub command_paths: Option<KeyedList<String>>,
    /// Logging edit, if a `logging` object was sent.
    pub logging: Option<LoggingEdit>,
    /// Server edit, if a `server` object was sent.
    pub server: Option<ServerEdit>,
}

/// A field after an edit.
pub open spec fn edited(old: Option<String>, e: FieldEdit) -> Option<String> {
    match e {
        FieldEdit::Absent => old,
        FieldEdit::Clear => None,
        FieldEdit::Assign(v) => Some(v),
    }
}

/// Applies a field edit.
fn apply_field(field: &mut Option<String>, e: FieldEdit)
    ensures
        *final(field) == edited(*old(field), e),
{
    match e {
        FieldEdit::Absent => {},
        FieldEdit::Clear => {
            *field = None;
        },
        FieldEdit::Assign(v) => {
            *field = Some(v);
        },
    }
}

/// How a field edit reads the member `key` of the document `doc`: a
/// string sets the field, `null` clears it, anything else (or no member)
/// leaves it alone.
pub open spec fn field_edit_read(e: FieldEdit, doc: Seq<char>, key: Seq<char>) -> bool {
    match json_member_text(doc, key) {
        Some(m) => match json_string_text(m) {
            Some(t) => e matches FieldEdit::Assign(v) && v@ == t,
            None => if json_null_text(m) {
                e is Clear
            } else {
                e is Absent
            },
        },
        None => e is Absent,
    }
}

/// Reads the field edit the member `key` of a document asks for.
pub fn read_field_edit(v: &serde_json::Value, key: &str) -> (r: FieldEdit)
    ensures
        field_edit_read(r, json_text_of(*v), key@),
{
    match json_member(v, key) {
        Some(m) => match json_as_string(m) {
            Some(t) => FieldEdit::Assign(t),
            None => if json_is_null(m) {
                FieldEdit::Clear
            } else {
                FieldEdit::Absent
            },
        },
        None => FieldEdit::Absent,
    }
}

/// The map that setting each pair in turn gives (a later pair wins).
pub open spec fn pairs_map(p: Seq<(Seq<char>, Seq<char>)>) -> Map<Seq<char>, Seq<char>>
    decreases p.len(),
{
    if p.len() == 0 {
        Map::empty()
    } else {
        pairs_map(p.drop_last()).insert(p.last().0, p.last().1)
    }
}

/// The settings edit that the JSON object `doc` sent from the settings page
/// asks for: each field read with its type, a field of another type counted
/// as absent.
pub open spec fn settings_edit_read(e: SettingsEdit, doc: Seq<char>) -> bool {
    &&& opt_text(e.theme) == string_member(doc, "theme"@)
    &&& opt_text(e.language) == string_member(doc, "language"@)
    &&& e.autostart == bool_member(doc, "autostart"@)
    &&& match object_member(doc, "system_tray"@) {
        Some(t) => e.system_tray == Some(
            TrayEdit {
                enabled: bool_member(t, "enabled"@),
                close_to_tray: bool_member(t, "close_to_tray"@),
                start_to_tray: bool_member(t, "start_to_tray"@),
            },
        ),
        None => e.system_tray is None,
    }
    &&& field_edit_read(e.uv_index_url, doc, "uv_index_url"@)
    &&& field_edit_read(e.npm_registry, doc, "npm_registry"@)
    &&& match string_pairs_member(doc, "command_paths"@) {
        Some(p) => e.command_paths matches Some(k) && text_values(k@) == pairs_map(p),
        None => e.command_paths is None,
    }
    &&& match object_member(doc, "logging"@) {
        Some(l) => e.logging matches Some(le) && opt_text(le.level) == string_member(l, "level"@)
            && field_edit_read(le.file_name, l, "file_name"@),
        None => e.logging is None,
    }
    &&& match object_member(doc, "server"@) {
        Some(sv) => e.server matches Some(se) && opt_text(se.host) == string_member(sv, "host"@) && se.port
            == u64_member(sv, "port"@) && se.max_connections == u64_member(sv, "max_connections"@)
            && se.timeout_seconds == u64_member(sv, "timeout_seconds"@) && se.auth == bool_member(sv, "auth"@),
        None => e.server is None,
    }
}

/// The command paths of a settings edit: each pair set in turn.
fn command_paths_of(pairs: Vec<(String, String)>) -> (r: KeyedList<String>)
    ensures
        text_values(r@) == pairs_map(pair_views(pairs@)),
{
    let ghost all = pair_views(pairs@);
    let mut k: KeyedList<String> = KeyedList::new();
    let mut i: usize = 0;
    assert(text_values(k@) =~= pairs_map(all.take(0)));
    while i < pairs.len()
        invariant
            i <= pairs@.len(),
            all == pair_views(pairs@),
            text_values(k@) == pairs_map(all.take(i as int)),
        decreases pairs@.len() - i,
    {
        assert(all.take(i + 1).drop_last() =~= all.take(i as int));
        let ghost before = k@;
        k.insert(pairs[i].0.clone(), pairs[i].1.clone());
        assert(text_values(k@) =~= text_values(before).insert(pairs@[i as int].0@, pairs@[i as int].1@));
        i += 1;
    }
    assert(all.take(pairs@.len() as int) =~= all);
    k
}

/// Reads an edit from the settings page out of the JSON document sent:
/// nothing unless the document is an object.
pub fn settings_edit_from_json(payload: &serde_json::Value) -> (r: Option<SettingsEdit>)
    ensures
        json_object_text(json_text_of(*payload)) ==> (r matches Some(e) && settings_edit_read(e, json_text_of(*payload))),
        !json_object_text(json_text_of(*payload)) ==> r is None,
{
    if !json_is_object(payload) {
        return None;
    }
    let system_tray = match json_member(payload, "system_tray") {
        Some(t) => if json_is_object(t) {
            Some(
                TrayEdit {
                    enabled: read_bool_member(t, "enabled"),
                    close_to_tray: read_bool_member(t, "close_to_tray"),
                    start_to_tray: read_bool_member(t, "start_to_tray"),
                },
            )
        } else {
            None
        },
        None => None,
    };
    let command_paths = match read_string_pairs_member(payload, "command_paths") {
        Some(p) => Some(command_paths_of(p)),
        None => None,
    };
    let logging = match json_member(payload, "logging") {
        Some(l) => if json_is_object(l) {
            Some(LoggingEdit { level: read_string_member(l, "level"), file_name: read_field_edit(l, "file_name") })
        } else {
            None
        },
        None => None,
    };
    let server = match json_member(payload, "server") {
        Some(sv) => if json_is_object(sv) {
            Some(
                ServerEdit {
                    host: read_string_member(sv, "host"),
                    port: read_u64_member(sv, "port"),
                    max_connections: read_u64_member(sv, "max_connections"),
                    timeout_seconds: read_u64_member(sv, "timeout_seconds"),
                    auth: read_bool_member(sv, "auth"),
                },
            )
        } else {
            None
        },
        None => None,
    };
    Some(
        SettingsEdit {
            theme: read_string_member(payload, "theme"),
            language: read_string_member(payload, "language"),
            autostart: read_bool_member(payload, "autostart"),
            system_tray,
            uv_index_url: read_field_edit(payload, "uv_index_url"),
            npm_registry: read_field_edit(payload, "npm_registry"),
            command_paths,
            logging,
            server,
        },
    )
}

/// The tray settings given to a configuration that has none.
pub open spec fn default_tray() -> SystemTraySettings {
    SystemTraySettings { enabled: Some(true), close_to_tray: Some(false), start_to_tray: Some(false) }
}

fn new_default_tray() -> (r: SystemTraySettings)
    ensures
        r == default_tray(),
{
    SystemTraySettings { enabled: Some(true), close_to_tray: Some(false), start_to_tray: Some(false) }
}

/// The tray settings after an edit: a tray that is switched off cannot
/// close to the tray, and `close_to_tray` is only taken while the tray is
/// on (an unset `enabled` counts as on).
pub open spec fn tray_after(t: SystemTraySettings, e: TrayEdit) -> SystemTraySettings {
    let enabled = match e.enabled {
        Some(b) => Some(b),
        None => t.enabled,
    };
    let close1 = match e.enabled {
        Some(false) => Some(false),
        _ => t.close_to_tray,
    };
    let on = match enabled {
        Some(b) => b,
        None => true,
    };
    let close2 = if on {
        match e.close_to_tray {
            Some(c) => Some(c),
            None => close1,
        }
    } else {
        close1
    };
    let start = match e.start_to_tray {
        Some(s) => Some(s),
        None => t.start_to_tray,
    };
    SystemTraySettings { enabled, close_to_tray: close2, start_to_tray: start }
}

/// Applies a tray edit.
pub fn apply_tray_edit(t: &mut SystemTraySettings, e: TrayEdit)
    ensures
        *final(t) == tray_after(*old(t), e),
{
    if let Some(enabled) = e.enabled {
        t.enabled = Some(enabled);
        if !enabled {
            t.close_to_tray = Some(false);
        }
    }
    let tray_enabled = match t.enabled {
        Some(b) => b,
        None => true,
    };
    if tray_enabled {
        if let Some(c) = e.close_to_tray {
            t.close_to_tray = Some(c);
        }
    }
    if let Some(s) = e.start_to_tray {
        t.start_to_tray = Some(s);
    }
}

/// Whether the tray icon is shown: an unset switch counts as on.
pub open spec fn tray_visible(c: AppConfig) -> bool {
    match c.settings {
        Some(s) => match s.system_tray {
            Some(t) => match t.enabled {
                Some(b) => b,
                None => true,
            },
            None => true,
        },
        None => true,
    }
}

/// Whether the tray icon is shown.
pub fn is_tray_visible(c: &AppConfig) -> (r: bool)
    ensures
        r == tray_visible(*c),
{
    match &c.settings {
        Some(s) => match &s.system_tray {
            Some(t) => match t.enabled {
                Some(b) => b,
                None => true,
            },
            None => true,
        },
        None => true,
    }
}

/// Applies a server edit. The port keeps the low 16 bits of the number
/// sent, as a cast does.
pub fn apply_server_edit(s: &mut ServerConfig, e: ServerEdit)
    requires
        e.max_connections matches Some(m) ==> m <= usize::MAX,
    ensures
        final(s).host == (match e.host {
            Some(h) => h,
            None => old(s).host,
        }),
        final(s).port == (match e.port {
            Some(p) => p as u16,
            None => old(s).port,
        }),
        final(s).max_connections == (match e.max_connections {
            Some(m) => m as usize,
            None => old(s).max_connections,
        }),
        final(s).timeout_seconds == (match e.timeout_seconds {
            Some(t) => t,
            None => old(s).timeout_seconds,
        }),
        final(s).auth == (match e.auth {
            Some(a) => a,
            None => old(s).auth,
        }),
{
    if let Some(h) = e.host {
        s.host = h;
    }
    if let Some(p) = e.port {
        s.port = p as u16;
    }
    if let Some(m) = e.max_connections {
        s.max_connections = m as usize;
    }
    if let Some(t) = e.timeout_seconds {
        s.timeout_seconds = t;
    }
    if let Some(a) = e.auth {
        s.auth = a;
    }
}

/// The preferences given to a configuration that has none.
pub fn default_settings(language: &str) -> (r: Settings)
    ensures
        r.theme matches Some(t) && t@ == "auto"@,
        r.language matches Some(l) && l@ == language@,
        r.autostart == Some(false),
        r.system_tray == Some(default_tray()),
        r.uv_index_url is None,
        r.npm_registry is None,
        r.command_paths@ == Map::<Seq<char>, String>::empty(),
{
    Settings {
        theme: Some("auto".to_owned()),
        language: Some(language.to_owned()),
        autostart: Some(false),
        system_tray: Some(new_default_tray()),
        uv_index_url: None,
        npm_registry: None,
        command_paths: KeyedList::new(),
    }
}

/// The log level given to a configuration that has no logging settings
/// when a logging edit arrives.
pub open spec fn default_logging_level() -> Seq<char> {
    "info"@
}

/// The log file given to a configuration that has no logging settings when
/// a logging edit arrives.
pub open spec fn default_log_file() -> Seq<char> {
    "mcprouter.log"@
}

/// The tray settings of the preferences after an edit from the settings
/// page: preferences that are missing get the default tray; a tray edit
/// applies to the tray there (the default tray where there is none).
pub open spec fn settings_tray_after(prev: Option<Settings>, e: Option<TrayEdit>) -> Option<SystemTraySettings> {
    match e {
        Some(e) => Some(
            tray_after(
                match prev {
                    Some(o) => match o.system_tray {
                        Some(t) => t,
                        None => default_tray(),
                    },
                    None => default_tray(),
                },
                e,
            ),
        ),
        None => match prev {
            Some(o) => o.system_tray,
            None => Some(default_tray()),
        },
    }
}

/// Applies an edit from the settings page to the configuration. A
/// configuration without preferences first gets the defaults (theme
/// `auto`, language `en-US`, autostart off, tray on); a tray edit on a
/// configuration without tray settings first gets the default tray; a
/// logging edit on one without logging first gets level `info` and file
/// `mcprouter.log`.
pub fn apply_settings_edit(config: &mut AppConfig, edit: SettingsEdit)
    requires
        edit.server matches Some(s) ==> (s.max_connections matches Some(m) ==> m <= usize::MAX),
    ensures
        final(config).settings is Some,
        final(config).mcp_servers == old(config).mcp_servers,
        ({
            let s = final(config).settings.unwrap();
            &&& s.theme == (match edit.theme {
                Some(t) => Some(t),
                None => match old(config).settings {
                    Some(o) => o.theme,
                    None => s.theme,
                },
            })
            &&& (old(config).settings is None && edit.theme is None) ==> (s.theme matches Some(t) && t@ == "auto"@)
            &&& s.language == (match edit.language {
                Some(l) => Some(l),
                None => match old(config).settings {
                    Some(o) => o.language,
                    None => s.language,
                },
            })
            &&& (old(config).settings is None && edit.language is None) ==> (s.language matches Some(l) && l@
                == "en-US"@)
            &&& s.autostart == (match edit.autostart {
                Some(a) => Some(a),
                None => match old(config).settings {
                    Some(o) => o.autostart,
                    None => Some(false),
                },
            })
            &&& s.uv_index_url == edited(
                match old(config).settings {
                    Some(o) => o.uv_index_url,
                    None => None,
                },
                edit.uv_index_url,
            )
            &&& s.npm_registry == edited(
                match old(config).settings {
                    Some(o) => o.npm_registry,
                    None => None,
                },
                edit.npm_registry,
            )
            &&& s.command_paths@ == (match edit.command_paths {
                Some(p) => p@,
                None => match old(config).settings {
                    Some(o) => o.command_paths@,
                    None => Map::<Seq<char>, String>::empty(),
                },
            })
            &&& s.system_tray == settings_tray_after(old(config).settings, edit.system_tray)
        }),
        match edit.logging {
            None => final(config).logging == old(config).logging,
            Some(le) => final(config).logging is Some && ({
                let l = final(config).logging.unwrap();
                &&& l.level == (match le.level {
                    Some(v) => v,
                    None => match old(config).logging {
                        Some(o) => o.level,
                        None => l.level,
                    },
                })
                &&& (old(config).logging is None && le.level is None) ==> l.level@ == default_logging_level()
                &&& match old(config).logging {
                    Some(o) => l.file_name == edited(o.file_name, le.file_name),
                    None => match le.file_name {
                        FieldEdit::Absent => l.file_name matches Some(f) && f@ == default_log_file(),
                        _ => l.file_name == edited(None, le.file_name),
                    },
                }
            }),
        },
        match edit.server {
            None => final(config).server == old(config).server,
            Some(se) => {
                &&& final(config).server.host == (match se.host {
                    Some(h) => h,
                    None => old(config).server.host,
                })
                &&& final(config).server.port == (match se.port {
                    Some(p) => p as u16,
                    None => old(config).server.port,
                })
                &&& final(config).server.max_connections == (match se.max_connections {
                    Some(m) => m as usize,
                    None => old(config).server.max_connections,
                })
                &&& final(config).server.timeout_seconds == (match se.timeout_seconds {
                    Some(t) => t,
                    None => old(config).server.timeout_seconds,
                })
                &&& final(config).server.auth == (match se.auth {
                    Some(a) => a,
                    None => old(config).server.auth,
                })
            },
        },
{
    if config.settings.is_none() {
        config.settings = Some(default_settings("en-US"));
    }
    let SettingsEdit {
        theme,
        language,
        autostart,
        system_tray,
        uv_index_url,
        npm_registry,
        command_paths,
        logging,
        server,
    } = edit;
    let mut s = match config.settings.take() {
        Some(s) => s,
        None => default_settings("en-US"),
    };
    if let Some(t) = theme {
        s.theme = Some(t);
    }
    if let Some(l) = language {
        s.language = Some(l);
    }
    if let Some(a) = autostart {
        s.autostart = Some(a);
    }
    if let Some(te) = system_tray {
        let mut t = match s.system_tray.take() {
            Some(t) => t,
            None => new_default_tray(),
        };
        apply_tray_edit(&mut t, te);
        s.system_tray = Some(t);
    }
    apply_field(&mut s.uv_index_url, uv_index_url);
    apply_field(&mut s.npm_registry, npm_registry);
    if let Some(p) = command_paths {
        s.command_paths = p;
    }
    config.settings = Some(s);
    if let Some(le) = logging {
        let mut l = match config.logging.take() {
            Some(l) => l,
            None => LoggingSettings { level: "info".to_owned(), file_name: Some("mcprouter.log".to_owned()) },
        };
        if let Some(v) = le.level {
            l.level = v;
        }
        apply_field(&mut l.file_name, le.file_name);
        config.logging = Some(l);
    }
    if let Some(se) = server {
        apply_server_edit(&mut config.server, se);
    }
}

/// The server settings differ in a way that requires restarting the
/// aggregator after a save: host, port, limit, timeout or authentication.
pub open spec fn server_settings_changed(a: ServerConfig, b: ServerConfig) -> bool {
    a.host@ != b.host@ || a.port != b.port || a.max_connections != b.max_connections || a.timeout_seconds
        != b.timeout_seconds || a.auth != b.auth
}

/// Whether saving settings must restart the aggregator.
pub fn server_config_changed(a: &ServerConfig, b: &ServerConfig) -> (r: bool)
    ensures
        r == server_settings_changed(*a, *b),
{
    !str_eq(a.host.as_str(), b.host.as_str()) || a.port != b.port || a.max_connections != b.max_connections
        || a.timeout_seconds != b.timeout_seconds || a.auth != b.auth
}

/// Whether a new configuration changes where or how the aggregator
/// listens (host, port, limit or timeout; authentication is not counted).
pub fn needs_aggregator_restart_with_configs(old_config: &AppConfig, new_config: &AppConfig) -> (r: bool)
    ensures
        r == (old_config.server.host@ != new_config.server.host@ || old_config.server.port != new_config.server.port
            || old_config.server.max_connections != new_config.server.max_connections
            || old_config.server.timeout_seconds != new_config.server.timeout_seconds),
{
    !str_eq(old_config.server.host.as_str(), new_config.server.host.as_str()) || old_config.server.port
        != new_config.server.port || old_config.server.max_connections != new_config.server.max_connections
        || old_config.server.timeout_seconds != new_config.server.timeout_seconds
}

/// What a save of the settings leads to.
#[derive(Debug)]
pub struct SaveOutcome {
    /// The aggregator must be restarted with the new server settings.
    pub restart_aggregator: bool,
    /// The tray icon's visibility changed.
    pub tray_changed: bool,
    /// Whether the tray icon is now shown.
    pub tray_visible: bool,
    /// The message answered to the settings page.
    pub message: String,
}

/// The answer to a save that restarted the aggregator on `host:port`.
pub open spec fn restarted_message(host: Seq<char>, port: u16) -> Seq<char> {
    "Settings saved successfully. Aggregator restarted on "@ + host + ":"@ + decimal(port as nat)
}

/// What saving `new` over `prev` leads to, and the message answered.
pub fn save_outcome(prev: &AppConfig, new: &AppConfig) -> (r: SaveOutcome)
    ensures
        r.restart_aggregator == server_settings_changed(prev.server, new.server),
        r.tray_visible == tray_visible(*new),
        r.tray_changed == (tray_visible(*prev) != tray_visible(*new)),
        r.restart_aggregator ==> r.message@ == restarted_message(new.server.host@, new.server.port),
        !r.restart_aggregator ==> r.message@ == "Settings saved successfully"@,
{
    let restart = server_config_changed(&prev.server, &new.server);
    let old_tray = is_tray_visible(prev);
    let new_tray = is_tray_visible(new);
    let message = if restart {
        let port = usize_to_string(new.server.port as usize);
        concat3(
            concat2("Settings saved successfully. Aggregator restarted on ", new.server.host.as_str()).as_str(),
            ":",
            port.as_str(),
        )
    } else {
        "Settings saved successfully".to_owned()
    };
    SaveOutcome { restart_aggregator: restart, tray_changed: old_tray != new_tray, tray_visible: new_tray, message }
}

/// The languages the interface offers.
pub open spec fn supported_language(l: Seq<char>) -> bool {
    l == "zh-CN"@ || l == "en-US"@
}

/// Sets the interface language. Only `zh-CN` and `en-US` are accepted; a
/// configuration without preferences gets the defaults with that language.
pub fn save_language_preference(config: &mut AppConfig, language: &str) -> (r: Result<String, McpError>)
    ensures
        !supported_language(language@) ==> (r matches Err(McpError::ConfigError(m)) && m@ == "Unsupported language: "@
            + language@) && *final(config) == *old(config),
        supported_language(language@) ==> (r matches Ok(m) && m@ == "Language preference saved: "@ + language@)
            && final(config).settings is Some && (final(config).settings.unwrap().language matches Some(l) && l@
            == language@) && final(config).server == old(config).server && final(config).logging == old(
            config,
        ).logging && final(config).mcp_servers == old(config).mcp_servers,
{
    if !str_eq(language, "zh-CN") && !str_eq(language, "en-US") {
        return Err(McpError::ConfigError(concat2("Unsupported language: ", language)));
    }
    match config.settings.take() {
        None => {
            config.settings = Some(default_settings(language));
        },
        Some(mut s) => {
            s.language = Some(language.to_owned());
            config.settings = Some(s);
        },
    }
    Ok(concat2("Language preference saved: ", language))
}

/// The interface language, if set.
pub fn get_language_preference(config: &AppConfig) -> (r: Option<String>)
    ensures
        r == (match config.settings {
            Some(s) => s.language,
            None => None,
        }),
{
    match &config.settings {
        Some(s) => match &s.language {
            Some(l) => Some(l.clone()),
            None => None,
        },
        None => None,
    }
}

/// The language of the tray menu: the configured one, else `zh-CN`.
pub open spec fn tray_language(config: AppConfig) -> Seq<char> {
    match config.settings {
        Some(s) => match s.language {
            Some(l) => l@,
            None => "zh-CN"@,
        },
        None => "zh-CN"@,
    }
}

/// The theme of the tray menu: the configured one, else `auto`.
pub open spec fn tray_theme(config: AppConfig) -> Seq<char> {
    match config.settings {
        Some(s) => match s.theme {
            Some(t) => t@,
            None => "auto"@,
        },
        None => "auto"@,
    }
}

/// The language and theme the tray menu is built with.
pub fn tray_language_and_theme(config: &AppConfig) -> (r: (String, String))
    ensures
        r.0@ == tray_language(*config),
        r.1@ == tray_theme(*config),
{
    match &config.settings {
        Some(s) => {
            let l = match &s.language {
                Some(l) => l.clone(),
                None => "zh-CN".to_owned(),
            };
            let t = match &s.theme {
                Some(t) => t.clone(),
                None => "auto".to_owned(),
            };
            (l, t)
        },
        None => ("zh-CN".to_owned(), "auto".to_owned()),
    }
}

/// The answer to a toggle of autostart: the new state on success, the
/// failure otherwise (`was_enabled` is the state before the toggle).
pub fn autostart_toggle_result(was_enabled: bool, outcome: Result<(), String>) -> (r: Result<String, McpError>)
    ensures
        was_enabled && outcome is Ok ==> (r matches Ok(m) && m@ == "Auto-startup disabled"@),
        !was_enabled && outcome is Ok ==> (r matches Ok(m) && m@ == "Auto-startup enabled"@),
        was_enabled && outcome is Err ==> (r matches Err(McpError::ConfigError(m)) && m@
            == "Failed to disable autostart: "@ + outcome->Err_0@),
        !was_enabled && outcome is Err ==> (r matches Err(McpError::ConfigError(m)) && m@
            == "Failed to enable autostart: "@ + outcome->Err_0@),
{
    match outcome {
        Ok(()) => {
            if was_enabled {
                Ok("Auto-startup disabled".to_owned())
            } else {
                Ok("Auto-startup enabled".to_owned())
            }
        },
        Err(e) => {
            if was_enabled {
                Err(McpError::ConfigError(concat2("Failed to disable autostart: ", e.as_str())))
            } else {
                Err(McpError::ConfigError(concat2("Failed to enable autostart: ", e.as_str())))
            }
        },
    }
}

/// The label of a tray menu item in a language: Chinese for `zh-CN`,
/// English otherwise; the two language items are named in their own
/// language; an unknown item has no label.
pub open spec fn tray_text(key: Seq<char>, language: Seq<char>) -> Seq<char> {
    if key == "show_window"@ {
        if language == "zh-CN"@ { "显示主窗口"@ } else { "Show Main Window"@ }
    } else if key == "servers"@ {
        if language == "zh-CN"@ { "服务器管理"@ } else { "Server Management"@ }
    } else if key == "marketplace"@ {
        if language == "zh-CN"@ { "市场"@ } else { "Marketplace"@ }
    } else if key == "settings"@ {
        if language == "zh-CN"@ { "设置"@ } else { "Settings"@ }
    } else if key == "theme"@ {
        if language == "zh-CN"@ { "主题"@ } else { "Theme"@ }
    } else if key == "theme_auto"@ {
        if language == "zh-CN"@ { "自动（跟随系统）"@ } else { "Auto (Follow System)"@ }
    } else if key == "theme_light"@ {
        if language == "zh-CN"@ { "亮色"@ } else { "Light"@ }
    } else if key == "theme_dark"@ {
        if language == "zh-CN"@ { "暗色"@ } else { "Dark"@ }
    } else if key == "language"@ {
        if language == "zh-CN"@ { "语言"@ } else { "Language"@ }
    } else if key == "about"@ {
        if language == "zh-CN"@ { "关于 MCP Router"@ } else { "About MCP Router"@ }
    } else if key == "quit"@ {
        if language == "zh-CN"@ { "退出"@ } else { "Quit"@ }
    } else if key == "language_zh_cn"@ {
        "简体中文"@
    } else if key == "language_en_us"@ {
        "English (US)"@
    } else {
        ""@
    }
}

/// The label of a tray menu item in a language.
pub fn get_tray_text(key: &str, language: &str) -> (r: &'static str)
    ensures
        r@ == tray_text(key@, language@),
{
    let zh = str_eq(language, "zh-CN");
    if str_eq(key, "show_window") {
        if zh { "显示主窗口" } else { "Show Main Window" }
    } else if str_eq(key, "servers") {
        if zh { "服务器管理" } else { "Server Management" }
    } else if str_eq(key, "marketplace") {
        if zh { "市场" } else { "Marketplace" }
    } else if str_eq(key, "settings") {
        if zh { "设置" } else { "Settings" }
    } else if str_eq(key, "theme") {
        if zh { "主题" } else { "Theme" }
    } else if str_eq(key, "theme_auto") {
        if zh { "自动（跟随系统）" } else { "Auto (Follow System)" }
    } else if str_eq(key, "theme_light") {
        if zh { "亮色" } else { "Light" }
    } else if str_eq(key, "theme_dark") {
        if zh { "暗色" } else { "Dark" }
    } else if str_eq(key, "language") {
        if zh { "语言" } else { "Language" }
    } else if str_eq(key, "about") {
        if zh { "关于 MCP Router" } else { "About MCP Router" }
    } else if str_eq(key, "quit") {
        if zh { "退出" } else { "Quit" }
    } else if str_eq(key, "language_zh_cn") {
        "简体中文"
    } else if str_eq(key, "language_en_us") {
        "English (US)"
    } else {
        ""
    }
}

/// The tray settings are consistent: a tray that is off does not close to
/// the tray.
pub open spec fn tray_consistent(t: SystemTraySettings) -> bool {
    t.enabled == Some(false) ==> t.close_to_tray != Some(true)
}

/// The preferences' tray settings, where there are any, are consistent.
pub open spec fn settings_tray_consistent(s: Option<Settings>) -> bool {
    match s {
        Some(o) => match o.system_tray {
            Some(t) => tray_consistent(t),
            None => true,
        },
        None => true,
    }
}

/// Saving an edit from the settings page keeps the tray settings
/// consistent: where the saved preferences never closed to the tray while
/// the tray was off, the preferences after the edit do not either.
pub proof fn law_settings_edit_keeps_tray_consistency(prev: Option<Settings>, e: Option<TrayEdit>)
    requires
        settings_tray_consistent(prev),
    ensures
        match settings_tray_after(prev, e) {
            Some(t) => tray_consistent(t),
            None => true,
        },
{
}

/// Every tray edit keeps the tray settings consistent, and the default
/// tray is consistent: closing to the tray is never left on for a tray that
/// is switched off.
pub proof fn law_tray_edit_keeps_consistency(t: SystemTraySettings, e: TrayEdit)
    requires
        tray_consistent(t),
    ensures
        tray_consistent(tray_after(t, e)),
        tray_consistent(default_tray()),
        e.enabled == Some(false) ==> tray_after(t, e).close_to_tray == Some(false),
{
}

/// While the tray is off, an edit that does not switch it on leaves
/// closing to the tray as it was: the request to turn it on is ignored.
pub proof fn law_close_to_tray_needs_tray(t: SystemTraySettings, e: TrayEdit)
    requires
        t.enabled == Some(false),
        e.enabled != Some(true),
        e.close_to_tray == Some(true),
    ensures
        tray_after(t, e).close_to_tray == (match e.enabled {
            Some(false) => Some(false),
            _ => t.close_to_tray,
        }),
{
}

/// The tray's quit item reads in Chinese for `zh-CN` and in English for
/// `en-US`.
pub proof fn law_tray_quit_labels()
    ensures
        tray_text("quit"@, "zh-CN"@) == "退出"@,
        tray_text("quit"@, "en-US"@) == "Quit"@,
{
    reveal_strlit("zh-CN");
    reveal_strlit("en-US");
    reveal_strlit("quit");
    reveal_strlit("show_window");
    reveal_strlit("servers");
    reveal_strlit("marketplace");
    reveal_strlit("settings");
    reveal_strlit("theme");
    reveal_strlit("theme_auto");
    reveal_strlit("theme_light");
    reveal_strlit("theme_dark");
    reveal_strlit("language");
    reveal_strlit("about");
    assert("zh-CN"@[0] != "en-US"@[0]);
    assert("quit"@.len() != "show_window"@.len());
    assert("quit"@[0] != "servers"@[0]);
    assert("quit"@.len() != "marketplace"@.len());
    assert("quit"@[0] != "settings"@[0]);
    assert("quit"@[0] != "theme"@[0]);
    assert("quit"@[0] != "theme_auto"@[0]);
    assert("quit"@[0] != "theme_light"@[0]);
    assert("quit"@[0] != "theme_dark"@[0]);
    assert("quit"@[0] != "language"@[0]);
    assert("quit"@[0] != "about"@[0]);
}

/// The paths of a system command found on `PATH`, each once, in sorted
/// order.
pub fn get_system_command_paths(found_paths: Vec<String>) -> (r: Vec<String>)
    ensures
        crate::text::strictly_sorted(crate::text::views(r@)),
        forall|x: Seq<char>|
            crate::text::views(r@).contains(x) <==> crate::text::views(found_paths@).contains(x),
{
    crate::text::sort_unique(found_paths)
}

/// Whether a configured path can be used as a command.
#[derive(Debug, Clone, Copy, PartialEq, Eq, Structural)]
pub struct PathValidity {
    /// The path exists.
    pub exists: bool,
    /// The path exists and some execute permission bit is set.
    pub is_executable: bool,
}

/// Judges a path from whether it exists and, where its metadata could be
/// read, its Unix permission bits: it is executable when it exists and
/// the owner, group or others may execute it.
pub fn path_validity(exists: bool, mode: Option<u32>) -> (r: PathValidity)
    ensures
        r.exists == exists,
        r.is_executable == (exists && (mode matches Some(m) && m & 0o111u32 != 0)),
{
    let is_executable = if exists {
        match mode {
            Some(m) => m & 0o111u32 != 0,
            None => false,
        }
    } else {
        false
    };
    PathValidity { exists, is_executable }
}

/// How much the application logs.
#[derive(Clone, Copy, Debug, PartialEq, Eq, Structural)]
pub enum LogLevel {
    /// Everything.
    Trace,
    /// Debugging output and above.
    Debug,
    /// Information and above.
    Info,
    /// Warnings and errors.
    Warn,
    /// Errors only.
    Error,
}

/// The level a configured level name stands for, its case ignored;
/// `info` for an unknown name.
pub open spec fn level_named(name: Seq<char>) -> LogLevel {
    if crate::text::eq_ignore_ascii_case(name, "trace"@) {
        LogLevel::Trace
    } else if crate::text::eq_ignore_ascii_case(name, "debug"@) {
        LogLevel::Debug
    } else if crate::text::eq_ignore_ascii_case(name, "info"@) {
        LogLevel::Info
    } else if crate::text::eq_ignore_ascii_case(name, "warn"@) {
        LogLevel::Warn
    } else if crate::text::eq_ignore_ascii_case(name, "error"@) {
        LogLevel::Error
    } else {
        LogLevel::Info
    }
}

/// The level the application starts logging at: the configured one, else
/// `info`. (No character outside ASCII lowercases to a letter of these
/// names, so ignoring ASCII case is the same as comparing lowercased.)
pub fn log_level(logging: &Option<LoggingSettings>) -> (r: LogLevel)
    ensures
        r == (match *logging {
            Some(l) => level_named(l.level@),
            None => LogLevel::Info,
        }),
{
    match logging {
        Some(l) => {
            let name = l.level.as_str();
            if crate::text::str_eq_ignore_ascii_case(name, "trace") {
                LogLevel::Trace
            } else if crate::text::str_eq_ignore_ascii_case(name, "debug") {
                LogLevel::Debug
            } else if crate::text::str_eq_ignore_ascii_case(name, "info") {
                LogLevel::Info
            } else if crate::text::str_eq_ignore_ascii_case(name, "warn") {
                LogLevel::Warn
            } else if crate::text::str_eq_ignore_ascii_case(name, "error") {
                LogLevel::Error
            } else {
                LogLevel::Info
            }
        },
        None => LogLevel::Info,
    }
}

/// The settings as they are shown: those stored, with the autostart flag
/// the system reports where it could be asked (`system_state`). A
/// configuration without preferences gets empty ones holding only that
/// flag.
pub fn show_autostart_state(config: &mut AppConfig, system_state: Option<bool>)
    ensures
        final(config).server == old(config).server,
        final(config).logging == old(config).logging,
        final(config).mcp_servers == old(config).mcp_servers,
        system_state is None ==> final(config).settings == old(config).settings,
        system_state matches Some(b) ==> match old(config).settings {
            Some(o) => final(config).settings == Some(Settings { autostart: Some(b), ..o }),
            None => final(config).settings matches Some(s) && s.autostart == Some(b) && s.theme is None
                && s.language is None && s.system_tray is None && s.uv_index_url is None && s.npm_registry is None
                && s.command_paths@ == Map::<Seq<char>, String>::empty(),
        },
{
    if let Some(b) = system_state {
        match config.settings.take() {
            Some(mut st) => {
                st.autostart = Some(b);
                config.settings = Some(st);
            },
            None => {
                config.settings = Some(
                    Settings {
                        theme: None,
                        language: None,
                        autostart: Some(b),
                        system_tray: None,
                        uv_index_url: None,
                        npm_registry: None,
                        command_paths: KeyedList::new(),
                    },
                );
            },
        }
    }
}

} // verus!
