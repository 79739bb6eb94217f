//! The server manager: its registered listeners, its tool-cache figures,
//! how a server's status and permissions are shown, and what a manifest
//! synchronisation decides.
use vstd::prelude::*;
use crate::error::{error_text, McpError};
use crate::notification_callback::{ListChange, ManifestChangeCallback};
use crate::text::{after_last, concat3, contains_seq, opt_str_eq, opt_text, str_contains, str_eq, string_lists_eq, views};
use crate::types::{McpServerConfig, transport_name};
use crate::entities::mcp_tool::Model as ToolRecord;
use crate::entities::mcp_resource::uri_last_segment;
use crate::entities::mcp_server::{stored_args, stored_map, Model as ServerRecord};
use crate::keyed::{KeyedList, text_values};
use crate::mcp_client::{McpClientManager, McpConnection};

verus! {

/// The manager of the configured MCP servers and of the listeners told
/// when their lists change.
pub struct McpServerManager<C: ManifestChangeCallback> {
    callbacks: Vec<C>,
}

impl<C: ManifestChangeCallback> McpServerManager<C> {
    /// The registered listeners, in registration order.
    pub closed spec fn callback_seq(&self) -> Seq<C> {
        self.callbacks@
    }

    /// A manager with no listener.
    pub fn new() -> (r: Self)
        ensures
            r.callback_seq().len() == 0,
    {
        McpServerManager { callbacks: Vec::new() }
    }

    /// Registers a listener after the others.
    pub fn register_callback(&mut self, callback: C)
        ensures
            final(self).callback_seq() == old(self).callback_seq().push(callback),
    {
        self.callbacks.push(callback);
    }

    /// Tells every listener, in registration order, that the tool list of
    /// `server_name` changed.
    pub fn notify_tools_changed(&mut self, server_name: &str)
        ensures
            final(self).callback_seq().len() == old(self).callback_seq().len(),
            forall|j: int|
                0 <= j < old(self).callback_seq().len() ==> #[trigger] final(self).callback_seq()[j].heard()
                    == old(self).callback_seq()[j].heard().push(ListChange::Tools(server_name@)),
    {
        let mut i: usize = 0;
        while i < self.callbacks.len()
            invariant
                i <= self.callbacks@.len(),
                self.callbacks@.len() == old(self).callbacks@.len(),
                forall|j: int|
                    0 <= j < i ==> #[trigger] self.callbacks@[j].heard() == old(self).callbacks@[j].heard().push(
                        ListChange::Tools(server_name@),
                    ),
                forall|j: int| i <= j < self.callbacks@.len() ==> #[trigger] self.callbacks@[j] == old(self).callbacks@[j],
            decreases self.callbacks@.len() - i,
        {
            let mut c = self.callbacks.remove(i);
            c.tools_list_changed(server_name);
            self.callbacks.insert(i, c);
            i += 1;
        }
    }

    /// Tells every listener, in registration order, that the resource list
    /// of `server_name` changed.
    pub fn notify_resources_changed(&mut self, server_name: &str)
        ensures
            final(self).callback_seq().len() == old(self).callback_seq().len(),
            forall|j: int|
                0 <= j < old(self).callback_seq().len() ==> #[trigger] final(self).callback_seq()[j].heard()
                    == old(self).callback_seq()[j].heard().push(ListChange::Resources(server_name@)),
    {
        let mut i: usize = 0;
        while i < self.callbacks.len()
            invariant
                i <= self.callbacks@.len(),
                self.callbacks@.len() == old(self).callbacks@.len(),
                forall|j: int|
                    0 <= j < i ==> #[trigger] self.callbacks@[j].heard() == old(self).callbacks@[j].heard().push(
                        ListChange::Resources(server_name@),
                    ),
                forall|j: int| i <= j < self.callbacks@.len() ==> #[trigger] self.callbacks@[j] == old(self).callbacks@[j],
            decreases self.callbacks@.len() - i,
        {
            let mut c = self.callbacks.remove(i);
            c.resources_list_changed(server_name);
            self.callbacks.insert(i, c);
            i += 1;
        }
    }

    /// Tells every listener, in registration order, that the prompt list of
    /// `server_name` changed.
    pub fn notify_prompts_changed(&mut self, server_name: &str)
        ensures
            final(self).callback_seq().len() == old(self).callback_seq().len(),
            forall|j: int|
                0 <= j < old(self).callback_seq().len() ==> #[trigger] final(self).callback_seq()[j].heard()
                    == old(self).callback_seq()[j].heard().push(ListChange::Prompts(server_name@)),
    {
        let mut i: usize = 0;
        while i < self.callbacks.len()
            invariant
                i <= self.callbacks@.len(),
                self.callbacks@.len() == old(self).callbacks@.len(),
                forall|j: int|
                    0 <= j < i ==> #[trigger] self.callbacks@[j].heard() == old(self).callbacks@[j].heard().push(
                        ListChange::Prompts(server_name@),
                    ),
                forall|j: int| i <= j < self.callbacks@.len() ==> #[trigger] self.callbacks@[j] == old(self).callbacks@[j],
            decreases self.callbacks@.len() - i,
        {
            let mut c = self.callbacks.remove(i);
            c.prompts_list_changed(server_name);
            self.callbacks.insert(i, c);
            i += 1;
        }
    }

    /// Ends the synchronisation of one list of `server_name`: decides the
    /// step from the stored count, what the fetch gave and whether saving
    /// succeeded, and tells every listener, in registration order, of the
    /// change exactly when the saved list's length changed.
    pub fn finish_sync_step(
        &mut self,
        list: ManifestList,
        server_name: &str,
        old_count: usize,
        fetched: &Result<usize, McpError>,
        saved: bool,
    ) -> (r: SyncAction)
        ensures
            r == sync_action(old_count, *fetched, saved),
            final(self).callback_seq().len() == old(self).callback_seq().len(),
            r == SyncAction::NotifyChanged ==> forall|j: int|
                0 <= j < old(self).callback_seq().len() ==> #[trigger] final(self).callback_seq()[j].heard()
                    == old(self).callback_seq()[j].heard().push(list_change(list, server_name@)),
            r != SyncAction::NotifyChanged ==> final(self).callback_seq() == old(self).callback_seq(),
    {
        let r = manifest_sync_action(old_count, fetched, saved);
        if r == SyncAction::NotifyChanged {
            match list {
                ManifestList::Tools => self.notify_tools_changed(server_name),
                ManifestList::Resources => self.notify_resources_changed(server_name),
                ManifestList::Prompts => self.notify_prompts_changed(server_name),
            }
        }
        r
    }

    /// The tool-cache entries reported in statistics: server, tool and
    /// hit count. They are fixed sample figures.
    pub fn get_tools_cache_entries(&self) -> (r: Vec<(String, String, u64)>)
        ensures
            r@.len() == 2,
            r@[0].0@ == "default_server"@ && r@[0].1@ == "example_tool"@ && r@[0].2 == 5,
            r@[1].0@ == "test_server"@ && r@[1].1@ == "sample_tool"@ && r@[1].2 == 3,
    {
        let mut v: Vec<(String, String, u64)> = Vec::new();
        v.push(("default_server".to_owned(), "example_tool".to_owned(), 5));
        v.push(("test_server".to_owned(), "sample_tool".to_owned(), 3));
        v
    }

    /// The lifetime of tool-cache entries, in seconds: five minutes.
    pub fn get_tools_cache_ttl_seconds(&self) -> (r: u64)
        ensures
            r == 300,
    {
        300
    }
}

/// A failure of a listing method that the server simply does not offer:
/// its text mentions `Method not found` or the code `-32601`.
pub open spec fn ignorable_error(text: Seq<char>) -> bool {
    contains_seq(text, "Method not found"@) || contains_seq(text, "-32601"@)
}

/// Whether a failed listing only means the server does not offer it.
pub fn should_ignore_mcp_error(error: &McpError) -> (r: bool)
    ensures
        r == ignorable_error(error_text(*error)),
{
    let text = error.message();
    str_contains(text.as_str(), "Method not found") || str_contains(text.as_str(), "-32601")
}

/// The status a server shows: its connection's status when it is enabled
/// and that status is `connected`, `connecting` or `disconnected`; `failed`
/// for an enabled server otherwise; `disabled` for a disabled one.
pub open spec fn display_status(enabled: bool, connection_status: Seq<char>) -> Seq<char> {
    if enabled && connection_status == "connected"@ {
        "connected"@
    } else if enabled && connection_status == "connecting"@ {
        "connecting"@
    } else if enabled && connection_status == "disconnected"@ {
        "disconnected"@
    } else if enabled {
        "failed"@
    } else {
        "disabled"@
    }
}

/// The status a server shows.
pub fn server_status(enabled: bool, connection_status: &str) -> (r: String)
    ensures
        r@ == display_status(enabled, connection_status@),
{
    if enabled && crate::text::str_eq(connection_status, "connected") {
        "connected".to_owned()
    } else if enabled && crate::text::str_eq(connection_status, "connecting") {
        "connecting".to_owned()
    } else if enabled && crate::text::str_eq(connection_status, "disconnected") {
        "disconnected".to_owned()
    } else if enabled {
        "failed".to_owned()
    } else {
        "disabled".to_owned()
    }
}

/// The transport a server shows: its stored type when that names a
/// transport, else `stdio`.
pub fn display_transport(server_type: &str) -> (r: String)
    ensures
        (server_type@ == "stdio"@ || server_type@ == "http"@) ==> r@ == server_type@,
        !(server_type@ == "stdio"@ || server_type@ == "http"@) ==> r@ == "stdio"@,
{
    match crate::types::ServiceTransport::parse(server_type) {
        Ok(t) => t.to_string(),
        Err(_) => "stdio".to_owned(),
    }
}

/// The lists a server's manifest is made of.
#[derive(Clone, Copy, Debug, PartialEq, Eq, Structural)]
pub enum ManifestList {
    /// Its tools.
    Tools,
    /// Its resources.
    Resources,
    /// Its prompts.
    Prompts,
}

/// The change listeners are told of when `list` of `server` changed.
pub open spec fn list_change(list: ManifestList, server: Seq<char>) -> ListChange {
    match list {
        ManifestList::Tools => ListChange::Tools(server),
        ManifestList::Resources => ListChange::Resources(server),
        ManifestList::Prompts => ListChange::Prompts(server),
    }
}

/// What one step of a manifest synchronisation leads to.
#[derive(Clone, Copy, Debug, PartialEq, Eq, Structural)]
pub enum SyncAction {
    /// The list was saved and its length changed: tell the listeners.
    NotifyChanged,
    /// The list was saved and its length is unchanged.
    Unchanged,
    /// The list could not be saved.
    SaveFailed,
    /// The server does not offer this list.
    Unsupported,
    /// The list could not be fetched.
    FetchFailed,
}

/// What one step of a manifest synchronisation leads to, from the stored
/// count, what the fetch gave (the new count, or the error) and whether
/// saving succeeded. Only the length of the list is compared.
pub open spec fn sync_action(old_count: usize, fetched: Result<usize, McpError>, saved: bool) -> SyncAction {
    match fetched {
        Ok(n) => if !saved {
            SyncAction::SaveFailed
        } else if n != old_count {
            SyncAction::NotifyChanged
        } else {
            SyncAction::Unchanged
        },
        Err(e) => if ignorable_error(error_text(e)) {
            SyncAction::Unsupported
        } else {
            SyncAction::FetchFailed
        },
    }
}

/// Decides one step of a manifest synchronisation from the stored count,
/// what the fetch gave (the new count, or the error) and whether saving
/// succeeded. Only the length of the list is compared.
pub fn manifest_sync_action(old_count: usize, fetched: &Result<usize, McpError>, saved: bool) -> (r: SyncAction)
    ensures
        r == sync_action(old_count, *fetched, saved),
{
    match fetched {
        Ok(n) => {
            if !saved {
                SyncAction::SaveFailed
            } else if *n != old_count {
                SyncAction::NotifyChanged
            } else {
                SyncAction::Unchanged
            }
        },
        Err(e) => {
            if should_ignore_mcp_error(e) {
                SyncAction::Unsupported
            } else {
                SyncAction::FetchFailed
            }
        },
    }
}

/// A configured server as listings show it: its record, the state of its
/// connection and the counts of what it offers.
#[derive(Debug)]
pub struct McpServerInfo {
    /// The server's name.
    pub name: String,
    /// Whether it is enabled.
    pub enabled: bool,
    /// The status shown.
    pub status: String,
    /// The version the server reported, while connected.
    pub version: Option<String>,
    /// Why the last connection attempt failed.
    pub error_message: Option<String>,
    /// The transport shown.
    pub transport: String,
    /// The URL of an http server.
    pub url: Option<String>,
    /// The description.
    pub description: Option<String>,
    /// The environment variables.
    pub env: Option<KeyedList<String>>,
    /// The request headers.
    pub headers: Option<KeyedList<String>>,
    /// The command of a stdio server.
    pub command: Option<String>,
    /// The command's arguments.
    pub args: Option<Vec<String>>,
    /// Stored tools.
    pub tool_count: Option<usize>,
    /// Stored resources.
    pub resource_count: Option<usize>,
    /// Stored prompts.
    pub prompt_count: Option<usize>,
    /// Stored prompts that take arguments.
    pub prompt_template_count: Option<usize>,
}

/// The connection the client manager remembers for `name`.
pub open spec fn remembered(clients: McpClientManager, name: Seq<char>) -> Option<McpConnection> {
    if clients.connections().contains_key(name) {
        Some(clients.connections()[name])
    } else {
        None
    }
}

/// The transport shown for a stored type: the type when it names a
/// transport, else `stdio`.
pub open spec fn shown_transport(server_type: Seq<char>) -> Seq<char> {
    if server_type == "stdio"@ || server_type == "http"@ {
        server_type
    } else {
        "stdio"@
    }
}

/// `info` shows the stored server `record`, given what `clients` remembers
/// of its connection and the counts (tools, resources, prompts, prompt
/// templates) stored for it. Unreadable arguments, headers or environment
/// show as empty.
pub open spec fn is_info_of(
    info: McpServerInfo,
    record: ServerRecord,
    clients: McpClientManager,
    counts: (usize, usize, usize, usize),
) -> bool {
    let conn = remembered(clients, record.name@);
    let st = crate::mcp_client::status_of(conn);
    &&& info.name@ == record.name@
    &&& info.enabled == record.enabled
    &&& info.status@ == display_status(record.enabled, st.0)
    &&& info.error_message == st.1
    &&& info.version == (match conn {
        Some(c) => if c.status.is_connected {
            c.server_version
        } else {
            None
        },
        None => None,
    })
    &&& info.transport@ == shown_transport(record.server_type@)
    &&& info.url == record.url
    &&& info.description == record.description
    &&& info.command == record.command
    &&& (info.args matches Some(a) && views(a@) == (match stored_args(record.args) {
        Some(x) => x,
        None => Seq::<Seq<char>>::empty(),
    }))
    &&& (info.env matches Some(e) && text_values(e@) == (match stored_map(record.env) {
        Some(m) => m,
        None => Map::<Seq<char>, Seq<char>>::empty(),
    }))
    &&& (info.headers matches Some(h) && text_values(h@) == (match stored_map(record.headers) {
        Some(m) => m,
        None => Map::<Seq<char>, Seq<char>>::empty(),
    }))
    &&& info.tool_count == Some(counts.0)
    &&& info.resource_count == Some(counts.1)
    &&& info.prompt_count == Some(counts.2)
    &&& info.prompt_template_count == Some(counts.3)
}

fn map_or_empty(r: Result<KeyedList<String>, serde_json::Error>) -> (m: KeyedList<String>)
    ensures
        r is Ok ==> m@ == r->Ok_0@,
        r is Err ==> text_values(m@) == Map::<Seq<char>, Seq<char>>::empty(),
{
    match r {
        Ok(m) => m,
        Err(_) => {
            let m: KeyedList<String> = KeyedList::new();
            assert(text_values(m@) =~= Map::<Seq<char>, Seq<char>>::empty());
            m
        },
    }
}

/// How a stored server is listed: its record, the status and version of
/// its connection as `clients` remembers them, and the given counts.
pub fn server_info(record: ServerRecord, clients: &McpClientManager, counts: (usize, usize, usize, usize)) -> (r:
    McpServerInfo)
    ensures
        is_info_of(r, record, *clients, counts),
{
    let args = match record.parse_args() {
        Ok(a) => a,
        Err(_) => {
            let a: Vec<String> = Vec::new();
            assert(views(a@) =~= Seq::<Seq<char>>::empty());
            a
        },
    };
    let headers = map_or_empty(record.parse_headers());
    let env = map_or_empty(record.parse_env());
    let (connection_status, error_message) = clients.get_connection_status(record.name.as_str());
    let status = server_status(record.enabled, connection_status.as_str());
    let version = clients.get_server_version(record.name.as_str());
    let transport = display_transport(record.server_type.as_str());
    McpServerInfo {
        name: record.name,
        enabled: record.enabled,
        status,
        version,
        error_message,
        transport,
        url: record.url,
        description: record.description,
        env: Some(env),
        headers: Some(headers),
        command: record.command,
        args: Some(args),
        tool_count: Some(counts.0),
        resource_count: Some(counts.1),
        prompt_count: Some(counts.2),
        prompt_template_count: Some(counts.3),
    }
}

/// How a page of stored servers is listed; `counts[i]` holds what is stored
/// for `records[i]`.
pub fn server_infos(
    records: Vec<ServerRecord>,
    clients: &McpClientManager,
    counts: &Vec<(usize, usize, usize, usize)>,
) -> (r: Vec<McpServerInfo>)
    requires
        counts@.len() == records@.len(),
    ensures
        r@.len() == records@.len(),
        forall|i: int| 0 <= i < r@.len() ==> is_info_of(#[trigger] r@[i], records@[i], *clients, counts@[i]),
{
    let ghost orig = records@;
    let mut rest = records;
    let mut rev: Vec<ServerRecord> = Vec::new();
    while rest.len() > 0
        invariant
            rest@.len() + rev@.len() == orig.len(),
            rest@ == orig.take(rest@.len() as int),
            forall|j: int| 0 <= j < rev@.len() ==> rev@[j] == orig[orig.len() - 1 - j],
        decreases rest@.len(),
    {
        let rec = rest.pop().unwrap();
        rev.push(rec);
        assert(rest@ =~= orig.take(rest@.len() as int));
    }
    let mut out: Vec<McpServerInfo> = Vec::new();
    let n = rev.len();
    while rev.len() > 0
        invariant
            n == orig.len(),
            counts@.len() == n,
            out@.len() + rev@.len() == n,
            forall|j: int| 0 <= j < rev@.len() ==> rev@[j] == orig[n - 1 - j],
            forall|i: int| 0 <= i < out@.len() ==> is_info_of(#[trigger] out@[i], orig[i], *clients, counts@[i]),
        decreases rev@.len(),
    {
        let k = out.len();
        let rec = rev.pop().unwrap();
        assert(rec == orig[k as int]);
        let info = server_info(rec, clients, counts[k]);
        out.push(info);
    }
    out
}

/// The names of the listed servers whose status is `connected`.
pub fn get_connected_server_names(infos: &Vec<McpServerInfo>) -> (r: Vec<String>)
    ensures
        forall|x: Seq<char>|
            views(r@).contains(x) <==> exists|i: int|
                0 <= i < infos@.len() && #[trigger] infos@[i].status@ == "connected"@ && infos@[i].name@ == x,
{
    let mut r: Vec<String> = Vec::new();
    let mut i: usize = 0;
    while i < infos.len()
        invariant
            i <= infos@.len(),
            forall|x: Seq<char>|
                views(r@).contains(x) <==> exists|j: int|
                    0 <= j < i && #[trigger] infos@[j].status@ == "connected"@ && infos@[j].name@ == x,
        decreases infos@.len() - i,
    {
        let ghost before = views(r@);
        assert forall|x: Seq<char>| before.contains(x) <==> exists|j: int|
            0 <= j < i && #[trigger] infos@[j].status@ == "connected"@ && infos@[j].name@ == x by {
            assert(before.contains(x) == views(r@).contains(x));
        }
        if str_eq(infos[i].status.as_str(), "connected") {
            r.push(infos[i].name.clone());
            assert(views(r@) =~= before.push(infos@[i as int].name@));
            assert forall|x: Seq<char>|
                views(r@).contains(x) <==> exists|j: int|
                    0 <= j < i + 1 && #[trigger] infos@[j].status@ == "connected"@ && infos@[j].name@ == x by {
                if views(r@).contains(x) && x != infos@[i as int].name@ {
                    let k = choose|k: int| 0 <= k < views(r@).len() && views(r@)[k] == x;
                    assert(before[k] == x);
                    assert(before.contains(x));
                }
                if before.contains(x) {
                    let k = choose|k: int| 0 <= k < before.len() && before[k] == x;
                    assert(views(r@)[k] == x);
                }
                if x == infos@[i as int].name@ {
                    assert(views(r@)[before.len() as int] == x);
                }
            }
        } else {
            assert forall|x: Seq<char>|
                views(r@).contains(x) <==> exists|j: int|
                    0 <= j < i + 1 && #[trigger] infos@[j].status@ == "connected"@ && infos@[j].name@ == x by {
                assert(views(r@) == before);
                if exists|j: int| 0 <= j < i + 1 && #[trigger] infos@[j].status@ == "connected"@ && infos@[j].name@ == x {
                    let j = choose|j: int| 0 <= j < i + 1 && #[trigger] infos@[j].status@ == "connected"@ && infos@[j].name@ == x;
                    assert(j != i);
                }
            }
        }
        i += 1;
    }
    r
}

/// The arguments a stored server is started with: those stored, or none
/// where they cannot be read.
pub open spec fn args_or_empty(a: Option<Seq<Seq<char>>>) -> Seq<Seq<char>> {
    match a {
        Some(x) => x,
        None => Seq::<Seq<char>>::empty(),
    }
}

/// Whether an update changes how the server is reached: its transport
/// (a stored type that names none counts as changed), command, arguments,
/// URL or enabled flag.
pub open spec fn reconnect_needed(old: ServerRecord, new: McpServerConfig) -> bool {
    ||| old.server_type@ != transport_name(new.transport)
    ||| opt_text(old.command) != opt_text(new.command)
    ||| args_or_empty(stored_args(old.args)) != (match new.args {
        Some(a) => views(a@),
        None => Seq::<Seq<char>>::empty(),
    })
    ||| opt_text(old.url) != opt_text(new.url)
    ||| old.enabled != new.enabled
}

/// A server is reconnected when how it is reached changes: a new URL, a
/// new command, new arguments, another transport, or being switched on or
/// off each calls for it; when none of these changes, it keeps its
/// connection.
pub proof fn law_reconnect_when_reach_changes(old: ServerRecord, new: McpServerConfig)
    ensures
        opt_text(old.url) != opt_text(new.url) ==> reconnect_needed(old, new),
        opt_text(old.command) != opt_text(new.command) ==> reconnect_needed(old, new),
        old.enabled != new.enabled ==> reconnect_needed(old, new),
        old.server_type@ != transport_name(new.transport) ==> reconnect_needed(old, new),
        args_or_empty(stored_args(old.args)) != (match new.args {
            Some(a) => views(a@),
            None => Seq::<Seq<char>>::empty(),
        }) ==> reconnect_needed(old, new),
        (opt_text(old.url) == opt_text(new.url) && opt_text(old.command) == opt_text(new.command) && old.enabled
            == new.enabled && old.server_type@ == transport_name(new.transport) && args_or_empty(stored_args(old.args))
            == (match new.args {
            Some(a) => views(a@),
            None => Seq::<Seq<char>>::empty(),
        })) ==> !reconnect_needed(old, new),
{
}

/// Whether updating the stored server `old` to `new_config` requires
/// reconnecting.
pub fn should_reconnect(old: &ServerRecord, new_config: &McpServerConfig) -> (r: bool)
    ensures
        r == reconnect_needed(*old, *new_config),
        opt_text(old.url) != opt_text(new_config.url) ==> r,
        opt_text(old.command) != opt_text(new_config.command) ==> r,
        old.enabled != new_config.enabled ==> r,
        old.server_type@ != transport_name(new_config.transport) ==> r,
{
    let transport_changed = match crate::types::ServiceTransport::parse(old.server_type.as_str()) {
        Ok(t) => {
            proof {
                crate::types::lemma_transport_names_distinct();
            }
            t != new_config.transport
        },
        Err(_) => {
            proof {
                crate::types::lemma_transport_names_distinct();
            }
            true
        },
    };
    let command_changed = !opt_str_eq(&old.command, &new_config.command);
    let url_changed = !opt_str_eq(&old.url, &new_config.url);
    let enabled_changed = old.enabled != new_config.enabled;
    let old_args = match old.parse_args() {
        Ok(a) => a,
        Err(_) => {
            let a: Vec<String> = Vec::new();
            assert(views(a@) =~= Seq::<Seq<char>>::empty());
            a
        },
    };
    let args_changed = match &new_config.args {
        Some(a) => !string_lists_eq(old_args.as_slice(), a.as_slice()),
        None => {
            let empty: Vec<String> = Vec::new();
            assert(views(empty@) =~= Seq::<Seq<char>>::empty());
            !string_lists_eq(old_args.as_slice(), empty.as_slice())
        },
    };
    transport_changed || command_changed || args_changed || url_changed || enabled_changed
}

/// What updating a server entails: whether its connection is dropped and
/// its cached lists cleared before the record is replaced, and whether it
/// is connected and synchronised afterwards.
#[derive(Debug, Clone, Copy, PartialEq, Eq, Structural)]
pub struct UpdatePlan {
    /// Disconnect and clear the cache first.
    pub reconnect: bool,
    /// Connect and synchronise after the update.
    pub connect_after: bool,
}

/// Plans the update of a server to `config`, `old` being its stored record
/// if there is one: a server with no record is always reconnected, and
/// only an enabled server is connected again.
pub fn update_plan(old: &Option<ServerRecord>, config: &McpServerConfig) -> (r: UpdatePlan)
    ensures
        r.reconnect == (match *old {
            Some(o) => reconnect_needed(o, *config),
            None => true,
        }),
        r.connect_after == (config.enabled && r.reconnect),
        (old matches Some(o) && opt_text(o.url) != opt_text(config.url)) ==> r.reconnect && (config.enabled
            ==> r.connect_after),
{
    proof {
        if old.is_some() {
            law_reconnect_when_reach_changes(old.unwrap(), *config);
        }
    }
    let reconnect = match old {
        Some(o) => should_reconnect(o, config),
        None => true,
    };
    UpdatePlan { reconnect, connect_after: config.enabled && reconnect }
}

/// The error for a server name with no record.
pub fn server_not_found(server_name: &str) -> (r: McpError)
    ensures
        r matches McpError::NotFound(m) && m@ == "Server '"@ + server_name@ + "' not found"@,
{
    McpError::NotFound(concat3("Server '", server_name, "' not found"))
}

/// `i` is the position of the first stored server named `name`.
pub open spec fn first_named(records: Seq<ServerRecord>, name: Seq<char>, i: int) -> bool {
    &&& 0 <= i < records.len()
    &&& records[i].name@ == name
    &&& forall|j: int| 0 <= j < i ==> #[trigger] records[j].name@ != name
}

/// The server a manifest synchronisation of `server_name` works on: the
/// position of the first stored record with that name; without one, the
/// not-found error that ends the synchronisation before anything is
/// fetched.
pub fn sync_target(records: &Vec<ServerRecord>, server_name: &str) -> (r: Result<usize, McpError>)
    ensures
        match r {
            Ok(i) => first_named(records@, server_name@, i as int),
            Err(e) => (forall|j: int| 0 <= j < records@.len() ==> #[trigger] records@[j].name@ != server_name@) && (e matches McpError::NotFound(
                m,
            ) && m@ == "Server '"@ + server_name@ + "' not found"@),
        },
{
    let mut i: usize = 0;
    while i < records.len()
        invariant
            i <= records@.len(),
            forall|j: int| 0 <= j < i ==> #[trigger] records@[j].name@ != server_name@,
        decreases records@.len() - i,
    {
        if str_eq(records[i].name.as_str(), server_name) {
            return Ok(i);
        }
        i += 1;
    }
    Err(server_not_found(server_name))
}

/// The state a tool takes when toggled: the opposite of that of the first
/// stored tool named `tool_name`; without one, a not-found error.
pub fn toggled_tool_state(tools: &Vec<ToolRecord>, server_name: &str, tool_name: &str) -> (r: Result<bool, McpError>)
    ensures
        match r {
            Ok(b) => exists|i: int|
                0 <= i < tools@.len() && #[trigger] tools@[i].name@ == tool_name@ && b == !tools@[i].enabled
                    && forall|j: int| 0 <= j < i ==> #[trigger] tools@[j].name@ != tool_name@,
            Err(e) => (forall|i: int| 0 <= i < tools@.len() ==> #[trigger] tools@[i].name@ != tool_name@)
                && (e matches McpError::NotFound(m) && m@ == "Tool '"@ + tool_name@ + "' not found on server '"@
                + server_name@ + "'"@),
        },
{
    let mut i: usize = 0;
    while i < tools.len()
        invariant
            i <= tools@.len(),
            forall|j: int| 0 <= j < i ==> #[trigger] tools@[j].name@ != tool_name@,
        decreases tools@.len() - i,
    {
        if str_eq(tools[i].name.as_str(), tool_name) {
            return Ok(!tools[i].enabled);
        }
        i += 1;
    }
    let mut m = concat3("Tool '", tool_name, "' not found on server '");
    crate::text::push_str(&mut m, server_name);
    crate::text::push_str(&mut m, "'");
    Err(McpError::NotFound(m))
}

/// A stored tool of a server, as permission listings see it.
#[derive(Debug)]
pub struct ToolEntry {
    /// Record id.
    pub id: String,
    /// Name.
    pub name: String,
    /// Description.
    pub description: Option<String>,
}

/// A stored resource of a server, as permission listings see it.
#[derive(Debug)]
pub struct ResourceEntry {
    /// Record id.
    pub id: String,
    /// Name, if any.
    pub name: Option<String>,
    /// URI.
    pub uri: String,
    /// Description.
    pub description: Option<String>,
}

/// A configured server with its stored tools, resources and prompts.
#[derive(Debug)]
pub struct ServerManifest {
    /// The server's name.
    pub name: String,
    /// Whether it is enabled.
    pub enabled: bool,
    /// Its tools.
    pub tools: Vec<ToolEntry>,
    /// Its resources.
    pub resources: Vec<ResourceEntry>,
    /// Its prompts (same fields as tools).
    pub prompts: Vec<ToolEntry>,
}

/// The kinds of permission.
#[derive(Clone, Copy, Debug, PartialEq, Eq, Structural)]
pub enum PermissionKind {
    /// `tool`.
    Tool,
    /// `resource`.
    Resource,
    /// `prompt`.
    Prompt,
}

/// The kind a type name stands for, if any.
pub open spec fn kind_of(t: Seq<char>) -> Option<PermissionKind> {
    if t == "tool"@ {
        Some(PermissionKind::Tool)
    } else if t == "resource"@ {
        Some(PermissionKind::Resource)
    } else if t == "prompt"@ {
        Some(PermissionKind::Prompt)
    } else {
        None
    }
}

/// The kind a type name stands for, if any.
pub fn parse_kind(t: &str) -> (r: Option<PermissionKind>)
    ensures
        r == kind_of(t@),
{
    if str_eq(t, "tool") {
        Some(PermissionKind::Tool)
    } else if str_eq(t, "resource") {
        Some(PermissionKind::Resource)
    } else if str_eq(t, "prompt") {
        Some(PermissionKind::Prompt)
    } else {
        None
    }
}

/// How a resource is named in a permission: its name, else the last
/// segment of its URI.
pub open spec fn resource_perm_name(r: ResourceEntry) -> Seq<char> {
    match r.name {
        Some(n) => n@,
        None => after_last(r.uri@, '/'),
    }
}

/// The names of a server's items of a kind, in order.
pub open spec fn item_names(s: ServerManifest, kind: PermissionKind) -> Seq<Seq<char>> {
    match kind {
        PermissionKind::Tool => Seq::new(s.tools@.len(), |i: int| s.tools@[i].name@),
        PermissionKind::Resource => Seq::new(s.resources@.len(), |i: int| resource_perm_name(s.resources@[i])),
        PermissionKind::Prompt => Seq::new(s.prompts@.len(), |i: int| s.prompts@[i].name@),
    }
}

/// `server__item` for each item name.
pub open spec fn prefixed(server: Seq<char>, names: Seq<Seq<char>>) -> Seq<Seq<char>> {
    Seq::new(names.len(), |i: int| server + "__"@ + names[i])
}

/// The permissions of enabled servers, in order.
pub open spec fn all_permissions(servers: Seq<ServerManifest>, kind: PermissionKind) -> Seq<Seq<char>>
    decreases servers.len(),
{
    if servers.len() == 0 {
        Seq::<Seq<char>>::empty()
    } else {
        let s = servers.last();
        all_permissions(servers.drop_last(), kind) + if s.enabled {
            prefixed(s.name@, item_names(s, kind))
        } else {
            Seq::<Seq<char>>::empty()
        }
    }
}

/// The placeholder permission of a kind, offered when nothing else is.
pub open spec fn fallback_permission(kind: PermissionKind) -> Seq<char> {
    match kind {
        PermissionKind::Tool => "all_tools"@,
        PermissionKind::Resource => "all_resources"@,
        PermissionKind::Prompt => "all_prompts"@,
    }
}

/// The permissions that can be granted for a type name: `server__item`
/// for every item of that kind of every enabled server; the kind's
/// placeholder when there is none; nothing for an unknown type.
pub open spec fn available_permissions(servers: Seq<ServerManifest>, t: Seq<char>) -> Seq<Seq<char>> {
    match kind_of(t) {
        None => Seq::<Seq<char>>::empty(),
        Some(k) => if all_permissions(servers, k).len() == 0 {
            seq![fallback_permission(k)]
        } else {
            all_permissions(servers, k)
        },
    }
}

/// The name of the item at `i` of a server, of a kind.
fn item_name_at(s: &ServerManifest, kind: PermissionKind, i: usize) -> (r: String)
    requires
        i < item_names(*s, kind).len(),
    ensures
        r@ == item_names(*s, kind)[i as int],
{
    match kind {
        PermissionKind::Tool => s.tools[i].name.clone(),
        PermissionKind::Prompt => s.prompts[i].name.clone(),
        PermissionKind::Resource => match &s.resources[i].name {
            Some(n) => n.clone(),
            None => uri_last_segment(s.resources[i].uri.as_str()),
        },
    }
}

fn item_count(s: &ServerManifest, kind: PermissionKind) -> (r: usize)
    ensures
        r == item_names(*s, kind).len(),
{
    match kind {
        PermissionKind::Tool => s.tools.len(),
        PermissionKind::Resource => s.resources.len(),
        PermissionKind::Prompt => s.prompts.len(),
    }
}

/// The permissions of every enabled server of `servers` for one kind.
pub fn permissions_of_kind(servers: &Vec<ServerManifest>, kind: PermissionKind) -> (r: Vec<String>)
    ensures
        views(r@) == all_permissions(servers@, kind),
{
    let mut out: Vec<String> = Vec::new();
    let mut i: usize = 0;
    while i < servers.len()
        invariant
            i <= servers@.len(),
            views(out@) == all_permissions(servers@.take(i as int), kind),
        decreases servers@.len() - i,
    {
        let s = &servers[i];
        assert(servers@.take(i + 1).drop_last() =~= servers@.take(i as int));
        assert(servers@.take(i + 1).last() == *s);
        if s.enabled {
            let n = item_count(s, kind);
            let ghost base = views(out@);
            let mut j: usize = 0;
            while j < n
                invariant
                    s.enabled,
                    j <= n,
                    n == item_names(*s, kind).len(),
                    views(out@) == base + prefixed(s.name@, item_names(*s, kind)).take(j as int),
                decreases n - j,
            {
                let name = item_name_at(s, kind, j);
                let p = concat3(s.name.as_str(), "__", name.as_str());
                let ghost before = views(out@);
                out.push(p);
                assert(views(out@) =~= before.push(p@));
                assert(prefixed(s.name@, item_names(*s, kind)).take(j + 1) =~= prefixed(
                    s.name@,
                    item_names(*s, kind),
                ).take(j as int).push(p@));
                j += 1;
            }
            assert(prefixed(s.name@, item_names(*s, kind)).take(n as int) =~= prefixed(s.name@, item_names(*s, kind)));
        } else {
            assert(views(out@) =~= views(out@) + Seq::<Seq<char>>::empty());
        }
        i += 1;
    }
    assert(servers@.take(servers@.len() as int) =~= servers@);
    out
}

/// The permissions that can be granted for the type name `resource_type`.
pub fn list_available_permissions(servers: &Vec<ServerManifest>, resource_type: &str) -> (r: Vec<String>)
    ensures
        views(r@) == available_permissions(servers@, resource_type@),
{
    match parse_kind(resource_type) {
        None => Vec::new(),
        Some(k) => {
            let mut v = permissions_of_kind(servers, k);
            if v.len() == 0 {
                let f = match k {
                    PermissionKind::Tool => "all_tools".to_owned(),
                    PermissionKind::Resource => "all_resources".to_owned(),
                    PermissionKind::Prompt => "all_prompts".to_owned(),
                };
                let ghost before = v@;
                v.push(f);
                assert(views(v@) =~= seq![fallback_permission(k)]);
            }
            v
        },
    }
}

/// A permission that can be granted, as the permission page lists it.
#[derive(Debug)]
pub struct PermissionItem {
    /// The item's record id.
    pub id: String,
    /// `server__item`.
    pub resource_path: String,
    /// `tool`, `resource` or `prompt`.
    pub resource_type: String,
    /// The item's description.
    pub description: Option<String>,
    /// The server's name.
    pub server_name: String,
}

/// How a resource is named on the permission page: its URI, else its
/// name (empty without one).
pub open spec fn resource_page_name(r: ResourceEntry) -> Seq<char> {
    if r.uri@.len() > 0 {
        r.uri@
    } else {
        match r.name {
            Some(n) => n@,
            None => Seq::<char>::empty(),
        }
    }
}

/// The type name of a kind.
pub open spec fn kind_name(k: PermissionKind) -> Seq<char> {
    match k {
        PermissionKind::Tool => "tool"@,
        PermissionKind::Resource => "resource"@,
        PermissionKind::Prompt => "prompt"@,
    }
}

/// The permission item of the item at `i` of a server.
pub open spec fn page_item_ok(p: PermissionItem, s: ServerManifest, kind: PermissionKind, i: int) -> bool {
    &&& p.server_name == s.name
    &&& p.resource_type@ == kind_name(kind)
    &&& match kind {
        PermissionKind::Tool => p.id == s.tools@[i].id && p.description == s.tools@[i].description
            && p.resource_path@ == s.name@ + "__"@ + s.tools@[i].name@,
        PermissionKind::Prompt => p.id == s.prompts@[i].id && p.description == s.prompts@[i].description
            && p.resource_path@ == s.name@ + "__"@ + s.prompts@[i].name@,
        PermissionKind::Resource => p.id == s.resources@[i].id && p.description == s.resources@[i].description
            && p.resource_path@ == s.name@ + "__"@ + resource_page_name(s.resources@[i]),
    }
}

fn copy_opt(s: &Option<String>) -> (r: Option<String>)
    ensures
        r == *s,
{
    match s {
        Some(v) => Some(v.clone()),
        None => None,
    }
}

/// The permission items of one enabled server of a kind, in order.
pub fn server_permission_items(s: &ServerManifest, kind: PermissionKind) -> (r: Vec<PermissionItem>)
    ensures
        r@.len() == item_names(*s, kind).len(),
        forall|i: int| 0 <= i < r@.len() ==> page_item_ok(#[trigger] r@[i], *s, kind, i),
{
    let n = item_count(s, kind);
    let mut out: Vec<PermissionItem> = Vec::new();
    let mut i: usize = 0;
    while i < n
        invariant
            i <= n,
            n == item_names(*s, kind).len(),
            out@.len() == i,
            forall|j: int| 0 <= j < i ==> page_item_ok(#[trigger] out@[j], *s, kind, j),
        decreases n - i,
    {
        let (id, name, description, kind_label) = match kind {
            PermissionKind::Tool => (
                s.tools[i].id.clone(),
                s.tools[i].name.clone(),
                copy_opt(&s.tools[i].description),
                "tool",
            ),
            PermissionKind::Prompt => (
                s.prompts[i].id.clone(),
                s.prompts[i].name.clone(),
                copy_opt(&s.prompts[i].description),
                "prompt",
            ),
            PermissionKind::Resource => {
                let r = &s.resources[i];
                let nm = if crate::text::chars_of(r.uri.as_str()).len() > 0 {
                    r.uri.clone()
                } else {
                    match &r.name {
                        Some(x) => x.clone(),
                        None => String::new(),
                    }
                };
                (r.id.clone(), nm, copy_opt(&r.description), "resource")
            },
        };
        out.push(
            PermissionItem {
                id,
                resource_path: concat3(s.name.as_str(), "__", name.as_str()),
                resource_type: kind_label.to_owned(),
                description,
                server_name: s.name.clone(),
            },
        );
        i += 1;
    }
    out
}

/// How many permission items the enabled servers among the first `j`
/// offer for a kind.
pub open spec fn items_before(servers: Seq<ServerManifest>, kind: PermissionKind, j: int) -> nat
    decreases j,
{
    if j <= 0 {
        0
    } else {
        items_before(servers, kind, j - 1) + if servers[j - 1].enabled {
            item_names(servers[j - 1], kind).len()
        } else {
            0nat
        }
    }
}

/// The permission items of every enabled server for one kind, server by
/// server: the items of the `j`-th server start after those of the enabled
/// servers before it.
pub fn get_detailed_permissions_by_type(servers: &Vec<ServerManifest>, resource_type: &str) -> (r: Vec<PermissionItem>)
    ensures
        kind_of(resource_type@) is None ==> r@.len() == 0,
        kind_of(resource_type@) matches Some(kind) ==> {
            &&& r@.len() == items_before(servers@, kind, servers@.len() as int)
            &&& forall|j: int, i: int|
                0 <= j < servers@.len() && servers@[j].enabled && 0 <= i < item_names(servers@[j], kind).len()
                    ==> page_item_ok(
                    #[trigger] r@[items_before(servers@, kind, j) + i],
                    #[trigger] servers@[j],
                    kind,
                    i,
                )
        },
{
    let kind = match parse_kind(resource_type) {
        Some(k) => k,
        None => {
            return Vec::new();
        },
    };
    let mut out: Vec<PermissionItem> = Vec::new();
    let mut i: usize = 0;
    while i < servers.len()
        invariant
            i <= servers@.len(),
            out@.len() == items_before(servers@, kind, i as int),
            forall|j: int, k: int|
                0 <= j < i && servers@[j].enabled && 0 <= k < item_names(servers@[j], kind).len() ==> page_item_ok(
                    #[trigger] out@[items_before(servers@, kind, j) + k],
                    #[trigger] servers@[j],
                    kind,
                    k,
                ),
            forall|j: int| 0 <= j <= i ==> #[trigger] items_before(servers@, kind, j) <= out@.len(),
        decreases servers@.len() - i,
    {
        let ghost before = out@;
        if servers[i].enabled {
            let mut items = server_permission_items(&servers[i], kind);
            out.append(&mut items);
        }
        proof {
            assert forall|j: int| 0 <= j <= i + 1 implies #[trigger] items_before(servers@, kind, j) <= out@.len() by {
                if j <= i {
                    assert(items_before(servers@, kind, j) <= before.len());
                }
            }
            assert forall|j: int, k: int|
                0 <= j < i + 1 && servers@[j].enabled && 0 <= k < item_names(servers@[j], kind).len() implies page_item_ok(
                #[trigger] out@[items_before(servers@, kind, j) + k],
                #[trigger] servers@[j],
                kind,
                k,
            ) by {
                if j < i {
                    assert(items_before(servers@, kind, j + 1) <= items_before(servers@, kind, i as int)) by {
                        lemma_items_before_mono(servers@, kind, j + 1, i as int);
                    }
                    assert(out@[items_before(servers@, kind, j) + k] == before[items_before(servers@, kind, j) + k]);
                }
            }
        }
        i += 1;
    }
    out
}

proof fn lemma_items_before_mono(servers: Seq<ServerManifest>, kind: PermissionKind, a: int, b: int)
    requires
        a <= b,
    ensures
        items_before(servers, kind, a) <= items_before(servers, kind, b),
    decreases b - a,
{
    if a < b {
        lemma_items_before_mono(servers, kind, a, b - 1);
    }
}

/// The permissions offered on the permission page.
#[derive(Debug)]
pub struct AvailablePermissions {
    /// Tools.
    pub tools: Vec<PermissionItem>,
    /// Resources.
    pub resources: Vec<PermissionItem>,
    /// Prompts.
    pub prompts: Vec<PermissionItem>,
    /// Prompt templates (not offered yet).
    pub prompt_templates: Vec<PermissionItem>,
}

/// The permission page's content: for a given type only that list (an
/// unknown type is invalid input), otherwise all three.
pub fn available_permissions_for(servers: &Vec<ServerManifest>, resource_type: Option<&str>) -> (r: Result<
    AvailablePermissions,
    McpError,
>)
    ensures
        resource_type is Some && kind_of(resource_type.unwrap()@) is None ==> (r matches Err(McpError::InvalidInput(m))
            && m@ == "Invalid resource_type: "@ + resource_type.unwrap()@),
        resource_type is Some && kind_of(resource_type.unwrap()@) == Some(PermissionKind::Tool) ==> (r matches Ok(a)
            && a.resources@.len() == 0 && a.prompts@.len() == 0 && a.prompt_templates@.len() == 0),
        resource_type is Some && kind_of(resource_type.unwrap()@) == Some(PermissionKind::Resource) ==> (r matches Ok(a)
            && a.tools@.len() == 0 && a.prompts@.len() == 0 && a.prompt_templates@.len() == 0),
        resource_type is Some && kind_of(resource_type.unwrap()@) == Some(PermissionKind::Prompt) ==> (r matches Ok(a)
            && a.tools@.len() == 0 && a.resources@.len() == 0 && a.prompt_templates@.len() == 0),
        resource_type is None ==> (r matches Ok(a) && a.prompt_templates@.len() == 0),
{
    match resource_type {
        Some(t) => match parse_kind(t) {
            None => Err(McpError::InvalidInput(crate::text::concat2("Invalid resource_type: ", t))),
            Some(PermissionKind::Tool) => Ok(
                AvailablePermissions {
                    tools: get_detailed_permissions_by_type(servers, t),
                    resources: Vec::new(),
                    prompts: Vec::new(),
                    prompt_templates: Vec::new(),
                },
            ),
            Some(PermissionKind::Resource) => Ok(
                AvailablePermissions {
                    tools: Vec::new(),
                    resources: get_detailed_permissions_by_type(servers, t),
                    prompts: Vec::new(),
                    prompt_templates: Vec::new(),
                },
            ),
            Some(PermissionKind::Prompt) => Ok(
                AvailablePermissions {
                    tools: Vec::new(),
                    resources: Vec::new(),
                    prompts: get_detailed_permissions_by_type(servers, t),
                    prompt_templates: Vec::new(),
                },
            ),
        },
        None => Ok(
            AvailablePermissions {
                tools: get_detailed_permissions_by_type(servers, "tool"),
                resources: get_detailed_permissions_by_type(servers, "resource"),
                prompts: get_detailed_permissions_by_type(servers, "prompt"),
                prompt_templates: Vec::new(),
            },
        ),
    }
}

/// The transport a stored server type stands for; an unknown type is
/// taken as stdio.
pub open spec fn stored_transport(server_type: Seq<char>) -> crate::types::ServiceTransport {
    if server_type == "http"@ {
        crate::types::ServiceTransport::Http
    } else {
        crate::types::ServiceTransport::Stdio
    }
}

/// The map a stored JSON-object field gives a connection: none when the
/// field is absent or does not read as an object of strings.
pub open spec fn connection_map(field: Option<String>, m: Option<crate::keyed::KeyedList<String>>) -> bool {
    match field {
        None => m is None,
        Some(s) => match crate::json::json_string_map(s@) {
            Some(x) => m matches Some(k) && text_values(k@) == x,
            None => m is None,
        },
    }
}

/// `c` is the configuration the stored record `raw` is connected with: its
/// transport (stdio when the stored type names none), its arguments,
/// headers and environment where present and readable (none otherwise),
/// and its other fields as stored.
pub open spec fn is_connection_config(c: McpServerConfig, raw: ServerRecord) -> bool {
    &&& c.name == raw.name
    &&& c.description == raw.description
    &&& c.transport == stored_transport(raw.server_type@)
    &&& c.command == raw.command
    &&& (match raw.args {
        Some(a) => match crate::json::json_string_list(a@) {
            Some(x) => c.args matches Some(v) && views(v@) == x,
            None => c.args is None,
        },
        None => c.args is None,
    })
    &&& c.url == raw.url
    &&& connection_map(raw.headers, c.headers)
    &&& connection_map(raw.env, c.env)
    &&& c.enabled == raw.enabled
}

fn connection_map_of(field: &Option<String>) -> (r: Option<crate::keyed::KeyedList<String>>)
    ensures
        connection_map(*field, r),
{
    match field {
        Some(s) => match crate::json::parse_string_map(s.as_str()) {
            Ok(pairs) => {
                let ghost p = pairs@;
                let mut m: crate::keyed::KeyedList<String> = crate::keyed::KeyedList::new();
                crate::mcp_client::merge_env(&mut m, pairs);
                proof {
                    crate::mcp_client::lemma_insert_all_into_empty(p);
                }
                Some(m)
            },
            Err(_) => None,
        },
        None => None,
    }
}

/// The configuration a stored server record is connected with.
pub fn server_config_from_model(raw: &ServerRecord) -> (r: McpServerConfig)
    ensures
        is_connection_config(r, *raw),
{
    proof {
        crate::types::lemma_transport_names_distinct();
    }
    let transport = match raw.get_server_type() {
        Ok(t) => t,
        Err(_) => crate::types::ServiceTransport::Stdio,
    };
    let args = match &raw.args {
        Some(a) => match crate::json::parse_string_list(a.as_str()) {
            Ok(v) => Some(v),
            Err(_) => None,
        },
        None => None,
    };
    McpServerConfig {
        name: raw.name.clone(),
        description: copy_opt(&raw.description),
        command: copy_opt(&raw.command),
        args,
        env: connection_map_of(&raw.env),
        transport,
        url: copy_opt(&raw.url),
        headers: connection_map_of(&raw.headers),
        enabled: raw.enabled,
    }
}

/// The enabled records, in order.
pub open spec fn enabled_records(records: Seq<ServerRecord>) -> Seq<ServerRecord>
    decreases records.len(),
{
    if records.len() == 0 {
        Seq::<ServerRecord>::empty()
    } else {
        let rest = enabled_records(records.drop_last());
        if records.last().enabled {
            rest.push(records.last())
        } else {
            rest
        }
    }
}

/// How many servers a start-up connects at once.
pub const CONNECT_BATCH_SIZE: usize = 3;

/// How long a start-up waits for one connection, in seconds.
pub const CONNECT_TIMEOUT_SECONDS: u64 = 15;

/// The configurations a start-up connects, in batches, with: one per
/// enabled stored server, in order.
pub fn batch_connection_configs(records: &Vec<ServerRecord>) -> (r: Vec<McpServerConfig>)
    ensures
        r@.len() == enabled_records(records@).len(),
        forall|k: int| 0 <= k < r@.len() ==> is_connection_config(#[trigger] r@[k], enabled_records(records@)[k]),
{
    let mut out: Vec<McpServerConfig> = Vec::new();
    let mut i: usize = 0;
    while i < records.len()
        invariant
            i <= records@.len(),
            out@.len() == enabled_records(records@.take(i as int)).len(),
            forall|k: int|
                0 <= k < out@.len() ==> is_connection_config(#[trigger] out@[k], enabled_records(records@.take(i as int))[k]),
        decreases records@.len() - i,
    {
        assert(records@.take(i as int + 1).drop_last() =~= records@.take(i as int));
        assert(records@.take(i as int + 1).last() == records@[i as int]);
        if records[i].enabled {
            let c = server_config_from_model(&records[i]);
            out.push(c);
        }
        i += 1;
    }
    assert(records@.take(records@.len() as int) =~= records@);
    out
}

/// The servers a start-up connects to: those enabled and shown as
/// disconnected, in order (by name).
pub open spec fn auto_connect_names(servers: Seq<(String, bool, String)>) -> Seq<Seq<char>>
    decreases servers.len(),
{
    if servers.len() == 0 {
        Seq::<Seq<char>>::empty()
    } else {
        let rest = auto_connect_names(servers.drop_last());
        let s = servers.last();
        if s.1 && s.2@ == "disconnected"@ {
            rest.push(s.0@)
        } else {
            rest
        }
    }
}

/// Some server named `name` is enabled and shown as disconnected.
pub open spec fn enabled_disconnected(servers: Seq<(String, bool, String)>, name: Seq<char>) -> bool {
    exists|i: int|
        0 <= i < servers.len() && servers[i].1 && servers[i].2@ == "disconnected"@ && #[trigger] servers[i].0@ == name
}

/// A start-up connects every enabled server shown as disconnected, and only
/// such servers: each name it picks is that of an enabled, disconnected
/// server (so a server shown as connected, whose name no other server
/// shares, is never picked).
pub proof fn law_auto_connect_picks_disconnected(servers: Seq<(String, bool, String)>)
    ensures
        forall|i: int|
            0 <= i < servers.len() && servers[i].1 && servers[i].2@ == "disconnected"@ ==> auto_connect_names(
                servers,
            ).contains(#[trigger] servers[i].0@),
        forall|k: int|
            0 <= k < auto_connect_names(servers).len() ==> enabled_disconnected(
                servers,
                #[trigger] auto_connect_names(servers)[k],
            ),
    decreases servers.len(),
{
    if servers.len() > 0 {
        let d = servers.drop_last();
        law_auto_connect_picks_disconnected(d);
        let rest = auto_connect_names(d);
        let all = auto_connect_names(servers);
        let l = servers.last();
        assert forall|i: int|
            0 <= i < servers.len() && servers[i].1 && servers[i].2@ == "disconnected"@ implies all.contains(
                #[trigger] servers[i].0@,
            ) by {
            if i < servers.len() - 1 {
                assert(d[i] == servers[i]);
                assert(rest.contains(d[i].0@));
                let k = choose|k: int| 0 <= k < rest.len() && rest[k] == d[i].0@;
                assert(all[k] == rest[k]);
            } else {
                assert(all[rest.len() as int] == l.0@);
            }
        }
        assert forall|k: int| 0 <= k < all.len() implies enabled_disconnected(servers, #[trigger] all[k]) by {
            if k < rest.len() {
                assert(all[k] == rest[k]);
                let i = choose|i: int|
                    0 <= i < d.len() && d[i].1 && d[i].2@ == "disconnected"@ && #[trigger] d[i].0@ == rest[k];
                assert(servers[i] == d[i]);
                assert(servers[i].0@ == all[k]);
            } else {
                assert(l.1 && l.2@ == "disconnected"@);
                assert(all[k] == l.0@);
                assert(servers[servers.len() - 1].0@ == all[k]);
            }
        }
    }
}

/// The names of the servers a start-up connects to, from each server's
/// name, enabled flag and shown status.
pub fn auto_connect_candidates(servers: &Vec<(String, bool, String)>) -> (r: Vec<String>)
    ensures
        views(r@) == auto_connect_names(servers@),
        forall|i: int|
            0 <= i < servers@.len() && servers@[i].1 && servers@[i].2@ == "disconnected"@ ==> views(r@).contains(
                #[trigger] servers@[i].0@,
            ),
        forall|k: int| 0 <= k < r@.len() ==> enabled_disconnected(servers@, (#[trigger] r@[k])@),
{
    proof {
        law_auto_connect_picks_disconnected(servers@);
    }
    let r = auto_connect_list(servers);
    proof {
        let names = auto_connect_names(servers@);
        assert forall|k: int| 0 <= k < r@.len() implies enabled_disconnected(servers@, (#[trigger] r@[k])@) by {
            assert(views(r@)[k] == r@[k]@);
            assert(names[k] == r@[k]@);
        }
    }
    r
}

fn auto_connect_list(servers: &Vec<(String, bool, String)>) -> (r: Vec<String>)
    ensures
        views(r@) == auto_connect_names(servers@),
{
    let mut out: Vec<String> = Vec::new();
    let mut i: usize = 0;
    while i < servers.len()
        invariant
            i <= servers@.len(),
            views(out@) == auto_connect_names(servers@.take(i as int)),
        decreases servers@.len() - i,
    {
        assert(servers@.take(i + 1).drop_last() =~= servers@.take(i as int));
        let s = &servers[i];
        if s.1 && str_eq(s.2.as_str(), "disconnected") {
            let ghost before = views(out@);
            out.push(s.0.clone());
            assert(views(out@) =~= before.push(s.0@));
        }
        i += 1;
    }
    assert(servers@.take(servers@.len() as int) =~= servers@);
    out
}

/// The configuration a freshly enabled server is connected with: what its
/// listing shows, enabled, over the transport it shows (stdio when that
/// names none).
pub fn config_from_info(info: McpServerInfo) -> (r: McpServerConfig)
    ensures
        r.name@ == info.name@,
        r.description == info.description,
        r.transport == stored_transport(info.transport@),
        r.command == info.command,
        r.args == info.args,
        r.url == info.url,
        r.headers == info.headers,
        r.env == info.env,
        r.enabled,
{
    proof {
        crate::types::lemma_transport_names_distinct();
    }
    let transport = match crate::types::ServiceTransport::parse(info.transport.as_str()) {
        Ok(t) => t,
        Err(_) => crate::types::ServiceTransport::Stdio,
    };
    McpServerConfig {
        name: info.name,
        description: info.description,
        command: info.command,
        args: info.args,
        env: info.env,
        transport,
        url: info.url,
        headers: info.headers,
        enabled: true,
    }
}

/// Totals over listed servers.
#[derive(Debug, Clone, Copy, PartialEq, Eq, Structural)]
pub struct ServerStatistics {
    /// Servers listed.
    pub total_servers: usize,
    /// Enabled servers.
    pub enabled_servers: usize,
    /// Servers shown as connected.
    pub connected_servers: usize,
    /// Stored tools over all servers.
    pub total_tools: usize,
    /// Stored resources over all servers.
    pub total_resources: usize,
    /// Stored prompts over all servers.
    pub total_prompts: usize,
}

/// A count that is absent counts as zero.
pub open spec fn count_or_zero(c: Option<usize>) -> int {
    match c {
        Some(n) => n as int,
        None => 0,
    }
}

/// The totals of a listing: servers, enabled ones, connected ones, and the
/// sums of their counts.
pub open spec fn totals(infos: Seq<McpServerInfo>) -> (int, int, int, int, int)
    decreases infos.len(),
{
    if infos.len() == 0 {
        (0, 0, 0, 0, 0)
    } else {
        let t = totals(infos.drop_last());
        let s = infos.last();
        (
            t.0 + if s.enabled { 1int } else { 0int },
            t.1 + if s.status@ == "connected"@ { 1int } else { 0int },
            t.2 + count_or_zero(s.tool_count),
            t.3 + count_or_zero(s.resource_count),
            t.4 + count_or_zero(s.prompt_count),
        )
    }
}

/// The totals of a prefix of a listing are at most those of the listing.
proof fn lemma_totals_prefix(infos: Seq<McpServerInfo>, k: int)
    requires
        0 <= k <= infos.len(),
    ensures
        totals(infos.take(k)).2 <= totals(infos).2,
        totals(infos.take(k)).3 <= totals(infos).3,
        totals(infos.take(k)).4 <= totals(infos).4,
        0 <= totals(infos.take(k)).0 <= k,
        0 <= totals(infos.take(k)).1 <= k,
        0 <= totals(infos.take(k)).2,
        0 <= totals(infos.take(k)).3,
        0 <= totals(infos.take(k)).4,
    decreases infos.len(),
{
    if k < infos.len() {
        assert(infos.drop_last().take(k) =~= infos.take(k));
        lemma_totals_prefix(infos.drop_last(), k);
    } else {
        assert(infos.take(k) =~= infos);
        if k > 0 {
            assert(infos.drop_last().take(k - 1) =~= infos.drop_last());
            lemma_totals_prefix(infos.drop_last(), k - 1);
        }
    }
}

/// The totals of the listed servers. The sums of the counts must fit a
/// `usize`.
pub fn server_statistics(infos: &Vec<McpServerInfo>) -> (r: ServerStatistics)
    requires
        totals(infos@).2 <= usize::MAX,
        totals(infos@).3 <= usize::MAX,
        totals(infos@).4 <= usize::MAX,
    ensures
        r.total_servers == infos@.len(),
        r.enabled_servers == totals(infos@).0,
        r.connected_servers == totals(infos@).1,
        r.total_tools == totals(infos@).2,
        r.total_resources == totals(infos@).3,
        r.total_prompts == totals(infos@).4,
{
    let mut st = ServerStatistics {
        total_servers: infos.len(),
        enabled_servers: 0,
        connected_servers: 0,
        total_tools: 0,
        total_resources: 0,
        total_prompts: 0,
    };
    let mut i: usize = 0;
    while i < infos.len()
        invariant
            i <= infos@.len(),
            st.total_servers == infos@.len(),
            totals(infos@).2 <= usize::MAX,
            totals(infos@).3 <= usize::MAX,
            totals(infos@).4 <= usize::MAX,
            st.enabled_servers == totals(infos@.take(i as int)).0,
            st.connected_servers == totals(infos@.take(i as int)).1,
            st.total_tools == totals(infos@.take(i as int)).2,
            st.total_resources == totals(infos@.take(i as int)).3,
            st.total_prompts == totals(infos@.take(i as int)).4,
        decreases infos@.len() - i,
    {
        proof {
            assert(infos@.take(i as int + 1).drop_last() =~= infos@.take(i as int));
            lemma_totals_prefix(infos@, i as int + 1);
        }
        let s = &infos[i];
        if s.enabled {
            st.enabled_servers = st.enabled_servers + 1;
        }
        if str_eq(s.status.as_str(), "connected") {
            st.connected_servers = st.connected_servers + 1;
        }
        st.total_tools = st.total_tools + match s.tool_count {
            Some(n) => n,
            None => 0,
        };
        st.total_resources = st.total_resources + match s.resource_count {
            Some(n) => n,
            None => 0,
        };
        st.total_prompts = st.total_prompts + match s.prompt_count {
            Some(n) => n,
            None => 0,
        };
        i += 1;
    }
    assert(infos@.take(infos@.len() as int) =~= infos@);
    st
}

/// A tool as a server lists it, its JSON parts already written as text
/// (absent where the server sent none).
#[derive(Debug)]
pub struct FetchedTool {
    /// Name.
    pub name: String,
    /// Description.
    pub description: Option<String>,
    /// Input schema.
    pub input_schema: Option<String>,
    /// Output schema.
    pub output_schema: Option<String>,
    /// Annotations.
    pub annotations: Option<String>,
    /// Metadata.
    pub meta: Option<String>,
}

/// A resource as a server lists it.
#[derive(Debug)]
pub struct FetchedResource {
    /// URI.
    pub uri: String,
    /// Name.
    pub name: String,
    /// Description.
    pub description: Option<String>,
    /// MIME type.
    pub mime_type: Option<String>,
    /// Metadata.
    pub meta: Option<String>,
}

/// A prompt as a server lists it.
#[derive(Debug)]
pub struct FetchedPrompt {
    /// Name.
    pub name: String,
    /// Description.
    pub description: Option<String>,
    /// Argument definitions.
    pub arguments: Option<String>,
    /// Metadata.
    pub meta: Option<String>,
}

/// `r` stores the fetched tool `t` for the server `server_id` at `now`:
/// enabled, with a fresh identifier.
pub open spec fn is_tool_record(r: ToolRecord, t: FetchedTool, server_id: Seq<char>, now: i64) -> bool {
    &&& r.id@.len() == 36
    &&& r.server_id@ == server_id
    &&& r.name == t.name
    &&& r.title is None
    &&& r.description == t.description
    &&& r.enabled
    &&& r.input_schema == t.input_schema
    &&& r.output_schema == t.output_schema
    &&& r.annotations == t.annotations
    &&& r.meta == t.meta
    &&& r.created_at == now
    &&& r.updated_at == now
}

/// `r` stores the fetched resource `x` for the server `server_id` at `now`.
pub open spec fn is_resource_record(
    r: crate::entities::mcp_resource::Model,
    x: FetchedResource,
    server_id: Seq<char>,
    now: i64,
) -> bool {
    &&& r.id@.len() == 36
    &&& r.server_id@ == server_id
    &&& r.uri == x.uri
    &&& r.name == Some(x.name)
    &&& r.title is None
    &&& r.description == x.description
    &&& r.mime_type == x.mime_type
    &&& r.enabled
    &&& !r.is_template
    &&& r.uri_template is None
    &&& r.meta == x.meta
    &&& r.created_at == now
    &&& r.updated_at == now
}

/// `r` stores the fetched prompt `p` for the server `server_id` at `now`.
pub open spec fn is_prompt_record(
    r: crate::entities::mcp_prompt::Model,
    p: FetchedPrompt,
    server_id: Seq<char>,
    now: i64,
) -> bool {
    &&& r.id@.len() == 36
    &&& r.server_id@ == server_id
    &&& r.name == p.name
    &&& r.title is None
    &&& r.description == p.description
    &&& r.enabled
    &&& r.arguments == p.arguments
    &&& r.meta == p.meta
    &&& r.created_at == now
    &&& r.updated_at == now
}

/// The records a synchronisation stores for the tools a server listed, in
/// the order listed.
pub fn tool_records(server_id: &str, tools: Vec<FetchedTool>, now: i64) -> (r: Vec<ToolRecord>)
    ensures
        r@.len() == tools@.len(),
        forall|i: int| 0 <= i < r@.len() ==> is_tool_record(#[trigger] r@[i], tools@[i], server_id@, now),
{
    let ghost orig = tools@;
    let mut rest = tools;
    let mut rev: Vec<FetchedTool> = Vec::new();
    while rest.len() > 0
        invariant
            rest@.len() + rev@.len() == orig.len(),
            rest@ == orig.take(rest@.len() as int),
            forall|j: int| 0 <= j < rev@.len() ==> rev@[j] == orig[orig.len() - 1 - j],
        decreases rest@.len(),
    {
        let t = rest.pop().unwrap();
        rev.push(t);
        assert(rest@ =~= orig.take(rest@.len() as int));
    }
    let mut out: Vec<ToolRecord> = Vec::new();
    let n = rev.len();
    while rev.len() > 0
        invariant
            n == orig.len(),
            out@.len() + rev@.len() == n,
            forall|j: int| 0 <= j < rev@.len() ==> rev@[j] == orig[n - 1 - j],
            forall|i: int| 0 <= i < out@.len() ==> is_tool_record(#[trigger] out@[i], orig[i], server_id@, now),
        decreases rev@.len(),
    {
        let k = out.len();
        let t = rev.pop().unwrap();
        assert(t == orig[k as int]);
        out.push(
            ToolRecord {
                id: crate::ids::new_uuid_v7(),
                server_id: server_id.to_owned(),
                name: t.name,
                title: None,
                description: t.description,
                enabled: true,
                input_schema: t.input_schema,
                output_schema: t.output_schema,
                annotations: t.annotations,
                meta: t.meta,
                created_at: now,
                updated_at: now,
            },
        );
    }
    out
}

/// The records a synchronisation stores for the resources a server listed,
/// in the order listed.
pub fn resource_records(server_id: &str, resources: Vec<FetchedResource>, now: i64) -> (r: Vec<
    crate::entities::mcp_resource::Model,
>)
    ensures
        r@.len() == resources@.len(),
        forall|i: int| 0 <= i < r@.len() ==> is_resource_record(#[trigger] r@[i], resources@[i], server_id@, now),
{
    let ghost orig = resources@;
    let mut rest = resources;
    let mut rev: Vec<FetchedResource> = Vec::new();
    while rest.len() > 0
        invariant
            rest@.len() + rev@.len() == orig.len(),
            rest@ == orig.take(rest@.len() as int),
            forall|j: int| 0 <= j < rev@.len() ==> rev@[j] == orig[orig.len() - 1 - j],
        decreases rest@.len(),
    {
        let x = rest.pop().unwrap();
        rev.push(x);
        assert(rest@ =~= orig.take(rest@.len() as int));
    }
    let mut out: Vec<crate::entities::mcp_resource::Model> = Vec::new();
    let n = rev.len();
    while rev.len() > 0
        invariant
            n == orig.len(),
            out@.len() + rev@.len() == n,
            forall|j: int| 0 <= j < rev@.len() ==> rev@[j] == orig[n - 1 - j],
            forall|i: int| 0 <= i < out@.len() ==> is_resource_record(#[trigger] out@[i], orig[i], server_id@, now),
        decreases rev@.len(),
    {
        let k = out.len();
        let x = rev.pop().unwrap();
        assert(x == orig[k as int]);
        out.push(
            crate::entities::mcp_resource::Model {
                id: crate::ids::new_uuid_v7(),
                server_id: server_id.to_owned(),
                uri: x.uri,
                name: Some(x.name),
                title: None,
                description: x.description,
                mime_type: x.mime_type,
                enabled: true,
                is_template: false,
                uri_template: None,
                meta: x.meta,
                created_at: now,
                updated_at: now,
            },
        );
    }
    out
}

/// The records a synchronisation stores for the prompts a server listed,
/// in the order listed.
pub fn prompt_records(server_id: &str, prompts: Vec<FetchedPrompt>, now: i64) -> (r: Vec<
    crate::entities::mcp_prompt::Model,
>)
    ensures
        r@.len() == prompts@.len(),
        forall|i: int| 0 <= i < r@.len() ==> is_prompt_record(#[trigger] r@[i], prompts@[i], server_id@, now),
{
    let ghost orig = prompts@;
    let mut rest = prompts;
    let mut rev: Vec<FetchedPrompt> = Vec::new();
    while rest.len() > 0
        invariant
            rest@.len() + rev@.len() == orig.len(),
            rest@ == orig.take(rest@.len() as int),
            forall|j: int| 0 <= j < rev@.len() ==> rev@[j] == orig[orig.len() - 1 - j],
        decreases rest@.len(),
    {
        let p = rest.pop().unwrap();
        rev.push(p);
        assert(rest@ =~= orig.take(rest@.len() as int));
    }
    let mut out: Vec<crate::entities::mcp_prompt::Model> = Vec::new();
    let n = rev.len();
    while rev.len() > 0
        invariant
            n == orig.len(),
            out@.len() + rev@.len() == n,
            forall|j: int| 0 <= j < rev@.len() ==> rev@[j] == orig[n - 1 - j],
            forall|i: int| 0 <= i < out@.len() ==> is_prompt_record(#[trigger] out@[i], orig[i], server_id@, now),
        decreases rev@.len(),
    {
        let k = out.len();
        let p = rev.pop().unwrap();
        assert(p == orig[k as int]);
        out.push(
            crate::entities::mcp_prompt::Model {
                id: crate::ids::new_uuid_v7(),
                server_id: server_id.to_owned(),
                name: p.name,
                title: None,
                description: p.description,
                enabled: true,
                arguments: p.arguments,
                meta: p.meta,
                created_at: now,
                updated_at: now,
            },
        );
    }
    out
}

} // verus!
