//! Requests of the user interface that edit servers and tokens: how each
//! request becomes a server configuration, what an import of a client's
//! configuration file yields, and how batch permission updates are checked.
use vstd::prelude::*;
use crate::error::McpError;
use crate::keyed::KeyedList;
use crate::mcp_client::{insert_all, merge_env};
use crate::text::{concat2, concat3, contains_seq, eq_ignore_ascii_case, join, joined, str_contains, str_eq,
    str_eq_ignore_ascii_case, views, decimal, usize_to_string};
use crate::types::{McpServerConfig, ServiceTransport};
use crate::json::{
    json_is_object, json_member, json_member_text, json_members_text, json_object_members, json_object_text,
    json_text_of, pair_views, read_string_array_member, read_string_member, read_string_pairs_member,
    string_array_member, string_member, string_pairs_member,
};
use crate::text::opt_text;

verus! {

/// A request to add a server.
#[derive(Debug)]
pub struct McpServerCreateRequest {
    /// Name.
    pub name: String,
    /// Program (stdio).
    pub command: Option<String>,
    /// Arguments (stdio).
    pub args: Option<Vec<String>>,
    /// `stdio` or `http` (the `type` field).
    pub transport: String,
    /// Endpoint (http).
    pub url: Option<String>,
    /// Description.
    pub description: Option<String>,
    /// Environment pairs.
    pub env: Option<Vec<(String, String)>>,
    /// Header pairs.
    pub headers: Option<Vec<(String, String)>>,
}

/// A request to change a server.
#[derive(Debug)]
pub struct McpServerUpdateRequest {
    /// Name.
    pub name: String,
    /// Program (stdio).
    pub command: Option<String>,
    /// Arguments (stdio).
    pub args: Option<Vec<String>>,
    /// `stdio` or `http` (the `type` field).
    pub transport: String,
    /// Endpoint (http).
    pub url: Option<String>,
    /// Description.
    pub description: Option<String>,
    /// Environment pairs.
    pub env: Option<Vec<(String, String)>>,
    /// Header pairs.
    pub headers: Option<Vec<(String, String)>>,
    /// Whether the server is enabled.
    pub enabled: bool,
}

/// The transport a request names: exactly `stdio` or `http`.
pub open spec fn request_transport_of(t: Seq<char>) -> Option<ServiceTransport> {
    if t == "stdio"@ {
        Some(ServiceTransport::Stdio)
    } else if t == "http"@ {
        Some(ServiceTransport::Http)
    } else {
        None
    }
}

/// The transport a request names; any other name is invalid input.
pub fn request_transport(t: &str) -> (r: Result<ServiceTransport, McpError>)
    ensures
        match request_transport_of(t@) {
            Some(tr) => r == Ok::<ServiceTransport, McpError>(tr),
            None => (r matches Err(McpError::InvalidInput(m)) && m@ == "Invalid transport type: "@ + t@),
        },
{
    if str_eq(t, "stdio") {
        Ok(ServiceTransport::Stdio)
    } else if str_eq(t, "http") {
        Ok(ServiceTransport::Http)
    } else {
        Err(McpError::InvalidInput(concat2("Invalid transport type: ", t)))
    }
}

/// Pairs gathered by name, a later pair winning.
fn collect_pairs(pairs: Option<Vec<(String, String)>>) -> (r: Option<KeyedList<String>>)
    ensures
        match pairs {
            Some(p) => r is Some && r.unwrap()@ == insert_all(Map::<Seq<char>, String>::empty(), p@),
            None => r is None,
        },
{
    match pairs {
        Some(p) => {
            let mut m = KeyedList::new();
            merge_env(&mut m, p);
            Some(m)
        },
        None => None,
    }
}

/// The configuration a request to add a server describes (enabled).
pub fn create_request_config(request: McpServerCreateRequest) -> (r: Result<McpServerConfig, McpError>)
    ensures
        request_transport_of(request.transport@) is None ==> (r matches Err(McpError::InvalidInput(m)) && m@
            == "Invalid transport type: "@ + request.transport@),
        request_transport_of(request.transport@) is Some ==> (r matches Ok(c) && c.name == request.name
            && c.description == request.description && c.command == request.command && c.args == request.args
            && c.transport == request_transport_of(request.transport@).unwrap() && c.url == request.url && c.enabled
            && match request.env {
            Some(p) => c.env is Some && c.env.unwrap()@ == insert_all(Map::<Seq<char>, String>::empty(), p@),
            None => c.env is None,
        } && match request.headers {
            Some(p) => c.headers is Some && c.headers.unwrap()@ == insert_all(Map::<Seq<char>, String>::empty(), p@),
            None => c.headers is None,
        }),
{
    let transport = match request_transport(request.transport.as_str()) {
        Ok(t) => t,
        Err(e) => {
            return Err(e);
        },
    };
    let McpServerCreateRequest { name, command, args, transport: _, url, description, env, headers } = request;
    Ok(
        McpServerConfig {
            name,
            description,
            command,
            args,
            env: collect_pairs(env),
            transport,
            url,
            headers: collect_pairs(headers),
            enabled: true,
        },
    )
}

/// The configuration a request to change a server describes.
pub fn update_request_config(request: McpServerUpdateRequest) -> (r: Result<McpServerConfig, McpError>)
    ensures
        request_transport_of(request.transport@) is None ==> (r matches Err(McpError::InvalidInput(m)) && m@
            == "Invalid transport type: "@ + request.transport@),
        request_transport_of(request.transport@) is Some ==> (r matches Ok(c) && c.name == request.name
            && c.description == request.description && c.command == request.command && c.args == request.args
            && c.transport == request_transport_of(request.transport@).unwrap() && c.url == request.url && c.enabled
            == request.enabled && match request.env {
            Some(p) => c.env is Some && c.env.unwrap()@ == insert_all(Map::<Seq<char>, String>::empty(), p@),
            None => c.env is None,
        } && match request.headers {
            Some(p) => c.headers is Some && c.headers.unwrap()@ == insert_all(Map::<Seq<char>, String>::empty(), p@),
            None => c.headers is None,
        }),
{
    let transport = match request_transport(request.transport.as_str()) {
        Ok(t) => t,
        Err(e) => {
            return Err(e);
        },
    };
    let McpServerUpdateRequest { name, command, args, transport: _, url, description, env, headers, enabled } = request;
    Ok(
        McpServerConfig {
            name,
            description,
            command,
            args,
            env: collect_pairs(env),
            transport,
            url,
            headers: collect_pairs(headers),
            enabled,
        },
    )
}

/// The answer to a request that removed a server.
pub fn server_removed_message(name: &str) -> (r: String)
    ensures
        r@ == "MCP server '"@ + name@ + "' removed successfully"@,
{
    concat3("MCP server '", name, "' removed successfully")
}

/// One server entry of an imported client configuration, as read from its
/// JSON object: which keys it has and the string values found.
#[derive(Debug)]
pub struct ImportEntry {
    /// The entry's key: the server's name.
    pub name: String,
    /// The object has a `url` key.
    pub has_url: bool,
    /// The object has a `command` key.
    pub has_command: bool,
    /// The `type` field, if a string.
    pub type_field: Option<String>,
    /// The `command` field, if a string.
    pub command: Option<String>,
    /// The string items of the `args` array, if an array.
    pub args: Option<Vec<String>>,
    /// The `url` field, if a string.
    pub url: Option<String>,
    /// The `description` field, if a string.
    pub description: Option<String>,
    /// The string-valued entries of the `env` object, if an object.
    pub env: Option<Vec<(String, String)>>,
    /// The string-valued entries of the `headers` object, if an object.
    pub headers: Option<Vec<(String, String)>>,
}

/// The transport of an imported server: HTTP when it has a URL, stdio when
/// it has a command, else its `type` (`http` and the retired `sse` mean
/// HTTP, anything else stdio; case ignored), else stdio. (Lower-casing
/// gives `http`, `sse` or `stdio` exactly when the text equals one of them
/// up to ASCII case.)
pub open spec fn import_transport_of(has_url: bool, has_command: bool, type_field: Option<Seq<char>>) -> ServiceTransport {
    if has_url {
        ServiceTransport::Http
    } else if has_command {
        ServiceTransport::Stdio
    } else {
        match type_field {
            Some(t) => if eq_ignore_ascii_case(t, "http"@) || eq_ignore_ascii_case(t, "sse"@) {
                ServiceTransport::Http
            } else {
                ServiceTransport::Stdio
            },
            None => ServiceTransport::Stdio,
        }
    }
}

/// The configuration an imported entry describes (enabled).
pub fn import_entry_config(e: ImportEntry) -> (r: McpServerConfig)
    ensures
        r.transport == import_transport_of(
            e.has_url,
            e.has_command,
            match e.type_field {
                Some(t) => Some(t@),
                None => None,
            },
        ),
        r.name == e.name,
        r.description == e.description,
        r.command == e.command,
        r.args == e.args,
        r.url == e.url,
        r.enabled,
        match e.env {
            Some(p) => r.env is Some && r.env.unwrap()@ == insert_all(Map::<Seq<char>, String>::empty(), p@),
            None => r.env is None,
        },
        match e.headers {
            Some(p) => r.headers is Some && r.headers.unwrap()@ == insert_all(Map::<Seq<char>, String>::empty(), p@),
            None => r.headers is None,
        },
{
    let transport = if e.has_url {
        ServiceTransport::Http
    } else if e.has_command {
        ServiceTransport::Stdio
    } else {
        match &e.type_field {
            Some(t) => if str_eq_ignore_ascii_case(t.as_str(), "http") || str_eq_ignore_ascii_case(t.as_str(), "sse") {
                ServiceTransport::Http
            } else {
                ServiceTransport::Stdio
            },
            None => ServiceTransport::Stdio,
        }
    };
    let ImportEntry { name, has_url: _, has_command: _, type_field: _, command, args, url, description, env, headers } =
        e;
    McpServerConfig {
        name,
        description,
        command,
        args,
        env: collect_pairs(env),
        transport,
        url,
        headers: collect_pairs(headers),
        enabled: true,
    }
}

/// The answer to an import, from the names of the servers it added: their
/// count and names, or an error when none was added.
pub fn import_result(added: &Vec<String>) -> (r: Result<String, McpError>)
    ensures
        added@.len() == 0 ==> (r matches Err(McpError::InvalidConfiguration(m)) && m@
            == "No valid services found in configuration"@),
        added@.len() > 0 ==> (r matches Ok(m) && m@ == "Successfully imported "@ + decimal(added@.len()) + " MCP server(s): "@
            + joined(views(added@), ", "@)),
{
    if added.len() == 0 {
        return Err(McpError::InvalidConfiguration("No valid services found in configuration".to_owned()));
    }
    let n = usize_to_string(added.len());
    let names = join(added, ", ");
    let mut m = concat3("Successfully imported ", n.as_str(), " MCP server(s): ");
    crate::text::push_str(&mut m, names.as_str());
    Ok(m)
}

/// The import entry that the server object `obj` named `name` gives.
pub open spec fn import_entry_read(e: ImportEntry, name: Seq<char>, obj: Seq<char>) -> bool {
    &&& e.name@ == name
    &&& e.has_url == (json_member_text(obj, "url"@) is Some)
    &&& e.has_command == (json_member_text(obj, "command"@) is Some)
    &&& opt_text(e.type_field) == string_member(obj, "type"@)
    &&& opt_text(e.command) == string_member(obj, "command"@)
    &&& match string_array_member(obj, "args"@) {
        Some(a) => e.args matches Some(v) && views(v@) == a,
        None => e.args is None,
    }
    &&& opt_text(e.url) == string_member(obj, "url"@)
    &&& opt_text(e.description) == string_member(obj, "description"@)
    &&& match string_pairs_member(obj, "env"@) {
        Some(p) => e.env matches Some(v) && pair_views(v@) == p,
        None => e.env is None,
    }
    &&& match string_pairs_member(obj, "headers"@) {
        Some(p) => e.headers matches Some(v) && pair_views(v@) == p,
        None => e.headers is None,
    }
}

/// The members among `ms` whose values are objects, in order.
pub open spec fn object_members(ms: Seq<(Seq<char>, Seq<char>)>) -> Seq<(Seq<char>, Seq<char>)>
    decreases ms.len(),
{
    if ms.len() == 0 {
        Seq::empty()
    } else if json_object_text(ms.last().1) {
        object_members(ms.drop_last()).push(ms.last())
    } else {
        object_members(ms.drop_last())
    }
}

/// The entries read from the server objects `ms`, one for each, in order.
pub open spec fn import_entries_read(v: Seq<ImportEntry>, ms: Seq<(Seq<char>, Seq<char>)>) -> bool {
    &&& v.len() == ms.len()
    &&& forall|i: int| 0 <= i < v.len() ==> import_entry_read(#[trigger] v[i], ms[i].0, ms[i].1)
}

/// Reads the import entry of the server object `obj` named `name`.
pub fn import_entry_of(name: &String, obj: &serde_json::Value) -> (r: ImportEntry)
    ensures
        import_entry_read(r, name@, json_text_of(*obj)),
{
    ImportEntry {
        name: name.clone(),
        has_url: json_member(obj, "url").is_some(),
        has_command: json_member(obj, "command").is_some(),
        type_field: read_string_member(obj, "type"),
        command: read_string_member(obj, "command"),
        args: read_string_array_member(obj, "args"),
        url: read_string_member(obj, "url"),
        description: read_string_member(obj, "description"),
        env: read_string_pairs_member(obj, "env"),
        headers: read_string_pairs_member(obj, "headers"),
    }
}

/// Reads the servers of a client's configuration file: one entry for each
/// member of its `mcpServers` object whose value is an object (others are
/// skipped), in the map's order; nothing where there is no `mcpServers`
/// object.
pub fn import_entries(config: &serde_json::Value) -> (r: Option<Vec<ImportEntry>>)
    ensures
        match json_member_text(json_text_of(*config), "mcpServers"@) {
            Some(m) => match json_members_text(m) {
                Some(ms) => r matches Some(v) && import_entries_read(v@, object_members(ms)),
                None => r is None,
            },
            None => r is None,
        },
{
    let servers = match json_member(config, "mcpServers") {
        Some(m) => m,
        None => {
            return None;
        },
    };
    let ms = match json_object_members(servers) {
        Some(ms) => ms,
        None => {
            return None;
        },
    };
    let ghost texts = ms@.map_values(|m: (String, serde_json::Value)| (m.0@, json_text_of(m.1)));
    let mut out: Vec<ImportEntry> = Vec::new();
    let mut i: usize = 0;
    while i < ms.len()
        invariant
            i <= ms@.len(),
            texts == ms@.map_values(|m: (String, serde_json::Value)| (m.0@, json_text_of(m.1))),
            import_entries_read(out@, object_members(texts.take(i as int))),
        decreases ms@.len() - i,
    {
        assert(texts.take(i + 1).drop_last() =~= texts.take(i as int));
        assert(texts.take(i + 1).last() == (ms@[i as int].0@, json_text_of(ms@[i as int].1)));
        if json_is_object(&ms[i].1) {
            let e = import_entry_of(&ms[i].0, &ms[i].1);
            out.push(e);
        }
        i += 1;
    }
    assert(texts.take(ms@.len() as int) =~= texts);
    Some(out)
}

/// The error of an import whose file has no `mcpServers` object.
pub fn import_format_error() -> (r: McpError)
    ensures
        r matches McpError::InvalidConfiguration(m) && m@ == "Invalid configuration format. Expected 'mcpServers' object."@,
{
    McpError::InvalidConfiguration("Invalid configuration format. Expected 'mcpServers' object.".to_owned())
}

/// Whether a batch permission update grants or withdraws.
#[derive(Clone, Copy, Debug, PartialEq, Eq, Structural)]
pub enum PermissionAction {
    /// Grant.
    Add,
    /// Withdraw.
    Remove,
}

/// The first permission path without `__`, if any.
pub open spec fn first_bad_path(paths: Seq<Seq<char>>, i: int) -> bool {
    &&& 0 <= i < paths.len()
    &&& !contains_seq(paths[i], "__"@)
    &&& forall|j: int| 0 <= j < i ==> contains_seq(#[trigger] paths[j], "__"@)
}

/// How a batch permission update proceeds: the paths are applied one by
/// one, in order, so the first `apply_count` of them are applied, and then
/// the update ends with `outcome`.
#[derive(Debug)]
pub struct BatchPlan {
    /// How many of the paths, from the first, are applied.
    pub apply_count: usize,
    /// How the update ends once they are applied.
    pub outcome: Result<(), McpError>,
}

/// Plans a batch permission update: a token id and at least one path are
/// needed (else nothing is applied); then each path is applied in turn
/// until one that does not read `server__item`, which ends the update with
/// an error naming it, after the paths before it were applied.
pub fn batch_permission_plan(token_id: &str, permissions: &Vec<String>) -> (r: BatchPlan)
    ensures
        token_id@.len() == 0 ==> r.apply_count == 0 && (r.outcome matches Err(McpError::ValidationError(m)) && m@
            == "Token ID is required"@),
        token_id@.len() > 0 && permissions@.len() == 0 ==> r.apply_count == 0 && (r.outcome matches Err(
            McpError::ValidationError(m),
        ) && m@ == "Permissions list cannot be empty"@),
        token_id@.len() > 0 && permissions@.len() > 0 ==> match r.outcome {
            Ok(_) => r.apply_count == permissions@.len() && forall|j: int|
                0 <= j < permissions@.len() ==> contains_seq(#[trigger] views(permissions@)[j], "__"@),
            Err(McpError::ValidationError(m)) => first_bad_path(views(permissions@), r.apply_count as int) && m@
                == "Invalid permission path format: "@ + permissions@[r.apply_count as int]@
                + ". Expected format: servername__resourcename"@,
            Err(_) => false,
        },
{
    if crate::text::chars_of(token_id).len() == 0 {
        return BatchPlan {
            apply_count: 0,
            outcome: Err(McpError::ValidationError("Token ID is required".to_owned())),
        };
    }
    if permissions.len() == 0 {
        return BatchPlan {
            apply_count: 0,
            outcome: Err(McpError::ValidationError("Permissions list cannot be empty".to_owned())),
        };
    }
    let mut i: usize = 0;
    while i < permissions.len()
        invariant
            token_id@.len() > 0,
            permissions@.len() > 0,
            i <= permissions@.len(),
            forall|j: int| 0 <= j < i ==> contains_seq(#[trigger] views(permissions@)[j], "__"@),
        decreases permissions@.len() - i,
    {
        if !str_contains(permissions[i].as_str(), "__") {
            assert(first_bad_path(views(permissions@), i as int));
            return BatchPlan {
                apply_count: i,
                outcome: Err(
                    McpError::ValidationError(
                        concat3(
                            "Invalid permission path format: ",
                            permissions[i].as_str(),
                            ". Expected format: servername__resourcename",
                        ),
                    ),
                ),
            };
        }
        i += 1;
    }
    BatchPlan { apply_count: permissions.len(), outcome: Ok(()) }
}

/// The answer to a batch permission update that went through.
pub fn batch_update_message(action: PermissionAction, count: usize) -> (r: String)
    ensures
        r@ == "Successfully "@ + (match action {
            PermissionAction::Add => "added"@,
            PermissionAction::Remove => "removed"@,
        }) + " "@ + decimal(count as nat) + " permissions"@,
{
    let verb = match action {
        PermissionAction::Add => "added",
        PermissionAction::Remove => "removed",
    };
    let n = usize_to_string(count);
    let mut m = concat3("Successfully ", verb, " ");
    crate::text::push_str(&mut m, n.as_str());
    crate::text::push_str(&mut m, " permissions");
    m
}

/// The answer to a single permission update that went through.
pub fn single_update_message(action: PermissionAction) -> (r: String)
    ensures
        r@ == "Successfully "@ + (match action {
            PermissionAction::Add => "add"@,
            PermissionAction::Remove => "remove"@,
        }) + " permission"@,
{
    let verb = match action {
        PermissionAction::Add => "add",
        PermissionAction::Remove => "remove",
    };
    concat3("Successfully ", verb, " permission")
}

/// Some tool of `tool_ids` is owned, according to `tool_servers` (tool id
/// to server id), by the server `s`.
pub open spec fn owns_a_tool(tool_ids: Seq<String>, tool_servers: Map<Seq<char>, String>, s: Seq<char>) -> bool {
    exists|i: int|
        0 <= i < tool_ids.len() && tool_servers.contains_key(#[trigger] tool_ids[i]@) && tool_servers[tool_ids[i]@]@
            == s
}

/// The names of the servers whose tools a key may use: each server that
/// owns one of the tools `tool_ids` (`tool_servers` maps a tool id to its
/// server's id) and has a record (`server_names` maps a server id to its
/// name), once; tools and servers without records are skipped.
pub fn allowed_servers_from_tools(
    tool_ids: &Vec<String>,
    tool_servers: &KeyedList<String>,
    server_names: &KeyedList<String>,
) -> (r: Vec<String>)
    ensures
        exists|ids: Seq<Seq<char>>|
            {
                &&& ids.no_duplicates()
                &&& forall|s: Seq<char>|
                    ids.contains(s) <==> (owns_a_tool(tool_ids@, tool_servers@, s)
                        && server_names@.contains_key(s))
                &&& r@.len() == ids.len()
                &&& forall|k: int| 0 <= k < ids.len() ==> #[trigger] r@[k]@ == server_names@[ids[k]]@
            },
{
    let mut owners: Vec<String> = Vec::new();
    let mut i: usize = 0;
    while i < tool_ids.len()
        invariant
            i <= tool_ids@.len(),
            views(owners@).no_duplicates(),
            forall|s: Seq<char>|
                views(owners@).contains(s) <==> exists|j: int|
                    0 <= j < i && tool_servers@.contains_key(#[trigger] tool_ids@[j]@) && tool_servers@[tool_ids@[j]@]@
                        == s,
        decreases tool_ids@.len() - i,
    {
        let ghost before = views(owners@);
        match tool_servers.get(tool_ids[i].as_str()) {
            Some(sid) => {
                if !crate::aggregator::list_contains(&owners, sid.as_str()) {
                    owners.push(sid.clone());
                    assert(views(owners@) =~= before.push(sid@));
                }
                assert forall|s: Seq<char>|
                    views(owners@).contains(s) <==> exists|j: int|
                        0 <= j < i + 1 && tool_servers@.contains_key(#[trigger] tool_ids@[j]@)
                            && tool_servers@[tool_ids@[j]@]@ == s by {
                    if views(owners@).contains(s) && s != sid@ {
                        let k = choose|k: int| 0 <= k < views(owners@).len() && views(owners@)[k] == s;
                        assert(before[k] == s);
                        assert(before.contains(s));
                    }
                    if before.contains(s) {
                        let k = choose|k: int| 0 <= k < before.len() && before[k] == s;
                        assert(views(owners@)[k] == s);
                    }
                    if s == sid@ {
                        assert(tool_servers@.contains_key(tool_ids@[i as int]@));
                        if !before.contains(s) {
                            assert(views(owners@)[before.len() as int] == s);
                        }
                    }
                    if exists|j: int|
                        0 <= j < i + 1 && tool_servers@.contains_key(#[trigger] tool_ids@[j]@)
                            && tool_servers@[tool_ids@[j]@]@ == s {
                        let j = choose|j: int|
                            0 <= j < i + 1 && tool_servers@.contains_key(#[trigger] tool_ids@[j]@)
                                && tool_servers@[tool_ids@[j]@]@ == s;
                        if j < i {
                            assert(before.contains(s));
                        }
                    }
                }
            },
            None => {
                assert forall|s: Seq<char>|
                    views(owners@).contains(s) <==> exists|j: int|
                        0 <= j < i + 1 && tool_servers@.contains_key(#[trigger] tool_ids@[j]@)
                            && tool_servers@[tool_ids@[j]@]@ == s by {
                    if exists|j: int|
                        0 <= j < i + 1 && tool_servers@.contains_key(#[trigger] tool_ids@[j]@)
                            && tool_servers@[tool_ids@[j]@]@ == s {
                        let j = choose|j: int|
                            0 <= j < i + 1 && tool_servers@.contains_key(#[trigger] tool_ids@[j]@)
                                && tool_servers@[tool_ids@[j]@]@ == s;
                        assert(j != i);
                    }
                }
            },
        }
        i += 1;
    }
    let mut names: Vec<String> = Vec::new();
    let ghost mut ids: Seq<Seq<char>> = Seq::empty();
    let mut k: usize = 0;
    while k < owners.len()
        invariant
            k <= owners@.len(),
            views(owners@).no_duplicates(),
            ids.no_duplicates(),
            forall|s: Seq<char>|
                ids.contains(s) <==> (views(owners@).take(k as int).contains(s) && server_names@.contains_key(s)),
            names@.len() == ids.len(),
            forall|m: int| 0 <= m < ids.len() ==> #[trigger] names@[m]@ == server_names@[ids[m]]@,
        decreases owners@.len() - k,
    {
        let ghost prefix = views(owners@).take(k as int);
        let ghost next = prefix.push(owners@[k as int]@);
        assert(views(owners@).take(k as int + 1) =~= next);
        match server_names.get(owners[k].as_str()) {
            Some(n) => {
                let ghost old_ids = ids;
                proof {
                    if old_ids.contains(owners@[k as int]@) {
                        let m = choose|m: int| 0 <= m < prefix.len() && prefix[m] == owners@[k as int]@;
                        assert(views(owners@)[m] == views(owners@)[k as int]);
                    }
                    ids = ids.push(owners@[k as int]@);
                    assert forall|a: int, b: int| 0 <= a < b < ids.len() implies ids[a] != ids[b] by {
                        if b == ids.len() - 1 {
                            assert(old_ids.contains(old_ids[a]));
                        }
                    }
                    assert forall|s: Seq<char>|
                        ids.contains(s) <==> (next.contains(s)
                            && server_names@.contains_key(s)) by {
                        if ids.contains(s) && s != owners@[k as int]@ {
                            let m = choose|m: int| 0 <= m < ids.len() && ids[m] == s;
                            assert(old_ids[m] == s);
                            assert(old_ids.contains(s));
                            let q = choose|q: int| 0 <= q < prefix.len() && prefix[q] == s;
                            assert(next[q] == s);
                        }
                        if next.contains(s) && server_names@.contains_key(s) {
                            let q = choose|q: int| 0 <= q < next.len() && #[trigger] next[q] == s;
                            if q < k {
                                assert(prefix[q] == s);
                                assert(old_ids.contains(s));
                                let m = choose|m: int| 0 <= m < old_ids.len() && old_ids[m] == s;
                                assert(ids[m] == s);
                            } else {
                                assert(ids[ids.len() - 1] == s);
                            }
                        }
                        if s == owners@[k as int]@ {
                            assert(ids[ids.len() - 1] == s);
                            assert(next[k as int] == s);
                        }
                    }
                }
                names.push(n.clone());
            },
            None => {
                proof {
                    assert forall|s: Seq<char>|
                        ids.contains(s) <==> (next.contains(s)
                            && server_names@.contains_key(s)) by {
                        if next.contains(s) && server_names@.contains_key(s) {
                            let q = choose|q: int| 0 <= q < next.len() && #[trigger] next[q] == s;
                            assert(q != k);
                            assert(prefix[q] == s);
                        }
                        if ids.contains(s) {
                            assert(prefix.contains(s));
                            let q = choose|q: int| 0 <= q < prefix.len() && prefix[q] == s;
                            assert(next[q] == s);
                        }
                    }
                }
            },
        }
        k += 1;
    }
    proof {
        assert(views(owners@).take(owners@.len() as int) =~= views(owners@));
        assert forall|s: Seq<char>|
            ids.contains(s) <==> (owns_a_tool(tool_ids@, tool_servers@, s) && server_names@.contains_key(s)) by {
            if owns_a_tool(tool_ids@, tool_servers@, s) {
                let j = choose|j: int|
                    0 <= j < tool_ids@.len() && tool_servers@.contains_key(#[trigger] tool_ids@[j]@)
                        && tool_servers@[tool_ids@[j]@]@ == s;
                assert(views(owners@).contains(s));
            }
        }
    }
    names
}

} // verus!
