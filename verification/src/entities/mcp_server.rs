//! Stored MCP server records.
use vstd::prelude::*;
use crate::json::{
    json_string_list, json_string_map, parse_string_list, parse_string_map, string_list_to_json,
    string_map_to_json,
};
use crate::keyed::{KeyedList, text_values};
use crate::text::views;
use crate::types::{ParseError, ServiceTransport, transport_name};

verus! {

/// An MCP server as the router stores it.
#[derive(Clone, Debug, PartialEq, Eq)]
pub struct Model {
    /// Primary key.
    pub id: String,
    /// The server's unique name.
    pub name: String,
    /// An optional description.
    pub description: Option<String>,
    /// `stdio` or `http`.
    pub server_type: String,
    /// The command of a stdio server.
    pub command: Option<String>,
    /// The command's arguments, as a JSON array.
    pub args: Option<String>,
    /// The URL of an http server.
    pub url: Option<String>,
    /// Request headers, as a JSON object.
    pub headers: Option<String>,
    /// Environment variables, as a JSON object.
    pub env: Option<String>,
    /// Whether the server is enabled.
    pub enabled: bool,
    /// The server's version, if known.
    pub version: Option<String>,
    /// When the version was last checked, seconds since the Unix epoch.
    pub last_version_check: Option<i64>,
    /// Creation time, seconds since the Unix epoch.
    pub created_at: i64,
    /// Last update time, seconds since the Unix epoch.
    pub updated_at: i64,
}

/// The arguments a stored `args` field reads back as: none when absent,
/// else the JSON array of strings it holds (`None` when it holds none).
pub open spec fn stored_args(args: Option<String>) -> Option<Seq<Seq<char>>> {
    match args {
        Some(a) => json_string_list(a@),
        None => Some(Seq::<Seq<char>>::empty()),
    }
}

/// The name-to-value map a stored JSON-object field reads back as: empty
/// when absent, else the object of strings it holds (`None` when it holds
/// none).
pub open spec fn stored_map(field: Option<String>) -> Option<Map<Seq<char>, Seq<char>>> {
    match field {
        Some(s) => json_string_map(s@),
        None => Some(Map::<Seq<char>, Seq<char>>::empty()),
    }
}

fn parse_stored_map(field: &Option<String>) -> (r: Result<KeyedList<String>, serde_json::Error>)
    ensures
        match r {
            Ok(m) => stored_map(*field) == Some(text_values(m@)),
            Err(_) => stored_map(*field) is None,
        },
{
    match field {
        Some(s) => match parse_string_map(s.as_str()) {
            Ok(pairs) => {
                let ghost p = pairs@;
                let mut m: KeyedList<String> = KeyedList::new();
                crate::mcp_client::merge_env(&mut m, pairs);
                proof {
                    crate::mcp_client::lemma_insert_all_into_empty(p);
                }
                Ok(m)
            },
            Err(e) => Err(e),
        },
        None => {
            let m: KeyedList<String> = KeyedList::new();
            assert(text_values(m@) =~= Map::<Seq<char>, Seq<char>>::empty());
            Ok(m)
        },
    }
}

fn serialize_map(m: &KeyedList<String>) -> (r: String)
    ensures
        stored_map(Some(r)) == Some(text_values(m@)),
{
    string_map_to_json(m.entries())
}

impl Model {
    /// An empty, enabled server record stamped with `now`.
    pub fn default_at(now: i64) -> (r: Model)
        ensures
            r.id@.len() == 0 && r.name@.len() == 0 && r.server_type@.len() == 0,
            r.description is None && r.command is None && r.args is None,
            r.url is None && r.headers is None && r.env is None,
            r.enabled && r.version is None && r.last_version_check is None,
            r.created_at == now && r.updated_at == now,
    {
        Model {
            id: String::new(),
            name: String::new(),
            description: None,
            server_type: String::new(),
            command: None,
            args: None,
            url: None,
            headers: None,
            env: None,
            enabled: true,
            version: None,
            last_version_check: None,
            created_at: now,
            updated_at: now,
        }
    }

    /// The server's transport, read from `server_type`.
    pub fn get_server_type(&self) -> (r: Result<ServiceTransport, ParseError>)
        ensures
            match r {
                Ok(t) => transport_name(t) == self.server_type@,
                Err(_) => self.server_type@ != "stdio"@ && self.server_type@ != "http"@,
            },
    {
        ServiceTransport::parse(self.server_type.as_str())
    }

    /// The command-line arguments; none when the field is absent.
    pub fn parse_args(&self) -> (r: Result<Vec<String>, serde_json::Error>)
        ensures
            match r {
                Ok(v) => stored_args(self.args) == Some(views(v@)),
                Err(_) => stored_args(self.args) is None,
            },
    {
        match &self.args {
            Some(a) => parse_string_list(a.as_str()),
            None => Ok(Vec::new()),
        }
    }

    /// The JSON text of a list of arguments.
    pub fn serialize_args(args: &[String]) -> (r: String)
        ensures
            stored_args(Some(r)) == Some(views(args@)),
    {
        string_list_to_json(args)
    }

    /// The request headers; none when the field is absent.
    pub fn parse_headers(&self) -> (r: Result<KeyedList<String>, serde_json::Error>)
        ensures
            match r {
                Ok(m) => stored_map(self.headers) == Some(text_values(m@)),
                Err(_) => stored_map(self.headers) is None,
            },
    {
        parse_stored_map(&self.headers)
    }

    /// The JSON text of a set of request headers.
    pub fn serialize_headers(headers: &KeyedList<String>) -> (r: String)
        ensures
            stored_map(Some(r)) == Some(text_values(headers@)),
    {
        serialize_map(headers)
    }

    /// The environment variables; none when the field is absent.
    pub fn parse_env(&self) -> (r: Result<KeyedList<String>, serde_json::Error>)
        ensures
            match r {
                Ok(m) => stored_map(self.env) == Some(text_values(m@)),
                Err(_) => stored_map(self.env) is None,
            },
    {
        parse_stored_map(&self.env)
    }

    /// The JSON text of a set of environment variables.
    pub fn serialize_env(env: &KeyedList<String>) -> (r: String)
        ensures
            stored_map(Some(r)) == Some(text_values(env@)),
    {
        serialize_map(env)
    }

    /// Whether the server is enabled.
    pub fn is_enabled(&self) -> (r: bool)
        ensures
            r == self.enabled,
    {
        self.enabled
    }

    /// Whether the server is reached over stdio.
    pub fn is_stdio_type(&self) -> (r: bool)
        ensures
            r == (self.server_type@ == "stdio"@),
    {
        match self.get_server_type() {
            Ok(t) => {
                proof { crate::types::lemma_transport_names_distinct(); }
                t == ServiceTransport::Stdio
            },
            Err(_) => false,
        }
    }

    /// Whether the server is reached over http.
    pub fn is_http_type(&self) -> (r: bool)
        ensures
            r == (self.server_type@ == "http"@),
    {
        match self.get_server_type() {
            Ok(t) => {
                proof { crate::types::lemma_transport_names_distinct(); }
                t == ServiceTransport::Http
            },
            Err(_) => false,
        }
    }
}

/// What `serialize_args` writes, `parse_args` reads back: the text reads
/// as arguments, and they are the ones written.
pub proof fn law_args_round_trip(written: String, args: Seq<String>)
    requires
        stored_args(Some(written)) == Some(views(args)),
    ensures
        stored_args(Some(written)) is Some,
        forall|read: Seq<String>| stored_args(Some(written)) == Some(views(read)) ==> views(read) == views(args),
{
}

/// What `serialize_headers` or `serialize_env` writes, `parse_headers` or
/// `parse_env` reads back: the text reads as a map, and it is the map
/// written.
pub proof fn law_map_round_trip(written: String, m: Map<Seq<char>, String>)
    requires
        stored_map(Some(written)) == Some(text_values(m)),
    ensures
        stored_map(Some(written)) is Some,
        forall|read: Map<Seq<char>, String>|
            stored_map(Some(written)) == Some(text_values(read)) ==> text_values(read) == text_values(m),
{
}

} // verus!
