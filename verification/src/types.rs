//! Shared value types: how an MCP server is reached and how it is configured.
use vstd::prelude::*;
use crate::keyed::KeyedList;
use crate::text::str_eq;

verus! {

/// How the router talks to an MCP server.
#[derive(Clone, Copy, Debug, PartialEq, Eq, Structural)]
pub enum ServiceTransport {
    /// A child process speaking over stdin/stdout.
    Stdio,
    /// A remote server reached over streamable HTTP.
    Http,
}

/// The error returned when a name is not one of an enum's variants.
#[derive(Clone, Copy, Debug, PartialEq, Eq, Structural)]
pub enum ParseError {
    /// No variant has the given name.
    VariantNotFound,
}

/// The lowercase name of a transport.
pub open spec fn transport_name(t: ServiceTransport) -> Seq<char> {
    match t {
        ServiceTransport::Stdio => "stdio"@,
        ServiceTransport::Http => "http"@,
    }
}

/// The two transport names differ.
pub proof fn lemma_transport_names_distinct()
    ensures
        "stdio"@ != "http"@,
        transport_name(ServiceTransport::Stdio) != transport_name(ServiceTransport::Http),
{
    reveal_strlit("stdio");
    reveal_strlit("http");
    assert("stdio"@.len() == 5);
    assert("http"@.len() == 4);
}

impl ServiceTransport {
    /// Reads a transport from its lowercase name (`stdio` or `http`).
    pub fn parse(s: &str) -> (r: Result<ServiceTransport, ParseError>)
        ensures
            s@ == "stdio"@ <==> r == Ok::<ServiceTransport, ParseError>(ServiceTransport::Stdio),
            s@ == "http"@ <==> r == Ok::<ServiceTransport, ParseError>(ServiceTransport::Http),
            (s@ != "stdio"@ && s@ != "http"@) <==> r == Err::<ServiceTransport, ParseError>(
                ParseError::VariantNotFound,
            ),
    {
        proof {
            reveal_strlit("stdio");
            reveal_strlit("http");
            assert("stdio"@.len() == 5);
            assert("http"@.len() == 4);
        }
        if str_eq(s, "stdio") {
            Ok(ServiceTransport::Stdio)
        } else if str_eq(s, "http") {
            Ok(ServiceTransport::Http)
        } else {
            Err(ParseError::VariantNotFound)
        }
    }

    /// The lowercase name of the transport.
    pub fn to_string(&self) -> (r: String)
        ensures
            r@ == transport_name(*self),
    {
        match self {
            ServiceTransport::Stdio => "stdio".to_owned(),
            ServiceTransport::Http => "http".to_owned(),
        }
    }
}

/// The configuration of one MCP server, as the user wrote it.
#[derive(Debug)]
pub struct McpServerConfig {
    /// The server's unique name.
    pub name: String,
    /// A free description.
    pub description: Option<String>,
    /// The program to start (stdio servers).
    pub command: Option<String>,
    /// The program's arguments (stdio servers).
    pub args: Option<Vec<String>>,
    /// Environment variables for the program (stdio servers), by name.
    pub env: Option<KeyedList<String>>,
    /// How the server is reached.
    pub transport: ServiceTransport,
    /// The server's endpoint (HTTP servers).
    pub url: Option<String>,
    /// Extra request headers (HTTP servers), by name.
    pub headers: Option<KeyedList<String>>,
    /// Whether the router connects to the server.
    pub enabled: bool,
}

/// A configuration without the fields that its transport does not use: a
/// stdio server keeps no URL or headers, an HTTP server no command,
/// arguments or environment.
pub open spec fn cleaned(c: McpServerConfig) -> McpServerConfig {
    match c.transport {
        ServiceTransport::Stdio => McpServerConfig { url: None, headers: None, ..c },
        ServiceTransport::Http => McpServerConfig { command: None, args: None, env: None, ..c },
    }
}

impl McpServerConfig {
    /// Drops the fields that the transport does not use.
    pub fn clean_fields(&mut self)
        ensures
            *final(self) == cleaned(*old(self)),
    {
        match self.transport {
            ServiceTransport::Stdio => {
                self.url = None;
                self.headers = None;
            },
            ServiceTransport::Http => {
                self.command = None;
                self.args = None;
                self.env = None;
            },
        }
    }
}

/// Cleaning twice is cleaning once.
pub proof fn law_clean_fields_idempotent(c: McpServerConfig)
    ensures
        cleaned(cleaned(c)) == cleaned(c),
{
}

/// An access token of the router and what it may reach.
#[derive(Debug)]
pub struct Token {
    /// Identifier.
    pub id: String,
    /// Display name.
    pub name: String,
    /// The secret value.
    pub value: String,
    /// A free description.
    pub description: Option<String>,
    /// Creation time, seconds since the Unix epoch.
    pub created_at: u64,
    /// Expiry, seconds since the Unix epoch.
    pub expires_at: Option<u64>,
    /// Last use, seconds since the Unix epoch.
    pub last_used_at: Option<u64>,
    /// How often the token was used.
    pub usage_count: u64,
    /// Whether the token may be used.
    pub enabled: bool,
    /// The tools the token may use.
    pub allowed_tools: Option<Vec<String>>,
    /// The resources the token may use.
    pub allowed_resources: Option<Vec<String>>,
    /// The prompts the token may use.
    pub allowed_prompts: Option<Vec<String>>,
    /// The prompt templates the token may use.
    pub allowed_prompt_templates: Option<Vec<String>>,
}

/// A token with expiry `expires_at` has expired at `now` (seconds since the
/// Unix epoch): it has an expiry and `now` is past it.
pub open spec fn token_expired_at(expires_at: Option<u64>, now: u64) -> bool {
    match expires_at {
        Some(e) => now > e,
        None => false,
    }
}

impl Token {
    /// Whether the token has expired at `now` (seconds since the epoch).
    pub fn is_expired_at(&self, now: u64) -> (r: bool)
        ensures
            r == token_expired_at(self.expires_at, now),
    {
        match self.expires_at {
            Some(e) => now > e,
            None => false,
        }
    }
}

} // verus!
