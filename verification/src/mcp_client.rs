//! The client side of the router: what it remembers about each connection
//! to an MCP server, when a remembered connection may be reused, and how a
//! stdio server's command line and environment are put together.
use vstd::prelude::*;
use crate::error::McpError;
use crate::keyed::KeyedList;
use crate::text::{
    concat2, concat3, eq_ignore_ascii_case, join, joined, split_whitespace, str_eq,
    str_eq_ignore_ascii_case, views, words,
};
use crate::types::McpServerConfig;

verus! {

/// How long, in seconds, a successful connection is reused without asking
/// the server again.
pub const CONNECTION_CACHE_TTL_SECONDS: u64 = 300;

/// The state of one connection.
#[derive(Debug)]
pub struct ConnectionStatus {
    /// The server answered and the session is open.
    pub is_connected: bool,
    /// A connection attempt is under way.
    pub is_connecting: bool,
    /// When the last attempt ended (seconds since the Unix epoch, UTC).
    pub last_connected: Option<i64>,
    /// Why the last attempt failed, if it did.
    pub error_message: Option<String>,
}

/// What the router keeps about a connection to one server.
#[derive(Debug)]
pub struct McpConnection {
    /// The server's name.
    pub service_id: String,
    /// The version the server reported when the session opened.
    pub server_version: Option<String>,
    /// The state of the connection.
    pub status: ConnectionStatus,
}

/// A copy of an optional string.
fn copy_opt(s: &Option<String>) -> (r: Option<String>)
    ensures
        r == *s,
{
    match s {
        Some(v) => Some(v.clone()),
        None => None,
    }
}

/// A copy of a connection record.
pub fn copy_connection(c: &McpConnection) -> (r: McpConnection)
    ensures
        r == *c,
{
    McpConnection {
        service_id: c.service_id.clone(),
        server_version: copy_opt(&c.server_version),
        status: ConnectionStatus {
            is_connected: c.status.is_connected,
            is_connecting: c.status.is_connecting,
            last_connected: c.status.last_connected,
            error_message: copy_opt(&c.status.error_message),
        },
    }
}

/// A remembered connection may be reused at `now`: it succeeded, and it
/// ended less than the cache lifetime ago.
pub open spec fn cache_valid(c: McpConnection, now: i64) -> bool {
    match c.status.last_connected {
        Some(t) => now - t < CONNECTION_CACHE_TTL_SECONDS && c.status.is_connected,
        None => false,
    }
}

/// The status a server shows: `connected`, `failed` (with the error of the
/// last attempt) or `disconnected`.
pub open spec fn status_of(c: Option<McpConnection>) -> (Seq<char>, Option<String>) {
    match c {
        Some(conn) => if conn.status.is_connected {
            ("connected"@, None)
        } else if conn.status.error_message is Some {
            ("failed"@, conn.status.error_message)
        } else {
            ("disconnected"@, None)
        },
        None => ("disconnected"@, None),
    }
}

/// Some key of `m` maps to `v`.
pub open spec fn has_value(m: Map<Seq<char>, McpConnection>, v: McpConnection) -> bool {
    exists|k: Seq<char>| #[trigger] m.contains_key(k) && m[k] == v
}

/// The connections of the router, one per server name.
pub struct McpClientManager {
    connections: KeyedList<McpConnection>,
}

impl McpClientManager {
    /// The remembered connection of each server name.
    pub closed spec fn connections(&self) -> Map<Seq<char>, McpConnection> {
        self.connections@
    }

    /// A manager that remembers no connection.
    pub fn new() -> (r: Self)
        ensures
            r.connections() == Map::<Seq<char>, McpConnection>::empty(),
    {
        McpClientManager { connections: KeyedList::new() }
    }

    /// Whether the connection remembered for `service_name` may be reused.
    pub fn is_connection_cache_valid(&self, service_name: &str, now: i64) -> (r: bool)
        ensures
            r == (self.connections().contains_key(service_name@) && cache_valid(
                self.connections()[service_name@],
                now,
            )),
    {
        match self.connections.get(service_name) {
            Some(c) => match c.status.last_connected {
                Some(t) => {
                    let age: i128 = (now as i128) - (t as i128);
                    age < (CONNECTION_CACHE_TTL_SECONDS as i128) && c.status.is_connected
                },
                None => false,
            },
            None => false,
        }
    }

    /// The connection to hand out without connecting again: the remembered
    /// one, when no refresh is forced and it may be reused.
    pub fn cached_connection(&self, service_name: &str, force_refresh: bool, now: i64) -> (r: Option<McpConnection>)
        ensures
            match r {
                Some(c) => !force_refresh && self.connections().contains_key(service_name@) && cache_valid(
                    self.connections()[service_name@],
                    now,
                ) && c == self.connections()[service_name@],
                None => force_refresh || !(self.connections().contains_key(service_name@) && cache_valid(
                    self.connections()[service_name@],
                    now,
                )),
            },
    {
        if !force_refresh && self.is_connection_cache_valid(service_name, now) {
            match self.connections.get(service_name) {
                Some(c) => Some(copy_connection(c)),
                None => None,
            }
        } else {
            None
        }
    }

    /// Remembers a connection that just opened (at `now`), replacing what
    /// was remembered for that server.
    pub fn record_connected(&mut self, service_name: &str, server_version: Option<String>, now: i64) -> (r:
        McpConnection)
        ensures
            r.service_id@ == service_name@,
            r.server_version == server_version,
            r.status == (ConnectionStatus {
                is_connected: true,
                is_connecting: false,
                last_connected: Some(now),
                error_message: None,
            }),
            final(self).connections() == old(self).connections().insert(service_name@, r),
    {
        let conn = McpConnection {
            service_id: service_name.to_owned(),
            server_version,
            status: ConnectionStatus {
                is_connected: true,
                is_connecting: false,
                last_connected: Some(now),
                error_message: None,
            },
        };
        let kept = copy_connection(&conn);
        self.connections.insert(service_name.to_owned(), kept);
        conn
    }

    /// Remembers an attempt that failed (at `now`) with `error`, and gives
    /// the connection error to report.
    pub fn record_failure(&mut self, service_name: &str, error: &str, now: i64) -> (r: McpError)
        ensures
            r matches McpError::ConnectionError(m) && m@ == error@,
            final(self).connections() == old(self).connections().insert(
                service_name@,
                McpConnection {
                    service_id: final(self).connections()[service_name@].service_id,
                    server_version: None,
                    status: ConnectionStatus {
                        is_connected: false,
                        is_connecting: false,
                        last_connected: Some(now),
                        error_message: final(self).connections()[service_name@].status.error_message,
                    },
                },
            ),
            final(self).connections()[service_name@].service_id@ == service_name@,
            final(self).connections()[service_name@].status.error_message matches Some(m) && m@ == error@,
    {
        let failed = McpConnection {
            service_id: service_name.to_owned(),
            server_version: None,
            status: ConnectionStatus {
                is_connected: false,
                is_connecting: false,
                last_connected: Some(now),
                error_message: Some(error.to_owned()),
            },
        };
        self.connections.insert(service_name.to_owned(), failed);
        McpError::ConnectionError(error.to_owned())
    }

    /// Forgets the connection of `service_id`.
    pub fn disconnect_mcp_server(&mut self, service_id: &str)
        ensures
            final(self).connections() == old(self).connections().remove(service_id@),
    {
        let _ = self.connections.remove(service_id);
    }

    /// Closes and forgets the connection of `server_name`, if there is one.
    pub fn disconnect_server(&mut self, server_name: &str)
        ensures
            final(self).connections() == old(self).connections().remove(server_name@),
    {
        let _ = self.connections.remove(server_name);
    }

    /// Before a reconnection: forgets the remembered connection of the
    /// server when it is not connected.
    pub fn clear_failed_connection(&mut self, service_name: &str)
        ensures
            old(self).connections().contains_key(service_name@) && !old(
                self,
            ).connections()[service_name@].status.is_connected ==> final(self).connections() == old(
                self,
            ).connections().remove(service_name@),
            !(old(self).connections().contains_key(service_name@) && !old(
                self,
            ).connections()[service_name@].status.is_connected) ==> final(self).connections() == old(
                self,
            ).connections(),
    {
        let failed = match self.connections.get(service_name) {
            Some(c) => !c.status.is_connected,
            None => false,
        };
        if failed {
            let _ = self.connections.remove(service_name);
        }
    }

    /// The status shown for a server, with the error of a failed attempt.
    pub fn get_connection_status(&self, service_id: &str) -> (r: (String, Option<String>))
        ensures
            ({
                let expected = status_of(
                    if self.connections().contains_key(service_id@) {
                        Some(self.connections()[service_id@])
                    } else {
                        None
                    },
                );
                r.0@ == expected.0 && r.1 == expected.1
            }),
    {
        match self.connections.get(service_id) {
            Some(c) => {
                if c.status.is_connected {
                    ("connected".to_owned(), None)
                } else {
                    match &c.status.error_message {
                        Some(m) => ("failed".to_owned(), Some(m.clone())),
                        None => ("disconnected".to_owned(), None),
                    }
                }
            },
            None => ("disconnected".to_owned(), None),
        }
    }

    /// The version of a connected server, if it reported one.
    pub fn get_server_version(&self, server_name: &str) -> (r: Option<String>)
        ensures
            r == (if self.connections().contains_key(server_name@)
                && self.connections()[server_name@].status.is_connected {
                self.connections()[server_name@].server_version
            } else {
                None
            }),
    {
        match self.connections.get(server_name) {
            Some(c) => {
                if c.status.is_connected {
                    copy_opt(&c.server_version)
                } else {
                    None
                }
            },
            None => None,
        }
    }

    /// Whether requests may be sent to `connection_id`: it must be known
    /// and connected.
    pub fn usable_connection(&self, connection_id: &str) -> (r: Result<(), McpError>)
        ensures
            !self.connections().contains_key(connection_id@) ==> (r matches Err(McpError::ServiceNotFound(m)) && m@
                == connection_id@),
            self.connections().contains_key(connection_id@) && !self.connections()[connection_id@].status.is_connected
                ==> (r matches Err(McpError::ConnectionError(m)) && m@ == "Service not connected"@),
            self.connections().contains_key(connection_id@) && self.connections()[connection_id@].status.is_connected
                ==> r is Ok,
    {
        match self.connections.get(connection_id) {
            None => Err(McpError::ServiceNotFound(connection_id.to_owned())),
            Some(c) => {
                if c.status.is_connected {
                    Ok(())
                } else {
                    Err(McpError::ConnectionError("Service not connected".to_owned()))
                }
            },
        }
    }

    /// The remembered connections, one per server.
    pub fn get_connections(&self) -> (r: Vec<McpConnection>)
        ensures
            forall|i: int| 0 <= i < r@.len() ==> has_value(self.connections(), #[trigger] r@[i]),
            forall|k: Seq<char>| #[trigger] self.connections().contains_key(k) ==> exists|i: int|
                0 <= i < r@.len() && r@[i] == self.connections()[k],
    {
        let entries = self.connections.entries();
        let mut out: Vec<McpConnection> = Vec::new();
        let mut i: usize = 0;
        while i < entries.len()
            invariant
                i <= entries@.len(),
                entries@ == self.connections.entry_seq(),
                crate::keyed::keys_unique(entries@),
                self.connections@ == crate::keyed::to_map(entries@),
                out@.len() == i,
                forall|j: int| 0 <= j < i ==> #[trigger] out@[j] == entries@[j].1,
            decreases entries@.len() - i,
        {
            out.push(copy_connection(&entries[i].1));
            i += 1;
        }
        proof {
            assert forall|j: int| 0 <= j < out@.len() implies has_value(self.connections(), #[trigger] out@[j]) by {
                crate::keyed::lemma_entry_is_mapped(entries@, j);
                assert(self.connections().contains_key(entries@[j].0@) && self.connections()[entries@[j].0@]
                    == out@[j]);
            }
            assert forall|k: Seq<char>| #[trigger] self.connections().contains_key(k) implies exists|j: int|
                0 <= j < out@.len() && out@[j] == self.connections()[k] by {
                let j = crate::keyed::key_index(entries@, k);
                crate::keyed::lemma_entry_is_mapped(entries@, j);
                assert(out@[j] == self.connections()[k]);
            }
        }
        out
    }
}

/// After a connection is recorded, the cache hands it out until its
/// lifetime ends, unless a refresh is forced.
pub proof fn law_recorded_connection_is_reused(c: McpConnection, now: i64, later: i64)
    requires
        c.status.is_connected,
        c.status.last_connected == Some(now),
        now <= later,
        later - now < CONNECTION_CACHE_TTL_SECONDS,
    ensures
        cache_valid(c, later),
{
}

/// A failed attempt is never reused, and shows as `failed` with its error.
pub proof fn law_failure_is_not_reused(c: McpConnection, now: i64)
    requires
        !c.status.is_connected,
        c.status.error_message is Some,
    ensures
        !cache_valid(c, now),
        status_of(Some(c)).0 == "failed"@,
        status_of(Some(c)).1 == c.status.error_message,
{
}

/// The first word of a command (`""` when it has none).
pub open spec fn first_word_of(s: Seq<char>) -> Seq<char> {
    if words(s).len() > 0 {
        words(s)[0]
    } else {
        Seq::<char>::empty()
    }
}

/// The first word of a command.
pub fn first_word(command: &str) -> (r: String)
    ensures
        r@ == first_word_of(command@),
{
    let parts = split_whitespace(command);
    if parts.len() > 0 {
        parts[0].clone()
    } else {
        String::new()
    }
}

/// The command line handed to the tool converter for an `npx` server: the
/// command, then its arguments joined with spaces.
pub open spec fn npx_full_command(command: Seq<char>, args: Seq<Seq<char>>) -> Seq<char> {
    if args.len() == 0 {
        command
    } else {
        command + " "@ + joined(args, " "@)
    }
}

/// What the converter is asked to convert for a stdio server: the whole
/// command line for `npx`, the command alone otherwise. A stdio server
/// without a command is refused.
pub fn conversion_input(config: &McpServerConfig) -> (r: Result<String, McpError>)
    ensures
        match config.command {
            None => (r matches Err(McpError::InvalidConfiguration(m)) && m@ == "STDIO service requires command"@),
            Some(c) => (r matches Ok(s) && s@ == (if first_word_of(c@) == "npx"@ {
                npx_full_command(
                    c@,
                    match config.args {
                        Some(a) => views(a@),
                        None => Seq::<Seq<char>>::empty(),
                    },
                )
            } else {
                c@
            })),
        },
{
    match &config.command {
        None => Err(McpError::InvalidConfiguration("STDIO service requires command".to_owned())),
        Some(c) => {
            let fw = first_word(c.as_str());
            if str_eq(fw.as_str(), "npx") {
                match &config.args {
                    Some(a) => {
                        if a.len() == 0 {
                            Ok(c.clone())
                        } else {
                            let rest = join(a, " ");
                            Ok(concat3(c.as_str(), " ", rest.as_str()))
                        }
                    },
                    None => Ok(c.clone()),
                }
            } else {
                Ok(c.clone())
            }
        },
    }
}

/// An argument that `bun x` does not need: `-y` or `--yes`, in any ASCII
/// case. (Lower-casing an argument gives `-y` or `--yes` exactly when it
/// is one of these up to ASCII case: no other character lower-cases to
/// an ASCII letter of them.)
pub open spec fn is_yes_flag(a: Seq<char>) -> bool {
    eq_ignore_ascii_case(a, "-y"@) || eq_ignore_ascii_case(a, "--yes"@)
}

/// The words of a converted command that are kept as arguments of `bun`:
/// all but `bun` itself and the `-y`/`--yes` flags, in order.
pub open spec fn bun_args(parts: Seq<Seq<char>>) -> Seq<Seq<char>>
    decreases parts.len(),
{
    if parts.len() == 0 {
        Seq::<Seq<char>>::empty()
    } else {
        let rest = bun_args(parts.drop_last());
        let p = parts.last();
        if p != "bun"@ && !is_yes_flag(p) {
            rest.push(p)
        } else {
            rest
        }
    }
}

/// The arguments a stdio server is started with. For an `npx` server the
/// converted command line, when it reads `bun x ...` with at least three
/// words, gives its words minus `bun` and the yes-flags; otherwise none.
/// Any other server keeps its configured arguments.
pub open spec fn launch_args(command: Seq<char>, configured: Seq<Seq<char>>, converted: Seq<char>) -> Seq<Seq<char>> {
    if first_word_of(command) == "npx"@ {
        let parts = words(converted);
        if parts.len() >= 3 && parts[0] == "bun"@ && parts[1] == "x"@ {
            bun_args(parts)
        } else {
            Seq::<Seq<char>>::empty()
        }
    } else {
        configured
    }
}

/// The arguments a stdio server is started with, from its command, its
/// configured arguments and the converted command line.
pub fn stdio_launch_args(command: &str, configured_args: Vec<String>, converted: &str) -> (r: Vec<String>)
    ensures
        views(r@) == launch_args(command@, views(configured_args@), converted@),
{
    let fw = first_word(command);
    if !str_eq(fw.as_str(), "npx") {
        return configured_args;
    }
    let parts = split_whitespace(converted);
    if parts.len() >= 3 && str_eq(parts[0].as_str(), "bun") && str_eq(parts[1].as_str(), "x") {
        let mut out: Vec<String> = Vec::new();
        let mut i: usize = 0;
        while i < parts.len()
            invariant
                i <= parts@.len(),
                views(parts@) == words(converted@),
                views(out@) == bun_args(views(parts@).take(i as int)),
            decreases parts@.len() - i,
        {
            let ghost pre = views(parts@).take(i as int);
            let ghost post = views(parts@).take(i + 1);
            assert(post.drop_last() =~= pre);
            let p = parts[i].as_str();
            let keep = !str_eq(p, "bun") && !str_eq_ignore_ascii_case(p, "-y") && !str_eq_ignore_ascii_case(
                p,
                "--yes",
            );
            if keep {
                let ghost before = out@;
                out.push(parts[i].clone());
                assert(views(out@) =~= views(before).push(parts@[i as int]@));
            }
            i += 1;
        }
        assert(views(parts@).take(parts@.len() as int) =~= views(parts@));
        out
    } else {
        Vec::new()
    }
}

/// The name of the program looked up among the managed tools, and the
/// name used when it is not found there.
pub open spec fn executable_names(command: Seq<char>, converted: Seq<char>) -> (Seq<char>, Seq<char>) {
    if first_word_of(command) == "npx"@ && converted.len() >= 5 && converted.subrange(0, 5) == "bun x"@ {
        ("bun"@, "bun"@)
    } else {
        (converted, if words(converted).len() > 0 {
            words(converted)[0]
        } else {
            converted
        })
    }
}

/// The program to look up for a stdio server, and the fallback name.
pub fn executable_lookup(command: &str, converted: &str) -> (r: (String, String))
    ensures
        r.0@ == executable_names(command@, converted@).0,
        r.1@ == executable_names(command@, converted@).1,
{
    let fw = first_word(command);
    let conv = crate::text::chars_of(converted);
    let mut prefix: Vec<char> = Vec::new();
    prefix.push('b');
    prefix.push('u');
    prefix.push('n');
    prefix.push(' ');
    prefix.push('x');
    proof {
        reveal_strlit("bun x");
        assert(prefix@ =~= "bun x"@);
    }
    let starts = crate::text::starts_with_chars(&conv, &prefix);
    proof {
        if starts {
            assert(conv@.subrange(0, 5) =~= "bun x"@);
        } else if conv@.len() >= 5 {
            assert(!(conv@.subrange(0, 5) =~= "bun x"@));
        }
    }
    if str_eq(fw.as_str(), "npx") && starts {
        ("bun".to_owned(), "bun".to_owned())
    } else {
        let parts = split_whitespace(converted);
        let fallback = if parts.len() > 0 {
            parts[0].clone()
        } else {
            converted.to_owned()
        };
        (converted.to_owned(), fallback)
    }
}

/// The environment of a stdio server after the registry settings are
/// applied: `UV_INDEX_URL` for `uv`/`uvx`, `NPM_CONFIG_REGISTRY` for
/// `npx`/`npm`, when set.
pub open spec fn with_registry_env(
    env: Map<Seq<char>, String>,
    first: Seq<char>,
    uv_index_url: Option<String>,
    npm_registry: Option<String>,
) -> Map<Seq<char>, String> {
    if first == "uvx"@ || first == "uv"@ {
        match uv_index_url {
            Some(u) => env.insert("UV_INDEX_URL"@, u),
            None => env,
        }
    } else if first == "npx"@ || first == "npm"@ {
        match npm_registry {
            Some(n) => env.insert("NPM_CONFIG_REGISTRY"@, n),
            None => env,
        }
    } else {
        env
    }
}

/// The registry settings reach the package tool that runs a server: an
/// `npx` or `npm` command gets `NPM_CONFIG_REGISTRY` set to the npm
/// registry, a `uv` or `uvx` command gets `UV_INDEX_URL` set to the
/// package index, each when configured; every other variable, and the
/// environment of any other command, is left as it was.
pub proof fn law_registry_env_reaches_tool(
    env: Map<Seq<char>, String>,
    first: Seq<char>,
    uv_index_url: Option<String>,
    npm_registry: Option<String>,
)
    ensures
        (first == "npx"@ || first == "npm"@) && npm_registry is Some ==> with_registry_env(
            env,
            first,
            uv_index_url,
            npm_registry,
        ) == env.insert("NPM_CONFIG_REGISTRY"@, npm_registry.unwrap()),
        (first == "uv"@ || first == "uvx"@) && uv_index_url is Some ==> with_registry_env(
            env,
            first,
            uv_index_url,
            npm_registry,
        ) == env.insert("UV_INDEX_URL"@, uv_index_url.unwrap()),
        (first != "npx"@ && first != "npm"@ && first != "uv"@ && first != "uvx"@) ==> with_registry_env(
            env,
            first,
            uv_index_url,
            npm_registry,
        ) == env,
{
    reveal_strlit("npx");
    reveal_strlit("npm");
    reveal_strlit("uv");
    reveal_strlit("uvx");
    assert("npx"@.len() != "uv"@.len() && "npm"@.len() != "uv"@.len());
    assert("npx"@[0] != "uvx"@[0] && "npm"@[0] != "uvx"@[0]);
}

/// Applies the package-registry settings to a stdio server's environment.
pub fn apply_registry_env(
    env: &mut KeyedList<String>,
    command: &str,
    uv_index_url: Option<String>,
    npm_registry: Option<String>,
)
    ensures
        final(env)@ == with_registry_env(old(env)@, first_word_of(command@), uv_index_url, npm_registry),
        (first_word_of(command@) == "npx"@ || first_word_of(command@) == "npm"@) && npm_registry is Some
            ==> final(env)@ == old(env)@.insert("NPM_CONFIG_REGISTRY"@, npm_registry.unwrap()),
        (first_word_of(command@) == "uv"@ || first_word_of(command@) == "uvx"@) && uv_index_url is Some
            ==> final(env)@ == old(env)@.insert("UV_INDEX_URL"@, uv_index_url.unwrap()),
{
    proof {
        law_registry_env_reaches_tool(env@, first_word_of(command@), uv_index_url, npm_registry);
    }
    let fw = first_word(command);
    let f = fw.as_str();
    if str_eq(f, "uvx") || str_eq(f, "uv") {
        if let Some(u) = uv_index_url {
            env.insert("UV_INDEX_URL".to_owned(), u);
        }
    } else if str_eq(f, "npx") || str_eq(f, "npm") {
        if let Some(n) = npm_registry {
            env.insert("NPM_CONFIG_REGISTRY".to_owned(), n);
        }
    }
}

/// The map after each pair of `pairs` is set in order.
pub open spec fn insert_all(m: Map<Seq<char>, String>, pairs: Seq<(String, String)>) -> Map<Seq<char>, String>
    decreases pairs.len(),
{
    if pairs.len() == 0 {
        m
    } else {
        insert_all(m, pairs.drop_last()).insert(pairs.last().0@, pairs.last().1)
    }
}

/// Setting pairs with distinct keys overlays them on a map: a key the pairs
/// name takes the pair's value, any other key keeps its value, and no key
/// is lost.
pub proof fn law_insert_all_overlays(m: Map<Seq<char>, String>, pairs: Seq<(String, String)>)
    requires
        crate::keyed::keys_unique(pairs),
    ensures
        insert_all(m, pairs) == m.union_prefer_right(crate::keyed::to_map(pairs)),
    decreases pairs.len(),
{
    if pairs.len() == 0 {
        assert(crate::keyed::to_map(pairs) =~= Map::<Seq<char>, String>::empty());
        assert(m.union_prefer_right(Map::<Seq<char>, String>::empty()) =~= m);
    } else {
        let d = pairs.drop_last();
        assert(crate::keyed::keys_unique(d)) by {
            assert forall|i: int, j: int| 0 <= i < j < d.len() implies #[trigger] d[i].0@ != #[trigger] d[j].0@ by {
                assert(pairs[i].0@ != pairs[j].0@);
            }
        }
        law_insert_all_overlays(m, d);
        assert(!crate::keyed::has_key(d, pairs.last().0@)) by {
            if crate::keyed::has_key(d, pairs.last().0@) {
                let i = choose|i: int| 0 <= i < d.len() && #[trigger] d[i].0@ == pairs.last().0@;
                assert(pairs[i].0@ != pairs[pairs.len() - 1].0@);
            }
        }
        crate::keyed::lemma_push_new_key(d, pairs.last().0, pairs.last().1);
        assert(d.push((pairs.last().0, pairs.last().1)) =~= pairs);
        assert(m.union_prefer_right(crate::keyed::to_map(d)).insert(pairs.last().0@, pairs.last().1) =~= m.union_prefer_right(
            crate::keyed::to_map(d).insert(pairs.last().0@, pairs.last().1),
        ));
    }
}

/// Setting pairs with distinct keys into an empty map gives the map they
/// stand for.
pub proof fn lemma_insert_all_into_empty(pairs: Seq<(String, String)>)
    requires
        crate::keyed::keys_unique(pairs),
    ensures
        insert_all(Map::<Seq<char>, String>::empty(), pairs) == crate::keyed::to_map(pairs),
    decreases pairs.len(),
{
    if pairs.len() == 0 {
        assert(crate::keyed::to_map(pairs) =~= Map::<Seq<char>, String>::empty());
    } else {
        let d = pairs.drop_last();
        assert(crate::keyed::keys_unique(d)) by {
            assert forall|i: int, j: int| 0 <= i < j < d.len() implies #[trigger] d[i].0@ != #[trigger] d[j].0@ by {
                assert(pairs[i].0@ != pairs[j].0@);
            }
        }
        lemma_insert_all_into_empty(d);
        assert(!crate::keyed::has_key(d, pairs.last().0@)) by {
            if crate::keyed::has_key(d, pairs.last().0@) {
                let i = choose|i: int| 0 <= i < d.len() && #[trigger] d[i].0@ == pairs.last().0@;
                assert(pairs[i].0@ != pairs[pairs.len() - 1].0@);
            }
        }
        crate::keyed::lemma_push_new_key(d, pairs.last().0, pairs.last().1);
        assert(d.push((pairs.last().0, pairs.last().1)) =~= pairs);
    }
}

/// Sets each pair of `pairs` in `env`, in order; a later pair wins.
pub fn merge_env(env: &mut KeyedList<String>, pairs: Vec<(String, String)>)
    ensures
        final(env)@ == insert_all(old(env)@, pairs@),
{
    let ghost orig = pairs@;
    let ghost start = env@;
    let mut rev: Vec<(String, String)> = Vec::new();
    let mut pairs = pairs;
    while pairs.len() > 0
        invariant
            pairs@.len() + rev@.len() == orig.len(),
            pairs@ == orig.take(pairs@.len() as int),
            forall|j: int| 0 <= j < rev@.len() ==> rev@[j] == orig[orig.len() - 1 - j],
        decreases pairs@.len(),
    {
        let p = pairs.pop().unwrap();
        rev.push(p);
        assert(pairs@ =~= orig.take(pairs@.len() as int));
    }
    let mut i: usize = 0;
    let n = rev.len();
    while i < n
        invariant
            n == orig.len(),
            i <= n,
            rev@.len() == n - i,
            forall|j: int| 0 <= j < rev@.len() ==> rev@[j] == orig[orig.len() - 1 - j],
            env@ == insert_all(start, orig.take(i as int)),
        decreases n - i,
    {
        let (k, v) = rev.pop().unwrap();
        assert(orig.take(i + 1).drop_last() =~= orig.take(i as int));
        env.insert(k, v);
        i += 1;
    }
    assert(orig.take(n as int) =~= orig);
}

} // verus!
