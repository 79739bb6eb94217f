//! The list of configured MCP servers and its edits: add, update, delete
//! and toggle, each answered with the message the user sees.
use vstd::prelude::*;
use crate::config::ConfigError;
use crate::text::{concat3, str_eq};
use crate::types::{cleaned, McpServerConfig};

verus! {

/// The names of a list of servers, in order.
pub open spec fn names_of(s: Seq<McpServerConfig>) -> Seq<Seq<char>> {
    Seq::new(s.len(), |i: int| s[i].name@)
}

/// No two servers of the list share a name.
pub open spec fn names_unique(s: Seq<McpServerConfig>) -> bool {
    forall|i: int, j: int| 0 <= i < j < s.len() ==> #[trigger] s[i].name@ != #[trigger] s[j].name@
}

/// The position of the first server called `name`, if any.
pub open spec fn first_named(s: Seq<McpServerConfig>, name: Seq<char>, i: int) -> bool {
    &&& 0 <= i < s.len()
    &&& s[i].name@ == name
    &&& forall|j: int| 0 <= j < i ==> #[trigger] s[j].name@ != name
}

/// Some server of the list is called `name`.
pub open spec fn has_named(s: Seq<McpServerConfig>, name: Seq<char>) -> bool {
    exists|i: int| 0 <= i < s.len() && #[trigger] s[i].name@ == name
}

/// The position of the first server called `name`.
fn find_index(servers: &Vec<McpServerConfig>, name: &str) -> (r: Option<usize>)
    ensures
        match r {
            Some(i) => first_named(servers@, name@, i as int),
            None => !has_named(servers@, name@),
        },
{
    let mut i: usize = 0;
    while i < servers.len()
        invariant
            i <= servers.len(),
            forall|j: int| 0 <= j < i ==> #[trigger] servers@[j].name@ != name@,
        decreases servers.len() - i,
    {
        if str_eq(servers[i].name.as_str(), name) {
            return Some(i);
        }
        i += 1;
    }
    None
}

/// The configured MCP servers, in the order they were added.
#[derive(Debug)]
pub struct McpServerRepository {
    servers: Vec<McpServerConfig>,
}

impl McpServerRepository {
    /// The servers, in order.
    pub closed spec fn servers(&self) -> Seq<McpServerConfig> {
        self.servers@
    }

    /// A repository holding the servers read from the configuration file.
    pub fn new(servers: Vec<McpServerConfig>) -> (r: Self)
        ensures
            r.servers() == servers@,
    {
        McpServerRepository { servers }
    }

    /// Every server, in order.
    pub fn get_all(&self) -> (r: &[McpServerConfig])
        ensures
            r@ == self.servers(),
    {
        self.servers.as_slice()
    }

    /// The first server called `name`, if any.
    pub fn get_by_name(&self, name: &str) -> (r: Option<&McpServerConfig>)
        ensures
            match r {
                Some(c) => exists|i: int| first_named(self.servers(), name@, i) && *c == self.servers()[i],
                None => !has_named(self.servers(), name@),
            },
    {
        match find_index(&self.servers, name) {
            Some(i) => {
                assert(first_named(self.servers(), name@, i as int));
                Some(&self.servers[i])
            },
            None => None,
        }
    }

    /// The first server called `name`, to be changed in place.
    pub fn get_by_name_mut(&mut self, name: &str) -> (r: Option<&mut McpServerConfig>)
        ensures
            match r {
                Some(c) => exists|i: int|
                    first_named(old(self).servers(), name@, i) && *c == old(self).servers()[i]
                        && final(self).servers() == old(self).servers().update(i, *final(c)),
                None => !has_named(old(self).servers(), name@) && final(self).servers() == old(self).servers(),
            },
    {
        match find_index(&self.servers, name) {
            Some(i) => {
                assert(first_named(self.servers(), name@, i as int));
                Some(&mut self.servers[i])
            },
            None => None,
        }
    }

    /// Adds a server under a new name, with the fields its transport does
    /// not use dropped. A name already present is refused.
    pub fn add(&mut self, config: McpServerConfig) -> (r: Result<String, ConfigError>)
        ensures
            has_named(old(self).servers(), config.name@) ==> (r matches Err(ConfigError::Invalid(m))
                && m@ == "server name already exists: "@ + config.name@ + ""@),
            has_named(old(self).servers(), config.name@) ==> final(self).servers() == old(self).servers(),
            !has_named(old(self).servers(), config.name@) ==> (r matches Ok(m)
                && m@ == "MCP server '"@ + config.name@ + "' added successfully"@),
            !has_named(old(self).servers(), config.name@) ==> final(self).servers() == old(self).servers().push(
                cleaned(config),
            ),
            names_unique(old(self).servers()) ==> names_unique(final(self).servers()),
    {
        if find_index(&self.servers, config.name.as_str()).is_some() {
            return Err(ConfigError::Invalid(concat3("server name already exists: ", config.name.as_str(), "")));
        }
        let message = concat3("MCP server '", config.name.as_str(), "' added successfully");
        let mut config = config;
        config.clean_fields();
        self.servers.push(config);
        Ok(message)
    }

    /// Replaces the fields of the server called `config.name` with those of
    /// `config` (cleaned for its transport). When no server has that name
    /// the error names `name`, the name the caller asked to update.
    pub fn update(&mut self, name: &str, config: McpServerConfig) -> (r: Result<String, ConfigError>)
        ensures
            !has_named(old(self).servers(), config.name@) ==> (r matches Err(ConfigError::Invalid(m))
                && m@ == "server not found: "@ + name@ + ""@) && final(self).servers() == old(self).servers(),
            has_named(old(self).servers(), config.name@) ==> (r matches Ok(m)
                && m@ == "MCP server '"@ + config.name@ + "' updated successfully"@) && exists|i: int|
                first_named(old(self).servers(), config.name@, i) && final(self).servers() == old(
                    self,
                ).servers().update(i, cleaned(config)),
            names_unique(old(self).servers()) ==> names_unique(final(self).servers()),
    {
        match find_index(&self.servers, config.name.as_str()) {
            None => Err(ConfigError::Invalid(concat3("server not found: ", name, ""))),
            Some(i) => {
                let message = concat3("MCP server '", config.name.as_str(), "' updated successfully");
                let mut config = config;
                config.clean_fields();
                self.servers.set(i, config);
                assert(forall|j: int| 0 <= j < self.servers@.len() ==> #[trigger] self.servers@[j].name@ == old(
                    self,
                ).servers@[j].name@);
                Ok(message)
            },
        }
    }

    /// Removes the first server called `name`.
    pub fn delete(&mut self, name: &str) -> (r: Result<String, ConfigError>)
        ensures
            !has_named(old(self).servers(), name@) ==> (r matches Err(ConfigError::Invalid(m))
                && m@ == "server not found: "@ + name@ + ""@) && final(self).servers() == old(self).servers(),
            has_named(old(self).servers(), name@) ==> (r matches Ok(m) && m@ == "MCP server '"@ + name@
                + "' deleted"@) && exists|i: int|
                first_named(old(self).servers(), name@, i) && final(self).servers() == old(
                    self,
                ).servers().remove(i),
            names_unique(old(self).servers()) ==> names_unique(final(self).servers()),
    {
        match find_index(&self.servers, name) {
            None => Err(ConfigError::Invalid(concat3("server not found: ", name, ""))),
            Some(i) => {
                self.servers.remove(i);
                Ok(concat3("MCP server '", name, "' deleted"))
            },
        }
    }

    /// Flips whether the first server called `name` is enabled, drops the
    /// fields its transport does not use, and returns the new state.
    pub fn toggle_enabled(&mut self, name: &str) -> (r: Result<bool, ConfigError>)
        ensures
            !has_named(old(self).servers(), name@) ==> (r matches Err(ConfigError::Invalid(m))
                && m@ == "server not found: "@ + name@ + ""@) && final(self).servers() == old(self).servers(),
            has_named(old(self).servers(), name@) ==> exists|i: int|
                first_named(old(self).servers(), name@, i) && r == Ok::<bool, ConfigError>(
                    !old(self).servers()[i].enabled,
                ) && final(self).servers() == old(self).servers().update(
                    i,
                    cleaned(McpServerConfig { enabled: !old(self).servers()[i].enabled, ..old(self).servers()[i] }),
                ),
            names_unique(old(self).servers()) ==> names_unique(final(self).servers()),
    {
        match find_index(&self.servers, name) {
            None => Err(ConfigError::Invalid(concat3("server not found: ", name, ""))),
            Some(i) => {
                let mut server = self.servers.remove(i);
                let new_state = !server.enabled;
                server.enabled = new_state;
                server.clean_fields();
                self.servers.insert(i, server);
                assert(forall|j: int| 0 <= j < self.servers@.len() ==> #[trigger] self.servers@[j].name@ == old(
                    self,
                ).servers@[j].name@);
                Ok(new_state)
            },
        }
    }
}

/// A server that was added is what a later lookup of its name finds.
pub proof fn law_added_server_is_found(servers: Seq<McpServerConfig>, config: McpServerConfig)
    requires
        !has_named(servers, config.name@),
    ensures
        first_named(servers.push(cleaned(config)), config.name@, servers.len() as int),
        servers.push(cleaned(config))[servers.len() as int] == cleaned(config),
{
}

/// A server that was updated is what a later lookup of its name finds: the
/// new configuration, cleaned, at the same place.
pub proof fn law_updated_server_is_found(servers: Seq<McpServerConfig>, config: McpServerConfig, i: int)
    requires
        first_named(servers, config.name@, i),
    ensures
        first_named(servers.update(i, cleaned(config)), config.name@, i),
        servers.update(i, cleaned(config))[i] == cleaned(config),
{
    let t = servers.update(i, cleaned(config));
    assert forall|j: int| 0 <= j < i implies #[trigger] t[j].name@ != config.name@ by {
        assert(t[j] == servers[j]);
    }
}

/// Once the server called `name` is deleted from a list whose names are
/// unique, no server of that name is left.
pub proof fn law_deleted_server_is_gone(servers: Seq<McpServerConfig>, name: Seq<char>, i: int)
    requires
        names_unique(servers),
        first_named(servers, name, i),
    ensures
        !has_named(servers.remove(i), name),
{
    if has_named(servers.remove(i), name) {
        let k = choose|k: int| 0 <= k < servers.remove(i).len() && #[trigger] servers.remove(i)[k].name@ == name;
        if k < i {
            assert(servers[k].name@ == name);
        } else {
            assert(servers[k + 1].name@ == servers[i].name@);
        }
    }
}

/// The state a toggle gives the server at `i`.
pub open spec fn toggled(servers: Seq<McpServerConfig>, i: int) -> Seq<McpServerConfig> {
    servers.update(i, cleaned(McpServerConfig { enabled: !servers[i].enabled, ..servers[i] }))
}

/// Toggling a server twice gives it back its enabled state, and the server
/// stays where it was found.
pub proof fn law_toggle_twice_restores(servers: Seq<McpServerConfig>, name: Seq<char>, i: int)
    requires
        first_named(servers, name, i),
    ensures
        first_named(toggled(servers, i), name, i),
        toggled(toggled(servers, i), i)[i].enabled == servers[i].enabled,
        toggled(toggled(servers, i), i).len() == servers.len(),
{
}

} // verus!
