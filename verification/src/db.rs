//! Repositories of the database tables. The queries run in the
//! application shell; what they compute before a query is here.
use vstd::prelude::*;
use crate::text::{concat3, joined};

verus! {

/// Queries on the API-key-to-server relation.
#[derive(Debug)]
pub struct ApiKeyServerRepository;

/// Queries on the API-key-to-tool relation.
#[derive(Debug)]
pub struct ApiKeyToolRepository;

/// Queries on the MCP server table.
#[derive(Debug)]
pub struct McpServerRepository;

/// Queries on the tool table.
#[derive(Debug)]
pub struct ToolRepository;

/// `n` placeholders joined with commas: `?, ?, …`.
pub open spec fn placeholders(n: nat) -> Seq<char>
    decreases n,
{
    if n == 0 {
        Seq::<char>::empty()
    } else if n == 1 {
        "?"@
    } else {
        placeholders((n - 1) as nat) + ", ?"@
    }
}

impl ApiKeyToolRepository {
    /// The statement that withdraws from a key the tools of a server that
    /// has `n` tools (one placeholder per tool id, after the key's).
    pub fn revoke_statement(n: usize) -> (r: String)
        requires
            n > 0,
        ensures
            r@ == "DELETE FROM api_key_tool_relations WHERE api_key_id = ? AND tool_id IN ("@ + placeholders(n as nat)
                + ")"@,
    {
        let mut p = "?".to_owned();
        let mut i: usize = 1;
        while i < n
            invariant
                1 <= i <= n,
                p@ == placeholders(i as nat),
            decreases n - i,
        {
            crate::text::push_str(&mut p, ", ?");
            i += 1;
        }
        concat3("DELETE FROM api_key_tool_relations WHERE api_key_id = ? AND tool_id IN (", p.as_str(), ")")
    }
}

} // verus!
