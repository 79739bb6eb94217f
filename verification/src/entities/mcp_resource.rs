//! Cached resources of an MCP server.
use vstd::prelude::*;
use crate::entities::mcp_tool::{json_field_readable, parse_json_field, stored_document};
use crate::json::{json_text_of, json_to_string};
use crate::text::{after_last, after_last_start, chars_of, push_char, push_str};

verus! {

/// A resource that an MCP server offers, as the router caches it.
#[derive(Clone, Debug, PartialEq, Eq)]
pub struct Model {
    /// Primary key.
    pub id: String,
    /// The server the resource belongs to.
    pub server_id: String,
    /// The resource URI.
    pub uri: String,
    /// An optional name.
    pub name: Option<String>,
    /// An optional human-readable title.
    pub title: Option<String>,
    /// An optional description.
    pub description: Option<String>,
    /// An optional MIME type.
    pub mime_type: Option<String>,
    /// Whether the resource is enabled.
    pub enabled: bool,
    /// Whether this is a URI template.
    pub is_template: bool,
    /// The URI template of a template resource.
    pub uri_template: Option<String>,
    /// Metadata, as JSON text.
    pub meta: Option<String>,
    /// Creation time, seconds since the Unix epoch.
    pub created_at: i64,
    /// Last update time, seconds since the Unix epoch.
    pub updated_at: i64,
}

/// What a resource is shown as: its title, else its name, else the last
/// `/`-separated part of its URI.
pub open spec fn resource_display_name(title: Option<String>, name: Option<String>, uri: Seq<char>) -> Seq<char> {
    match title {
        Some(t) => t@,
        None => match name {
            Some(n) => n@,
            None => after_last(uri, '/'),
        },
    }
}

/// The last `/`-separated part of a URI (the whole URI when it holds no `/`).
pub fn uri_last_segment(uri: &str) -> (r: String)
    ensures
        r@ == after_last(uri@, '/'),
{
    let v = chars_of(uri);
    let start = after_last_start(&v, '/');
    crate::text::string_from_range(&v, start, v.len())
}

impl Default for Model {
    /// An empty, enabled, non-template resource record stamped with the
    /// current time.
    fn default() -> (r: Model)
        ensures
            r.id@.len() == 0 && r.server_id@.len() == 0 && r.uri@.len() == 0,
            r.name is None && r.title is None && r.description is None && r.mime_type is None,
            r.enabled && !r.is_template,
            r.uri_template is None && r.meta is None,
            r.created_at == r.updated_at,
    {
        Model::default_at(crate::clock::utc_now_seconds())
    }
}

impl Model {
    /// An empty, enabled, non-template resource record stamped with `now`.
    pub fn default_at(now: i64) -> (r: Model)
        ensures
            r.id@.len() == 0 && r.server_id@.len() == 0 && r.uri@.len() == 0,
            r.name is None && r.title is None && r.description is None && r.mime_type is None,
            r.enabled && !r.is_template,
            r.uri_template is None && r.meta is None,
            r.created_at == now && r.updated_at == now,
    {
        Model {
            id: String::new(),
            server_id: String::new(),
            uri: String::new(),
            name: None,
            title: None,
            description: None,
            mime_type: None,
            enabled: true,
            is_template: false,
            uri_template: None,
            meta: None,
            created_at: now,
            updated_at: now,
        }
    }

    /// Whether the resource is enabled.
    pub fn is_enabled(&self) -> (r: bool)
        ensures
            r == self.enabled,
    {
        self.enabled
    }

    /// Whether the resource is a template.
    pub fn is_template_resource(&self) -> (r: bool)
        ensures
            r == self.is_template,
    {
        self.is_template
    }

    /// The title, else the name, else the last `/`-separated part of the URI.
    pub fn get_display_name(&self) -> (r: String)
        ensures
            r@ == resource_display_name(self.title, self.name, self.uri@),
    {
        match &self.title {
            Some(t) => t.clone(),
            None => match &self.name {
                Some(n) => n.clone(),
                None => uri_last_segment(self.uri.as_str()),
            },
        }
    }

    /// The URI behind the `__` separator (the server part is left empty:
    /// the record does not hold the server's name).
    pub fn get_full_path(&self) -> (r: String)
        ensures
            r@ == seq!['_', '_'] + self.uri@,
    {
        let mut r = String::new();
        push_char(&mut r, '_');
        push_char(&mut r, '_');
        push_str(&mut r, self.uri.as_str());
        assert(r@ =~= seq!['_', '_'] + self.uri@);
        r
    }

    /// The description, if any.
    pub fn get_description(&self) -> (r: Option<&str>)
        ensures
            match self.description {
                Some(d) => r matches Some(x) && x@ == d@,
                None => r is None,
            },
    {
        match &self.description {
            Some(d) => Some(d.as_str()),
            None => None,
        }
    }

    /// Reads the metadata; absent metadata is the empty object.
    pub fn parse_meta(&self) -> (r: Result<serde_json::Value, serde_json::Error>)
        ensures
            r is Ok <==> json_field_readable(self.meta),
            match r {
                Ok(v) => stored_document(self.meta) == Some(json_text_of(v)),
                Err(_) => stored_document(self.meta) is None,
            },
    {
        parse_json_field(&self.meta)
    }

    /// The JSON text of metadata.
    pub fn serialize_meta(meta: &serde_json::Value) -> (r: String)
        ensures
            r@ == json_text_of(*meta),
    {
        json_to_string(meta)
    }

    /// Whether metadata is stored.
    pub fn has_meta(&self) -> (r: bool)
        ensures
            r == self.meta is Some,
    {
        self.meta.is_some()
    }
}

} // verus!
