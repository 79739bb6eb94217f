//! Cached tools of an MCP server.
use vstd::prelude::*;
use crate::json::{
    empty_json_object, json_accepts, json_as_string, json_document_text, json_member, json_member_text,
    json_string_text, json_text_of, json_to_string, parse_json,
};
use crate::text::{push_char, push_str};

verus! {

/// A tool that an MCP server offers, as the router caches it.
#[derive(Clone, Debug, PartialEq, Eq)]
pub struct Model {
    /// Primary key.
    pub id: String,
    /// The server the tool belongs to.
    pub server_id: String,
    /// The tool's name on its server.
    pub name: String,
    /// An optional human-readable title.
    pub title: Option<String>,
    /// An optional description.
    pub description: Option<String>,
    /// Whether the tool is enabled.
    pub enabled: bool,
    /// Input JSON schema, as JSON text.
    pub input_schema: Option<String>,
    /// Output JSON schema, as JSON text.
    pub output_schema: Option<String>,
    /// Annotations, as JSON text.
    pub annotations: Option<String>,
    /// Metadata, as JSON text.
    pub meta: Option<String>,
    /// Creation time, seconds since the Unix epoch.
    pub created_at: i64,
    /// Last update time, seconds since the Unix epoch.
    pub updated_at: i64,
}

/// The compact text of the document an optional JSON text field reads
/// as: an absent field reads as the empty object; `None` where the text is
/// not JSON.
pub open spec fn stored_document(field: Option<String>) -> Option<Seq<char>> {
    match field {
        Some(s) => json_document_text(s@),
        None => Some(seq!['{', '}']),
    }
}

/// Whether an optional JSON text field reads back as a document: an absent
/// field reads as the empty object.
pub open spec fn json_field_readable(field: Option<String>) -> bool {
    match field {
        Some(s) => json_accepts(s@),
        None => true,
    }
}

/// The `type` a stored JSON schema names: present where the field is
/// present, reads as JSON, and the document has a member `type` that is a
/// string.
pub open spec fn schema_type_of(field: Option<String>) -> Option<Seq<char>> {
    match field {
        Some(s) => match json_document_text(s@) {
            Some(doc) => match json_member_text(doc, "type"@) {
                Some(member) => json_string_text(member),
                None => None,
            },
            None => None,
        },
        None => None,
    }
}

/// The `type` member of a stored JSON schema, where the field is present,
/// reads as JSON, and that member holds a string.
fn schema_type(field: &Option<String>) -> (r: Option<String>)
    ensures
        match r {
            Some(t) => schema_type_of(*field) == Some(t@),
            None => schema_type_of(*field) is None,
        },
{
    match field {
        Some(s) => match parse_json(s.as_str()) {
            Ok(schema) => match json_member(&schema, "type") {
                Some(t) => json_as_string(t),
                None => None,
            },
            Err(_) => None,
        },
        None => None,
    }
}

/// Reads an optional JSON field; an absent one is the empty object.
pub(crate) fn parse_json_field(field: &Option<String>) -> (r: Result<serde_json::Value, serde_json::Error>)
    ensures
        r is Ok <==> json_field_readable(*field),
        match r {
            Ok(v) => stored_document(*field) == Some(json_text_of(v)),
            Err(_) => stored_document(*field) is None,
        },
{
    match field {
        Some(s) => parse_json(s.as_str()),
        None => Ok(empty_json_object()),
    }
}

impl Default for Model {
    /// An empty, enabled tool record stamped with the current time.
    fn default() -> (r: Model)
        ensures
            r.id@.len() == 0 && r.server_id@.len() == 0 && r.name@.len() == 0,
            r.title is None && r.description is None,
            r.enabled,
            r.input_schema is None && r.output_schema is None,
            r.annotations is None && r.meta is None,
            r.created_at == r.updated_at,
    {
        Model::default_at(crate::clock::utc_now_seconds())
    }
}

impl Model {
    /// A tool record with empty identifiers, enabled, and no optional data,
    /// stamped with the given time.
    pub fn default_at(now: i64) -> (r: Model)
        ensures
            r.id@.len() == 0 && r.server_id@.len() == 0 && r.name@.len() == 0,
            r.title is None && r.description is None,
            r.enabled,
            r.input_schema is None && r.output_schema is None,
            r.annotations is None && r.meta is None,
            r.created_at == now && r.updated_at == now,
    {
        Model {
            id: String::new(),
            server_id: String::new(),
            name: String::new(),
            title: None,
            description: None,
            enabled: true,
            input_schema: None,
            output_schema: None,
            annotations: None,
            meta: None,
            created_at: now,
            updated_at: now,
        }
    }

    /// Reads the input schema; an absent one is the empty object.
    pub fn parse_input_schema(&self) -> (r: Result<serde_json::Value, serde_json::Error>)
        ensures
            r is Ok <==> json_field_readable(self.input_schema),
            match r {
                Ok(v) => stored_document(self.input_schema) == Some(json_text_of(v)),
                Err(_) => stored_document(self.input_schema) is None,
            },
    {
        parse_json_field(&self.input_schema)
    }

    /// The JSON text of a schema.
    pub fn serialize_input_schema(schema: &serde_json::Value) -> (r: String)
        ensures
            r@ == json_text_of(*schema),
    {
        json_to_string(schema)
    }

    /// Reads the output schema; an absent one is the empty object.
    pub fn parse_output_schema(&self) -> (r: Result<serde_json::Value, serde_json::Error>)
        ensures
            r is Ok <==> json_field_readable(self.output_schema),
            match r {
                Ok(v) => stored_document(self.output_schema) == Some(json_text_of(v)),
                Err(_) => stored_document(self.output_schema) is None,
            },
    {
        parse_json_field(&self.output_schema)
    }

    /// The JSON text of a schema.
    pub fn serialize_output_schema(schema: &serde_json::Value) -> (r: String)
        ensures
            r@ == json_text_of(*schema),
    {
        json_to_string(schema)
    }

    /// Reads the annotations; absent ones are the empty object.
    pub fn parse_annotations(&self) -> (r: Result<serde_json::Value, serde_json::Error>)
        ensures
            r is Ok <==> json_field_readable(self.annotations),
            match r {
                Ok(v) => stored_document(self.annotations) == Some(json_text_of(v)),
                Err(_) => stored_document(self.annotations) is None,
            },
    {
        parse_json_field(&self.annotations)
    }

    /// The JSON text of annotations.
    pub fn serialize_annotations(annotations: &serde_json::Value) -> (r: String)
        ensures
            r@ == json_text_of(*annotations),
    {
        json_to_string(annotations)
    }

    /// Reads the metadata; absent metadata is the empty object.
    pub fn parse_meta(&self) -> (r: Result<serde_json::Value, serde_json::Error>)
        ensures
            r is Ok <==> json_field_readable(self.meta),
            match r {
                Ok(v) => stored_document(self.meta) == Some(json_text_of(v)),
                Err(_) => stored_document(self.meta) is None,
            },
    {
        parse_json_field(&self.meta)
    }

    /// The JSON text of metadata.
    pub fn serialize_meta(meta: &serde_json::Value) -> (r: String)
        ensures
            r@ == json_text_of(*meta),
    {
        json_to_string(meta)
    }

    /// Whether the tool is enabled.
    pub fn is_enabled(&self) -> (r: bool)
        ensures
            r == self.enabled,
    {
        self.enabled
    }

    /// The title when there is one, else the name.
    pub fn get_display_name(&self) -> (r: &str)
        ensures
            r@ == match self.title {
                Some(t) => t@,
                None => self.name@,
            },
    {
        match &self.title {
            Some(t) => t.as_str(),
            None => self.name.as_str(),
        }
    }

    /// The tool's name behind the `__` separator (the server part is left
    /// empty: the record does not hold the server's name).
    pub fn get_full_path(&self) -> (r: String)
        ensures
            r@ == seq!['_', '_'] + self.name@,
    {
        let mut r = String::new();
        push_char(&mut r, '_');
        push_char(&mut r, '_');
        push_str(&mut r, self.name.as_str());
        assert(r@ =~= seq!['_', '_'] + self.name@);
        r
    }

    /// Whether an input schema is stored.
    pub fn has_input_schema(&self) -> (r: bool)
        ensures
            r == self.input_schema is Some,
    {
        self.input_schema.is_some()
    }

    /// The `type` of the input schema, when it is stored, reads as JSON and
    /// names its type with a string.
    pub fn get_input_schema_type(&self) -> (r: Option<String>)
        ensures
            match r {
                Some(t) => schema_type_of(self.input_schema) == Some(t@),
                None => schema_type_of(self.input_schema) is None,
            },
    {
        schema_type(&self.input_schema)
    }

    /// Whether an output schema is stored.
    pub fn has_output_schema(&self) -> (r: bool)
        ensures
            r == self.output_schema is Some,
    {
        self.output_schema.is_some()
    }

    /// The `type` of the output schema, when it is stored, reads as JSON
    /// and names its type with a string.
    pub fn get_output_schema_type(&self) -> (r: Option<String>)
        ensures
            match r {
                Some(t) => schema_type_of(self.output_schema) == Some(t@),
                None => schema_type_of(self.output_schema) is None,
            },
    {
        schema_type(&self.output_schema)
    }

    /// Whether annotations are stored.
    pub fn has_annotations(&self) -> (r: bool)
        ensures
            r == self.annotations is Some,
    {
        self.annotations.is_some()
    }

    /// Whether metadata is stored.
    pub fn has_meta(&self) -> (r: bool)
        ensures
            r == self.meta is Some,
    {
        self.meta.is_some()
    }
}

} // verus!
