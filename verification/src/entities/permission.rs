//! Fine-grained permission records of a token.
use vstd::prelude::*;
use crate::text::{chars_of, find_chars, first_occurrence, contains_seq, push_char, push_str, str_eq, string_from_range};
use crate::types::ParseError;

verus! {

/// The kind of item a permission is about.
#[derive(Clone, Copy, Debug, PartialEq, Eq, Structural)]
pub enum ResourceType {
    /// A tool permission.
    Tool,
    /// A resource permission.
    Resource,
    /// A prompt permission.
    Prompt,
}

/// The lowercase name of a resource type.
pub open spec fn resource_type_name(t: ResourceType) -> Seq<char> {
    match t {
        ResourceType::Tool => "tool"@,
        ResourceType::Resource => "resource"@,
        ResourceType::Prompt => "prompt"@,
    }
}

/// The separator between a server name and an item name: `__`.
pub open spec fn path_separator() -> Seq<char> {
    seq!['_', '_']
}

/// The path `server__item` that names an item of a server.
pub open spec fn resource_path_of(server_name: Seq<char>, resource_name: Seq<char>) -> Seq<char> {
    server_name + path_separator() + resource_name
}

impl ResourceType {
    /// Reads a resource type from its lowercase name.
    pub fn parse(s: &str) -> (r: Result<ResourceType, ParseError>)
        ensures
            match r {
                Ok(t) => resource_type_name(t) == s@,
                Err(_) => s@ != "tool"@ && s@ != "resource"@ && s@ != "prompt"@,
            },
    {
        if str_eq(s, "tool") {
            Ok(ResourceType::Tool)
        } else if str_eq(s, "resource") {
            Ok(ResourceType::Resource)
        } else if str_eq(s, "prompt") {
            Ok(ResourceType::Prompt)
        } else {
            Err(ParseError::VariantNotFound)
        }
    }

    /// The lowercase name of the resource type.
    pub fn to_string(&self) -> (r: String)
        ensures
            r@ == resource_type_name(*self),
    {
        match self {
            ResourceType::Tool => "tool".to_owned(),
            ResourceType::Resource => "resource".to_owned(),
            ResourceType::Prompt => "prompt".to_owned(),
        }
    }
}

/// A permission of a token on one item.
#[derive(Clone, Debug, PartialEq, Eq)]
pub struct Model {
    /// Primary key.
    pub id: String,
    /// The token the permission belongs to.
    pub token_id: String,
    /// `tool`, `resource` or `prompt`.
    pub resource_type: String,
    /// The item, as `server__item`.
    pub resource_path: String,
    /// Whether access is allowed.
    pub allowed: bool,
    /// Creation time, seconds since the Unix epoch.
    pub created_at: i64,
    /// Last update time, seconds since the Unix epoch.
    pub updated_at: i64,
}

/// The first two items of `p.split("__")`, where there are at least two.
pub open spec fn split_path_spec(p: Seq<char>, server: Seq<char>, name: Seq<char>) -> bool {
    exists|i: int|
        #![trigger first_occurrence(p, path_separator(), i)]
        first_occurrence(p, path_separator(), i) && server == p.subrange(0, i) && {
            let rest = p.subrange(i + 2, p.len() as int);
            ||| (exists|j: int|
                #![trigger first_occurrence(rest, path_separator(), j)]
                first_occurrence(rest, path_separator(), j) && name == rest.subrange(0, j))
            ||| (!contains_seq(rest, path_separator()) && name == rest)
        }
}

impl Model {
    /// Whether the permission grants access.
    pub fn is_allowed(&self) -> (r: bool)
        ensures
            r == self.allowed,
    {
        self.allowed
    }

    /// The permission's resource type.
    pub fn get_resource_type_enum(&self) -> (r: Result<ResourceType, ParseError>)
        ensures
            match r {
                Ok(t) => resource_type_name(t) == self.resource_type@,
                Err(_) => self.resource_type@ != "tool"@ && self.resource_type@ != "resource"@
                    && self.resource_type@ != "prompt"@,
            },
    {
        ResourceType::parse(self.resource_type.as_str())
    }

    /// The server and item names of the path, the first two parts of the
    /// path split at `__`; `None` when the path holds no `__`.
    pub fn parse_resource_path(&self) -> (r: Option<(String, String)>)
        ensures
            match r {
                Some((server, name)) => split_path_spec(self.resource_path@, server@, name@),
                None => !contains_seq(self.resource_path@, path_separator()),
            },
    {
        let p = chars_of(self.resource_path.as_str());
        let mut sep: Vec<char> = Vec::new();
        sep.push('_');
        sep.push('_');
        assert(sep@ =~= path_separator());
        match find_chars(&p, &sep) {
            None => None,
            Some(i) => {
                let p_len = p.len();
                assert(i + 2 <= p_len);
                let server = string_from_range(&p, 0, i);
                let rest_start: usize = i + 2;
                let ghost rest = p@.subrange(rest_start as int, p@.len() as int);
                let mut rest_v: Vec<char> = Vec::new();
                let mut k = rest_start;
                while k < p_len
                    invariant
                        rest_start <= k <= p_len == p@.len(),
                        rest_v@ == p@.subrange(rest_start as int, k as int),
                    decreases p_len - k,
                {
                    rest_v.push(p[k]);
                    assert(p@.subrange(rest_start as int, k + 1) =~= p@.subrange(rest_start as int, k as int).push(p@[k as int]));
                    k += 1;
                }
                assert(rest_v@ == rest);
                let name = match find_chars(&rest_v, &sep) {
                    Some(j) => string_from_range(&rest_v, 0, j),
                    None => string_from_range(&rest_v, 0, rest_v.len()),
                };
                proof {
                    assert(rest_v@.subrange(0, rest_v@.len() as int) =~= rest_v@);
                    assert(first_occurrence(p@, path_separator(), i as int));
                }
                Some((server, name))
            },
        }
    }

    /// The path `server_name__resource_name`.
    pub fn build_resource_path(server_name: &str, resource_name: &str) -> (r: String)
        ensures
            r@ == resource_path_of(server_name@, resource_name@),
    {
        let mut r = String::new();
        push_str(&mut r, server_name);
        push_char(&mut r, '_');
        push_char(&mut r, '_');
        push_str(&mut r, resource_name);
        assert(r@ =~= resource_path_of(server_name@, resource_name@));
        r
    }
}

} // verus!
