//! Cached prompts of an MCP server and their argument definitions.
use vstd::prelude::*;
use crate::entities::mcp_tool::{json_field_readable, parse_json_field, stored_document};
use crate::json::{json_text_of, json_to_string};
use crate::text::{push_char, push_str, str_eq, concat2, views};

verus! {

/// A prompt that an MCP server offers, as the router caches it.
#[derive(Clone, Debug, PartialEq, Eq)]
pub struct Model {
    /// Primary key.
    pub id: String,
    /// The server the prompt belongs to.
    pub server_id: String,
    /// The prompt's name on its server.
    pub name: String,
    /// An optional human-readable title.
    pub title: Option<String>,
    /// An optional description.
    pub description: Option<String>,
    /// Whether the prompt is enabled.
    pub enabled: bool,
    /// Argument definitions, as a JSON array.
    pub arguments: Option<String>,
    /// Metadata, as JSON text.
    pub meta: Option<String>,
    /// Creation time, seconds since the Unix epoch.
    pub created_at: i64,
    /// Last update time, seconds since the Unix epoch.
    pub updated_at: i64,
}

/// The type of a prompt argument.
#[derive(Clone, Copy, Debug, PartialEq, Eq, Structural)]
pub enum PromptArgumentType {
    /// A string.
    String,
    /// A number.
    Number,
    /// A boolean.
    Boolean,
    /// An array.
    Array,
    /// An object.
    Object,
}

/// The lowercase name of an argument type.
pub open spec fn argument_type_name(t: PromptArgumentType) -> Seq<char> {
    match t {
        PromptArgumentType::String => "string"@,
        PromptArgumentType::Number => "number"@,
        PromptArgumentType::Boolean => "boolean"@,
        PromptArgumentType::Array => "array"@,
        PromptArgumentType::Object => "object"@,
    }
}

impl PromptArgumentType {
    /// The lowercase name of the type.
    pub fn to_string(&self) -> (r: String)
        ensures
            r@ == argument_type_name(*self),
    {
        match self {
            PromptArgumentType::String => "string".to_owned(),
            PromptArgumentType::Number => "number".to_owned(),
            PromptArgumentType::Boolean => "boolean".to_owned(),
            PromptArgumentType::Array => "array".to_owned(),
            PromptArgumentType::Object => "object".to_owned(),
        }
    }
}

/// The definition of one prompt argument.
#[derive(Clone, Debug, PartialEq, Eq)]
pub struct PromptArgument {
    /// The argument's name.
    pub name: String,
    /// An optional description.
    pub description: Option<String>,
    /// Whether the argument must be supplied.
    pub required: bool,
    /// The argument's type.
    pub argument_type: PromptArgumentType,
}

/// A field-by-field copy of an argument definition.
pub fn copy_argument(a: &PromptArgument) -> (r: PromptArgument)
    ensures
        r == *a,
{
    PromptArgument {
        name: a.name.clone(),
        description: match &a.description {
            Some(d) => Some(d.clone()),
            None => None,
        },
        required: a.required,
        argument_type: a.argument_type,
    }
}

/// The names of the arguments, in order.
pub open spec fn argument_names(args: Seq<PromptArgument>) -> Seq<Seq<char>> {
    args.map_values(|a: PromptArgument| a.name@)
}

/// The names of the arguments for which `required == want`, in order.
pub open spec fn argument_names_where(args: Seq<PromptArgument>, want: bool) -> Seq<Seq<char>>
    decreases args.len(),
{
    if args.len() == 0 {
        Seq::<Seq<char>>::empty()
    } else {
        let rest = argument_names_where(args.drop_last(), want);
        if args.last().required == want {
            rest.push(args.last().name@)
        } else {
            rest
        }
    }
}

/// Some argument is named `name`.
pub open spec fn has_argument_named(args: Seq<PromptArgument>, name: Seq<char>) -> bool {
    exists|i: int| 0 <= i < args.len() && (#[trigger] args[i]).name@ == name
}

/// The message for a missing required argument.
pub open spec fn missing_argument_message(name: Seq<char>) -> Seq<char> {
    "Missing required argument: "@ + name
}

/// The message for an argument that is not defined.
pub open spec fn unknown_argument_message(name: Seq<char>) -> Seq<char> {
    "Unknown argument: "@ + name
}

/// What `validate_arguments` answers: the first required argument that is
/// not provided, else the first provided name that is not defined, else
/// success.
pub open spec fn validation_result(args: Seq<PromptArgument>, provided: Seq<Seq<char>>) -> Result<(), Seq<char>> {
    if exists|i: int| 0 <= i < args.len() && (#[trigger] args[i]).required && !provided.contains(args[i].name@) {
        let i = choose|i: int|
            0 <= i < args.len() && (#[trigger] args[i]).required && !provided.contains(args[i].name@) && forall|j: int|
                0 <= j < i ==> !((#[trigger] args[j]).required && !provided.contains(args[j].name@));
        Err(missing_argument_message(args[i].name@))
    } else if exists|k: int| 0 <= k < provided.len() && !has_argument_named(args, #[trigger] provided[k]) {
        let k = choose|k: int|
            0 <= k < provided.len() && !has_argument_named(args, #[trigger] provided[k]) && forall|j: int|
                0 <= j < k ==> has_argument_named(args, #[trigger] provided[j]);
        Err(unknown_argument_message(provided[k]))
    } else {
        Ok(())
    }
}

/// Whether `names` holds `name` (exec).
fn names_contain(names: &Vec<String>, name: &String) -> (r: bool)
    ensures
        r == views(names@).contains(name@),
{
    let mut i: usize = 0;
    while i < names.len()
        invariant
            i <= names.len(),
            forall|j: int| 0 <= j < i ==> names@[j]@ != name@,
        decreases names.len() - i,
    {
        if str_eq(names[i].as_str(), name.as_str()) {
            assert(views(names@)[i as int] == name@);
            return true;
        }
        i += 1;
    }
    proof {
        if views(names@).contains(name@) {
            let k = choose|k: int| 0 <= k < names@.len() && #[trigger] views(names@)[k] == name@;
            assert(names@[k]@ == name@);
        }
    }
    false
}

impl Model {
    /// An empty, enabled prompt record stamped with `now`.
    pub fn default_at(now: i64) -> (r: Model)
        ensures
            r.id@.len() == 0 && r.server_id@.len() == 0 && r.name@.len() == 0,
            r.title is None && r.description is None,
            r.enabled,
            r.arguments is None && r.meta is None,
            r.created_at == now && r.updated_at == now,
    {
        Model {
            id: String::new(),
            server_id: String::new(),
            name: String::new(),
            title: None,
            description: None,
            enabled: true,
            arguments: None,
            meta: None,
            created_at: now,
            updated_at: now,
        }
    }

    /// Whether the prompt is enabled.
    pub fn is_enabled(&self) -> (r: bool)
        ensures
            r == self.enabled,
    {
        self.enabled
    }

    /// The title when there is one, else the name.
    pub fn get_display_name(&self) -> (r: &str)
        ensures
            r@ == match self.title {
                Some(t) => t@,
                None => self.name@,
            },
    {
        match &self.title {
            Some(t) => t.as_str(),
            None => self.name.as_str(),
        }
    }

    /// The prompt's name behind the `__` separator (the server part is left
    /// empty: the record does not hold the server's name).
    pub fn get_full_path(&self) -> (r: String)
        ensures
            r@ == seq!['_', '_'] + self.name@,
    {
        let mut r = String::new();
        push_char(&mut r, '_');
        push_char(&mut r, '_');
        push_str(&mut r, self.name.as_str());
        assert(r@ =~= seq!['_', '_'] + self.name@);
        r
    }

    /// Whether argument definitions are stored.
    pub fn has_arguments(&self) -> (r: bool)
        ensures
            r == self.arguments is Some,
    {
        self.arguments.is_some()
    }

    /// Reads the metadata; absent metadata is the empty object.
    pub fn parse_meta(&self) -> (r: Result<serde_json::Value, serde_json::Error>)
        ensures
            r is Ok <==> json_field_readable(self.meta),
            match r {
                Ok(v) => stored_document(self.meta) == Some(json_text_of(v)),
                Err(_) => stored_document(self.meta) is None,
            },
    {
        parse_json_field(&self.meta)
    }

    /// The JSON text of metadata.
    pub fn serialize_meta(meta: &serde_json::Value) -> (r: String)
        ensures
            r@ == json_text_of(*meta),
    {
        json_to_string(meta)
    }

    /// Whether metadata is stored.
    pub fn has_meta(&self) -> (r: bool)
        ensures
            r == self.meta is Some,
    {
        self.meta.is_some()
    }

    /// The names of the required arguments among `args`, in order.
    pub fn get_required_arguments(args: &Vec<PromptArgument>) -> (r: Vec<String>)
        ensures
            views(r@) == argument_names_where(args@, true),
    {
        names_where(args, true)
    }

    /// The names of the optional arguments among `args`, in order.
    pub fn get_optional_arguments(args: &Vec<PromptArgument>) -> (r: Vec<String>)
        ensures
            views(r@) == argument_names_where(args@, false),
    {
        names_where(args, false)
    }

    /// The names of all arguments, in order.
    pub fn get_all_argument_names(args: &Vec<PromptArgument>) -> (r: Vec<String>)
        ensures
            views(r@) == argument_names(args@),
    {
        let mut r: Vec<String> = Vec::new();
        let mut i: usize = 0;
        while i < args.len()
            invariant
                i <= args.len(),
                views(r@) == argument_names(args@.subrange(0, i as int)),
            decreases args.len() - i,
        {
            r.push(args[i].name.clone());
            assert(argument_names(args@.subrange(0, i + 1)) =~= argument_names(args@.subrange(0, i as int)).push(args@[i as int].name@));
            assert(views(r@) =~= argument_names(args@.subrange(0, i as int)).push(args@[i as int].name@));
            i += 1;
        }
        assert(args@.subrange(0, args.len() as int) =~= args@);
        r
    }

    /// Whether an argument is named `arg_name`.
    pub fn has_argument(args: &Vec<PromptArgument>, arg_name: &str) -> (r: bool)
        ensures
            r == has_argument_named(args@, arg_name@),
    {
        let mut i: usize = 0;
        while i < args.len()
            invariant
                i <= args.len(),
                forall|j: int| 0 <= j < i ==> (#[trigger] args@[j]).name@ != arg_name@,
            decreases args.len() - i,
        {
            if str_eq(args[i].name.as_str(), arg_name) {
                return true;
            }
            i += 1;
        }
        false
    }

    /// The first argument named `arg_name`, if any.
    pub fn get_argument(args: &Vec<PromptArgument>, arg_name: &str) -> (r: Option<PromptArgument>)
        ensures
            match r {
                Some(a) => exists|i: int|
                    0 <= i < args@.len() && args@[i] == a && a.name@ == arg_name@ && forall|j: int|
                        0 <= j < i ==> (#[trigger] args@[j]).name@ != arg_name@,
                None => !has_argument_named(args@, arg_name@),
            },
    {
        let mut i: usize = 0;
        while i < args.len()
            invariant
                i <= args.len(),
                forall|j: int| 0 <= j < i ==> (#[trigger] args@[j]).name@ != arg_name@,
            decreases args.len() - i,
        {
            if str_eq(args[i].name.as_str(), arg_name) {
                return Some(copy_argument(&args[i]));
            }
            i += 1;
        }
        None
    }

    /// Checks provided argument names against the definitions: every
    /// required argument must be provided, and every provided name must be
    /// defined. `provided` lists the provided names in the order they are
    /// checked.
    pub fn validate_arguments(args: &Vec<PromptArgument>, provided: &Vec<String>) -> (r: Result<(), String>)
        ensures
            match r {
                Ok(()) => validation_result(args@, views(provided@)) == Ok::<(), Seq<char>>(()),
                Err(m) => validation_result(args@, views(provided@)) == Err::<(), Seq<char>>(m@),
            },
    {
        let ghost pv = views(provided@);
        let mut i: usize = 0;
        while i < args.len()
            invariant
                i <= args.len(),
                pv == views(provided@),
                forall|j: int| 0 <= j < i ==> !((#[trigger] args@[j]).required && !pv.contains(args@[j].name@)),
            decreases args.len() - i,
        {
            if args[i].required && !names_contain(provided, &args[i].name) {
                let ghost chosen = choose|k: int|
                    0 <= k < args@.len() && (#[trigger] args@[k]).required && !pv.contains(args@[k].name@) && forall|j: int|
                        0 <= j < k ==> !((#[trigger] args@[j]).required && !pv.contains(args@[j].name@));
                proof {
                    assert(args@[i as int].required && !pv.contains(args@[i as int].name@));
                    if chosen < i {
                    } else if chosen > i {
                        assert(!(args@[i as int].required && !pv.contains(args@[i as int].name@)));
                    }
                    assert(chosen == i);
                }
                return Err(concat2("Missing required argument: ", args[i].name.as_str()));
            }
            i += 1;
        }
        let mut k: usize = 0;
        while k < provided.len()
            invariant
                k <= provided.len(),
                pv == views(provided@),
                forall|j: int| 0 <= j < args@.len() ==> !((#[trigger] args@[j]).required && !pv.contains(args@[j].name@)),
                forall|j: int| 0 <= j < k ==> has_argument_named(args@, #[trigger] pv[j]),
            decreases provided.len() - k,
        {
            if !Model::has_argument(args, provided[k].as_str()) {
                let ghost chosen = choose|m: int|
                    0 <= m < pv.len() && !has_argument_named(args@, #[trigger] pv[m]) && forall|j: int|
                        0 <= j < m ==> has_argument_named(args@, #[trigger] pv[j]);
                proof {
                    assert(!has_argument_named(args@, pv[k as int]));
                    if chosen > k {
                        assert(has_argument_named(args@, pv[k as int]));
                    }
                    assert(chosen == k);
                }
                return Err(concat2("Unknown argument: ", provided[k].as_str()));
            }
            k += 1;
        }
        Ok(())
    }
}

/// The names of the arguments for which `required == want`, in order.
fn names_where(args: &Vec<PromptArgument>, want: bool) -> (r: Vec<String>)
    ensures
        views(r@) == argument_names_where(args@, want),
{
    let mut r: Vec<String> = Vec::new();
    let mut i: usize = 0;
    while i < args.len()
        invariant
            i <= args.len(),
            views(r@) == argument_names_where(args@.subrange(0, i as int), want),
        decreases args.len() - i,
    {
        let ghost pre = args@.subrange(0, i + 1);
        assert(pre.drop_last() =~= args@.subrange(0, i as int));
        if args[i].required == want {
            r.push(args[i].name.clone());
            assert(views(r@) =~= argument_names_where(args@.subrange(0, i as int), want).push(args@[i as int].name@));
        }
        i += 1;
    }
    assert(args@.subrange(0, args.len() as int) =~= args@);
    r
}

} // verus!
