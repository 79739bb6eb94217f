//! The service marketplace: its sources, how a ModelScope listing entry
//! becomes a card and a detail page, how a listing answer is judged, and
//! how a chosen service becomes a server configuration.
use vstd::prelude::*;
use crate::error::McpError;
use crate::keyed::{has_key, keys_unique, to_map, KeyedList};
use crate::json::{
    json_array_items, json_array_text, json_as_string, json_clone, json_is_object, json_member, json_member_text,
    json_members_text, json_object_members, json_object_text, json_string_text, json_text_of, read_string_member,
    string_member,
};
use crate::text::opt_text;
use crate::mcp_client::{insert_all, merge_env};
use crate::text::{concat2, str_eq, usize_to_string, views};
use crate::types::{transport_name, McpServerConfig, ServiceTransport};

verus! {

/// A marketplace the router can browse.
#[derive(Debug)]
pub struct MarketplaceSource {
    /// Short name.
    pub name: String,
    /// Listing endpoint.
    pub url: String,
    /// Whether it is browsed.
    pub enabled: bool,
    /// Extra request headers.
    pub headers: Option<KeyedList<String>>,
}

/// The marketplaces browsed: ModelScope only.
pub fn default_sources() -> (r: Vec<MarketplaceSource>)
    ensures
        r@.len() == 1,
        r@[0].name@ == "modelscope.cn"@,
        r@[0].url@ == "https://www.modelscope.cn/openapi/v1/mcp/servers"@,
        r@[0].enabled,
        r@[0].headers is None,
{
    let mut v: Vec<MarketplaceSource> = Vec::new();
    v.push(
        MarketplaceSource {
            name: "modelscope.cn".to_owned(),
            url: "https://www.modelscope.cn/openapi/v1/mcp/servers".to_owned(),
            enabled: true,
            headers: None,
        },
    );
    v
}

/// The settings of the HTTP client the marketplace is reached with.
#[derive(Debug)]
pub struct MarketplaceClient {
    /// Seconds before a request gives up.
    pub timeout_seconds: u64,
    /// The user agent sent with each request.
    pub user_agent: String,
}

impl MarketplaceClient {
    /// A client that gives up after eight seconds and names the router as
    /// its user agent.
    pub fn new() -> (r: Self)
        ensures
            r.timeout_seconds == 8,
            r.user_agent@ == "McpRouter/0.1 (+https://github.com)"@,
    {
        MarketplaceClient { timeout_seconds: 8, user_agent: "McpRouter/0.1 (+https://github.com)".to_owned() }
    }

    /// The sources this client browses: the default ones.
    pub fn enabled_sources(&self) -> (r: Vec<MarketplaceSource>)
        ensures
            r@.len() == 1,
            r@[0].name@ == "modelscope.cn"@,
            r@[0].url@ == "https://www.modelscope.cn/openapi/v1/mcp/servers"@,
            r@[0].enabled,
            r@[0].headers is None,
    {
        default_sources()
    }
}

/// `i` is the first position of a source named `name`.
pub open spec fn first_named(sources: Seq<MarketplaceSource>, name: Seq<char>, i: int) -> bool {
    &&& 0 <= i < sources.len()
    &&& sources[i].name@ == name
    &&& forall|j: int| 0 <= j < i ==> #[trigger] sources[j].name@ != name
}

/// The first source named `modelscope.cn`; without one, a marketplace
/// error.
pub fn modelscope_source(sources: Vec<MarketplaceSource>) -> (r: Result<MarketplaceSource, McpError>)
    ensures
        match r {
            Ok(s) => exists|i: int| first_named(sources@, "modelscope.cn"@, i) && sources@[i] == s,
            Err(e) => (forall|i: int| 0 <= i < sources@.len() ==> #[trigger] sources@[i].name@ != "modelscope.cn"@)
                && (e matches McpError::MarketplaceError(m) && m@ == "ModelScope source not found"@),
        },
{
    let ghost orig = sources@;
    let mut list = sources;
    let mut i: usize = 0;
    while i < list.len()
        invariant
            list@ == orig,
            orig == sources@,
            i <= orig.len(),
            forall|j: int| 0 <= j < i ==> #[trigger] orig[j].name@ != "modelscope.cn"@,
        decreases orig.len() - i,
    {
        if str_eq(list[i].name.as_str(), "modelscope.cn") {
            let s = list.remove(i);
            assert(first_named(orig, "modelscope.cn"@, i as int) && orig[i as int] == s);
            return Ok(s);
        }
        i += 1;
    }
    Err(McpError::MarketplaceError("ModelScope source not found".to_owned()))
}

/// What `reqwest::Url::parse` reports for the text `s`: `None` where it
/// accepts the text as a URL, else the text of its error.
pub uninterp spec fn url_parse_error(s: Seq<char>) -> Option<Seq<char>>;

/// `reqwest::Url::parse`, keeping only its error, printed. The result is
/// the name `url_parse_error` applied to the text.
#[verifier::external_body]
fn url_error(s: &str) -> (r: Option<String>)
    ensures
        match r {
            Some(e) => url_parse_error(s@) == Some(e@),
            None => url_parse_error(s@) is None,
        },
{
    reqwest::Url::parse(s).err().map(|e| e.to_string())
}

/// Checks that a source's listing endpoint reads as a URL.
pub fn check_source_url(source: &MarketplaceSource) -> (r: Result<(), McpError>)
    ensures
        match url_parse_error(source.url@) {
            None => r is Ok,
            Some(e) => r matches Err(McpError::MarketplaceError(m)) && m@ == "Invalid source URL '"@ + source.url@
                + "': "@ + e,
        },
{
    match url_error(source.url.as_str()) {
        None => Ok(()),
        Some(e) => {
            let mut m = "Invalid source URL '".to_owned();
            crate::text::push_str(&mut m, source.url.as_str());
            crate::text::push_str(&mut m, "': ");
            crate::text::push_str(&mut m, e.as_str());
            Err(McpError::MarketplaceError(m))
        },
    }
}

/// The address of a service's detail page on ModelScope.
pub fn detail_url(service_id: &str) -> (r: String)
    ensures
        r@ == "https://www.modelscope.cn/openapi/v1/mcp/servers/"@ + service_id@,
{
    concat2("https://www.modelscope.cn/openapi/v1/mcp/servers/", service_id)
}

/// Which ModelScope call an answer belongs to.
#[derive(Clone, Copy, Debug, PartialEq, Eq, Structural)]
pub enum ModelScopeCall {
    /// The paged listing.
    Listing,
    /// A service's detail page.
    Detail,
}

/// How error messages name a call.
pub open spec fn call_label(call: ModelScopeCall) -> Seq<char> {
    match call {
        ModelScopeCall::Listing => "ModelScope API"@,
        ModelScopeCall::Detail => "ModelScope detail API"@,
    }
}

/// The message for an answer with an unsuccessful HTTP status: the code,
/// message and request id the body carried where it read as a ModelScope
/// answer, else the body itself.
pub open spec fn status_error_text(
    call: ModelScopeCall,
    status: Seq<char>,
    body: Seq<char>,
    parsed: Option<(Option<String>, Option<String>, Option<String>)>,
) -> Seq<char> {
    match parsed {
        Some((code, message, request_id)) => call_label(call) + " error (status: "@ + status + ", code: "@
            + or_empty(code) + ", message: "@ + or_empty(message) + ", request_id: "@ + or_empty(request_id)
            + ")"@,
        None => call_label(call) + " returned status "@ + status + ": "@ + body,
    }
}

/// The network error for an answer with an unsuccessful HTTP status
/// `status` (as the status prints) and body `body`; `parsed` holds the
/// fields of the body where it read as a ModelScope answer.
pub fn status_error(
    call: ModelScopeCall,
    status: &str,
    body: &str,
    parsed: &Option<(Option<String>, Option<String>, Option<String>)>,
) -> (r: McpError)
    ensures
        r matches McpError::NetworkError(m) && m@ == status_error_text(call, status@, body@, *parsed),
{
    let mut m = match call {
        ModelScopeCall::Listing => "ModelScope API".to_owned(),
        ModelScopeCall::Detail => "ModelScope detail API".to_owned(),
    };
    match parsed {
        Some((code, message, request_id)) => {
            crate::text::push_str(&mut m, " error (status: ");
            crate::text::push_str(&mut m, status);
            crate::text::push_str(&mut m, ", code: ");
            crate::text::push_str(&mut m, text_or_empty(code).as_str());
            crate::text::push_str(&mut m, ", message: ");
            crate::text::push_str(&mut m, text_or_empty(message).as_str());
            crate::text::push_str(&mut m, ", request_id: ");
            crate::text::push_str(&mut m, text_or_empty(request_id).as_str());
            crate::text::push_str(&mut m, ")");
        },
        None => {
            crate::text::push_str(&mut m, " returned status ");
            crate::text::push_str(&mut m, status);
            crate::text::push_str(&mut m, ": ");
            crate::text::push_str(&mut m, body);
        },
    }
    McpError::NetworkError(m)
}

/// The network error for a listing request that could not be sent.
pub fn send_error(reason: &str) -> (r: McpError)
    ensures
        r matches McpError::NetworkError(m) && m@ == "ModelScope PUT failed: "@ + reason@,
{
    McpError::NetworkError(concat2("ModelScope PUT failed: ", reason))
}

/// How to install a service.
#[derive(Debug)]
pub struct InstallCommand {
    /// The program.
    pub command: String,
    /// Its arguments.
    pub args: Vec<String>,
    /// The package manager (the program's name).
    pub package_manager: String,
}

/// A service card in a listing.
#[derive(Debug)]
pub struct MarketplaceServiceListItem {
    /// Identifier at the marketplace.
    pub id: String,
    /// Display name.
    pub name: String,
    /// Description.
    pub description: String,
    /// Author.
    pub author: String,
    /// First category.
    pub category: String,
    /// Tags.
    pub tags: Vec<String>,
    /// `stdio`, `http` or `sse`.
    pub transport: String,
    /// GitHub stars.
    pub github_stars: Option<u64>,
    /// Views, counted as downloads.
    pub downloads: u32,
    /// When the card was made (RFC 3339).
    pub last_updated: String,
    /// The marketplace's display name.
    pub platform: String,
    /// Logo.
    pub logo_url: Option<String>,
    /// License.
    pub license: Option<String>,
    /// Whether the marketplace hosts it.
    pub is_hosted: Option<bool>,
    /// Whether the marketplace verified it.
    pub is_verified: Option<bool>,
}

/// One page of a listing.
#[derive(Debug)]
pub struct MarketplaceServiceResult {
    /// The cards.
    pub services: Vec<MarketplaceServiceListItem>,
    /// How many services match in all.
    pub total_count: usize,
    /// Whether pages after this one hold more.
    pub has_more: bool,
}

/// The page result: more follow when the pages up to this one (1-based)
/// hold fewer than the total.
pub fn listing_result(services: Vec<MarketplaceServiceListItem>, total_count: usize, page: usize, page_size: usize) -> (r:
    MarketplaceServiceResult)
    requires
        page * page_size <= usize::MAX,
    ensures
        r.services == services,
        r.total_count == total_count,
        r.has_more == (page * page_size < total_count),
{
    let seen = page * page_size;
    MarketplaceServiceResult { services, total_count, has_more: seen < total_count }
}

/// Localized texts of a ModelScope entry.
#[derive(Debug)]
pub struct LocaleFields {
    /// Name.
    pub name: Option<String>,
    /// Description.
    pub description: Option<String>,
    /// Readme.
    pub readme: Option<String>,
}

/// The Chinese and English texts of a ModelScope entry.
#[derive(Debug)]
pub struct Locales {
    /// Chinese.
    pub zh: Option<LocaleFields>,
    /// English.
    pub en: Option<LocaleFields>,
}

/// A way a hosted ModelScope service is reached.
#[derive(Debug)]
pub struct OperationalUrl {
    /// Its transport.
    pub transport_type: Option<String>,
}

/// The command found in a ModelScope entry's first server configuration
/// (its first `mcpServers` entry): the command if it is a string, and the
/// arguments if they form an array (each `None` where not a string).
#[derive(Debug)]
pub struct ServerConfigCommand {
    /// The command.
    pub command: Option<String>,
    /// The arguments.
    pub args: Option<Vec<Option<String>>>,
}

/// A ModelScope listing entry.
#[derive(Debug)]
pub struct ModelScopeServer {
    /// Identifier.
    pub id: String,
    /// Name.
    pub name: Option<String>,
    /// Chinese name.
    pub chinese_name: Option<String>,
    /// Description.
    pub description: Option<String>,
    /// Tags.
    pub tags: Option<Vec<String>>,
    /// Categories.
    pub categories: Option<Vec<String>>,
    /// Localized texts.
    pub locales: Option<Locales>,
    /// Views.
    pub view_count: Option<u64>,
    /// Publisher.
    pub publisher: Option<String>,
    /// Logo.
    pub logo_url: Option<String>,
    /// Source repository.
    pub source_url: Option<String>,
    /// Author.
    pub author: Option<String>,
    /// GitHub stars.
    pub github_stars: Option<u64>,
    /// Hosted at ModelScope.
    pub is_hosted: Option<bool>,
    /// Verified by ModelScope.
    pub is_verified: Option<bool>,
    /// How a hosted service is reached.
    pub operational_urls: Option<Vec<OperationalUrl>>,
    /// Owner.
    pub owner: Option<String>,
    /// Readme.
    pub readme: Option<String>,
    /// The command of its first server configuration, as
    /// `server_config_command` reads it from `server_config`.
    pub server_config_command: Option<ServerConfigCommand>,
    /// Its server configurations, as ModelScope sent them.
    pub server_config: Option<Vec<serde_json::Value>>,
    /// The environment variables it expects, when it says.
    pub env_schema: Option<EnvSchema>,
}

/// One environment variable a service's schema describes.
#[derive(Debug)]
pub struct EnvProperty {
    /// What it is for.
    pub description: Option<String>,
    /// Its JSON type.
    pub prop_type: String,
    /// Its default value.
    pub default: Option<serde_json::Value>,
    /// The values it may take.
    pub enum_values: Option<Vec<serde_json::Value>>,
}

/// The environment variables a service expects.
#[derive(Debug)]
pub struct EnvSchema {
    /// Each variable, by name.
    pub properties: KeyedList<EnvProperty>,
    /// The variables that must be set.
    pub required: Vec<String>,
    /// The schema's own type.
    pub schema_type: String,
}

/// The compact texts of a list of documents.
pub open spec fn value_texts(v: Seq<serde_json::Value>) -> Seq<Seq<char>> {
    v.map_values(|x: serde_json::Value| json_text_of(x))
}

/// The compact texts of an optional list of documents.
pub open spec fn opt_value_texts(v: Option<Vec<serde_json::Value>>) -> Option<Seq<Seq<char>>> {
    match v {
        Some(x) => Some(value_texts(x@)),
        None => None,
    }
}

/// What an environment variable's description says, as plain values.
pub open spec fn env_property_view(p: EnvProperty) -> (
    Option<Seq<char>>,
    Seq<char>,
    Option<Seq<char>>,
    Option<Seq<Seq<char>>>,
) {
    (
        opt_text(p.description),
        p.prop_type@,
        match p.default {
            Some(d) => Some(json_text_of(d)),
            None => None,
        },
        opt_value_texts(p.enum_values),
    )
}

/// What an environment schema says, as plain values.
pub open spec fn env_schema_view(s: Option<EnvSchema>) -> Option<
    (Map<Seq<char>, (Option<Seq<char>>, Seq<char>, Option<Seq<char>>, Option<Seq<Seq<char>>>)>, Seq<Seq<char>>, Seq<char>),
> {
    match s {
        Some(e) => Some(
            (e.properties@.map_values(|p: EnvProperty| env_property_view(p)), views(e.required@), e.schema_type@),
        ),
        None => None,
    }
}

fn copy_values(v: &Vec<serde_json::Value>) -> (r: Vec<serde_json::Value>)
    ensures
        value_texts(r@) == value_texts(v@),
{
    let mut r: Vec<serde_json::Value> = Vec::new();
    let mut i: usize = 0;
    while i < v.len()
        invariant
            i <= v@.len(),
            r@.len() == i,
            forall|j: int| 0 <= j < i ==> json_text_of(#[trigger] r@[j]) == json_text_of(v@[j]),
        decreases v@.len() - i,
    {
        r.push(json_clone(&v[i]));
        i += 1;
    }
    assert(value_texts(r@) =~= value_texts(v@));
    r
}

fn copy_opt_values(v: &Option<Vec<serde_json::Value>>) -> (r: Option<Vec<serde_json::Value>>)
    ensures
        opt_value_texts(r) == opt_value_texts(*v),
{
    match v {
        Some(x) => Some(copy_values(x)),
        None => None,
    }
}

fn copy_env_property(p: &EnvProperty) -> (r: EnvProperty)
    ensures
        env_property_view(r) == env_property_view(*p),
{
    EnvProperty {
        description: copy_opt(&p.description),
        prop_type: p.prop_type.clone(),
        default: match &p.default {
            Some(d) => Some(json_clone(d)),
            None => None,
        },
        enum_values: copy_opt_values(&p.enum_values),
    }
}

fn copy_env_schema(s: &Option<EnvSchema>) -> (r: Option<EnvSchema>)
    ensures
        env_schema_view(r) == env_schema_view(*s),
{
    let e = match s {
        Some(e) => e,
        None => {
            return None;
        },
    };
    let entries = e.properties.entries();
    let mut props: KeyedList<EnvProperty> = KeyedList::new();
    let mut i: usize = 0;
    assert(to_map(entries@.take(0)) =~= Map::<Seq<char>, EnvProperty>::empty());
    while i < entries.len()
        invariant
            i <= entries@.len(),
            keys_unique(entries@),
            props@.map_values(|p: EnvProperty| env_property_view(p)) == to_map(entries@.take(i as int)).map_values(
                |p: EnvProperty| env_property_view(p),
            ),
        decreases entries@.len() - i,
    {
        let ghost pre = entries@.take(i as int);
        assert(keys_unique(pre)) by {
            assert forall|a: int, b: int| 0 <= a < b < pre.len() implies #[trigger] pre[a].0@ != #[trigger] pre[b].0@ by {
                assert(entries@[a].0@ != entries@[b].0@);
            }
        }
        assert(!has_key(pre, entries@[i as int].0@)) by {
            if has_key(pre, entries@[i as int].0@) {
                let j = choose|j: int| 0 <= j < pre.len() && #[trigger] pre[j].0@ == entries@[i as int].0@;
                assert(entries@[j].0@ != entries@[i as int].0@);
            }
        }
        proof {
            crate::keyed::lemma_push_new_key(pre, entries@[i as int].0, entries@[i as int].1);
        }
        assert(pre.push(entries@[i as int]) =~= entries@.take(i + 1));
        let ghost before = props@;
        let c = copy_env_property(&entries[i].1);
        props.insert(entries[i].0.clone(), c);
        assert(props@.map_values(|p: EnvProperty| env_property_view(p)) =~= before.map_values(
            |p: EnvProperty| env_property_view(p),
        ).insert(entries@[i as int].0@, env_property_view(entries@[i as int].1)));
        assert(to_map(entries@.take(i + 1)).map_values(|p: EnvProperty| env_property_view(p)) =~= to_map(pre).map_values(
            |p: EnvProperty| env_property_view(p),
        ).insert(entries@[i as int].0@, env_property_view(entries@[i as int].1)));
        i += 1;
    }
    assert(entries@.take(entries@.len() as int) =~= entries@);
    Some(
        EnvSchema {
            properties: props,
            required: crate::config::api_key_config::copy_strings(&e.required),
            schema_type: e.schema_type.clone(),
        },
    )
}

/// The first service object of an entry's server configurations (given by
/// their compact texts): the value of the first member of the first
/// configuration's `mcpServers` object, where all of these are there and
/// that value is an object.
pub open spec fn first_service(cfg: Option<Seq<Seq<char>>>) -> Option<Seq<char>> {
    match cfg {
        Some(items) => if items.len() > 0 {
            match json_member_text(items[0], "mcpServers"@) {
                Some(m) => match json_members_text(m) {
                    Some(ms) => if ms.len() > 0 && json_object_text(ms[0].1) {
                        Some(ms[0].1)
                    } else {
                        None
                    },
                    None => None,
                },
                None => None,
            }
        } else {
            None
        },
        None => None,
    }
}

/// Optional strings read as optional texts.
pub open spec fn opt_texts(a: Seq<Option<String>>) -> Seq<Option<Seq<char>>> {
    a.map_values(|x: Option<String>| opt_text(x))
}

/// The command read from the service object `obj`: its `command` if a
/// string, and its `args` if an array (each element's string, if it is one).
pub open spec fn command_read(c: ServerConfigCommand, obj: Seq<char>) -> bool {
    &&& opt_text(c.command) == string_member(obj, "command"@)
    &&& match json_member_text(obj, "args"@) {
        Some(a) => match json_array_text(a) {
            Some(items) => c.args matches Some(v) && opt_texts(v@) == items.map_values(
                |x: Seq<char>| json_string_text(x),
            ),
            None => c.args is None,
        },
        None => c.args is None,
    }
}

/// Reads the command of an entry's first server configuration: the command
/// and arguments of the first member of its `mcpServers` object, where
/// there is one and it is an object.
pub fn server_config_command(config: &Option<Vec<serde_json::Value>>) -> (r: Option<ServerConfigCommand>)
    ensures
        match first_service(opt_value_texts(*config)) {
            Some(obj) => r matches Some(c) && command_read(c, obj),
            None => r is None,
        },
{
    let items = match config {
        Some(items) => items,
        None => {
            return None;
        },
    };
    if items.len() == 0 {
        return None;
    }
    assert(value_texts(items@)[0] == json_text_of(items@[0]));
    let servers = match json_member(&items[0], "mcpServers") {
        Some(m) => m,
        None => {
            return None;
        },
    };
    let ms = match json_object_members(servers) {
        Some(ms) => ms,
        None => {
            return None;
        },
    };
    if ms.len() == 0 {
        return None;
    }
    let obj = &ms[0].1;
    if !json_is_object(obj) {
        return None;
    }
    let args = match json_member(obj, "args") {
        Some(a) => match json_array_items(a) {
            Some(xs) => {
                let mut out: Vec<Option<String>> = Vec::new();
                let mut i: usize = 0;
                while i < xs.len()
                    invariant
                        i <= xs@.len(),
                        out@.len() == i,
                        forall|j: int| 0 <= j < i ==> opt_text(#[trigger] out@[j]) == json_string_text(json_text_of(xs@[j])),
                    decreases xs@.len() - i,
                {
                    out.push(json_as_string(&xs[i]));
                    i += 1;
                }
                assert(opt_texts(out@) =~= xs@.map_values(|x: serde_json::Value| json_text_of(x)).map_values(
                    |x: Seq<char>| json_string_text(x),
                ));
                Some(out)
            },
            None => None,
        },
        None => None,
    };
    Some(ServerConfigCommand { command: read_string_member(obj, "command"), args })
}


/// A text that is present and not empty.
pub open spec fn non_empty(o: Option<String>) -> Option<String> {
    match o {
        Some(s) => if s@.len() > 0 {
            Some(s)
        } else {
            None
        },
        None => None,
    }
}

/// The first present of two.
pub open spec fn or_else<T>(a: Option<T>, b: Option<T>) -> Option<T> {
    match a {
        Some(x) => Some(x),
        None => b,
    }
}

/// The English texts of an entry.
pub open spec fn en_of(s: ModelScopeServer) -> Option<LocaleFields> {
    match s.locales {
        Some(l) => l.en,
        None => None,
    }
}

/// The Chinese texts of an entry.
pub open spec fn zh_of(s: ModelScopeServer) -> Option<LocaleFields> {
    match s.locales {
        Some(l) => l.zh,
        None => None,
    }
}

/// A field of optional texts.
pub open spec fn name_in(l: Option<LocaleFields>) -> Option<String> {
    match l {
        Some(f) => f.name,
        None => None,
    }
}

/// The display name of an entry: the first non-empty of the English name,
/// the Chinese name, the name and the Chinese-name field; else the id.
pub open spec fn display_name(s: ModelScopeServer) -> Seq<char> {
    match or_else(
        non_empty(name_in(en_of(s))),
        or_else(non_empty(name_in(zh_of(s))), or_else(non_empty(s.name), non_empty(s.chinese_name))),
    ) {
        Some(n) => n@,
        None => s.id@,
    }
}

/// The description of an entry: the Chinese one, else the plain one, else
/// empty.
pub open spec fn display_description(s: ModelScopeServer) -> Seq<char> {
    match or_else(
        match zh_of(s) {
            Some(f) => f.description,
            None => None,
        },
        s.description,
    ) {
        Some(d) => d@,
        None => Seq::<char>::empty(),
    }
}

/// The category of an entry: its first, else `utilities`.
pub open spec fn display_category(s: ModelScopeServer) -> Seq<char> {
    match s.categories {
        Some(c) => if c@.len() > 0 {
            c@[0]@
        } else {
            "utilities"@
        },
        None => "utilities"@,
    }
}

/// The author of an entry: author, else owner, else publisher, else
/// `unknown`.
pub open spec fn display_author(s: ModelScopeServer) -> Seq<char> {
    match or_else(s.author, or_else(s.owner, s.publisher)) {
        Some(a) => a@,
        None => "unknown"@,
    }
}

/// The first transport named among operational URLs.
pub open spec fn first_transport(urls: Seq<OperationalUrl>) -> Option<String>
    decreases urls.len(),
{
    if urls.len() == 0 {
        None
    } else {
        match urls[0].transport_type {
            Some(t) => Some(t),
            None => first_transport(urls.subrange(1, urls.len() as int)),
        }
    }
}

/// The transport of an entry: the first named, else `stdio`.
pub open spec fn display_transport(s: ModelScopeServer) -> Seq<char> {
    match s.operational_urls {
        Some(u) => match first_transport(u@) {
            Some(t) => t@,
            None => "stdio"@,
        },
        None => "stdio"@,
    }
}

/// The tags of an entry (none when absent).
pub open spec fn display_tags(s: ModelScopeServer) -> Seq<Seq<char>> {
    match s.tags {
        Some(t) => views(t@),
        None => Seq::<Seq<char>>::empty(),
    }
}

/// The display name of ModelScope.
pub open spec fn modelscope_platform() -> Seq<char> {
    "魔搭社区"@
}

fn copy_opt(s: &Option<String>) -> (r: Option<String>)
    ensures
        r == *s,
{
    match s {
        Some(v) => Some(v.clone()),
        None => None,
    }
}

fn copy_strings(v: &Vec<String>) -> (r: Vec<String>)
    ensures
        views(r@) == views(v@),
        r@ == v@,
{
    let mut r: Vec<String> = Vec::new();
    let mut i: usize = 0;
    while i < v.len()
        invariant
            i <= v@.len(),
            r@ == v@.take(i as int),
        decreases v@.len() - i,
    {
        r.push(v[i].clone());
        assert(r@ =~= v@.take(i + 1));
        i += 1;
    }
    assert(v@.take(v@.len() as int) =~= v@);
    r
}

fn pick_nonempty(o: &Option<String>) -> (r: Option<String>)
    ensures
        r == non_empty(*o),
{
    match o {
        Some(s) => if crate::text::chars_of(s.as_str()).len() > 0 {
            Some(s.clone())
        } else {
            None
        },
        None => None,
    }
}

/// The display name of an entry.
pub fn entry_name(s: &ModelScopeServer) -> (r: String)
    ensures
        r@ == display_name(*s),
{
    let en_name = match &s.locales {
        Some(l) => match &l.en {
            Some(f) => pick_nonempty(&f.name),
            None => None,
        },
        None => None,
    };
    if let Some(n) = en_name {
        return n;
    }
    let zh_name = match &s.locales {
        Some(l) => match &l.zh {
            Some(f) => pick_nonempty(&f.name),
            None => None,
        },
        None => None,
    };
    if let Some(n) = zh_name {
        return n;
    }
    if let Some(n) = pick_nonempty(&s.name) {
        return n;
    }
    if let Some(n) = pick_nonempty(&s.chinese_name) {
        return n;
    }
    s.id.clone()
}

/// The description of an entry.
pub fn entry_description(s: &ModelScopeServer) -> (r: String)
    ensures
        r@ == display_description(*s),
{
    let zh = match &s.locales {
        Some(l) => match &l.zh {
            Some(f) => copy_opt(&f.description),
            None => None,
        },
        None => None,
    };
    match zh {
        Some(d) => d,
        None => match &s.description {
            Some(d) => d.clone(),
            None => String::new(),
        },
    }
}

/// The category of an entry.
pub fn entry_category(s: &ModelScopeServer) -> (r: String)
    ensures
        r@ == display_category(*s),
{
    match &s.categories {
        Some(c) => if c.len() > 0 {
            c[0].clone()
        } else {
            "utilities".to_owned()
        },
        None => "utilities".to_owned(),
    }
}

/// The author of an entry.
pub fn entry_author(s: &ModelScopeServer) -> (r: String)
    ensures
        r@ == display_author(*s),
{
    match &s.author {
        Some(a) => a.clone(),
        None => match &s.owner {
            Some(o) => o.clone(),
            None => match &s.publisher {
                Some(p) => p.clone(),
                None => "unknown".to_owned(),
            },
        },
    }
}

/// The transport of an entry.
pub fn entry_transport(s: &ModelScopeServer) -> (r: String)
    ensures
        r@ == display_transport(*s),
{
    match &s.operational_urls {
        Some(urls) => {
            let mut i: usize = 0;
            assert(urls@.subrange(0, urls@.len() as int) =~= urls@);
            while i < urls.len()
                invariant
                    i <= urls@.len(),
                    s.operational_urls == Some(*urls),
                    first_transport(urls@) == first_transport(urls@.subrange(i as int, urls@.len() as int)),
                decreases urls@.len() - i,
            {
                let ghost rest = urls@.subrange(i as int, urls@.len() as int);
                assert(rest.subrange(1, rest.len() as int) =~= urls@.subrange(i + 1, urls@.len() as int));
                assert(rest[0] == urls@[i as int]);
                match &urls[i].transport_type {
                    Some(t) => {
                        assert(first_transport(rest) == rest[0].transport_type);
                        assert(urls@[i as int].transport_type == Some(*t));
                        assert(first_transport(urls@) == Some(*t));
                        let tt = t.clone();
                        return tt;
                    },
                    None => {},
                }
                i += 1;
            }
            assert(urls@.subrange(i as int, urls@.len() as int).len() == 0);
            "stdio".to_owned()
        },
        None => "stdio".to_owned(),
    }
}

/// The tags of an entry.
pub fn entry_tags(s: &ModelScopeServer) -> (r: Vec<String>)
    ensures
        views(r@) == display_tags(*s),
{
    match &s.tags {
        Some(t) => copy_strings(t),
        None => Vec::new(),
    }
}

/// A listing entry's card, made at `last_updated`.
pub open spec fn is_card_of(item: MarketplaceServiceListItem, s: ModelScopeServer, last_updated: Seq<char>) -> bool {
    &&& item.id == s.id
    &&& item.name@ == display_name(s)
    &&& item.description@ == display_description(s)
    &&& item.author@ == display_author(s)
    &&& item.category@ == display_category(s)
    &&& views(item.tags@) == display_tags(s)
    &&& item.transport@ == display_transport(s)
    &&& item.github_stars == s.github_stars
    &&& item.downloads == (match s.view_count {
        Some(v) => v,
        None => 0,
    }) as u32
    &&& item.last_updated@ == last_updated
    &&& item.platform@ == modelscope_platform()
    &&& item.logo_url == s.logo_url
    &&& item.license is None
    &&& item.is_hosted == s.is_hosted
    &&& item.is_verified == s.is_verified
}

/// The card of a listing entry, stamped `last_updated`.
pub fn modelscope_server_to_list_item_at(s: &ModelScopeServer, last_updated: &str) -> (r: MarketplaceServiceListItem)
    ensures
        is_card_of(r, *s, last_updated@),
{
    let views_count: u64 = match s.view_count {
        Some(v) => v,
        None => 0,
    };
    MarketplaceServiceListItem {
        id: s.id.clone(),
        name: entry_name(s),
        description: entry_description(s),
        author: entry_author(s),
        category: entry_category(s),
        tags: entry_tags(s),
        transport: entry_transport(s),
        github_stars: s.github_stars,
        downloads: views_count as u32,
        last_updated: last_updated.to_owned(),
        platform: "魔搭社区".to_owned(),
        logo_url: copy_opt(&s.logo_url),
        license: None,
        is_hosted: s.is_hosted,
        is_verified: s.is_verified,
    }
}

/// The card of a listing entry, stamped with the current time.
pub fn modelscope_server_to_list_item(s: &ModelScopeServer) -> (r: MarketplaceServiceListItem)
    ensures
        exists|t: Seq<char>| is_card_of(r, *s, t),
{
    let now = crate::clock::utc_now_rfc3339();
    let r = modelscope_server_to_list_item_at(s, now.as_str());
    r
}

/// The install command of an entry's first server configuration: its
/// command with its string arguments (none when they are not an array);
/// nothing without a command.
pub open spec fn install_command_of(c: Option<ServerConfigCommand>) -> Option<(Seq<char>, Seq<Seq<char>>)> {
    match c {
        Some(cc) => match cc.command {
            Some(cmd) => Some(
                (
                    cmd@,
                    match cc.args {
                        Some(a) => string_args(a@),
                        None => Seq::<Seq<char>>::empty(),
                    },
                ),
            ),
            None => None,
        },
        None => None,
    }
}

/// The string arguments among `args`, in order.
pub open spec fn string_args(args: Seq<Option<String>>) -> Seq<Seq<char>>
    decreases args.len(),
{
    if args.len() == 0 {
        Seq::<Seq<char>>::empty()
    } else {
        match args.last() {
            Some(a) => string_args(args.drop_last()).push(a@),
            None => string_args(args.drop_last()),
        }
    }
}

/// The install command of an entry.
pub fn extract_install_command(c: &Option<ServerConfigCommand>) -> (r: Option<InstallCommand>)
    ensures
        match install_command_of(*c) {
            Some((cmd, args)) => (r matches Some(ic) && ic.command@ == cmd && ic.package_manager@ == cmd && views(
                ic.args@,
            ) == args),
            None => r is None,
        },
{
    match c {
        None => None,
        Some(cc) => match &cc.command {
            None => None,
            Some(cmd) => {
                let mut args: Vec<String> = Vec::new();
                match &cc.args {
                    Some(a) => {
                        let mut i: usize = 0;
                        while i < a.len()
                            invariant
                                i <= a@.len(),
                                views(args@) == string_args(a@.take(i as int)),
                            decreases a@.len() - i,
                        {
                            assert(a@.take(i + 1).drop_last() =~= a@.take(i as int));
                            match &a[i] {
                                Some(s) => {
                                    let ghost before = args@;
                                    args.push(s.clone());
                                    assert(views(args@) =~= views(before).push(s@));
                                },
                                None => {},
                            }
                            i += 1;
                        }
                        assert(a@.take(a@.len() as int) =~= a@);
                    },
                    None => {},
                }
                Some(InstallCommand { command: cmd.clone(), args, package_manager: cmd.clone() })
            },
        },
    }
}

/// A service's detail page.
#[derive(Debug)]
pub struct MarketplaceService {
    /// The card's fields.
    pub card: MarketplaceServiceListItem,
    /// How to install it, when the entry says.
    pub install_command: Option<InstallCommand>,
    /// Source repository.
    pub homepage: Option<String>,
    /// Readme: the Chinese one, else the plain one.
    pub readme: Option<String>,
    /// The code repository (ModelScope names none).
    pub repository: Option<String>,
    /// The documentation page (ModelScope names none).
    pub documentation_url: Option<String>,
    /// What the service needs installed (ModelScope lists nothing).
    pub requirements: Vec<String>,
    /// Its server configurations, as ModelScope sent them.
    pub server_config: Option<Vec<serde_json::Value>>,
    /// The environment variables it expects.
    pub env_schema: Option<EnvSchema>,
}

/// The readme of an entry: the Chinese one, else the plain one.
pub open spec fn display_readme(s: ModelScopeServer) -> Option<String> {
    or_else(
        match zh_of(s) {
            Some(f) => f.readme,
            None => None,
        },
        s.readme,
    )
}

/// The detail page of an entry, stamped `last_updated`.
pub fn modelscope_server_to_marketplace_at(s: &ModelScopeServer, last_updated: &str) -> (r: MarketplaceService)
    ensures
        r.repository is None,
        r.documentation_url is None,
        r.requirements@.len() == 0,
        opt_value_texts(r.server_config) == opt_value_texts(s.server_config),
        env_schema_view(r.env_schema) == env_schema_view(s.env_schema),
        is_card_of(r.card, *s, last_updated@),
        r.homepage == s.source_url,
        r.readme == display_readme(*s),
        match install_command_of(s.server_config_command) {
            Some((cmd, args)) => (r.install_command matches Some(ic) && ic.command@ == cmd && ic.package_manager@
                == cmd && views(ic.args@) == args),
            None => r.install_command is None,
        },
{
    let card = modelscope_server_to_list_item_at(s, last_updated);
    let zh_readme = match &s.locales {
        Some(l) => match &l.zh {
            Some(f) => copy_opt(&f.readme),
            None => None,
        },
        None => None,
    };
    let readme = match zh_readme {
        Some(r) => Some(r),
        None => copy_opt(&s.readme),
    };
    MarketplaceService {
        card,
        install_command: extract_install_command(&s.server_config_command),
        homepage: copy_opt(&s.source_url),
        readme,
        repository: None,
        documentation_url: None,
        requirements: Vec::new(),
        server_config: copy_opt_values(&s.server_config),
        env_schema: copy_env_schema(&s.env_schema),
    }
}

/// The detail page of an entry, stamped with the current time.
pub fn modelscope_server_to_marketplace(s: &ModelScopeServer) -> (r: MarketplaceService)
    ensures
        r.repository is None,
        r.documentation_url is None,
        r.requirements@.len() == 0,
        opt_value_texts(r.server_config) == opt_value_texts(s.server_config),
        env_schema_view(r.env_schema) == env_schema_view(s.env_schema),
        exists|t: Seq<char>| is_card_of(r.card, *s, t),
        r.homepage == s.source_url,
        r.readme == display_readme(*s),
        match install_command_of(s.server_config_command) {
            Some((cmd, args)) => (r.install_command matches Some(ic) && ic.command@ == cmd && ic.package_manager@
                == cmd && views(ic.args@) == args),
            None => r.install_command is None,
        },
{
    let now = crate::clock::utc_now_rfc3339();
    modelscope_server_to_marketplace_at(s, now.as_str())
}

/// What a listing request asks ModelScope for.
#[derive(Debug)]
pub struct ListRequest {
    /// Sort direction (always 1).
    pub direction: i32,
    /// The page, as a 32-bit number.
    pub page_number: u32,
    /// The page size, as a 32-bit number.
    pub page_size: u32,
    /// The search text (empty for none).
    pub search: String,
}

/// The request for a page of a listing. Page and size keep their low 32
/// bits, as a cast does.
pub fn list_request(query: Option<&str>, page: usize, page_size: usize) -> (r: ListRequest)
    ensures
        r.direction == 1,
        r.page_number == page as u32,
        r.page_size == page_size as u32,
        r.search@ == (match query {
            Some(q) => q@,
            None => Seq::<char>::empty(),
        }),
{
    ListRequest {
        direction: 1,
        page_number: page as u32,
        page_size: page_size as u32,
        search: match query {
            Some(q) => q.to_owned(),
            None => String::new(),
        },
    }
}

/// What ModelScope answered to a listing request, once decoded.
#[derive(Debug)]
pub struct ListAnswer {
    /// Whether the service reported success.
    pub success: bool,
    /// Its error code.
    pub code: Option<String>,
    /// Its message.
    pub message: Option<String>,
    /// Its request id.
    pub request_id: Option<String>,
    /// The entries and the total, when present.
    pub data: Option<(Vec<ModelScopeServer>, u64)>,
}

fn text_or_empty(s: &Option<String>) -> (r: String)
    ensures
        r@ == (match *s {
            Some(t) => t@,
            None => Seq::<char>::empty(),
        }),
{
    match s {
        Some(t) => t.clone(),
        None => String::new(),
    }
}

/// The text of an optional field, empty when absent.
pub open spec fn or_empty(s: Option<String>) -> Seq<char> {
    match s {
        Some(t) => t@,
        None => Seq::<char>::empty(),
    }
}

/// The error for an answer that reports failure.
pub open spec fn unsuccessful_message(a: ListAnswer) -> Seq<char> {
    "ModelScope API returned success=false (code: "@ + or_empty(a.code) + ", message: "@ + or_empty(a.message)
        + ", request_id: "@ + or_empty(a.request_id) + ")"@
}

/// Judges a decoded listing answer: a reported failure or a missing data
/// field is a network error; otherwise the cards of the entries, stamped
/// `last_updated`, and the total.
pub fn interpret_list_answer(a: &ListAnswer, last_updated: &str) -> (r: Result<(Vec<MarketplaceServiceListItem>, usize), McpError>)
    requires
        a.data matches Some((_, total)) ==> total <= usize::MAX,
    ensures
        !a.success ==> (r matches Err(McpError::NetworkError(m)) && m@ == unsuccessful_message(*a)),
        a.success && a.data is None ==> (r matches Err(McpError::NetworkError(m)) && m@
            == "ModelScope API returned success=true but missing data field"@),
        a.success && a.data is Some ==> (r matches Ok((items, total)) && total == a.data.unwrap().1
            && items@.len() == a.data.unwrap().0@.len() && forall|i: int|
            0 <= i < items@.len() ==> is_card_of(#[trigger] items@[i], a.data.unwrap().0@[i], last_updated@)),
{
    if !a.success {
        let mut m = "ModelScope API returned success=false (code: ".to_owned();
        crate::text::push_str(&mut m, text_or_empty(&a.code).as_str());
        crate::text::push_str(&mut m, ", message: ");
        crate::text::push_str(&mut m, text_or_empty(&a.message).as_str());
        crate::text::push_str(&mut m, ", request_id: ");
        crate::text::push_str(&mut m, text_or_empty(&a.request_id).as_str());
        crate::text::push_str(&mut m, ")");
        return Err(McpError::NetworkError(m));
    }
    match &a.data {
        None => Err(McpError::NetworkError("ModelScope API returned success=true but missing data field".to_owned())),
        Some((list, total)) => {
            let mut items: Vec<MarketplaceServiceListItem> = Vec::new();
            let mut i: usize = 0;
            while i < list.len()
                invariant
                    i <= list@.len(),
                    items@.len() == i,
                    forall|j: int| 0 <= j < i ==> is_card_of(#[trigger] items@[j], list@[j], last_updated@),
                decreases list@.len() - i,
            {
                items.push(modelscope_server_to_list_item_at(&list[i], last_updated));
                i += 1;
            }
            Ok((items, *total as usize))
        },
    }
}

/// The transport of a service to install: `stdio`, `http`, or `sse`
/// (served over HTTP now); anything else is refused.
pub open spec fn install_transport(t: Seq<char>) -> Option<ServiceTransport> {
    if t == "stdio"@ {
        Some(ServiceTransport::Stdio)
    } else if t == "http"@ || t == "sse"@ {
        Some(ServiceTransport::Http)
    } else {
        None
    }
}

/// An installed service keeps the transport its card shows: `stdio` gives
/// a stdio server and `http` an HTTP one (the retired `sse` is served over
/// HTTP), so the transport named by an accepted card is the one installed.
pub proof fn law_install_keeps_transport(t: Seq<char>)
    ensures
        install_transport("stdio"@) == Some(ServiceTransport::Stdio),
        install_transport("http"@) == Some(ServiceTransport::Http),
        install_transport("sse"@) == Some(ServiceTransport::Http),
        install_transport(t) matches Some(x) ==> (t != "sse"@ ==> transport_name(x) == t),
{
    crate::types::lemma_transport_names_distinct();
    reveal_strlit("stdio");
    reveal_strlit("sse");
    reveal_strlit("http");
    assert("stdio"@.len() != "sse"@.len());
}

/// The configuration a one-click install adds: the service's name,
/// description and install command, its transport, and the environment
/// given (a later pair wins). A service without install command, or with
/// an unknown transport, is refused.
pub fn install_config(service: &MarketplaceService, env: Option<Vec<(String, String)>>) -> (r: Result<
    McpServerConfig,
    McpError,
>)
    ensures
        install_transport(service.card.transport@) is None ==> (r matches Err(McpError::InvalidConfiguration(m))
            && m@ == "Unsupported transport: "@ + service.card.transport@),
        install_transport(service.card.transport@) is Some && service.install_command is None ==> (r matches Err(
            McpError::InvalidConfiguration(m),
        ) && m@
            == "Cannot extract installation command, this service may not support one-click installation"@),
        install_transport(service.card.transport@) is Some && service.install_command is Some ==> (r matches Ok(c)
            && c.name == service.card.name && c.description == Some(service.card.description) && c.command == Some(
            service.install_command.unwrap().command,
        ) && c.args is Some && c.args.unwrap()@ == service.install_command.unwrap().args@ && c.transport
            == install_transport(service.card.transport@).unwrap() && c.url is None && c.enabled && c.headers is None
            && match env {
            Some(pairs) => c.env is Some && c.env.unwrap()@ == insert_all(Map::<Seq<char>, String>::empty(), pairs@),
            None => c.env is None,
        }),
        service.card.transport@ == "stdio"@ && service.install_command is Some ==> (r matches Ok(c) && c.transport
            == ServiceTransport::Stdio),
        service.card.transport@ == "http"@ && service.install_command is Some ==> (r matches Ok(c) && c.transport
            == ServiceTransport::Http),
{
    proof {
        law_install_keeps_transport(service.card.transport@);
    }
    let t = service.card.transport.as_str();
    let transport = if str_eq(t, "stdio") {
        ServiceTransport::Stdio
    } else if str_eq(t, "http") || str_eq(t, "sse") {
        ServiceTransport::Http
    } else {
        return Err(McpError::InvalidConfiguration(concat2("Unsupported transport: ", t)));
    };
    let ic = match &service.install_command {
        Some(ic) => ic,
        None => {
            return Err(
                McpError::InvalidConfiguration(
                    "Cannot extract installation command, this service may not support one-click installation".to_owned(),
                ),
            );
        },
    };
    let env_map = match env {
        Some(pairs) => {
            let mut m = KeyedList::new();
            merge_env(&mut m, pairs);
            Some(m)
        },
        None => None,
    };
    Ok(
        McpServerConfig {
            name: service.card.name.clone(),
            description: Some(service.card.description.clone()),
            command: Some(ic.command.clone()),
            args: Some(copy_strings(&ic.args)),
            env: env_map,
            transport,
            url: None,
            headers: None,
            enabled: true,
        },
    )
}

} // verus!
