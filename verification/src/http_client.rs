//! Settings of the HTTP transport to a remote MCP server: its endpoint and
//! the headers to send, of which the `Authorization` header becomes the
//! transport's bearer token.
use vstd::prelude::*;
use crate::error::McpError;
use crate::keyed::KeyedList;
use crate::mcp_client::{insert_all, merge_env};
use crate::text::{concat2, eq_ignore_ascii_case, starts_with, str_eq_ignore_ascii_case, strip_prefix};

verus! {

/// The settings handed to the streamable-HTTP transport.
#[derive(Debug)]
pub struct TransportConfig {
    /// The endpoint.
    pub uri: String,
    /// The bearer token sent in the `Authorization` header, if any.
    pub auth_header: Option<String>,
}

impl TransportConfig {
    /// The endpoint.
    pub fn uri(&self) -> (r: &str)
        ensures
            r@ == self.uri@,
    {
        self.uri.as_str()
    }
}

/// A header value without a leading `Bearer `.
pub open spec fn bearer_token(v: Seq<char>) -> Seq<char> {
    if starts_with(v, "Bearer "@) {
        v.subrange(7, v.len() as int)
    } else {
        v
    }
}

/// The bearer token of the last `Authorization` header (the name compared
/// without regard to ASCII case) among `entries`.
pub open spec fn auth_token_of(entries: Seq<(String, String)>) -> Option<Seq<char>>
    decreases entries.len(),
{
    if entries.len() == 0 {
        None
    } else if eq_ignore_ascii_case(entries.last().0@, "authorization"@) {
        Some(bearer_token(entries.last().1@))
    } else {
        auth_token_of(entries.drop_last())
    }
}

/// Some header named `authorization` (any ASCII case) has `t` as bearer
/// token.
pub open spec fn has_auth_token(m: Map<Seq<char>, String>, t: Seq<char>) -> bool {
    exists|k: Seq<char>|
        #[trigger] m.contains_key(k) && eq_ignore_ascii_case(k, "authorization"@) && t == bearer_token(m[k]@)
}

/// No header is named `authorization` (any ASCII case).
pub open spec fn no_auth_header(m: Map<Seq<char>, String>) -> bool {
    forall|k: Seq<char>| #[trigger] m.contains_key(k) ==> !eq_ignore_ascii_case(k, "authorization"@)
}

/// The token found among the entries is that of one of the map's
/// authorization headers; when none is found the map has none.
pub proof fn lemma_auth_token_in_map(e: Seq<(String, String)>)
    requires
        crate::keyed::keys_unique(e),
    ensures
        auth_token_of(e) matches Some(t) ==> has_auth_token(crate::keyed::to_map(e), t),
        auth_token_of(e) is None ==> no_auth_header(crate::keyed::to_map(e)),
    decreases e.len(),
{
    let m = crate::keyed::to_map(e);
    if e.len() == 0 {
    } else if eq_ignore_ascii_case(e.last().0@, "authorization"@) {
        crate::keyed::lemma_entry_is_mapped(e, e.len() - 1);
        assert(m.contains_key(e.last().0@));
    } else {
        let d = e.drop_last();
        assert(crate::keyed::keys_unique(d)) by {
            assert forall|i: int, j: int| 0 <= i < j < d.len() implies #[trigger] d[i].0@ != #[trigger] d[j].0@ by {
                assert(e[i].0@ != e[j].0@);
            }
        }
        lemma_auth_token_in_map(d);
        let md = crate::keyed::to_map(d);
        if let Some(t) = auth_token_of(d) {
            let k = choose|k: Seq<char>|
                #[trigger] md.contains_key(k) && eq_ignore_ascii_case(k, "authorization"@) && t == bearer_token(
                    md[k]@,
                );
            let i = crate::keyed::key_index(d, k);
            crate::keyed::lemma_entry_is_mapped(d, i);
            assert(d[i] == e[i]);
            crate::keyed::lemma_entry_is_mapped(e, i);
            assert(m.contains_key(k));
        } else {
            assert forall|k: Seq<char>| #[trigger] m.contains_key(k) implies !eq_ignore_ascii_case(
                k,
                "authorization"@,
            ) by {
                let i = crate::keyed::key_index(e, k);
                crate::keyed::lemma_entry_is_mapped(e, i);
                if i < e.len() - 1 {
                    assert(e[i] == d[i]);
                    crate::keyed::lemma_entry_is_mapped(d, i);
                    assert(md.contains_key(k));
                }
            }
        }
    }
}

/// An HTTP transport under construction: an endpoint and custom headers.
#[derive(Debug)]
pub struct HttpTransportConfig {
    url: String,
    headers: KeyedList<String>,
}

impl HttpTransportConfig {
    /// The endpoint.
    pub closed spec fn url(&self) -> Seq<char> {
        self.url@
    }

    /// The headers, by name.
    pub closed spec fn header_map(&self) -> Map<Seq<char>, String> {
        self.headers@
    }

    /// The headers in the order their names were first set.
    pub closed spec fn header_entries(&self) -> Seq<(String, String)> {
        self.headers.entry_seq()
    }

    /// Settings for `url` with no custom header.
    pub fn new(url: &str) -> (r: Self)
        ensures
            r.url() == url@,
            r.header_map() == Map::<Seq<char>, String>::empty(),
    {
        HttpTransportConfig { url: url.to_owned(), headers: KeyedList::new() }
    }

    /// Sets the header `key` to `value`.
    pub fn header(self, key: &str, value: &str) -> (r: Self)
        ensures
            r.url() == self.url(),
            r.header_map() == self.header_map().insert(key@, r.header_map()[key@]),
            r.header_map()[key@]@ == value@,
    {
        let mut s = self;
        s.headers.insert(key.to_owned(), value.to_owned());
        s
    }

    /// Sets the `Authorization` header to `Bearer <token>`.
    pub fn authorization(self, token: &str) -> (r: Self)
        ensures
            r.url() == self.url(),
            r.header_map() == self.header_map().insert("Authorization"@, r.header_map()["Authorization"@]),
            r.header_map()["Authorization"@]@ == "Bearer "@ + token@,
    {
        let mut s = self;
        s.headers.insert("Authorization".to_owned(), concat2("Bearer ", token));
        s
    }

    /// Sets an API-key header `key` to `value`.
    pub fn api_key(self, key: &str, value: &str) -> (r: Self)
        ensures
            r.url() == self.url(),
            r.header_map() == self.header_map().insert(key@, r.header_map()[key@]),
            r.header_map()[key@]@ == value@,
    {
        let mut s = self;
        s.headers.insert(key.to_owned(), value.to_owned());
        s
    }

    /// Sets each of `headers`, in their order: the headers given overlay
    /// those already set (a name they give takes their value, any other
    /// name keeps its value).
    pub fn headers(self, headers: &KeyedList<String>) -> (r: Self)
        ensures
            r.url() == self.url(),
            r.header_map() == insert_all(self.header_map(), headers.entry_seq()),
            r.header_map() == self.header_map().union_prefer_right(headers@),
    {
        let entries = headers.entries();
        proof {
            crate::mcp_client::law_insert_all_overlays(self.header_map(), entries@);
        }
        let mut pairs: Vec<(String, String)> = Vec::new();
        let mut i: usize = 0;
        while i < entries.len()
            invariant
                i <= entries@.len(),
                entries@ == headers.entry_seq(),
                pairs@.len() == i,
                forall|j: int| 0 <= j < i ==> #[trigger] pairs@[j] == entries@[j],
            decreases entries@.len() - i,
        {
            pairs.push((entries[i].0.clone(), entries[i].1.clone()));
            i += 1;
        }
        assert(pairs@ =~= entries@);
        let mut s = self;
        merge_env(&mut s.headers, pairs);
        s
    }

    /// The transport settings: the endpoint, and the bearer token of the
    /// last `Authorization` header (any ASCII case), without its `Bearer `
    /// prefix. Other headers are not carried by the transport.
    pub fn build_config(self) -> (r: Result<TransportConfig, McpError>)
        ensures
            r matches Ok(c) && c.uri@ == self.url() && match c.auth_header {
                Some(t) => auth_token_of(self.header_entries()) == Some(t@) && has_auth_token(
                    self.header_map(),
                    t@,
                ),
                None => auth_token_of(self.header_entries()) is None && no_auth_header(self.header_map()),
            },
    {
        let entries = self.headers.entries();
        let mut token: Option<String> = None;
        let mut i: usize = 0;
        while i < entries.len()
            invariant
                i <= entries@.len(),
                entries@ == self.headers.entry_seq(),
                match token {
                    Some(t) => auth_token_of(entries@.take(i as int)) == Some(t@),
                    None => auth_token_of(entries@.take(i as int)) is None,
                },
            decreases entries@.len() - i,
        {
            assert(entries@.take(i + 1).drop_last() =~= entries@.take(i as int));
            if str_eq_ignore_ascii_case(entries[i].0.as_str(), "authorization") {
                let v = entries[i].1.as_str();
                token = match strip_prefix(v, "Bearer ") {
                    Some(t) => {
                        proof {
                            reveal_strlit("Bearer ");
                        }
                        Some(t)
                    },
                    None => Some(v.to_owned()),
                };
            }
            i += 1;
        }
        assert(entries@.take(entries@.len() as int) =~= entries@);
        proof {
            lemma_auth_token_in_map(entries@);
        }
        Ok(TransportConfig { uri: self.url.clone(), auth_header: token })
    }
}

/// Transport settings for `url` with the given headers.
pub fn create_transport_config(url: &str, headers: &KeyedList<String>) -> (r: Result<TransportConfig, McpError>)
    ensures
        r matches Ok(c) && c.uri@ == url@ && match c.auth_header {
            Some(t) => has_auth_token(headers@, t@),
            None => no_auth_header(headers@),
        },
{
    let entries = headers.entries();
    proof {
        crate::mcp_client::lemma_insert_all_into_empty(entries@);
    }
    let c = HttpTransportConfig::new(url).headers(headers);
    let r = c.build_config();
    r
}

/// Transport settings for `url` carrying `token` as bearer token.
pub fn create_transport_config_with_auth(url: &str, token: &str) -> (r: Result<TransportConfig, McpError>)
    ensures
        r matches Ok(c) && c.uri@ == url@ && c.auth_header is Some && c.auth_header.unwrap()@ == token@,
{
    let c = HttpTransportConfig::new(url).authorization(token);
    let r = c.build_config();
    proof {
        reveal_strlit("Authorization");
        reveal_strlit("authorization");
        reveal_strlit("Bearer ");
        let m = c.header_map();
        assert(m.dom() =~= set!["Authorization"@]);
        assert(eq_ignore_ascii_case("Authorization"@, "authorization"@));
        let v = m["Authorization"@]@;
        assert(v.subrange(0, 7) =~= "Bearer "@);
        assert(v.subrange(7, v.len() as int) =~= token@);
        assert(bearer_token(v) == token@);
        assert(m.contains_key("Authorization"@));
        let cfg = r->Ok_0;
        if let Some(t) = cfg.auth_header {
            let k = choose|k: Seq<char>|
                #[trigger] m.contains_key(k) && eq_ignore_ascii_case(k, "authorization"@) && t@ == bearer_token(m[k]@);
            assert(m.dom().contains(k));
            assert(k == "Authorization"@);
        }
    }
    r
}

/// Builders of HTTP transport settings for the common cases.
pub struct HttpClientFactory;

impl HttpClientFactory {
    /// Settings for `url` without custom headers.
    pub fn create_default(url: &str) -> (r: Result<TransportConfig, McpError>)
        ensures
            r matches Ok(c) && c.uri@ == url@ && c.auth_header is None,
    {
        HttpTransportConfig::new(url).build_config()
    }

    /// Settings for `url` carrying an API key as bearer token.
    pub fn create_with_api_key(url: &str, api_key: &str) -> (r: Result<TransportConfig, McpError>)
        ensures
            r matches Ok(c) && c.uri@ == url@ && c.auth_header is Some && c.auth_header.unwrap()@ == api_key@,
    {
        create_transport_config_with_auth(url, api_key)
    }

    /// Settings for `url` carrying a bearer token.
    pub fn create_with_bearer_token(url: &str, token: &str) -> (r: Result<TransportConfig, McpError>)
        ensures
            r matches Ok(c) && c.uri@ == url@ && c.auth_header is Some && c.auth_header.unwrap()@ == token@,
    {
        create_transport_config_with_auth(url, token)
    }

    /// Settings for `url` with a `Content-Type` header, which the transport
    /// does not carry.
    pub fn create_with_content_type(url: &str, content_type: &str) -> (r: Result<TransportConfig, McpError>)
        ensures
            r matches Ok(c) && c.uri@ == url@ && c.auth_header is None,
    {
        let c = HttpTransportConfig::new(url).header("Content-Type", content_type);
        proof {
            reveal_strlit("Content-Type");
            reveal_strlit("authorization");
            assert(c.header_map().dom() =~= set!["Content-Type"@]);
        }
        c.build_config()
    }
}

/// A character HTTP allows in a header name: a letter, a digit, or one of
/// ``!#$%&'*+-.^_`|~``.
pub open spec fn is_token_char(c: char) -> bool {
    ||| ('a' <= c && c <= 'z')
    ||| ('A' <= c && c <= 'Z')
    ||| ('0' <= c && c <= '9')
    ||| c == '!' || c == '#' || c == '$' || c == '%' || c == '&' || c == '\'' || c == '*'
    ||| c == '+' || c == '-' || c == '.' || c == '^' || c == '_' || c == '`' || c == '|' || c == '~'
}

/// A header name `reqwest` accepts: one to 65535 token characters.
pub open spec fn valid_header_name(n: Seq<char>) -> bool {
    1 <= n.len() <= 65535 && forall|i: int| 0 <= i < n.len() ==> is_token_char(#[trigger] n[i])
}

/// A header value `reqwest` accepts: no control character but the tab, and
/// no DEL.
pub open spec fn valid_header_value(v: Seq<char>) -> bool {
    forall|i: int| 0 <= i < v.len() ==> (#[trigger] v[i] == '\t' || (v[i] >= ' ' && v[i] != '\x7f'))
}

/// `reqwest::header::HeaderName::from_bytes` on the text's bytes, keeping
/// whether it succeeds. Its source accepts exactly the non-empty names of
/// at most 65535 bytes whose every byte is a token character; a character
/// outside ASCII never is one, so counting characters is the same.
#[verifier::external_body]
fn header_name_accepted(name: &str) -> (r: bool)
    ensures
        r == valid_header_name(name@),
{
    reqwest::header::HeaderName::from_bytes(name.as_bytes()).is_ok()
}

/// `reqwest::header::HeaderValue::from_str`, keeping whether it succeeds.
/// Its source refuses exactly the texts with a byte below 32 other than the
/// tab, or the byte 127; the bytes of a character outside ASCII are all
/// above 127.
#[verifier::external_body]
fn header_value_accepted(value: &str) -> (r: bool)
    ensures
        r == valid_header_value(value@),
{
    reqwest::header::HeaderValue::from_str(value).is_ok()
}

/// The pairs of `entries` whose name and value HTTP accepts, in order.
pub open spec fn valid_pairs(entries: Seq<(String, String)>) -> Seq<(Seq<char>, Seq<char>)>
    decreases entries.len(),
{
    if entries.len() == 0 {
        Seq::<(Seq<char>, Seq<char>)>::empty()
    } else {
        let rest = valid_pairs(entries.drop_last());
        let (k, v) = entries.last();
        if valid_header_name(k@) && valid_header_value(v@) {
            rest.push((k@, v@))
        } else {
            rest
        }
    }
}

/// The characters of name-value pairs.
pub open spec fn pair_views(pairs: Seq<(String, String)>) -> Seq<(Seq<char>, Seq<char>)> {
    pairs.map_values(|p: (String, String)| (p.0@, p.1@))
}

/// `first` followed by the pairs of `entries` that HTTP accepts, in order.
fn with_valid_pairs(first: (String, String), entries: &[(String, String)]) -> (r: Vec<(String, String)>)
    ensures
        pair_views(r@) == seq![(first.0@, first.1@)] + valid_pairs(entries@),
{
    let mut r: Vec<(String, String)> = Vec::new();
    r.push(first);
    let mut i: usize = 0;
    while i < entries.len()
        invariant
            i <= entries@.len(),
            pair_views(r@) == seq![(first.0@, first.1@)] + valid_pairs(entries@.take(i as int)),
        decreases entries@.len() - i,
    {
        assert(entries@.take(i as int + 1).drop_last() =~= entries@.take(i as int));
        let (k, v) = &entries[i];
        if header_name_accepted(k.as_str()) && header_value_accepted(v.as_str()) {
            let ghost before = pair_views(r@);
            r.push((k.clone(), v.clone()));
            assert(pair_views(r@) =~= before.push((k@, v@)));
        }
        i += 1;
    }
    assert(entries@.take(entries@.len() as int) =~= entries@);
    r
}

/// The seconds an HTTP client to an MCP server waits for an answer.
pub const HTTP_CLIENT_TIMEOUT_SECONDS: u64 = 30;

/// The headers an HTTP client to an MCP server sends: `Accept` for JSON and
/// event streams, then each configured header whose name and value HTTP
/// accepts, in the order they were configured (set in turn, so a later one
/// replaces an earlier one of the same name).
pub fn connection_headers(custom: Option<&KeyedList<String>>) -> (r: Vec<(String, String)>)
    ensures
        pair_views(r@) == seq![("Accept"@, "application/json, text/event-stream; charset=utf-8"@)] + match custom {
            Some(h) => valid_pairs(h.entry_seq()),
            None => Seq::<(Seq<char>, Seq<char>)>::empty(),
        },
{
    let first = ("Accept".to_owned(), "application/json, text/event-stream; charset=utf-8".to_owned());
    match custom {
        Some(h) => with_valid_pairs(first, h.entries()),
        None => {
            let empty: Vec<(String, String)> = Vec::new();
            let r = with_valid_pairs(first, empty.as_slice());
            assert(valid_pairs(empty@) =~= Seq::<(Seq<char>, Seq<char>)>::empty());
            r
        },
    }
}

/// The headers a marketplace listing request sends: `Content-Type` for
/// JSON, then each of the source's headers whose name and value HTTP
/// accepts, in order.
pub fn listing_headers(source: &crate::marketplace::MarketplaceSource) -> (r: Vec<(String, String)>)
    ensures
        pair_views(r@) == seq![("Content-Type"@, "application/json"@)] + match source.headers {
            Some(h) => valid_pairs(h.entry_seq()),
            None => Seq::<(Seq<char>, Seq<char>)>::empty(),
        },
{
    let first = ("Content-Type".to_owned(), "application/json".to_owned());
    match &source.headers {
        Some(h) => with_valid_pairs(first, h.entries()),
        None => {
            let empty: Vec<(String, String)> = Vec::new();
            let r = with_valid_pairs(first, empty.as_slice());
            assert(valid_pairs(empty@) =~= Seq::<(Seq<char>, Seq<char>)>::empty());
            r
        },
    }
}

} // verus!
