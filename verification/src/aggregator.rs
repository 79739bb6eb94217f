//! Decisions of the aggregating MCP endpoint: who may list or use what,
//! which items a token sees, how lists are paged, where a call is routed
//! and how failures are answered.
use vstd::prelude::*;
use crate::auth_context::{AuthContext, expired_at};
use crate::mcp_client::{status_of, McpClientManager};
use crate::entities::permission::{path_separator, resource_path_of};
use crate::text::{
    chars_of, concat2, contains_seq, decimal, first_occurrence, parse_usize, parse_usize_spec,
    push_str, split_once_chars, starts_with, str_contains, str_eq, u64_to_string, usize_to_string, views,
};
use crate::mcp_manager::McpServerInfo;
use vstd::utf8::encode_utf8;
use crate::json::{
    empty_json_object, json_document_text, json_insert_member, json_is_object, json_member, json_member_text,
    json_object_text, json_string, json_string_value_text, json_text_of, json_to_string, json_with_member_text,
    parse_json,
};

verus! {

/// How many items one page of a listing holds.
pub const PAGE_SIZE: usize = 100;

/// An error answered to an MCP client: a code and a message.
#[derive(Debug)]
pub struct AggregatorError {
    /// The error code (HTTP-like: 400, 401, 403, 404, 500, 503).
    pub code: i32,
    /// A human-readable message.
    pub message: String,
}

/// One page of a listing and the cursor of the next page, if any.
#[derive(Debug)]
pub struct Page<T> {
    /// The items of this page.
    pub items: Vec<T>,
    /// The cursor to ask for the next page with.
    pub next_cursor: Option<String>,
}

/// The offset a cursor asks for: the start when there is none, the
/// cursor's number otherwise (`None` when it is not a number).
pub open spec fn cursor_offset(cursor: Option<Seq<char>>) -> Option<nat> {
    match cursor {
        None => Some(0),
        Some(c) => parse_usize_spec(c),
    }
}

/// Where a page starting at `offset` ends, for a list of `total` items.
pub open spec fn page_end(offset: nat, total: nat) -> nat {
    if offset + PAGE_SIZE < total {
        (offset + PAGE_SIZE) as nat
    } else {
        total
    }
}

/// The items of the page that starts at `offset`.
pub open spec fn page_slice<T>(items: Seq<T>, offset: nat) -> Seq<T> {
    let end = page_end(offset, items.len());
    if offset < end {
        items.subrange(offset as int, end as int)
    } else {
        Seq::<T>::empty()
    }
}

/// The cursor of the page after the one that starts at `offset`.
pub open spec fn next_cursor_of(offset: nat, total: nat) -> Option<Seq<char>> {
    let end = page_end(offset, total);
    if end < total {
        Some(decimal(end))
    } else {
        None
    }
}

/// A cursor can be served without overflowing the page arithmetic.
pub open spec fn cursor_in_range(cursor: Option<Seq<char>>) -> bool {
    match cursor_offset(cursor) {
        Some(o) => o + PAGE_SIZE <= usize::MAX,
        None => true,
    }
}

/// The message of a malformed cursor.
pub open spec fn invalid_cursor_message() -> Seq<char> {
    "Invalid cursor"@
}

/// Pages a listing: the page at the cursor's offset and the cursor of the
/// next page. A cursor that is not a decimal number is answered with
/// error 400 "Invalid cursor".
pub fn apply_pagination<T>(items: Vec<T>, cursor: Option<&str>) -> (r: Result<Page<T>, AggregatorError>)
    requires
        cursor_in_range(match cursor {
            Some(c) => Some(c@),
            None => None,
        }),
    ensures
        ({
            let c = match cursor {
                Some(c) => Some(c@),
                None => None,
            };
            match cursor_offset(c) {
                None => (r matches Err(e) && e.code == 400 && e.message@ == invalid_cursor_message()),
                Some(offset) => (r matches Ok(p) && p.items@ == page_slice(items@, offset) && match p.next_cursor {
                    Some(n) => next_cursor_of(offset, items@.len()) == Some(n@),
                    None => next_cursor_of(offset, items@.len()) is None,
                }),
            }
        }),
{
    let mut offset: usize = 0;
    if let Some(c) = cursor {
        match parse_usize(c) {
            Some(v) => {
                offset = v;
            },
            None => {
                return Err(AggregatorError { code: 400, message: "Invalid cursor".to_owned() });
            },
        }
    }
    let total = items.len();
    let end = if offset + PAGE_SIZE < total {
        offset + PAGE_SIZE
    } else {
        total
    };
    let ghost orig = items@;
    let mut items = items;
    let slice = if offset < end {
        let mut tail = items.split_off(offset);
        tail.truncate(end - offset);
        assert(tail@ =~= orig.subrange(offset as int, end as int));
        tail
    } else {
        Vec::new()
    };
    let next_cursor = if end < total {
        Some(usize_to_string(end))
    } else {
        None
    };
    Ok(Page { items: slice, next_cursor })
}

/// Paging starts at the first item: a listing asked for without a cursor
/// begins with item 0.
pub proof fn law_first_page_starts_at_zero()
    ensures
        cursor_offset(None) == Some(0nat),
{
}

/// Following the cursor of a page gives the page that starts where that
/// page ended: pages follow each other without gap or overlap.
pub proof fn law_next_page_continues(offset: nat, total: nat)
    requires
        page_end(offset, total) <= usize::MAX,
        next_cursor_of(offset, total) is Some,
    ensures
        cursor_offset(next_cursor_of(offset, total)) == Some(page_end(offset, total)),
{
    crate::text::lemma_parse_decimal(page_end(offset, total) as usize);
}

/// The last page is the one that reaches the end of the list: a page whose
/// cursor is absent ends at the last item.
pub proof fn law_last_page_reaches_end(offset: nat, total: nat)
    requires
        offset <= total,
        next_cursor_of(offset, total) is None,
    ensures
        page_end(offset, total) == total,
{
}

/// Every page but the last is full, and pages are slices of the list in
/// order: a page is exactly the list's items from its offset to its end.
pub proof fn law_page_is_slice<T>(items: Seq<T>, offset: nat)
    requires
        offset <= items.len(),
    ensures
        page_slice(items, offset) == items.subrange(offset as int, page_end(offset, items.len()) as int),
        next_cursor_of(offset, items.len()) is Some ==> page_slice(items, offset).len() == PAGE_SIZE,
{
    if offset == page_end(offset, items.len()) {
        assert(items.subrange(offset as int, offset as int) =~= Seq::<T>::empty());
    }
}

/// `i` is the position of the first `/` of `p`.
pub open spec fn is_first_slash(p: Seq<char>, i: int) -> bool {
    0 <= i < p.len() && p[i] == '/' && forall|j: int| 0 <= j < i ==> #[trigger] p[j] != '/'
}

/// A permission pattern with its first `/` read as the `__` that joins a
/// server's name to an item's name in aggregated names: `server/tool`
/// stands for `server__tool`.
pub open spec fn pattern_path(p: Seq<char>) -> Seq<char> {
    if exists|i: int| is_first_slash(p, i) {
        let i = choose|i: int| is_first_slash(p, i);
        p.subrange(0, i) + path_separator() + p.subrange(i + 1, p.len() as int)
    } else {
        p
    }
}

/// Whether the permission pattern `p` allows the aggregated name `name`:
/// the name itself; `*`, which allows everything; `server/*`, which
/// allows every item of that server; `server/path/*`, which allows every
/// item under that path; `server/item`, which allows that item. A
/// trailing `*` allows every name that begins with what precedes it.
pub open spec fn pattern_allows(p: Seq<char>, name: Seq<char>) -> bool {
    ||| p == name
    ||| {
        let q = pattern_path(p);
        if q.len() > 0 && q.last() == '*' {
            starts_with(name, q.drop_last())
        } else {
            name == q
        }
    }
}

/// Some pattern of `allowed` allows `name`.
pub open spec fn any_allows(allowed: Seq<Seq<char>>, name: Seq<char>) -> bool {
    exists|k: int| 0 <= k < allowed.len() && pattern_allows(#[trigger] allowed[k], name)
}

/// The items whose names some pattern of `allowed` allows, in their
/// original order.
pub open spec fn permitted<T>(items: Seq<T>, names: Seq<Seq<char>>, allowed: Seq<Seq<char>>) -> Seq<T>
    decreases items.len(),
{
    if items.len() == 0 {
        Seq::<T>::empty()
    } else {
        let rest = permitted(items.drop_last(), names.drop_last(), allowed);
        if any_allows(allowed, names[items.len() - 1]) {
            rest.push(items.last())
        } else {
            rest
        }
    }
}

/// A pattern `server/rest`, the server's name holding no `/`, reads as
/// `server__rest`.
pub proof fn lemma_pattern_path_split(server: Seq<char>, rest: Seq<char>)
    requires
        forall|i: int| 0 <= i < server.len() ==> #[trigger] server[i] != '/',
    ensures
        pattern_path(server + seq!['/'] + rest) == resource_path_of(server, rest),
{
    let p = server + seq!['/'] + rest;
    let n = server.len() as int;
    assert(p[n] == '/');
    assert forall|j: int| 0 <= j < n implies #[trigger] p[j] != '/' by {
        assert(p[j] == server[j]);
    }
    assert(is_first_slash(p, n));
    let k = choose|k: int| is_first_slash(p, k);
    if k < n {
        assert(p[k] == server[k]);
    } else if k > n {
        assert(p[n] != '/');
    }
    assert(p.subrange(0, n) =~= server);
    assert(p.subrange(n + 1, p.len() as int) =~= rest);
}

/// The patterns the permissions speak of: `*` allows every name;
/// `server/*` allows every item of the server; `server/item` allows that
/// item; `server/path/*` allows every item under the path.
pub proof fn law_permission_patterns(server: Seq<char>, path: Seq<char>, item: Seq<char>, name: Seq<char>)
    requires
        forall|i: int| 0 <= i < server.len() ==> #[trigger] server[i] != '/',
    ensures
        pattern_allows(seq!['*'], name),
        pattern_allows(server + seq!['/', '*'], resource_path_of(server, item)),
        pattern_allows(server + seq!['/'] + item, resource_path_of(server, item)),
        pattern_allows(server + seq!['/'] + path + seq!['/', '*'], resource_path_of(server, path + seq!['/'] + item)),
{
    assert(!(exists|i: int| is_first_slash(seq!['*'], i)));
    assert(pattern_path(seq!['*']) == seq!['*']);
    assert(seq!['*'].drop_last() =~= Seq::<char>::empty());
    assert(name.subrange(0, 0) =~= Seq::<char>::empty());
    lemma_pattern_path_split(server, seq!['*']);
    assert(server + seq!['/', '*'] =~= server + seq!['/'] + seq!['*']);
    let q1 = resource_path_of(server, seq!['*']);
    assert(q1.drop_last() =~= server + path_separator());
    assert(resource_path_of(server, item).subrange(0, q1.drop_last().len() as int) =~= server + path_separator());
    lemma_pattern_path_split(server, item);
    let pat = server + seq!['/'] + path + seq!['/', '*'];
    lemma_pattern_path_split(server, path + seq!['/', '*']);
    assert(pat =~= server + seq!['/'] + (path + seq!['/', '*']));
    let q2 = resource_path_of(server, path + seq!['/', '*']);
    let full = resource_path_of(server, path + seq!['/'] + item);
    assert(q2.drop_last() =~= server + path_separator() + path + seq!['/']);
    assert(full.subrange(0, q2.drop_last().len() as int) =~= server + path_separator() + path + seq!['/']);
}

/// A token allowed `*` sees every item, in order.
pub proof fn law_star_allows_everything<T>(items: Seq<T>, names: Seq<Seq<char>>)
    requires
        names.len() == items.len(),
    ensures
        permitted(items, names, seq![seq!['*']]) == items,
    decreases items.len(),
{
    if items.len() > 0 {
        law_star_allows_everything(items.drop_last(), names.drop_last());
        let n = names[items.len() - 1];
        assert(!(exists|i: int| is_first_slash(seq!['*'], i)));
        assert(seq!['*'].drop_last() =~= Seq::<char>::empty());
        assert(n.subrange(0, 0) =~= Seq::<char>::empty());
        assert(pattern_allows(seq![seq!['*']][0], n));
        assert(any_allows(seq![seq!['*']], n));
        assert(items.drop_last().push(items.last()) =~= items);
    }
}

/// The pattern's characters, with its first `/` read as `__`.
fn pattern_path_chars(p: &Vec<char>) -> (r: Vec<char>)
    ensures
        r@ == pattern_path(p@),
{
    let mut i: usize = 0;
    while i < p.len() && p[i] != '/'
        invariant
            i <= p@.len(),
            forall|j: int| 0 <= j < i ==> #[trigger] p@[j] != '/',
        decreases p@.len() - i,
    {
        i += 1;
    }
    if i == p.len() {
        proof {
            if exists|k: int| is_first_slash(p@, k) {
                let k = choose|k: int| is_first_slash(p@, k);
                assert(p@[k] != '/');
            }
        }
        return p.clone();
    }
    proof {
        assert(is_first_slash(p@, i as int));
        let k = choose|k: int| is_first_slash(p@, k);
        if k < i {
            assert(p@[k] != '/');
        } else if k > i {
            assert(p@[i as int] != '/');
        }
    }
    let mut r: Vec<char> = Vec::new();
    let mut j: usize = 0;
    while j < i
        invariant
            j <= i < p@.len(),
            r@ == p@.subrange(0, j as int),
        decreases i - j,
    {
        r.push(p[j]);
        j += 1;
        assert(r@ =~= p@.subrange(0, j as int));
    }
    r.push('_');
    r.push('_');
    assert(r@ =~= p@.subrange(0, i as int) + path_separator());
    let ghost head = r@;
    let mut k: usize = i + 1;
    while k < p.len()
        invariant
            i + 1 <= k <= p@.len(),
            head == p@.subrange(0, i as int) + path_separator(),
            r@ == head + p@.subrange(i + 1, k as int),
        decreases p@.len() - k,
    {
        r.push(p[k]);
        k += 1;
        assert(r@ =~= head + p@.subrange(i + 1, k as int));
    }
    r
}

/// Whether the permission pattern `pattern` allows the aggregated name
/// `name`.
pub fn pattern_allows_name(pattern: &str, name: &str) -> (r: bool)
    ensures
        r == pattern_allows(pattern@, name@),
{
    let p = chars_of(pattern);
    let n = chars_of(name);
    if crate::text::chars_eq(&p, &n) {
        return true;
    }
    let mut q = pattern_path_chars(&p);
    if q.len() > 0 && q[q.len() - 1] == '*' {
        let ghost full = q@;
        q.pop();
        assert(q@ =~= full.drop_last());
        crate::text::starts_with_chars(&n, &q)
    } else {
        crate::text::chars_eq(&n, &q)
    }
}

/// Whether some pattern of `allowed` allows `name`.
pub fn any_pattern_allows(allowed: &Vec<String>, name: &str) -> (r: bool)
    ensures
        r == any_allows(views(allowed@), name@),
{
    let mut i: usize = 0;
    while i < allowed.len()
        invariant
            i <= allowed@.len(),
            forall|j: int| 0 <= j < i ==> !pattern_allows(#[trigger] views(allowed@)[j], name@),
        decreases allowed@.len() - i,
    {
        if pattern_allows_name(allowed[i].as_str(), name) {
            assert(pattern_allows(views(allowed@)[i as int], name@));
            return true;
        }
        i += 1;
    }
    false
}

/// Whether `allowed` holds `name` (exec).
pub fn list_contains(allowed: &Vec<String>, name: &str) -> (r: bool)
    ensures
        r == views(allowed@).contains(name@),
{
    let mut i: usize = 0;
    while i < allowed.len()
        invariant
            i <= allowed.len(),
            forall|j: int| 0 <= j < i ==> allowed@[j]@ != name@,
        decreases allowed.len() - i,
    {
        if str_eq(allowed[i].as_str(), name) {
            assert(views(allowed@)[i as int] == name@);
            return true;
        }
        i += 1;
    }
    proof {
        if views(allowed@).contains(name@) {
            let k = choose|k: int| 0 <= k < views(allowed@).len() && #[trigger] views(allowed@)[k] == name@;
            assert(allowed@[k]@ == name@);
        }
    }
    false
}

/// Keeps the items whose names (given in `names`, one per item) some
/// pattern a token is allowed permits; the order is kept.
pub fn filter_by_permissions<T>(items: Vec<T>, names: &Vec<String>, allowed: &Vec<String>) -> (r: Vec<T>)
    requires
        names.len() == items.len(),
    ensures
        r@ == permitted(items@, views(names@), views(allowed@)),
{
    let ghost orig = items@;
    let mut items = items;
    let mut reversed: Vec<T> = Vec::new();
    while items.len() > 0
        invariant
            items@.len() + reversed@.len() == orig.len(),
            items@ == orig.subrange(0, items@.len() as int),
            forall|j: int| 0 <= j < reversed@.len() ==> reversed@[j] == orig[orig.len() - 1 - j],
        decreases items@.len(),
    {
        let x = items.pop().unwrap();
        reversed.push(x);
        assert(items@ =~= orig.subrange(0, items@.len() as int));
    }
    let mut out: Vec<T> = Vec::new();
    let mut i: usize = 0;
    let n = names.len();
    while i < n
        invariant
            n == orig.len() == names@.len(),
            i <= n,
            reversed@.len() == n - i,
            forall|j: int| 0 <= j < reversed@.len() ==> reversed@[j] == orig[orig.len() - 1 - j],
            out@ == permitted(orig.subrange(0, i as int), views(names@).subrange(0, i as int), views(allowed@)),
        decreases n - i,
    {
        let x = reversed.pop().unwrap();
        assert(x == orig[i as int]);
        let ghost pre_items = orig.subrange(0, i + 1);
        let ghost pre_names = views(names@).subrange(0, i + 1);
        assert(pre_items.drop_last() =~= orig.subrange(0, i as int));
        assert(pre_names.drop_last() =~= views(names@).subrange(0, i as int));
        assert(pre_names[pre_items.len() - 1] == names@[i as int]@);
        if any_pattern_allows(allowed, names[i].as_str()) {
            out.push(x);
        }
        i += 1;
    }
    assert(orig.subrange(0, n as int) =~= orig);
    assert(views(names@).subrange(0, n as int) =~= views(names@));
    out
}

/// The listing endpoints.
#[derive(Clone, Copy, Debug, PartialEq, Eq, Structural)]
pub enum ListKind {
    /// `tools/list`.
    Tools,
    /// `prompts/list`.
    Prompts,
    /// `resources/list`.
    Resources,
}

/// The endpoints that act on one item.
#[derive(Clone, Copy, Debug, PartialEq, Eq, Structural)]
pub enum ItemKind {
    /// `tools/call`.
    Tool,
    /// `prompts/get`.
    Prompt,
    /// `resources/read`.
    Resource,
}

/// How a listing is answered when access is granted.
#[derive(Clone, Copy, Debug, PartialEq, Eq, Structural)]
pub enum ListMode {
    /// Authentication is off: every item, in one unpaged answer.
    Everything,
    /// Authentication is on: the items the token allows, paged.
    FilteredAndPaged,
}

/// The message when a listing is asked for without a session.
pub open spec fn list_unauthenticated_message(kind: ListKind) -> Seq<char> {
    match kind {
        ListKind::Tools => "Authentication required: no valid session"@,
        ListKind::Prompts => "Authentication required for list_prompts"@,
        ListKind::Resources => "Authentication required for list_resources"@,
    }
}

/// The message when a listing is asked for in an expired session.
pub open spec fn list_expired_message(kind: ListKind) -> Seq<char> {
    match kind {
        ListKind::Tools => "Authentication failed: session has expired"@,
        ListKind::Prompts => "Session expired for list_prompts"@,
        ListKind::Resources => "Session expired for list_resources"@,
    }
}

/// The code when a listing is asked for in an expired session: 403 for
/// tools, 401 otherwise.
pub open spec fn list_expired_code(kind: ListKind) -> i32 {
    match kind {
        ListKind::Tools => 403,
        _ => 401,
    }
}

/// Decides whether a listing may proceed, and how.
pub fn authorize_listing(kind: ListKind, auth_enabled: bool, auth: &AuthContext, now: u64) -> (r: Result<ListMode, AggregatorError>)
    ensures
        !auth_enabled ==> r == Ok::<ListMode, AggregatorError>(ListMode::Everything),
        auth_enabled && auth.session_info is None ==> (r matches Err(e) && e.code == 401
            && e.message@ == list_unauthenticated_message(kind)),
        (auth_enabled && auth.session_info is Some && expired_at(auth.session_info.unwrap().expires_at, now)) ==> (r matches Err(e)
            && e.code == list_expired_code(kind) && e.message@ == list_expired_message(kind)),
        (auth_enabled && auth.session_info is Some && !expired_at(auth.session_info.unwrap().expires_at, now)) ==> r
            == Ok::<ListMode, AggregatorError>(ListMode::FilteredAndPaged),
{
    if !auth_enabled {
        return Ok(ListMode::Everything);
    }
    if !auth.has_valid_session() {
        let message = match kind {
            ListKind::Tools => "Authentication required: no valid session".to_owned(),
            ListKind::Prompts => "Authentication required for list_prompts".to_owned(),
            ListKind::Resources => "Authentication required for list_resources".to_owned(),
        };
        return Err(AggregatorError { code: 401, message });
    }
    if auth.is_session_expired_at(now) {
        let (code, message) = match kind {
            ListKind::Tools => (403, "Authentication failed: session has expired".to_owned()),
            ListKind::Prompts => (401, "Session expired for list_prompts".to_owned()),
            ListKind::Resources => (401, "Session expired for list_resources".to_owned()),
        };
        return Err(AggregatorError { code, message });
    }
    Ok(ListMode::FilteredAndPaged)
}

/// Finishes an authenticated listing: the items the token allows (none when
/// the token's permissions could not be loaded), paged at the cursor.
pub fn finish_listing<T>(
    items: Vec<T>,
    names: &Vec<String>,
    allowed: Option<&Vec<String>>,
    cursor: Option<&str>,
) -> (r: Result<Page<T>, AggregatorError>)
    requires
        names.len() == items.len(),
        cursor_in_range(match cursor {
            Some(c) => Some(c@),
            None => None,
        }),
    ensures
        ({
            let c = match cursor {
                Some(c) => Some(c@),
                None => None,
            };
            let kept = match allowed {
                Some(a) => permitted(items@, views(names@), views(a@)),
                None => Seq::<T>::empty(),
            };
            match cursor_offset(c) {
                None => (r matches Err(e) && e.code == 400 && e.message@ == invalid_cursor_message()),
                Some(offset) => (r matches Ok(p) && p.items@ == page_slice(kept, offset) && match p.next_cursor {
                    Some(n) => next_cursor_of(offset, kept.len()) == Some(n@),
                    None => next_cursor_of(offset, kept.len()) is None,
                }),
            }
        }),
{
    match allowed {
        Some(a) => {
            let kept = filter_by_permissions(items, names, a);
            apply_pagination(kept, cursor)
        },
        None => apply_pagination(Vec::new(), cursor),
    }
}

/// The message when an item is asked for without a session.
pub open spec fn item_unauthenticated_message(kind: ItemKind) -> Seq<char> {
    match kind {
        ItemKind::Tool => "Authentication required for call_tool"@,
        ItemKind::Prompt => "Authentication required for get_prompt"@,
        ItemKind::Resource => "Authentication required for read_resource"@,
    }
}

/// The message when an item is asked for in an expired session.
pub open spec fn item_expired_message(kind: ItemKind) -> Seq<char> {
    match kind {
        ItemKind::Tool => "Session expired for call_tool"@,
        ItemKind::Prompt => "Session expired for get_prompt"@,
        ItemKind::Resource => "Session expired for read_resource"@,
    }
}

/// Decides whether a call on one item may proceed. Any live session may use
/// any item; the per-token restriction applies to listings.
pub fn authorize_item(kind: ItemKind, auth_enabled: bool, auth: &AuthContext, now: u64, name: &str) -> (r: Result<(), AggregatorError>)
    ensures
        !auth_enabled ==> r is Ok,
        auth_enabled && auth.session_info is None ==> (r matches Err(e) && e.code == 401
            && e.message@ == item_unauthenticated_message(kind)),
        (auth_enabled && auth.session_info is Some && expired_at(auth.session_info.unwrap().expires_at, now)) ==> (r matches Err(e)
            && e.code == 401 && e.message@ == item_expired_message(kind)),
        (auth_enabled && auth.session_info is Some && !expired_at(auth.session_info.unwrap().expires_at, now)) ==> r is Ok,
{
    if !auth_enabled {
        return Ok(());
    }
    if !auth.has_valid_session() {
        let message = match kind {
            ItemKind::Tool => "Authentication required for call_tool".to_owned(),
            ItemKind::Prompt => "Authentication required for get_prompt".to_owned(),
            ItemKind::Resource => "Authentication required for read_resource".to_owned(),
        };
        return Err(AggregatorError { code: 401, message });
    }
    if auth.is_session_expired_at(now) {
        let message = match kind {
            ItemKind::Tool => "Session expired for call_tool".to_owned(),
            ItemKind::Prompt => "Session expired for get_prompt".to_owned(),
            ItemKind::Resource => "Session expired for read_resource".to_owned(),
        };
        return Err(AggregatorError { code: 401, message });
    }
    let permitted = match kind {
        ItemKind::Tool => auth.has_tool_permission(name),
        ItemKind::Prompt => auth.has_prompt_permission(name),
        ItemKind::Resource => auth.has_resource_permission(name),
    };
    if !permitted {
        let (a, b) = match kind {
            ItemKind::Tool => ("Access denied: tool '", "' is not permitted"),
            ItemKind::Prompt => ("Access denied: prompt '", "' is not permitted"),
            ItemKind::Resource => ("Access denied: resource '", "' is not permitted"),
        };
        return Err(AggregatorError { code: 403, message: crate::text::concat3(a, name, b) });
    }
    Ok(())
}

/// The server and the original name that an aggregated name stands for:
/// the parts before and after the first `__`.
pub fn parse_resource_path(resource_path: &str) -> (r: Option<(String, String)>)
    ensures
        match r {
            Some((server, name)) => exists|i: int|
                first_occurrence(resource_path@, path_separator(), i) && server@ == resource_path@.subrange(0, i)
                    && name@ == resource_path@.subrange(i + 2, resource_path@.len() as int),
            None => !contains_seq(resource_path@, path_separator()),
        },
{
    let v = chars_of(resource_path);
    let mut sep: Vec<char> = Vec::new();
    sep.push('_');
    sep.push('_');
    assert(sep@ =~= path_separator());
    split_once_chars(&v, &sep)
}

/// An aggregated name splits back into the server and item it was built
/// from, provided the server name holds no `__` and does not end in `_`
/// (`a_` with `x` builds `a___x`, which splits as `a` and `_x`).
pub proof fn law_resource_path_round_trip(server: Seq<char>, name: Seq<char>)
    requires
        !contains_seq(server, path_separator()),
        !(server.len() > 0 && server.last() == '_'),
    ensures
        first_occurrence(resource_path_of(server, name), path_separator(), server.len() as int),
        resource_path_of(server, name).subrange(0, server.len() as int) == server,
        resource_path_of(server, name).subrange(server.len() + 2int, resource_path_of(server, name).len() as int)
            == name,
{
    let p = resource_path_of(server, name);
    let sep = path_separator();
    assert(p.subrange(server.len() as int, server.len() + 2int) =~= sep);
    assert forall|j: int| 0 <= j < server.len() implies !crate::text::occurs_at(p, sep, j) by {
        if crate::text::occurs_at(p, sep, j) {
            if j + 2 <= server.len() {
                assert(server.subrange(j, j + 2) =~= p.subrange(j, j + 2));
                assert(crate::text::occurs_at(server, sep, j));
            } else {
                assert(j == server.len() - 1);
                assert(p.subrange(j, j + 2)[0] == p[j]);
                assert(p[j] == server.last());
            }
        }
    }
    assert(p.subrange(0, server.len() as int) =~= server);
    assert(p.subrange(server.len() + 2int, p.len() as int) =~= name);
}

/// The message when an aggregated name holds no `__`.
pub open spec fn invalid_name_message(kind: ItemKind, name: Seq<char>) -> Seq<char> {
    match kind {
        ItemKind::Tool => "Invalid tool name format: "@ + name + ". Expected format: 'server__tool_name'"@,
        ItemKind::Prompt => "Invalid prompt name format: "@ + name + ". Expected format: 'server__prompt_name'"@,
        ItemKind::Resource => "Invalid resource URI format: "@ + name
            + ". Expected format: 'server__resource_uri'"@,
    }
}

/// Routes an aggregated name to its server and original name; a name
/// without `__` is answered with error 400.
pub fn route_item(kind: ItemKind, name: &str) -> (r: Result<(String, String), AggregatorError>)
    ensures
        match r {
            Ok((server, original)) => exists|i: int|
                first_occurrence(name@, path_separator(), i) && server@ == name@.subrange(0, i) && original@
                    == name@.subrange(i + 2, name@.len() as int),
            Err(e) => !contains_seq(name@, path_separator()) && e.code == 400 && e.message@
                == invalid_name_message(kind, name@),
        },
{
    match parse_resource_path(name) {
        Some(parts) => Ok(parts),
        None => {
            let (a, b) = match kind {
                ItemKind::Tool => ("Invalid tool name format: ", ". Expected format: 'server__tool_name'"),
                ItemKind::Prompt => ("Invalid prompt name format: ", ". Expected format: 'server__prompt_name'"),
                ItemKind::Resource => (
                    "Invalid resource URI format: ",
                    ". Expected format: 'server__resource_uri'",
                ),
            };
            Err(AggregatorError { code: 400, message: crate::text::concat3(a, name, b) })
        },
    }
}

/// The advice given when a server reports no error of its own.
pub open spec fn default_advice() -> Seq<char> {
    "Please check the server configuration and status."@
}

/// The message when the server of a call is not connected.
pub open spec fn unavailable_message(server: Seq<char>, status: Seq<char>, error: Option<String>) -> Seq<char> {
    "Server '"@ + server + "' is not available (status: "@ + status + "). "@ + match error {
        Some(e) => e@,
        None => default_advice(),
    }
}

/// A call may only go to a connected server; otherwise it is answered with
/// error 503 naming the server, its status and its error (or advice).
pub fn check_server_available(server_name: &str, status: &str, error_message: Option<String>) -> (r: Result<(), AggregatorError>)
    ensures
        status@ == "connected"@ ==> r is Ok,
        status@ != "connected"@ ==> (r matches Err(e) && e.code == 503 && e.message@ == unavailable_message(
            server_name@,
            status@,
            error_message,
        )),
{
    if str_eq(status, "connected") {
        return Ok(());
    }
    let mut m = crate::text::concat3("Server '", server_name, "' is not available (status: ");
    push_str(&mut m, status);
    push_str(&mut m, "). ");
    match &error_message {
        Some(e) => push_str(&mut m, e.as_str()),
        None => push_str(&mut m, "Please check the server configuration and status."),
    }
    Err(AggregatorError { code: 503, message: m })
}

/// The code a failed upstream call is answered with: 404 when the service
/// was not found, 503 when it is not connected, 500 otherwise.
pub open spec fn upstream_error_code(error: Seq<char>) -> i32 {
    if contains_seq(error, "Service not found"@) {
        404
    } else if contains_seq(error, "Service not connected"@) {
        503
    } else {
        500
    }
}

/// The message prefix of a failed upstream call.
pub open spec fn upstream_prefix(kind: ItemKind) -> Seq<char> {
    match kind {
        ItemKind::Tool => "Failed to call tool: "@,
        ItemKind::Prompt => "Failed to get prompt: "@,
        ItemKind::Resource => "Failed to read resource: "@,
    }
}

/// Answers a failed upstream call, from the text of its error.
pub fn upstream_error(kind: ItemKind, error: &str) -> (r: AggregatorError)
    ensures
        r.code == upstream_error_code(error@),
        r.message@ == upstream_prefix(kind) + error@,
{
    let code = if str_contains(error, "Service not found") {
        404
    } else if str_contains(error, "Service not connected") {
        503
    } else {
        500
    };
    let prefix = match kind {
        ItemKind::Tool => "Failed to call tool: ",
        ItemKind::Prompt => "Failed to get prompt: ",
        ItemKind::Resource => "Failed to read resource: ",
    };
    AggregatorError { code, message: concat2(prefix, error) }
}

/// A call to a server the client does not know is answered 404: the
/// client's error carries the phrase the aggregator looks for.
pub proof fn law_unknown_server_gives_404(e: crate::error::McpError)
    requires
        e is ServiceNotFound,
    ensures
        upstream_error_code(crate::error::error_text(e)) == 404,
{
    let t = crate::error::error_text(e);
    reveal_strlit("Service not found: ");
    reveal_strlit("Service not found");
    assert(t.subrange(0, 17) =~= "Service not found"@);
    assert(crate::text::occurs_at(t, "Service not found"@, 0));
}

/// A call to a server the client knows but is not connected to is
/// answered 503.
pub proof fn law_disconnected_server_gives_503(e: crate::error::McpError)
    requires
        e matches crate::error::McpError::ConnectionError(m) && m@ == "Service not connected"@,
    ensures
        upstream_error_code(crate::error::error_text(e)) == 503,
{
    let t = crate::error::error_text(e);
    reveal_strlit("Connection error: ");
    reveal_strlit("Service not connected");
    reveal_strlit("Service not found");
    let nf = "Service not found"@;
    assert(t =~= "Connection error: "@ + "Service not connected"@);
    assert(t.len() == 39);
    assert forall|i: int| !crate::text::occurs_at(t, nf, i) by {
        if crate::text::occurs_at(t, nf, i) {
            assert(t.subrange(i, i + 17)[0] == nf[0]);
            assert(t[i] == 'S');
            if i == 18 {
                assert(t.subrange(i, i + 17)[12] == nf[12]);
                assert(t[30] == 'c');
            } else {
                assert(0 <= i < 18 || 18 < i <= 22);
                assert(t[i] != 'S');
            }
        }
    }
    assert(t.subrange(18, 39) =~= "Service not connected"@);
    assert(crate::text::occurs_at(t, "Service not connected"@, 18));
}

/// What a call on one item (`tools/call`, `prompts/get`,
/// `resources/read`) is answered before it reaches a server: the
/// authorisation error, the routing error for a name without `__`, the
/// 503 of a server that is not connected; otherwise the server and the
/// item's own name to forward the call to.
pub fn prepare_item_request(
    kind: ItemKind,
    auth_enabled: bool,
    auth: &AuthContext,
    now: u64,
    name: &str,
    clients: &McpClientManager,
) -> (r: Result<(String, String), AggregatorError>)
    ensures
        auth_enabled && auth.session_info is None ==> (r matches Err(e) && e.code == 401
            && e.message@ == item_unauthenticated_message(kind)),
        (auth_enabled && auth.session_info is Some && expired_at(auth.session_info.unwrap().expires_at, now)) ==> (
        r matches Err(e) && e.code == 401 && e.message@ == item_expired_message(kind)),
        (!auth_enabled || (auth.session_info is Some && !expired_at(auth.session_info.unwrap().expires_at, now)))
            ==> {
            &&& !contains_seq(name@, path_separator()) ==> (r matches Err(e) && e.code == 400 && e.message@
                == invalid_name_message(kind, name@))
            &&& contains_seq(name@, path_separator()) ==> exists|i: int|
                #![trigger first_occurrence(name@, path_separator(), i)]
                first_occurrence(name@, path_separator(), i) && {
                    let server = name@.subrange(0, i);
                    let st = status_of(
                        if clients.connections().contains_key(server) {
                            Some(clients.connections()[server])
                        } else {
                            None
                        },
                    );
                    &&& st.0 == "connected"@ ==> (r matches Ok((sv, orig)) && sv@ == server && orig@
                        == name@.subrange(i + 2, name@.len() as int))
                    &&& st.0 != "connected"@ ==> (r matches Err(e) && e.code == 503 && e.message@
                        == unavailable_message(server, st.0, st.1))
                }
        },
{
    match authorize_item(kind, auth_enabled, auth, now, name) {
        Err(e) => {
            return Err(e);
        },
        Ok(()) => {},
    }
    let (server, original) = match route_item(kind, name) {
        Err(e) => {
            return Err(e);
        },
        Ok(parts) => parts,
    };
    let (status, error) = clients.get_connection_status(server.as_str());
    match check_server_available(server.as_str(), status.as_str(), error) {
        Err(e) => Err(e),
        Ok(()) => Ok((server, original)),
    }
}

/// Permissions fall back to deny: a token that allows nothing sees no
/// item, and filtering never adds items.
pub proof fn law_deny_by_default<T>(items: Seq<T>, names: Seq<Seq<char>>, allowed: Seq<Seq<char>>)
    ensures
        permitted(items, names, Seq::<Seq<char>>::empty()) == Seq::<T>::empty(),
        permitted(items, names, allowed).len() <= items.len(),
    decreases items.len(),
{
    if items.len() > 0 {
        law_deny_by_default(items.drop_last(), names.drop_last(), allowed);
    }
}

/// The aggregator's statistics: its state, the servers listed and how
/// many are connected, and the figures of the tool cache.
#[derive(Debug)]
pub struct AggregatorStatistics {
    /// Always `running`.
    pub status: String,
    /// Always `Aggregator initialized`.
    pub message: String,
    /// Servers listed.
    pub total_servers: usize,
    /// Servers listed as connected.
    pub connected_servers: usize,
    /// Whether the tool cache is on (always).
    pub cache_enabled: bool,
    /// Entries in the tool cache.
    pub cache_entries: usize,
    /// Lifetime of cache entries, in seconds.
    pub ttl_seconds: u64,
    /// The bytes of the server and tool names of the cache entries.
    pub tools_total: usize,
    /// When the figures were taken, seconds since the Unix epoch in
    /// decimal, where the clock reads after it.
    pub last_updated: Option<String>,
}

/// The bytes of the server and tool names of cache entries.
pub open spec fn entry_bytes(entries: Seq<(String, String, u64)>) -> int
    decreases entries.len(),
{
    if entries.len() == 0 {
        0
    } else {
        entry_bytes(entries.drop_last()) + encode_utf8(entries.last().0@).len() + encode_utf8(
            entries.last().1@,
        ).len()
    }
}

/// The servers of a listing whose status is `connected`.
pub open spec fn connected_count(infos: Seq<McpServerInfo>) -> int
    decreases infos.len(),
{
    if infos.len() == 0 {
        0
    } else {
        connected_count(infos.drop_last()) + if infos.last().status@ == "connected"@ {
            1int
        } else {
            0int
        }
    }
}

/// The aggregator's statistics from the tool-cache entries and lifetime,
/// the listed servers, and the clock reading `now` (seconds since the Unix
/// epoch, `None` where it reads before it).
pub fn aggregator_statistics(
    entries: &Vec<(String, String, u64)>,
    ttl_seconds: u64,
    infos: &Vec<McpServerInfo>,
    now: Option<u64>,
) -> (r: AggregatorStatistics)
    requires
        entry_bytes(entries@) <= usize::MAX,
    ensures
        r.status@ == "running"@,
        r.message@ == "Aggregator initialized"@,
        r.total_servers == infos@.len(),
        r.connected_servers == connected_count(infos@),
        r.cache_enabled,
        r.cache_entries == entries@.len(),
        r.ttl_seconds == ttl_seconds,
        r.tools_total == entry_bytes(entries@),
        match now {
            Some(t) => r.last_updated matches Some(s) && s@ == decimal(t as nat),
            None => r.last_updated is None,
        },
{
    let mut bytes: usize = 0;
    let mut i: usize = 0;
    while i < entries.len()
        invariant
            i <= entries@.len(),
            bytes == entry_bytes(entries@.take(i as int)),
            entry_bytes(entries@) <= usize::MAX,
        decreases entries@.len() - i,
    {
        proof {
            lemma_entry_bytes_prefix(entries@, i as int + 1);
            assert(entries@.take(i as int + 1).drop_last() =~= entries@.take(i as int));
        }
        bytes = bytes + entries[i].0.as_str().len() + entries[i].1.as_str().len();
        i += 1;
    }
    assert(entries@.take(entries@.len() as int) =~= entries@);
    let mut connected: usize = 0;
    let mut j: usize = 0;
    while j < infos.len()
        invariant
            j <= infos@.len(),
            connected == connected_count(infos@.take(j as int)),
            connected <= j,
        decreases infos@.len() - j,
    {
        assert(infos@.take(j as int + 1).drop_last() =~= infos@.take(j as int));
        if str_eq(infos[j].status.as_str(), "connected") {
            connected = connected + 1;
        }
        j += 1;
    }
    assert(infos@.take(infos@.len() as int) =~= infos@);
    AggregatorStatistics {
        status: "running".to_owned(),
        message: "Aggregator initialized".to_owned(),
        total_servers: infos.len(),
        connected_servers: connected,
        cache_enabled: true,
        cache_entries: entries.len(),
        ttl_seconds,
        tools_total: bytes,
        last_updated: match now {
            Some(t) => Some(u64_to_string(t)),
            None => None,
        },
    }
}

/// The bytes of a prefix of the entries are at most those of all.
pub proof fn lemma_entry_bytes_prefix(entries: Seq<(String, String, u64)>, k: int)
    requires
        0 <= k <= entries.len(),
    ensures
        entry_bytes(entries.take(k)) <= entry_bytes(entries),
    decreases entries.len(),
{
    if k < entries.len() {
        assert(entries.drop_last().take(k) =~= entries.take(k));
        lemma_entry_bytes_prefix(entries.drop_last(), k);
    } else {
        assert(entries.take(k) =~= entries);
    }
}

/// A tool as the aggregated listing shows it.
#[derive(Debug)]
pub struct ListedTool {
    /// `server__tool`.
    pub name: String,
    /// The description, empty when none is stored.
    pub description: String,
    /// The input schema, as compact JSON text: the stored one, typed
    /// `object` where it names no type, or the default schema where none is
    /// stored or the stored text is not a JSON object.
    pub input_schema: String,
}

/// A resource as the aggregated listing shows it.
#[derive(Debug)]
pub struct ListedResource {
    /// `server__uri`.
    pub uri: String,
    /// The name, empty when none is stored.
    pub name: String,
    /// The description, empty when none is stored.
    pub description: String,
    /// The MIME type.
    pub mime_type: Option<String>,
}

/// A prompt as the aggregated listing shows it.
#[derive(Debug)]
pub struct ListedPrompt {
    /// `server__prompt`.
    pub name: String,
    /// The description.
    pub description: Option<String>,
}

/// The text of an optional field, empty when absent.
pub open spec fn text_or_empty(o: Option<String>) -> Seq<char> {
    match o {
        Some(s) => s@,
        None => Seq::<char>::empty(),
    }
}

/// What a listed tool shows.
pub open spec fn listed_tool_view(t: ListedTool) -> (Seq<char>, Seq<char>, Seq<char>) {
    (t.name@, t.description@, t.input_schema@)
}

/// The compact text of the default input schema: an object of type
/// `object` with no properties.
pub open spec fn default_schema_text() -> Seq<char> {
    json_with_member_text(
        json_with_member_text(seq!['{', '}'], "type"@, json_string_value_text("object"@)),
        "properties"@,
        seq!['{', '}'],
    )
}

/// The input schema a tool is listed with, from the text stored for it: a
/// stored JSON object as it is when it names a `type`, and with `type` set
/// to `object` when it does not; the default schema when nothing is
/// stored, the text is not JSON, or the document is not an object.
pub open spec fn listed_schema(stored: Option<String>) -> Seq<char> {
    match stored {
        Some(s) => match json_document_text(s@) {
            Some(doc) => if json_object_text(doc) {
                if json_member_text(doc, "type"@) is Some {
                    doc
                } else {
                    json_with_member_text(doc, "type"@, json_string_value_text("object"@))
                }
            } else {
                default_schema_text()
            },
            None => default_schema_text(),
        },
        None => default_schema_text(),
    }
}

/// The default input schema: `{"type": "object", "properties": {}}`.
pub fn create_default_schema() -> (r: serde_json::Value)
    ensures
        json_text_of(r) == default_schema_text(),
{
    let typed = json_insert_member(empty_json_object(), "type", json_string("object"));
    json_insert_member(typed, "properties", empty_json_object())
}

/// The input schema a tool is listed with, as compact JSON text, from the
/// text stored for it.
pub fn listed_schema_text(stored: &Option<String>) -> (r: String)
    ensures
        r@ == listed_schema(*stored),
{
    match stored {
        Some(s) => match parse_json(s.as_str()) {
            Ok(v) => {
                if json_is_object(&v) {
                    if json_member(&v, "type").is_some() {
                        json_to_string(&v)
                    } else {
                        let typed = json_insert_member(v, "type", json_string("object"));
                        json_to_string(&typed)
                    }
                } else {
                    json_to_string(&create_default_schema())
                }
            },
            Err(_) => json_to_string(&create_default_schema()),
        },
        None => json_to_string(&create_default_schema()),
    }
}

/// How the stored tools of one server are listed.
pub open spec fn tools_of_server(server: Seq<char>, tools: Seq<crate::entities::mcp_tool::Model>) -> Seq<
    (Seq<char>, Seq<char>, Seq<char>),
> {
    tools.map_values(
        |t: crate::entities::mcp_tool::Model|
            (resource_path_of(server, t.name@), text_or_empty(t.description), listed_schema(t.input_schema)),
    )
}

/// The aggregated tool listing: the tools of each server in turn, each
/// named `server__tool`.
pub open spec fn tools_listed(servers: Seq<(String, Vec<crate::entities::mcp_tool::Model>)>) -> Seq<
    (Seq<char>, Seq<char>, Seq<char>),
>
    decreases servers.len(),
{
    if servers.len() == 0 {
        Seq::empty()
    } else {
        tools_listed(servers.drop_last()) + tools_of_server(servers.last().0@, servers.last().1@)
    }
}

fn copy_text(o: &Option<String>) -> (r: String)
    ensures
        r@ == text_or_empty(*o),
{
    match o {
        Some(s) => s.clone(),
        None => String::new(),
    }
}

fn copy_option(o: &Option<String>) -> (r: Option<String>)
    ensures
        r == *o,
{
    match o {
        Some(s) => Some(s.clone()),
        None => None,
    }
}

/// The aggregated tool listing of the stored servers, each given by its
/// name and its stored tools.
pub fn aggregated_tools(servers: &Vec<(String, Vec<crate::entities::mcp_tool::Model>)>) -> (r: Vec<ListedTool>)
    ensures
        r@.map_values(|t: ListedTool| listed_tool_view(t)) == tools_listed(servers@),
{
    let mut out: Vec<ListedTool> = Vec::new();
    let mut i: usize = 0;
    while i < servers.len()
        invariant
            i <= servers@.len(),
            out@.map_values(|t: ListedTool| listed_tool_view(t)) == tools_listed(servers@.take(i as int)),
        decreases servers@.len() - i,
    {
        assert(servers@.take(i as int + 1).drop_last() =~= servers@.take(i as int));
        let server = &servers[i].0;
        let tools = &servers[i].1;
        let ghost base = tools_listed(servers@.take(i as int));
        let mut j: usize = 0;
        while j < tools.len()
            invariant
                j <= tools@.len(),
                out@.map_values(|t: ListedTool| listed_tool_view(t)) == base + tools_of_server(
                    server@,
                    tools@.take(j as int),
                ),
            decreases tools@.len() - j,
        {
            let t = &tools[j];
            let ghost before = out@.map_values(|t: ListedTool| listed_tool_view(t));
            out.push(
                ListedTool {
                    name: crate::entities::permission::Model::build_resource_path(server.as_str(), t.name.as_str()),
                    description: copy_text(&t.description),
                    input_schema: listed_schema_text(&t.input_schema),
                },
            );
            assert(out@.map_values(|t: ListedTool| listed_tool_view(t)) =~= before.push(listed_tool_view(out@.last())));
            assert(tools_of_server(server@, tools@.take(j as int + 1)) =~= tools_of_server(
                server@,
                tools@.take(j as int),
            ).push(tools_of_server(server@, tools@)[j as int]));
            j += 1;
        }
        assert(tools@.take(tools@.len() as int) =~= tools@);
        i += 1;
    }
    assert(servers@.take(servers@.len() as int) =~= servers@);
    out
}

/// What a listed resource shows.
pub open spec fn listed_resource_view(x: ListedResource) -> (Seq<char>, Seq<char>, Seq<char>, Option<String>) {
    (x.uri@, x.name@, x.description@, x.mime_type)
}

/// How the stored resources of one server are listed.
pub open spec fn resources_of_server(server: Seq<char>, resources: Seq<crate::entities::mcp_resource::Model>) -> Seq<
    (Seq<char>, Seq<char>, Seq<char>, Option<String>),
> {
    resources.map_values(
        |x: crate::entities::mcp_resource::Model|
            (resource_path_of(server, x.uri@), text_or_empty(x.name), text_or_empty(x.description), x.mime_type),
    )
}

/// The aggregated resource listing: the resources of each server in turn,
/// each addressed `server__uri`.
pub open spec fn resources_listed(servers: Seq<(String, Vec<crate::entities::mcp_resource::Model>)>) -> Seq<
    (Seq<char>, Seq<char>, Seq<char>, Option<String>),
>
    decreases servers.len(),
{
    if servers.len() == 0 {
        Seq::empty()
    } else {
        resources_listed(servers.drop_last()) + resources_of_server(servers.last().0@, servers.last().1@)
    }
}

/// The aggregated resource listing of the stored servers.
pub fn aggregated_resources(servers: &Vec<(String, Vec<crate::entities::mcp_resource::Model>)>) -> (r: Vec<
    ListedResource,
>)
    ensures
        r@.map_values(|x: ListedResource| listed_resource_view(x)) == resources_listed(servers@),
{
    let mut out: Vec<ListedResource> = Vec::new();
    let mut i: usize = 0;
    while i < servers.len()
        invariant
            i <= servers@.len(),
            out@.map_values(|x: ListedResource| listed_resource_view(x)) == resources_listed(servers@.take(i as int)),
        decreases servers@.len() - i,
    {
        assert(servers@.take(i as int + 1).drop_last() =~= servers@.take(i as int));
        let server = &servers[i].0;
        let resources = &servers[i].1;
        let ghost base = resources_listed(servers@.take(i as int));
        let mut j: usize = 0;
        while j < resources.len()
            invariant
                j <= resources@.len(),
                out@.map_values(|x: ListedResource| listed_resource_view(x)) == base + resources_of_server(
                    server@,
                    resources@.take(j as int),
                ),
            decreases resources@.len() - j,
        {
            let x = &resources[j];
            let ghost before = out@.map_values(|x: ListedResource| listed_resource_view(x));
            out.push(
                ListedResource {
                    uri: crate::entities::permission::Model::build_resource_path(server.as_str(), x.uri.as_str()),
                    name: copy_text(&x.name),
                    description: copy_text(&x.description),
                    mime_type: copy_option(&x.mime_type),
                },
            );
            assert(out@.map_values(|x: ListedResource| listed_resource_view(x)) =~= before.push(
                listed_resource_view(out@.last()),
            ));
            assert(resources_of_server(server@, resources@.take(j as int + 1)) =~= resources_of_server(
                server@,
                resources@.take(j as int),
            ).push(resources_of_server(server@, resources@)[j as int]));
            j += 1;
        }
        assert(resources@.take(resources@.len() as int) =~= resources@);
        i += 1;
    }
    assert(servers@.take(servers@.len() as int) =~= servers@);
    out
}

/// What a listed prompt shows.
pub open spec fn listed_prompt_view(p: ListedPrompt) -> (Seq<char>, Option<String>) {
    (p.name@, p.description)
}

/// How the stored prompts of one server are listed.
pub open spec fn prompts_of_server(server: Seq<char>, prompts: Seq<crate::entities::mcp_prompt::Model>) -> Seq<
    (Seq<char>, Option<String>),
> {
    prompts.map_values(|p: crate::entities::mcp_prompt::Model| (resource_path_of(server, p.name@), p.description))
}

/// The aggregated prompt listing: the prompts of each server in turn, each
/// named `server__prompt`.
pub open spec fn prompts_listed(servers: Seq<(String, Vec<crate::entities::mcp_prompt::Model>)>) -> Seq<
    (Seq<char>, Option<String>),
>
    decreases servers.len(),
{
    if servers.len() == 0 {
        Seq::empty()
    } else {
        prompts_listed(servers.drop_last()) + prompts_of_server(servers.last().0@, servers.last().1@)
    }
}

/// The aggregated prompt listing of the stored servers.
pub fn aggregated_prompts(servers: &Vec<(String, Vec<crate::entities::mcp_prompt::Model>)>) -> (r: Vec<ListedPrompt>)
    ensures
        r@.map_values(|p: ListedPrompt| listed_prompt_view(p)) == prompts_listed(servers@),
{
    let mut out: Vec<ListedPrompt> = Vec::new();
    let mut i: usize = 0;
    while i < servers.len()
        invariant
            i <= servers@.len(),
            out@.map_values(|p: ListedPrompt| listed_prompt_view(p)) == prompts_listed(servers@.take(i as int)),
        decreases servers@.len() - i,
    {
        assert(servers@.take(i as int + 1).drop_last() =~= servers@.take(i as int));
        let server = &servers[i].0;
        let prompts = &servers[i].1;
        let ghost base = prompts_listed(servers@.take(i as int));
        let mut j: usize = 0;
        while j < prompts.len()
            invariant
                j <= prompts@.len(),
                out@.map_values(|p: ListedPrompt| listed_prompt_view(p)) == base + prompts_of_server(
                    server@,
                    prompts@.take(j as int),
                ),
            decreases prompts@.len() - j,
        {
            let p = &prompts[j];
            let ghost before = out@.map_values(|p: ListedPrompt| listed_prompt_view(p));
            out.push(
                ListedPrompt {
                    name: crate::entities::permission::Model::build_resource_path(server.as_str(), p.name.as_str()),
                    description: copy_option(&p.description),
                },
            );
            assert(out@.map_values(|p: ListedPrompt| listed_prompt_view(p)) =~= before.push(
                listed_prompt_view(out@.last()),
            ));
            assert(prompts_of_server(server@, prompts@.take(j as int + 1)) =~= prompts_of_server(
                server@,
                prompts@.take(j as int),
            ).push(prompts_of_server(server@, prompts@)[j as int]));
            j += 1;
        }
        assert(prompts@.take(prompts@.len() as int) =~= prompts@);
        i += 1;
    }
    assert(servers@.take(servers@.len() as int) =~= servers@);
    out
}

/// A tool of the aggregated listing is routed back to the server and the
/// tool it lists, provided the server's name holds no `__` and does not
/// end in `_`: its name splits, at its first `__`, into the two.
pub proof fn law_listed_tool_routes_back(server: Seq<char>, tools: Seq<crate::entities::mcp_tool::Model>, j: int)
    requires
        !contains_seq(server, path_separator()),
        !(server.len() > 0 && server.last() == '_'),
        0 <= j < tools.len(),
    ensures
        ({
            let name = tools_of_server(server, tools)[j].0;
            &&& first_occurrence(name, path_separator(), server.len() as int)
            &&& name.subrange(0, server.len() as int) == server
            &&& name.subrange(server.len() + 2int, name.len() as int) == tools[j].name@
        }),
{
    law_resource_path_round_trip(server, tools[j].name@);
}

} // verus!
