//! API keys: created with a random secret, stored only as the secret's
//! SHA-256 digest, verified against it, and granted tools.
use vstd::prelude::*;
use crate::config::ConfigError;
use crate::crypto::{random_below, sha256, sha256_of};
use crate::text::{concat2, str_eq, string_from_range, views};

verus! {

/// A stored API key. Times are seconds since the Unix epoch.
#[derive(Debug)]
pub struct ApiKeyConfig {
    /// Identifier.
    pub id: String,
    /// Display name.
    pub name: String,
    /// The secret's SHA-256 digest in lowercase hexadecimal; the secret
    /// itself is not kept.
    pub key_hash: String,
    /// Whether the key is accepted.
    pub enabled: bool,
    /// Creation time.
    pub created_at: i64,
    /// Last change.
    pub updated_at: i64,
    /// Last successful verification.
    pub last_used_at: Option<i64>,
    /// The tools the key may use.
    pub authorized_tool_ids: Vec<String>,
}

/// An API key as listed: the digest shortened so the list does not show it.
#[derive(Debug)]
pub struct ApiKeyListItem {
    /// Identifier.
    pub id: String,
    /// Display name.
    pub name: String,
    /// The masked digest.
    pub key: String,
    /// Whether the key is accepted.
    pub enabled: bool,
    /// Creation time.
    pub created_at: i64,
    /// Last change.
    pub updated_at: i64,
    /// An estimate of the servers the key reaches.
    pub authorized_server_count: u32,
    /// The number of tools the key may use.
    pub authorized_tool_count: u32,
}

/// What a new key may use.
#[derive(Debug)]
pub struct ApiKeyPermissions {
    /// The tools the key may use.
    pub allowed_tools: Vec<String>,
}

/// The characters a generated secret is made of.
pub open spec fn secret_charset() -> Seq<char> {
    "abcdefghijklmnopqrstuvwxyzABCDEFGHIJKLMNOPQRSTUVWXYZ0123456789"@
}

/// A generated secret: `sk-` and 32 characters of the charset.
pub open spec fn is_generated_secret(s: Seq<char>) -> bool {
    &&& s.len() == 35
    &&& s.subrange(0, 3) == "sk-"@
    &&& forall|i: int| 3 <= i < 35 ==> secret_charset().contains(#[trigger] s[i])
}

/// A new random secret: `sk-` followed by 32 characters drawn from the
/// letters and digits.
pub fn generate_api_key() -> (r: String)
    ensures
        is_generated_secret(r@),
{
    let charset = crate::text::chars_of("abcdefghijklmnopqrstuvwxyzABCDEFGHIJKLMNOPQRSTUVWXYZ0123456789");
    proof {
        reveal_strlit("abcdefghijklmnopqrstuvwxyzABCDEFGHIJKLMNOPQRSTUVWXYZ0123456789");
        reveal_strlit("sk-");
    }
    let mut r = "sk-".to_owned();
    let mut i: usize = 0;
    while i < 32
        invariant
            charset@ == secret_charset(),
            charset@.len() == 62,
            r@.len() == 3 + i,
            r@.subrange(0, 3) == "sk-"@,
            forall|j: int| 3 <= j < 3 + i ==> secret_charset().contains(#[trigger] r@[j]),
            i <= 32,
        decreases 32 - i,
    {
        let n = charset.len();
        let idx = random_below(n);
        let c = charset[idx];
        let ghost before = r@;
        crate::text::push_char(&mut r, c);
        assert(r@.subrange(0, 3) =~= before.subrange(0, 3));
        assert(r@[3 + i as int] == c);
        assert(secret_charset()[idx as int] == c);
        i += 1;
    }
    r
}

/// The lowercase hexadecimal digit for `d < 16`.
pub open spec fn hex_digit(d: u8) -> char {
    if d < 10 {
        (('0' as u8) + d) as char
    } else {
        (('a' as u8) + d - 10) as char
    }
}

/// Bytes in lowercase hexadecimal, two digits per byte, high half first.
pub open spec fn hex_of(bytes: Seq<u8>) -> Seq<char>
    decreases bytes.len(),
{
    if bytes.len() == 0 {
        Seq::<char>::empty()
    } else {
        hex_of(bytes.drop_last()) + seq![hex_digit(bytes.last() / 16), hex_digit(bytes.last() % 16)]
    }
}

fn hex_digit_exec(d: u8) -> (r: char)
    requires
        d < 16,
    ensures
        r == hex_digit(d),
{
    if d < 10 {
        ((48u8) + d) as char
    } else {
        ((97u8) + d - 10) as char
    }
}

/// Bytes in lowercase hexadecimal.
pub fn to_lower_hex(bytes: &Vec<u8>) -> (r: String)
    ensures
        r@ == hex_of(bytes@),
{
    let mut r = String::new();
    let mut i: usize = 0;
    while i < bytes.len()
        invariant
            i <= bytes@.len(),
            r@ == hex_of(bytes@.take(i as int)),
        decreases bytes@.len() - i,
    {
        let b = bytes[i];
        assert(bytes@.take(i + 1).drop_last() =~= bytes@.take(i as int));
        let ghost before = r@;
        crate::text::push_char(&mut r, hex_digit_exec(b / 16));
        crate::text::push_char(&mut r, hex_digit_exec(b % 16));
        assert(r@ =~= before + seq![hex_digit(b / 16), hex_digit(b % 16)]);
        i += 1;
    }
    assert(bytes@.take(bytes@.len() as int) =~= bytes@);
    r
}

/// The stored form of a secret: its SHA-256 digest in lowercase hex.
pub open spec fn key_hash_of(key: Seq<char>) -> Seq<char> {
    hex_of(sha256_of(vstd::utf8::encode_utf8(key)))
}

/// The stored form of a secret.
pub fn hash_key(key: &str) -> (r: String)
    ensures
        r@ == key_hash_of(key@),
{
    let digest = sha256(key.as_bytes());
    to_lower_hex(&digest)
}

/// All characters are ASCII.
pub open spec fn all_ascii(s: Seq<char>) -> bool {
    forall|i: int| 0 <= i < s.len() ==> (#[trigger] s[i] as u32) < 128
}

/// The listed form of a digest: `sk-`, its first six characters, `...`
/// and its last three, or `sk-****` when it is too short for that.
pub open spec fn masked(hash: Seq<char>) -> Seq<char> {
    if hash.len() > 9 {
        "sk-"@ + hash.subrange(0, 6) + "..."@ + hash.subrange(hash.len() - 3, hash.len() as int)
    } else {
        "sk-****"@
    }
}

/// The listed form of a digest. A digest is hexadecimal, so its bytes
/// and its characters coincide.
pub fn masked_key(hash: &str) -> (r: String)
    requires
        all_ascii(hash@),
    ensures
        r@ == masked(hash@),
{
    let v = crate::text::chars_of(hash);
    if v.len() > 9 {
        let n = v.len();
        let head = string_from_range(&v, 0, 6);
        let tail = string_from_range(&v, n - 3, n);
        let mut r = concat2("sk-", head.as_str());
        crate::text::push_str(&mut r, "...");
        crate::text::push_str(&mut r, tail.as_str());
        r
    } else {
        "sk-****".to_owned()
    }
}

/// An estimate of the servers a key reaches from its tools: none without
/// tools, else one per tool up to five.
pub open spec fn server_estimate(tool_count: nat) -> u32 {
    if tool_count == 0 {
        0
    } else if (tool_count as u32) < 5 {
        tool_count as u32
    } else {
        5
    }
}

/// The message when no key has the given id.
pub open spec fn key_not_found(id: Seq<char>) -> Seq<char> {
    "API密钥未找到: "@ + id
}

/// The position of the first key with `id`, if any.
pub open spec fn first_with_id(s: Seq<ApiKeyConfig>, id: Seq<char>, i: int) -> bool {
    &&& 0 <= i < s.len()
    &&& s[i].id@ == id
    &&& forall|j: int| 0 <= j < i ==> #[trigger] s[j].id@ != id
}

/// `after` is `before` with at most the key at `i` changed, and that key
/// keeps its id and its digest.
pub open spec fn only_key_changed(before: Seq<ApiKeyConfig>, after: Seq<ApiKeyConfig>, i: int) -> bool {
    &&& after.len() == before.len()
    &&& after[i].id == before[i].id
    &&& after[i].key_hash == before[i].key_hash
    &&& forall|j: int| 0 <= j < before.len() && j != i ==> #[trigger] after[j] == before[j]
}

/// Some key has `id`.
pub open spec fn has_id(s: Seq<ApiKeyConfig>, id: Seq<char>) -> bool {
    exists|i: int| 0 <= i < s.len() && #[trigger] s[i].id@ == id
}

/// `tools` after adding `t` unless it is there.
pub open spec fn with_tool(tools: Seq<Seq<char>>, t: Seq<char>) -> Seq<Seq<char>> {
    if tools.contains(t) {
        tools
    } else {
        tools.push(t)
    }
}

/// `tools` after adding each of `add` in order, skipping those present.
pub open spec fn with_tools(tools: Seq<Seq<char>>, add: Seq<Seq<char>>) -> Seq<Seq<char>>
    decreases add.len(),
{
    if add.len() == 0 {
        tools
    } else {
        with_tool(with_tools(tools, add.drop_last()), add.last())
    }
}

/// `tools` without those in `remove`, order kept.
pub open spec fn without_tools(tools: Seq<Seq<char>>, remove: Seq<Seq<char>>) -> Seq<Seq<char>> {
    tools.filter(|t: Seq<char>| !remove.contains(t))
}

/// Whether `list` holds `item`.
fn list_has(list: &[String], item: &str) -> (r: bool)
    ensures
        r == views(list@).contains(item@),
{
    let mut i: usize = 0;
    while i < list.len()
        invariant
            i <= list@.len(),
            forall|j: int| 0 <= j < i ==> #[trigger] list@[j]@ != item@,
        decreases list@.len() - i,
    {
        if str_eq(list[i].as_str(), item) {
            assert(views(list@)[i as int] == item@);
            return true;
        }
        i += 1;
    }
    proof {
        if views(list@).contains(item@) {
            let k = choose|k: int| 0 <= k < views(list@).len() && views(list@)[k] == item@;
            assert(list@[k]@ == item@);
        }
    }
    false
}

/// A copy of a list of strings.
pub(crate) fn copy_strings(v: &Vec<String>) -> (r: Vec<String>)
    ensures
        r@ == v@,
{
    let mut r: Vec<String> = Vec::new();
    let mut i: usize = 0;
    while i < v.len()
        invariant
            i <= v@.len(),
            r@ == v@.take(i as int),
        decreases v@.len() - i,
    {
        r.push(v[i].clone());
        assert(r@ =~= v@.take(i + 1));
        i += 1;
    }
    assert(v@.take(v@.len() as int) =~= v@);
    r
}

/// Two stored keys hold the same values (their tool lists compared by
/// contents).
pub open spec fn same_key(a: ApiKeyConfig, b: ApiKeyConfig) -> bool {
    &&& a.id == b.id
    &&& a.name == b.name
    &&& a.key_hash == b.key_hash
    &&& a.enabled == b.enabled
    &&& a.created_at == b.created_at
    &&& a.updated_at == b.updated_at
    &&& a.last_used_at == b.last_used_at
    &&& a.authorized_tool_ids@ == b.authorized_tool_ids@
}

/// A copy of a stored key.
pub fn copy_key(k: &ApiKeyConfig) -> (r: ApiKeyConfig)
    ensures
        same_key(r, *k),
{
    ApiKeyConfig {
        id: k.id.clone(),
        name: k.name.clone(),
        key_hash: k.key_hash.clone(),
        enabled: k.enabled,
        created_at: k.created_at,
        updated_at: k.updated_at,
        last_used_at: k.last_used_at,
        authorized_tool_ids: copy_strings(&k.authorized_tool_ids),
    }
}

/// `after` is `before` with the key at `i` marked as used at `now`.
pub open spec fn use_recorded(before: Seq<ApiKeyConfig>, after: Seq<ApiKeyConfig>, i: int, now: i64) -> bool {
    after == before.update(i, ApiKeyConfig { last_used_at: Some(now), updated_at: now, ..before[i] })
}

/// The stored API keys, in creation order.
#[derive(Debug)]
pub struct ApiKeyRepository {
    api_keys: Vec<ApiKeyConfig>,
}

impl ApiKeyRepository {
    /// The stored keys.
    pub closed spec fn keys(&self) -> Seq<ApiKeyConfig> {
        self.api_keys@
    }

    /// A repository over keys read from the key file.
    pub fn new(api_keys: Vec<ApiKeyConfig>) -> (r: Self)
        ensures
            r.keys() == api_keys@,
    {
        ApiKeyRepository { api_keys }
    }

    /// The stored keys, to be written back to the key file.
    pub fn get_all(&self) -> (r: &[ApiKeyConfig])
        ensures
            r@ == self.keys(),
    {
        self.api_keys.as_slice()
    }

    fn find(&self, id: &str) -> (r: Option<usize>)
        ensures
            match r {
                Some(i) => first_with_id(self.keys(), id@, i as int),
                None => !has_id(self.keys(), id@),
            },
    {
        let mut i: usize = 0;
        while i < self.api_keys.len()
            invariant
                i <= self.api_keys@.len(),
                forall|j: int| 0 <= j < i ==> #[trigger] self.api_keys@[j].id@ != id@,
            decreases self.api_keys@.len() - i,
        {
            if str_eq(self.api_keys[i].id.as_str(), id) {
                return Some(i);
            }
            i += 1;
        }
        None
    }

    /// Stores a new enabled key with the given id, name, digest and tools
    /// at time `now`, and returns a copy of it.
    pub fn create_with(
        &mut self,
        id: String,
        name: String,
        key_hash: String,
        permissions: ApiKeyPermissions,
        now: i64,
    ) -> (r: ApiKeyConfig)
        ensures
            r == (ApiKeyConfig {
                id,
                name,
                key_hash,
                enabled: true,
                created_at: now,
                updated_at: now,
                last_used_at: None,
                authorized_tool_ids: permissions.allowed_tools,
            }),
            final(self).keys().len() == old(self).keys().len() + 1,
            final(self).keys().drop_last() == old(self).keys(),
            same_key(final(self).keys().last(), r),
    {
        let api_key = ApiKeyConfig {
            id,
            name,
            key_hash,
            enabled: true,
            created_at: now,
            updated_at: now,
            last_used_at: None,
            authorized_tool_ids: permissions.allowed_tools,
        };
        let stored = copy_key(&api_key);
        self.api_keys.push(stored);
        assert(self.api_keys@.drop_last() =~= old(self).api_keys@);
        api_key
    }

    /// Creates a key: draws a secret, stores its digest under a fresh id,
    /// and returns the secret (shown once) with the stored key.
    pub fn create(&mut self, name: String, permissions: ApiKeyPermissions) -> (r: (String, ApiKeyConfig))
        ensures
            is_generated_secret(r.0@),
            r.1.key_hash@ == key_hash_of(r.0@),
            r.1.enabled,
            r.1.last_used_at is None,
            r.1.name == name,
            r.1.authorized_tool_ids == permissions.allowed_tools,
            final(self).keys().len() == old(self).keys().len() + 1,
            final(self).keys().drop_last() == old(self).keys(),
            same_key(final(self).keys().last(), r.1),
    {
        let key = generate_api_key();
        let key_hash = hash_key(key.as_str());
        let now = crate::clock::utc_now_seconds();
        let id = crate::ids::new_uuid_v4();
        let stored = self.create_with(id, name, key_hash, permissions, now);
        (key, stored)
    }

    /// The listed form of every key, in order.
    pub fn get_all_list(&self) -> (r: Vec<ApiKeyListItem>)
        requires
            forall|i: int| 0 <= i < self.keys().len() ==> all_ascii(#[trigger] self.keys()[i].key_hash@),
        ensures
            r@.len() == self.keys().len(),
            forall|i: int|
                0 <= i < r@.len() ==> {
                    let k = self.keys()[i];
                    let item = #[trigger] r@[i];
                    &&& item.id == k.id
                    &&& item.name == k.name
                    &&& item.key@ == masked(k.key_hash@)
                    &&& item.enabled == k.enabled
                    &&& item.created_at == k.created_at
                    &&& item.updated_at == k.updated_at
                    &&& item.authorized_server_count == server_estimate(k.authorized_tool_ids@.len())
                    &&& item.authorized_tool_count == k.authorized_tool_ids@.len() as u32
                },
    {
        let mut out: Vec<ApiKeyListItem> = Vec::new();
        let mut i: usize = 0;
        assert forall|j: int| 0 <= j < self.api_keys@.len() implies all_ascii(#[trigger] self.api_keys@[j].key_hash@) by {
            assert(self.keys()[j] == self.api_keys@[j]);
        }
        while i < self.api_keys.len()
            invariant
                i <= self.api_keys@.len(),
                out@.len() == i,
                forall|j: int| 0 <= j < self.api_keys@.len() ==> all_ascii(#[trigger] self.api_keys@[j].key_hash@),
                forall|j: int|
                    0 <= j < i ==> {
                        let k = self.api_keys@[j];
                        let item = #[trigger] out@[j];
                        &&& item.id == k.id
                        &&& item.name == k.name
                        &&& item.key@ == masked(k.key_hash@)
                        &&& item.enabled == k.enabled
                        &&& item.created_at == k.created_at
                        &&& item.updated_at == k.updated_at
                        &&& item.authorized_server_count == server_estimate(k.authorized_tool_ids@.len())
                        &&& item.authorized_tool_count == k.authorized_tool_ids@.len() as u32
                    },
            decreases self.api_keys@.len() - i,
        {
            let k = &self.api_keys[i];
            let count = k.authorized_tool_ids.len() as u32;
            let servers = self.count_authorized_servers(&k.authorized_tool_ids);
            out.push(
                ApiKeyListItem {
                    id: k.id.clone(),
                    name: k.name.clone(),
                    key: masked_key(k.key_hash.as_str()),
                    enabled: k.enabled,
                    created_at: k.created_at,
                    updated_at: k.updated_at,
                    authorized_server_count: servers,
                    authorized_tool_count: count,
                },
            );
            i += 1;
        }
        out
    }

    /// The first key with `id`.
    pub fn get_by_id(&self, id: &str) -> (r: Option<&ApiKeyConfig>)
        ensures
            match r {
                Some(k) => exists|i: int| first_with_id(self.keys(), id@, i) && *k == self.keys()[i],
                None => !has_id(self.keys(), id@),
            },
    {
        match self.find(id) {
            Some(i) => {
                assert(first_with_id(self.keys(), id@, i as int));
                Some(&self.api_keys[i])
            },
            None => None,
        }
    }

    /// An estimate of the servers a key reaches from its tools: none without
    /// tools, else one per tool up to five.
    fn count_authorized_servers(&self, tool_ids: &Vec<String>) -> (r: u32)
        ensures
            r == server_estimate(tool_ids@.len()),
    {
        let n = tool_ids.len();
        let count = n as u32;
        if n == 0 {
            0
        } else if count < 5 {
            count
        } else {
            5
        }
    }

    /// The first key with `id`, to be changed in place.
    pub fn get_by_id_mut(&mut self, id: &str) -> (r: Option<&mut ApiKeyConfig>)
        ensures
            match r {
                Some(k) => exists|i: int|
                    first_with_id(old(self).keys(), id@, i) && *k == old(self).keys()[i]
                        && final(self).keys() == old(self).keys().update(i, *final(k)),
                None => !has_id(old(self).keys(), id@) && final(self).keys() == old(self).keys(),
            },
    {
        match self.find(id) {
            Some(i) => {
                assert(first_with_id(self.keys(), id@, i as int));
                Some(&mut self.api_keys[i])
            },
            None => None,
        }
    }

    /// Checks a secret against the enabled key with `id`; a match records
    /// the use at `now`.
    pub fn verify_key_at(&mut self, id: &str, key: &str, now: i64) -> (r: bool)
        ensures
            !has_id(old(self).keys(), id@) ==> !r && final(self).keys() == old(self).keys(),
            forall|i: int|
                first_with_id(old(self).keys(), id@, i) ==> {
                    let k = old(self).keys()[i];
                    &&& r == (k.enabled && k.key_hash@ == key_hash_of(key@))
                    &&& r ==> final(self).keys() == old(self).keys().update(
                        i,
                        ApiKeyConfig { last_used_at: Some(now), updated_at: now, ..k },
                    )
                    &&& !r ==> final(self).keys() == old(self).keys()
                },
    {
        match self.find(id) {
            None => false,
            Some(i) => {
                if !self.api_keys[i].enabled {
                    return false;
                }
                let input_hash = hash_key(key);
                if str_eq(input_hash.as_str(), self.api_keys[i].key_hash.as_str()) {
                    let mut k = self.api_keys.remove(i);
                    k.last_used_at = Some(now);
                    k.updated_at = now;
                    self.api_keys.insert(i, k);
                    true
                } else {
                    false
                }
            },
        }
    }

    /// Checks a secret against the enabled key with `id`, recording a
    /// successful use now.
    pub fn verify_key(&mut self, id: &str, key: &str) -> (r: bool)
        ensures
            !has_id(old(self).keys(), id@) ==> !r && final(self).keys() == old(self).keys(),
            forall|i: int|
                first_with_id(old(self).keys(), id@, i) ==> {
                    let k = old(self).keys()[i];
                    &&& r == (k.enabled && k.key_hash@ == key_hash_of(key@))
                    &&& r ==> exists|now: i64| #[trigger] use_recorded(old(self).keys(), final(self).keys(), i, now)
                    &&& !r ==> final(self).keys() == old(self).keys()
                },
    {
        let now = crate::clock::utc_now_seconds();
        let r = self.verify_key_at(id, key, now);
        assert forall|i: int| first_with_id(old(self).keys(), id@, i) && r implies exists|t: i64|
            #[trigger] use_recorded(old(self).keys(), self.keys(), i, t) by {
            assert(use_recorded(old(self).keys(), self.keys(), i, now));
        }
        r
    }

    /// Flips whether the key with `id` is accepted, at time `now`.
    pub fn toggle_enabled_at(&mut self, id: &str, now: i64) -> (r: Result<bool, ConfigError>)
        ensures
            !has_id(old(self).keys(), id@) ==> (r matches Err(ConfigError::Invalid(m)) && m@ == key_not_found(id@))
                && final(self).keys() == old(self).keys(),
            forall|i: int|
                first_with_id(old(self).keys(), id@, i) ==> r == Ok::<bool, ConfigError>(!old(self).keys()[i].enabled)
                    && final(self).keys() == old(self).keys().update(
                    i,
                    ApiKeyConfig { enabled: !old(self).keys()[i].enabled, updated_at: now, ..old(self).keys()[i] },
                ),
    {
        match self.find(id) {
            None => Err(ConfigError::Invalid(concat2("API密钥未找到: ", id))),
            Some(i) => {
                let mut k = self.api_keys.remove(i);
                k.enabled = !k.enabled;
                k.updated_at = now;
                let e = k.enabled;
                self.api_keys.insert(i, k);
                Ok(e)
            },
        }
    }

    /// Removes every key with `id`; whether any was removed.
    pub fn delete(&mut self, id: &str) -> (r: bool)
        ensures
            final(self).keys() == old(self).keys().filter(|k: ApiKeyConfig| k.id@ != id@),
            r == has_id(old(self).keys(), id@),
    {
        let ghost orig = self.api_keys@;
        let mut kept: Vec<ApiKeyConfig> = Vec::new();
        let mut removed = false;
        let mut old_keys = Vec::new();
        std::mem::swap(&mut old_keys, &mut self.api_keys);
        let mut rev: Vec<ApiKeyConfig> = Vec::new();
        while old_keys.len() > 0
            invariant
                old_keys@.len() + rev@.len() == orig.len(),
                old_keys@ == orig.take(old_keys@.len() as int),
                forall|j: int| 0 <= j < rev@.len() ==> rev@[j] == orig[orig.len() - 1 - j],
            decreases old_keys@.len(),
        {
            let k = old_keys.pop().unwrap();
            rev.push(k);
            assert(old_keys@ =~= orig.take(old_keys@.len() as int));
        }
        let n = rev.len();
        let mut i: usize = 0;
        while i < n
            invariant
                n == orig.len(),
                i <= n,
                rev@.len() == n - i,
                forall|j: int| 0 <= j < rev@.len() ==> rev@[j] == orig[orig.len() - 1 - j],
                kept@ == orig.take(i as int).filter(|k: ApiKeyConfig| k.id@ != id@),
                removed == has_id(orig.take(i as int), id@),
            decreases n - i,
        {
            let k = rev.pop().unwrap();
            let ghost pre = orig.take(i as int);
            let ghost post = orig.take(i + 1);
            assert(post.drop_last() =~= pre);
            assert(post.last() == k);
            proof {
                reveal(Seq::filter);
            }
            if str_eq(k.id.as_str(), id) {
                removed = true;
                assert(post[i as int].id@ == id@);
            } else {
                proof {
                    if has_id(post, id@) {
                        let j = choose|j: int| 0 <= j < post.len() && #[trigger] post[j].id@ == id@;
                        assert(j != i);
                        assert(pre[j].id@ == id@);
                    }
                    if has_id(pre, id@) {
                        let j = choose|j: int| 0 <= j < pre.len() && #[trigger] pre[j].id@ == id@;
                        assert(post[j].id@ == id@);
                    }
                }
                kept.push(k);
            }
            proof {
                if removed && has_id(pre, id@) {
                    let j = choose|j: int| 0 <= j < pre.len() && #[trigger] pre[j].id@ == id@;
                    assert(post[j].id@ == id@);
                }
            }
            i += 1;
        }
        assert(orig.take(n as int) =~= orig);
        self.api_keys = kept;
        removed
    }

    /// Lets the key with `api_key_id` use `tool_id` (kept once), at `now`.
    pub fn add_tool_permission_at(&mut self, api_key_id: &str, tool_id: &str, now: i64) -> (r: Result<(), ConfigError>)
        ensures
            !has_id(old(self).keys(), api_key_id@) ==> (r matches Err(ConfigError::Invalid(m)) && m@ == key_not_found(
                api_key_id@,
            )) && final(self).keys() == old(self).keys(),
            forall|i: int|
                first_with_id(old(self).keys(), api_key_id@, i) ==> r is Ok && final(self).keys().len() == old(
                    self,
                ).keys().len() && final(self).keys()[i].updated_at == now && views(
                    final(self).keys()[i].authorized_tool_ids@,
                ) == with_tool(views(old(self).keys()[i].authorized_tool_ids@), tool_id@) && final(self).keys()[i].id
                    == old(self).keys()[i].id && final(self).keys()[i].key_hash == old(self).keys()[i].key_hash
                    && final(self).keys()[i].enabled == old(self).keys()[i].enabled && forall|j: int|
                    0 <= j < old(self).keys().len() && j != i ==> #[trigger] final(self).keys()[j] == old(
                        self,
                    ).keys()[j],
    {
        match self.find(api_key_id) {
            None => Err(ConfigError::Invalid(concat2("API密钥未找到: ", api_key_id))),
            Some(i) => {
                let mut k = self.api_keys.remove(i);
                if !list_has(k.authorized_tool_ids.as_slice(), tool_id) {
                    let ghost before = k.authorized_tool_ids@;
                    k.authorized_tool_ids.push(tool_id.to_owned());
                    assert(views(k.authorized_tool_ids@) =~= views(before).push(tool_id@));
                }
                k.updated_at = now;
                self.api_keys.insert(i, k);
                Ok(())
            },
        }
    }

    /// The tools the key with `api_key_id` may use.
    pub fn get_tools_by_api_key(&self, api_key_id: &str) -> (r: Result<Vec<String>, ConfigError>)
        ensures
            !has_id(self.keys(), api_key_id@) ==> (r matches Err(ConfigError::Invalid(m)) && m@ == key_not_found(
                api_key_id@,
            )),
            forall|i: int|
                first_with_id(self.keys(), api_key_id@, i) ==> (r matches Ok(v) && v@
                    == self.keys()[i].authorized_tool_ids@),
    {
        match self.find(api_key_id) {
            None => Err(ConfigError::Invalid(concat2("API密钥未找到: ", api_key_id))),
            Some(i) => Ok(copy_strings(&self.api_keys[i].authorized_tool_ids)),
        }
    }

    /// Lets the key with `api_key_id` use each of `server_tools` it does not
    /// have yet, at `now`; how many it gained.
    pub fn grant_server_tools_at(&mut self, api_key_id: &str, server_tools: &[String], now: i64) -> (r: Result<
        usize,
        ConfigError,
    >)
        ensures
            !has_id(old(self).keys(), api_key_id@) ==> (r matches Err(ConfigError::Invalid(m)) && m@ == key_not_found(
                api_key_id@,
            )) && final(self).keys() == old(self).keys(),
            forall|i: int|
                first_with_id(old(self).keys(), api_key_id@, i) ==> {
                    let before = views(old(self).keys()[i].authorized_tool_ids@);
                    let after = with_tools(before, views(server_tools@));
                    &&& final(self).keys().len() == old(self).keys().len()
                    &&& views(final(self).keys()[i].authorized_tool_ids@) == after
                    &&& r == Ok::<usize, ConfigError>((after.len() - before.len()) as usize)
                    &&& final(self).keys()[i].updated_at == now
                    &&& final(self).keys()[i].id == old(self).keys()[i].id
                    &&& final(self).keys()[i].key_hash == old(self).keys()[i].key_hash
                    &&& final(self).keys()[i].enabled == old(self).keys()[i].enabled
                    &&& forall|j: int|
                        0 <= j < old(self).keys().len() && j != i ==> #[trigger] final(self).keys()[j] == old(
                            self,
                        ).keys()[j]
                },
    {
        match self.find(api_key_id) {
            None => Err(ConfigError::Invalid(concat2("API密钥未找到: ", api_key_id))),
            Some(i) => {
                let mut k = self.api_keys.remove(i);
                let ghost start = views(k.authorized_tool_ids@);
                let ghost k0 = k;
                let count_before = k.authorized_tool_ids.len();
                let mut j: usize = 0;
                while j < server_tools.len()
                    invariant
                        k.id == k0.id,
                        k.key_hash == k0.key_hash,
                        k.enabled == k0.enabled,
                        j <= server_tools@.len(),
                        views(k.authorized_tool_ids@) == with_tools(start, views(server_tools@).take(j as int)),
                        k.authorized_tool_ids@.len() >= count_before,
                        count_before == start.len(),
                    decreases server_tools@.len() - j,
                {
                    assert(views(server_tools@).take(j + 1).drop_last() =~= views(server_tools@).take(j as int));
                    let t = server_tools[j].as_str();
                    if !list_has(k.authorized_tool_ids.as_slice(), t) {
                        let ghost before = k.authorized_tool_ids@;
                        k.authorized_tool_ids.push(t.to_owned());
                        assert(views(k.authorized_tool_ids@) =~= views(before).push(t@));
                    }
                    j += 1;
                }
                assert(views(server_tools@).take(server_tools@.len() as int) =~= views(server_tools@));
                k.updated_at = now;
                let gained = k.authorized_tool_ids.len() - count_before;
                assert(views(k.authorized_tool_ids@).len() == k.authorized_tool_ids@.len());
                self.api_keys.insert(i, k);
                assert(self.api_keys@[i as int] == k);
                Ok(gained)
            },
        }
    }

    /// Withdraws from the key with `api_key_id` every tool of
    /// `server_tools`, at `now`; how many it lost.
    pub fn revoke_server_tools_at(&mut self, api_key_id: &str, server_tools: &[String], now: i64) -> (r: Result<
        usize,
        ConfigError,
    >)
        ensures
            !has_id(old(self).keys(), api_key_id@) ==> (r matches Err(ConfigError::Invalid(m)) && m@ == key_not_found(
                api_key_id@,
            )) && final(self).keys() == old(self).keys(),
            forall|i: int|
                first_with_id(old(self).keys(), api_key_id@, i) ==> {
                    let before = views(old(self).keys()[i].authorized_tool_ids@);
                    let after = without_tools(before, views(server_tools@));
                    &&& final(self).keys().len() == old(self).keys().len()
                    &&& views(final(self).keys()[i].authorized_tool_ids@) == after
                    &&& r == Ok::<usize, ConfigError>((before.len() - after.len()) as usize)
                    &&& final(self).keys()[i].updated_at == now
                    &&& final(self).keys()[i].id == old(self).keys()[i].id
                    &&& final(self).keys()[i].key_hash == old(self).keys()[i].key_hash
                    &&& final(self).keys()[i].enabled == old(self).keys()[i].enabled
                    &&& forall|j: int|
                        0 <= j < old(self).keys().len() && j != i ==> #[trigger] final(self).keys()[j] == old(
                            self,
                        ).keys()[j]
                },
    {
        match self.find(api_key_id) {
            None => Err(ConfigError::Invalid(concat2("API密钥未找到: ", api_key_id))),
            Some(i) => {
                let mut k = self.api_keys.remove(i);
                let ghost start = views(k.authorized_tool_ids@);
                let ghost remove = views(server_tools@);
                let count_before = k.authorized_tool_ids.len();
                let mut kept: Vec<String> = Vec::new();
                let mut j: usize = 0;
                let list = server_tools;
                while j < k.authorized_tool_ids.len()
                    invariant
                        j <= k.authorized_tool_ids@.len(),
                        start == views(k.authorized_tool_ids@),
                        views(list@) == remove,
                        views(kept@) == start.take(j as int).filter(|t: Seq<char>| !remove.contains(t)),
                        kept@.len() <= j,
                    decreases k.authorized_tool_ids@.len() - j,
                {
                    let ghost pre = start.take(j as int);
                    let ghost post = start.take(j + 1);
                    assert(post.drop_last() =~= pre);
                    proof {
                        reveal(Seq::filter);
                    }
                    let t = k.authorized_tool_ids[j].as_str();
                    if !list_has(list, t) {
                        let ghost before = kept@;
                        kept.push(t.to_owned());
                        assert(views(kept@) =~= views(before).push(t@));
                    }
                    j += 1;
                }
                assert(start.take(start.len() as int) =~= start);
                proof {
                    start.lemma_filter_len(|t: Seq<char>| !remove.contains(t));
                }
                let lost = count_before - kept.len();
                k.authorized_tool_ids = kept;
                k.updated_at = now;
                self.api_keys.insert(i, k);
                Ok(lost)
            },
        }
    }

    /// Withdraws every tool from the key with `api_key_id`, at `now`.
    pub fn remove_all_permissions_at(&mut self, api_key_id: &str, now: i64) -> (r: Result<(), ConfigError>)
        ensures
            !has_id(old(self).keys(), api_key_id@) ==> (r matches Err(ConfigError::Invalid(m)) && m@ == key_not_found(
                api_key_id@,
            )) && final(self).keys() == old(self).keys(),
            forall|i: int|
                first_with_id(old(self).keys(), api_key_id@, i) ==> r is Ok && final(self).keys() == old(
                    self,
                ).keys().update(
                    i,
                    ApiKeyConfig {
                        authorized_tool_ids: final(self).keys()[i].authorized_tool_ids,
                        updated_at: now,
                        ..old(self).keys()[i]
                    },
                ) && final(self).keys()[i].authorized_tool_ids@.len() == 0,
    {
        match self.find(api_key_id) {
            None => Err(ConfigError::Invalid(concat2("API密钥未找到: ", api_key_id))),
            Some(i) => {
                let mut k = self.api_keys.remove(i);
                k.authorized_tool_ids = Vec::new();
                k.updated_at = now;
                self.api_keys.insert(i, k);
                Ok(())
            },
        }
    }
    /// Withdraws `tool_id` from the key with `api_key_id`, at `now`.
    pub fn remove_tool_permission_at(&mut self, api_key_id: &str, tool_id: &str, now: i64) -> (r: Result<
        (),
        ConfigError,
    >)
        ensures
            !has_id(old(self).keys(), api_key_id@) ==> (r matches Err(ConfigError::Invalid(m)) && m@ == key_not_found(
                api_key_id@,
            )) && final(self).keys() == old(self).keys(),
            forall|i: int|
                first_with_id(old(self).keys(), api_key_id@, i) ==> r is Ok && final(self).keys().len() == old(
                    self,
                ).keys().len() && views(final(self).keys()[i].authorized_tool_ids@) == without_tools(
                    views(old(self).keys()[i].authorized_tool_ids@),
                    seq![tool_id@],
                ) && final(self).keys()[i].updated_at == now && only_key_changed(old(self).keys(), final(self).keys(), i)
                    && final(self).keys()[i].enabled == old(self).keys()[i].enabled,
    {
        let mut one: Vec<String> = Vec::new();
        one.push(tool_id.to_owned());
        assert(views(one@) =~= seq![tool_id@]);
        match self.revoke_server_tools_at(api_key_id, one.as_slice(), now) {
            Ok(_) => Ok(()),
            Err(e) => Err(e),
        }
    }

    /// Flips whether the key with `id` is accepted, stamping the change
    /// with the current time.
    pub fn toggle_enabled(&mut self, id: &str) -> (r: Result<bool, ConfigError>)
        ensures
            !has_id(old(self).keys(), id@) ==> (r matches Err(ConfigError::Invalid(m)) && m@ == key_not_found(id@))
                && final(self).keys() == old(self).keys(),
            forall|i: int|
                first_with_id(old(self).keys(), id@, i) ==> r == Ok::<bool, ConfigError>(!old(self).keys()[i].enabled)
                    && final(self).keys()[i].enabled == !old(self).keys()[i].enabled && only_key_changed(
                    old(self).keys(),
                    final(self).keys(),
                    i,
                ),
    {
        let now = crate::clock::utc_now_seconds();
        self.toggle_enabled_at(id, now)
    }

    /// Lets the key with `api_key_id` use `tool_id`, stamped now.
    pub fn add_tool_permission(&mut self, api_key_id: &str, tool_id: &str) -> (r: Result<(), ConfigError>)
        ensures
            !has_id(old(self).keys(), api_key_id@) ==> r is Err && final(self).keys() == old(self).keys(),
            forall|i: int|
                first_with_id(old(self).keys(), api_key_id@, i) ==> r is Ok && views(
                    final(self).keys()[i].authorized_tool_ids@,
                ) == with_tool(views(old(self).keys()[i].authorized_tool_ids@), tool_id@) && only_key_changed(old(self).keys(), final(self).keys(), i)
                    && final(self).keys()[i].enabled == old(self).keys()[i].enabled,
    {
        let now = crate::clock::utc_now_seconds();
        self.add_tool_permission_at(api_key_id, tool_id, now)
    }

    /// Withdraws `tool_id` from the key with `api_key_id`, stamped now.
    pub fn remove_tool_permission(&mut self, api_key_id: &str, tool_id: &str) -> (r: Result<(), ConfigError>)
        ensures
            !has_id(old(self).keys(), api_key_id@) ==> r is Err && final(self).keys() == old(self).keys(),
            forall|i: int|
                first_with_id(old(self).keys(), api_key_id@, i) ==> r is Ok && views(
                    final(self).keys()[i].authorized_tool_ids@,
                ) == without_tools(views(old(self).keys()[i].authorized_tool_ids@), seq![tool_id@]) && only_key_changed(old(self).keys(), final(self).keys(), i)
                    && final(self).keys()[i].enabled == old(self).keys()[i].enabled,
    {
        let now = crate::clock::utc_now_seconds();
        self.remove_tool_permission_at(api_key_id, tool_id, now)
    }

    /// Withdraws every tool from the key with `api_key_id`, stamped now.
    pub fn remove_all_permissions(&mut self, api_key_id: &str) -> (r: Result<(), ConfigError>)
        ensures
            !has_id(old(self).keys(), api_key_id@) ==> r is Err && final(self).keys() == old(self).keys(),
            forall|i: int|
                first_with_id(old(self).keys(), api_key_id@, i) ==> r is Ok
                    && final(self).keys()[i].authorized_tool_ids@.len() == 0 && only_key_changed(old(self).keys(), final(self).keys(), i)
                    && final(self).keys()[i].enabled == old(self).keys()[i].enabled,
    {
        let now = crate::clock::utc_now_seconds();
        self.remove_all_permissions_at(api_key_id, now)
    }

    /// Grants the key with `api_key_id` each of `server_tools`, stamped now;
    /// how many it gained.
    pub fn grant_server_tools(&mut self, api_key_id: &str, server_tools: &[String]) -> (r: Result<
        usize,
        ConfigError,
    >)
        ensures
            !has_id(old(self).keys(), api_key_id@) ==> r is Err && final(self).keys() == old(self).keys(),
            forall|i: int|
                first_with_id(old(self).keys(), api_key_id@, i) ==> {
                    let before = views(old(self).keys()[i].authorized_tool_ids@);
                    let after = with_tools(before, views(server_tools@));
                    &&& views(final(self).keys()[i].authorized_tool_ids@) == after
                    &&& r == Ok::<usize, ConfigError>((after.len() - before.len()) as usize)
                    &&& only_key_changed(old(self).keys(), final(self).keys(), i)
                    &&& final(self).keys()[i].enabled == old(self).keys()[i].enabled
                },
    {
        let now = crate::clock::utc_now_seconds();
        self.grant_server_tools_at(api_key_id, server_tools, now)
    }

    /// Withdraws from the key with `api_key_id` every tool of
    /// `server_tools`, stamped now; how many it lost.
    pub fn revoke_server_tools(&mut self, api_key_id: &str, server_tools: &[String]) -> (r: Result<
        usize,
        ConfigError,
    >)
        ensures
            !has_id(old(self).keys(), api_key_id@) ==> r is Err && final(self).keys() == old(self).keys(),
            forall|i: int|
                first_with_id(old(self).keys(), api_key_id@, i) ==> {
                    let before = views(old(self).keys()[i].authorized_tool_ids@);
                    let after = without_tools(before, views(server_tools@));
                    &&& views(final(self).keys()[i].authorized_tool_ids@) == after
                    &&& r == Ok::<usize, ConfigError>((before.len() - after.len()) as usize)
                    &&& only_key_changed(old(self).keys(), final(self).keys(), i)
                    &&& final(self).keys()[i].enabled == old(self).keys()[i].enabled
                },
    {
        let now = crate::clock::utc_now_seconds();
        self.revoke_server_tools_at(api_key_id, server_tools, now)
    }
}

/// A key created under a fresh id is the one its id finds, so verifying
/// the secret it was created with succeeds (the stored digest is that
/// secret's digest, and the key starts enabled), while a secret with
/// another digest is refused.
pub proof fn law_created_key_verifies(keys: Seq<ApiKeyConfig>, created: ApiKeyConfig, key: Seq<char>)
    requires
        !has_id(keys, created.id@),
        created.enabled,
        created.key_hash@ == key_hash_of(key),
    ensures
        first_with_id(keys.push(created), created.id@, keys.len() as int),
        keys.push(created)[keys.len() as int].enabled && keys.push(created)[keys.len() as int].key_hash@
            == key_hash_of(key),
        forall|other: Seq<char>|
            key_hash_of(other) != key_hash_of(key) ==> keys.push(created)[keys.len() as int].key_hash@
                != #[trigger] key_hash_of(other),
{
}

/// Granting the same tools a second time finds the same key and gains
/// nothing: after a grant that changed only that key, the key is still the
/// first with its id, and granting the tools again leaves its list as it
/// is (so the second grant answers `Ok(0)`).
pub proof fn law_second_grant_gains_nothing(
    before: Seq<ApiKeyConfig>,
    after: Seq<ApiKeyConfig>,
    id: Seq<char>,
    i: int,
    tools: Seq<Seq<char>>,
)
    requires
        first_with_id(before, id, i),
        only_key_changed(before, after, i),
        views(after[i].authorized_tool_ids@) == with_tools(views(before[i].authorized_tool_ids@), tools),
    ensures
        first_with_id(after, id, i),
        with_tools(views(after[i].authorized_tool_ids@), tools) == views(after[i].authorized_tool_ids@),
{
    law_grant_idempotent(views(before[i].authorized_tool_ids@), tools);
}

/// Granting tools that were just granted adds nothing: granting is
/// idempotent, and every granted tool is then held.
pub proof fn law_grant_idempotent(tools: Seq<Seq<char>>, add: Seq<Seq<char>>)
    ensures
        with_tools(with_tools(tools, add), add) == with_tools(tools, add),
        forall|i: int| 0 <= i < add.len() ==> with_tools(tools, add).contains(#[trigger] add[i]),
    decreases add.len(),
{
    if add.len() > 0 {
        let d = add.drop_last();
        law_grant_idempotent(tools, d);
        assert forall|i: int| 0 <= i < add.len() implies with_tools(tools, add).contains(#[trigger] add[i]) by {
            if i < add.len() - 1 {
                assert(add[i] == d[i]);
                assert(with_tools(tools, d).contains(d[i]));
                lemma_with_tool_keeps(with_tools(tools, d), add.last());
            } else {
                lemma_with_tool_keeps(with_tools(tools, d), add.last());
            }
        }
    }
    lemma_with_tools_keeps(with_tools(tools, add), add);
}

/// Adding a tool keeps what was there and then holds the tool.
pub proof fn lemma_with_tool_keeps(tools: Seq<Seq<char>>, t: Seq<char>)
    ensures
        with_tool(tools, t).contains(t),
        forall|x: Seq<char>| tools.contains(x) ==> #[trigger] with_tool(tools, t).contains(x),
{
    if !tools.contains(t) {
        assert(tools.push(t)[tools.len() as int] == t);
        assert forall|x: Seq<char>| tools.contains(x) implies #[trigger] tools.push(t).contains(x) by {
            let k = choose|k: int| 0 <= k < tools.len() && tools[k] == x;
            assert(tools.push(t)[k] == x);
        }
    }
}

/// Adding tools that are all held already changes nothing.
pub proof fn lemma_with_tools_keeps(tools: Seq<Seq<char>>, add: Seq<Seq<char>>)
    requires
        forall|i: int| 0 <= i < add.len() ==> tools.contains(#[trigger] add[i]),
    ensures
        with_tools(tools, add) == tools,
    decreases add.len(),
{
    if add.len() > 0 {
        let d = add.drop_last();
        assert forall|i: int| 0 <= i < d.len() implies tools.contains(#[trigger] d[i]) by {
            assert(d[i] == add[i]);
        }
        lemma_with_tools_keeps(tools, d);
        assert(tools.contains(add[add.len() - 1]));
    }
}

/// After a revocation the key holds none of the revoked tools.
pub proof fn law_revoked_tools_are_gone(tools: Seq<Seq<char>>, remove: Seq<Seq<char>>, t: Seq<char>)
    requires
        remove.contains(t),
    ensures
        !without_tools(tools, remove).contains(t),
{
    let f = |x: Seq<char>| !remove.contains(x);
    if tools.filter(f).contains(t) {
        let k = choose|k: int| 0 <= k < tools.filter(f).len() && tools.filter(f)[k] == t;
        tools.lemma_filter_pred(f, k);
    }
}

} // verus!
