//! Cache bookkeeping: entry metadata and expiry, the index from provider URL
//! to provider hash, and where each cache entry lives on disk.
use vstd::prelude::*;
use crate::favourites::{contains_favourite, favourite_added, favourite_removed, opt_list_view};
use crate::text::{concat2, concat3, hex_lower, hex_prefix, str_eq};
use crate::xtream_api::FavouriteStream;
use sha2::Digest;

verus! {

/// Reads the system clock as whole seconds since the Unix epoch (`SystemTime::now`
/// then `duration_since(UNIX_EPOCH)`); a clock set before the epoch reads as 0.
/// Nothing is stated of the value: it is the time.
#[verifier::external_body]
pub(crate) fn unix_now_secs() -> (r: u64) {
    match std::time::SystemTime::now().duration_since(std::time::UNIX_EPOCH) {
        Ok(d) => d.as_secs(),
        Err(_) => 0,
    }
}

/// The name of the `Duration` that `Duration::from_secs` builds from a count of seconds.
pub uninterp spec fn duration_of_secs(secs: u64) -> core::time::Duration;

/// Calls `Duration::from_secs`; the result is the named duration of that many seconds.
#[verifier::external_body]
fn duration_from_secs(secs: u64) -> (r: core::time::Duration)
    ensures
        r == duration_of_secs(secs),
{
    core::time::Duration::from_secs(secs)
}

/// The SHA-256 digest of a byte string.
pub uninterp spec fn sha256(data: Seq<u8>) -> Seq<u8>;

/// Calls `sha2::Sha256::digest`; the result is the named digest of the
/// argument, and it is 32 bytes long (the output size of SHA-256).
#[verifier::external_body]
fn sha256_digest(data: &[u8]) -> (r: Vec<u8>)
    ensures
        r@ == sha256(data@),
        r@.len() == 32,
{
    sha2::Sha256::digest(data).to_vec()
}

/// The first `n` lowercase hex digits of the SHA-256 digest of a string's
/// UTF-8 bytes (`n` even, at most 64).
pub open spec fn sha256_hex_prefix(s: Seq<char>, n: nat) -> Seq<char> {
    hex_lower(sha256(vstd::utf8::encode_utf8(s)).subrange(0, (n / 2) as int))
}

/// The hash that names a provider's cache directory: the first 16 hex digits
/// of the SHA-256 of its base URL.
pub open spec fn provider_hash_of(url: Seq<char>) -> Seq<char> {
    sha256_hex_prefix(url, 16)
}

fn hash_hex_prefix(s: &str, n: usize) -> (r: String)
    requires
        n <= 64,
        n % 2 == 0,
    ensures
        r@ == sha256_hex_prefix(s@, n as nat),
{
    let bytes = s.as_bytes();
    let digest = sha256_digest(bytes);
    hex_prefix(&digest, n / 2)
}

/// When a cache entry was made, how long it stays fresh, and for which provider.
#[derive(Debug)]
pub struct CacheMetadata {
    pub created_at: u64,
    pub ttl_seconds: u64,
    pub provider_url: String,
    pub provider_name: Option<String>,
}

impl Clone for CacheMetadata {
    fn clone(&self) -> (r: Self)
        ensures
            r == *self,
    {
        CacheMetadata {
            created_at: self.created_at,
            ttl_seconds: self.ttl_seconds,
            provider_url: self.provider_url.clone(),
            provider_name: self.provider_name.clone(),
        }
    }
}

impl CacheMetadata {
    /// The moment (seconds since the epoch) after which the entry is stale.
    pub open spec fn expiry(self) -> int {
        self.created_at + self.ttl_seconds
    }

    /// An entry made at `now` is expired when `now` is past its expiry.
    pub open spec fn expired_at(self, now: int) -> bool {
        now > self.expiry()
    }

    /// Seconds left until expiry at `now`, zero once it has passed.
    pub open spec fn remaining_at(self, now: int) -> int {
        if now < self.expiry() {
            self.expiry() - now
        } else {
            0
        }
    }

    /// Metadata for an entry created at `now`.
    pub fn new_at(provider_url: String, provider_name: Option<String>, ttl_seconds: u64, now: u64) -> (r: Self)
        ensures
            r.created_at == now,
            r.ttl_seconds == ttl_seconds,
            r.provider_url == provider_url,
            r.provider_name == provider_name,
    {
        CacheMetadata { created_at: now, ttl_seconds, provider_url, provider_name }
    }

    /// Metadata for an entry created now (the clock is read).
    pub fn new(provider_url: String, provider_name: Option<String>, ttl_seconds: u64) -> (r: Self)
        ensures
            r.ttl_seconds == ttl_seconds,
            r.provider_url == provider_url,
            r.provider_name == provider_name,
    {
        let now = unix_now_secs();
        Self::new_at(provider_url, provider_name, ttl_seconds, now)
    }

    /// Whether the entry is expired at `now`.
    pub fn is_expired_at(&self, now: u64) -> (r: bool)
        ensures
            r == self.expired_at(now as int),
    {
        now > self.created_at && now - self.created_at > self.ttl_seconds
    }

    /// Whether the entry is expired now (the clock is read).
    pub fn is_expired(&self) -> (r: bool)
        ensures
            exists|now: u64| r == self.expired_at(now as int),
    {
        let now = unix_now_secs();
        self.is_expired_at(now)
    }

    /// Seconds left until expiry at `now` (the expiry moment must fit in 64 bits,
    /// as computing it does).
    pub fn time_until_expiry_at(&self, now: u64) -> (r: u64)
        requires
            self.created_at + self.ttl_seconds <= u64::MAX,
        ensures
            r == self.remaining_at(now as int),
    {
        let expiry_time = self.created_at + self.ttl_seconds;
        if now < expiry_time {
            expiry_time - now
        } else {
            0
        }
    }

    /// Time left until expiry, measured now (the clock is read).
    pub fn time_until_expiry(&self) -> (r: core::time::Duration)
        requires
            self.created_at + self.ttl_seconds <= u64::MAX,
        ensures
            exists|now: u64| r == duration_of_secs(self.remaining_at(now as int) as u64),
    {
        let now = unix_now_secs();
        let secs = self.time_until_expiry_at(now);
        duration_from_secs(secs)
    }
}

/// A cached value with its metadata.
#[derive(Debug, Clone)]
pub struct CachedData<T> {
    pub metadata: CacheMetadata,
    pub data: T,
}

impl<T> CachedData<T> {
    pub fn new(data: T, metadata: CacheMetadata) -> (r: Self)
        ensures
            r.data == data,
            r.metadata == metadata,
    {
        CachedData { metadata, data }
    }

    /// Whether the entry is expired at `now`.
    pub fn is_expired_at(&self, now: u64) -> (r: bool)
        ensures
            r == self.metadata.expired_at(now as int),
    {
        self.metadata.is_expired_at(now)
    }

    /// Whether the entry is expired now (the clock is read).
    pub fn is_expired(&self) -> (r: bool)
        ensures
            exists|now: u64| r == self.metadata.expired_at(now as int),
    {
        self.metadata.is_expired()
    }
}

/// Whether a cache entry must be fetched again when warming the cache at
/// `now`: it is missing or expired.
pub fn needs_warming(cached: &Option<CacheMetadata>, now: u64) -> (r: bool)
    ensures
        r == match cached {
            Some(m) => m.expired_at(now as int),
            None => true,
        },
{
    match cached {
        Some(m) => m.is_expired_at(now),
        None => true,
    }
}

/// Joins two path components with a `/` (none is added after a trailing `/`
/// or to an empty base).
pub open spec fn path_join(base: Seq<char>, name: Seq<char>) -> Seq<char> {
    if base.len() == 0 || base.last() == '/' {
        base + name
    } else {
        base + seq!['/'] + name
    }
}

/// Joins two path components as `path_join` states.
pub fn join_path(base: &str, name: &str) -> (r: String)
    ensures
        r@ == path_join(base@, name@),
{
    let n = base.unicode_len();
    if n == 0 || base.get_char(n - 1) == '/' {
        concat2(base, name)
    } else {
        proof {
            reveal_strlit("/");
            assert("/"@ =~= seq!['/']);
        }
        concat3(base, "/", name)
    }
}

/// The key-to-value map held by a list of pairs; a later pair for the same
/// key replaces an earlier one.
pub open spec fn pairs_map(pairs: Seq<(String, String)>) -> Map<Seq<char>, Seq<char>>
    decreases pairs.len(),
{
    if pairs.len() == 0 {
        Map::empty()
    } else {
        pairs_map(pairs.drop_last()).insert(pairs.last().0@, pairs.last().1@)
    }
}

/// No key occurs twice.
pub open spec fn keys_unique(pairs: Seq<(String, String)>) -> bool {
    forall|i: int, j: int| 0 <= i < j < pairs.len() ==> pairs[i].0@ != pairs[j].0@
}

proof fn lemma_pairs_map_index(pairs: Seq<(String, String)>, i: int)
    requires
        keys_unique(pairs),
        0 <= i < pairs.len(),
    ensures
        pairs_map(pairs).contains_key(pairs[i].0@),
        pairs_map(pairs)[pairs[i].0@] == pairs[i].1@,
    decreases pairs.len(),
{
    if i < pairs.len() - 1 {
        lemma_pairs_map_index(pairs.drop_last(), i);
    }
}

proof fn lemma_pairs_map_absent(pairs: Seq<(String, String)>, k: Seq<char>)
    requires
        forall|i: int| 0 <= i < pairs.len() ==> pairs[i].0@ != k,
    ensures
        !pairs_map(pairs).contains_key(k),
    decreases pairs.len(),
{
    if pairs.len() > 0 {
        lemma_pairs_map_absent(pairs.drop_last(), k);
    }
}

/// The listing holds the provider URL with this hash.
pub open spec fn lists_provider(pairs: Seq<(String, String)>, url: Seq<char>, hash: Seq<char>) -> bool {
    exists|i: int| 0 <= i < pairs.len() && (#[trigger] pairs[i]).0@ == url && pairs[i].1@ == hash
}

proof fn lemma_pairs_membership(pairs: Seq<(String, String)>, url: Seq<char>, hash: Seq<char>)
    requires
        keys_unique(pairs),
    ensures
        lists_provider(pairs, url, hash) <==> (pairs_map(pairs).contains_key(url) && pairs_map(pairs)[url] == hash),
{
    if exists|i: int| 0 <= i < pairs.len() && (#[trigger] pairs[i]).0@ == url {
        let i = choose|i: int| 0 <= i < pairs.len() && (#[trigger] pairs[i]).0@ == url;
        lemma_pairs_map_index(pairs, i);
        if lists_provider(pairs, url, hash) {
            let j = choose|j: int| 0 <= j < pairs.len() && (#[trigger] pairs[j]).0@ == url && pairs[j].1@ == hash;
            lemma_pairs_map_index(pairs, j);
        }
    } else {
        lemma_pairs_map_absent(pairs, url);
    }
}

/// What looking up a provider's hash gives, and the index after it: a URL
/// already in the index keeps its hash and the index stays; a new URL gets
/// the first 16 hex digits of its SHA-256, which the index then records.
pub open spec fn provider_hash_step(index: Map<Seq<char>, Seq<char>>, url: Seq<char>) -> (Seq<char>, Map<Seq<char>, Seq<char>>) {
    if index.contains_key(url) {
        (index[url], index)
    } else {
        (provider_hash_of(url), index.insert(url, provider_hash_of(url)))
    }
}

/// Keeps the cache directory and the index from provider base URL to
/// provider hash. Reading and writing the files is the caller's part.
#[derive(Debug)]
pub struct CacheManager {
    cache_dir: String,
    provider_index: Vec<(String, String)>,
}

impl CacheManager {
    /// The cache directory.
    pub closed spec fn dir(self) -> Seq<char> {
        self.cache_dir@
    }

    /// The provider index as a map from base URL to hash.
    pub closed spec fn index(self) -> Map<Seq<char>, Seq<char>> {
        pairs_map(self.provider_index@)
    }

    /// The index entries in the order they were added.
    pub closed spec fn entries(self) -> Seq<(String, String)> {
        self.provider_index@
    }

    /// The index holds each URL once.
    pub closed spec fn wf(self) -> bool {
        keys_unique(self.provider_index@)
    }

    /// The path of the directory that holds every provider's cache.
    pub open spec fn providers_dir_of(dir: Seq<char>) -> Seq<char> {
        path_join(dir, "providers"@)
    }

    /// A manager for the `iptv` directory under `cache_root`, starting from a
    /// saved index (a later entry for the same URL replaces an earlier one).
    pub fn new(cache_root: &str, index: Vec<(String, String)>) -> (r: Self)
        ensures
            r.wf(),
            r.dir() == path_join(cache_root@, "iptv"@),
            r.index() == pairs_map(index@),
    {
        let cache_dir = join_path(cache_root, "iptv");
        let mut m = CacheManager { cache_dir, provider_index: Vec::new() };
        let mut i: usize = 0;
        while i < index.len()
            invariant
                i <= index@.len(),
                m.wf(),
                m.index() == pairs_map(index@.subrange(0, i as int)),
                m.dir() == path_join(cache_root@, "iptv"@),
            decreases index@.len() - i,
        {
            let (k, v) = (index[i].0.clone(), index[i].1.clone());
            m.set_entry(k, v);
            assert(index@.subrange(0, i + 1).drop_last() =~= index@.subrange(0, i as int));
            i = i + 1;
        }
        assert(index@.subrange(0, index@.len() as int) =~= index@);
        m
    }

    fn set_entry(&mut self, url: String, hash: String)
        requires
            old(self).wf(),
        ensures
            final(self).wf(),
            final(self).index() == old(self).index().insert(url@, hash@),
            final(self).dir() == old(self).dir(),
    {
        let n = self.provider_index.len();
        let mut i: usize = 0;
        while i < n
            invariant
                n == self.provider_index@.len(),
                i <= n,
                forall|j: int| 0 <= j < i ==> self.provider_index@[j].0@ != url@,
                self.provider_index@ == old(self).provider_index@,
                self.cache_dir == old(self).cache_dir,
                keys_unique(self.provider_index@),
            decreases n - i,
        {
            if str_eq(self.provider_index[i].0.as_str(), url.as_str()) {
                let ghost old_pairs = self.provider_index@;
                self.provider_index.set(i, (url, hash));
                let ghost pairs = self.provider_index;
                proof {
                    assert forall|k: Seq<char>| #[trigger] pairs_map(pairs@).contains_key(k)
                        == pairs_map(old_pairs).insert(url@, hash@).contains_key(k)
                        && (pairs_map(pairs@).contains_key(k) ==> pairs_map(pairs@)[k]
                        == pairs_map(old_pairs).insert(url@, hash@)[k]) by {
                        lemma_map_agree(old_pairs, pairs@, i as int, k);
                    }
                    assert(pairs_map(pairs@) =~= pairs_map(old_pairs).insert(url@, hash@));
                    assert forall|a: int, b: int| 0 <= a < b < pairs@.len() implies pairs@[a].0@ != pairs@[b].0@ by {
                        assert(old_pairs[a].0@ != old_pairs[b].0@);
                    }
                }
                return;
            }
            i = i + 1;
        }
        self.provider_index.push((url, hash));
        proof {
            let p = self.provider_index@;
            assert(p.drop_last() =~= old(self).provider_index@);
            assert forall|a: int, b: int| 0 <= a < b < p.len() implies p[a].0@ != p[b].0@ by {
                if b < p.len() - 1 {
                    assert(old(self).provider_index@[a].0@ != old(self).provider_index@[b].0@);
                } else {
                    assert(old(self).provider_index@[a].0@ != url@);
                }
            }
        }
    }

    /// The cache directory path.
    pub fn cache_dir(&self) -> (r: &str)
        ensures
            r@ == self.dir(),
    {
        self.cache_dir.as_str()
    }

    /// The directory that holds every provider's cache.
    pub fn providers_dir(&self) -> (r: String)
        ensures
            r@ == Self::providers_dir_of(self.dir()),
    {
        join_path(self.cache_dir.as_str(), "providers")
    }

    /// The cache directory of one provider.
    pub fn provider_dir(&self, provider_hash: &str) -> (r: String)
        ensures
            r@ == path_join(Self::providers_dir_of(self.dir()), provider_hash@),
    {
        let p = self.providers_dir();
        join_path(p.as_str(), provider_hash)
    }

    /// The file that holds the provider index.
    pub fn index_path(&self) -> (r: String)
        ensures
            r@ == path_join(self.dir(), "index.json"@),
    {
        join_path(self.cache_dir.as_str(), "index.json")
    }

    /// The hash of a provider base URL: the one already in the index, or
    /// else the first 16 hex digits of the SHA-256 of the URL, which is then
    /// added. The flag tells whether the index changed (the caller saves it
    /// and creates the provider's directory).
    pub fn get_provider_hash(&mut self, provider_url: &str) -> (r: (String, bool))
        requires
            old(self).wf(),
        ensures
            final(self).wf(),
            (r.0@, final(self).index()) == provider_hash_step(old(self).index(), provider_url@),
            r.1 == !old(self).index().contains_key(provider_url@),
            final(self).dir() == old(self).dir(),
    {
        let n = self.provider_index.len();
        let mut i: usize = 0;
        while i < n
            invariant
                n == self.provider_index@.len(),
                i <= n,
                forall|j: int| 0 <= j < i ==> self.provider_index@[j].0@ != provider_url@,
                self.provider_index@ == old(self).provider_index@,
                self.cache_dir == old(self).cache_dir,
                keys_unique(self.provider_index@),
            decreases n - i,
        {
            if str_eq(self.provider_index[i].0.as_str(), provider_url) {
                proof { lemma_pairs_map_index(self.provider_index@, i as int); }
                return (self.provider_index[i].1.clone(), false);
            }
            i = i + 1;
        }
        proof { lemma_pairs_map_absent(self.provider_index@, provider_url@); }
        let hash = hash_hex_prefix(provider_url, 16);
        let url = provider_url.to_owned();
        self.set_entry(url, hash.clone());
        (hash, true)
    }

    /// The file name of a cache entry: the cache type, then (for a category)
    /// `_` and the first 8 hex digits of the SHA-256 of the category id, then `.json`.
    pub open spec fn cache_file_name(cache_type: Seq<char>, category_id: Option<Seq<char>>) -> Seq<char> {
        match category_id {
            Some(c) => cache_type + "_"@ + sha256_hex_prefix(c, 8) + ".json"@,
            None => cache_type + ".json"@,
        }
    }

    /// Where a cache entry is stored.
    pub fn get_cache_path(&self, provider_hash: &str, cache_type: &str, category_id: Option<&str>) -> (r: String)
        ensures
            r@ == path_join(
                path_join(Self::providers_dir_of(self.dir()), provider_hash@),
                Self::cache_file_name(cache_type@, match category_id { Some(c) => Some(c@), None => None }),
            ),
    {
        let filename = match category_id {
            Some(cat) => {
                let h = hash_hex_prefix(cat, 8);
                let a = concat3(cache_type, "_", h.as_str());
                concat2(a.as_str(), ".json")
            },
            None => concat2(cache_type, ".json"),
        };
        let dir = self.provider_dir(provider_hash);
        join_path(dir.as_str(), filename.as_str())
    }

    /// Every (base URL, hash) pair of the index, each once.
    pub fn list_cached_providers(&self) -> (r: Vec<(String, String)>)
        requires
            self.wf(),
        ensures
            pairs_map(r@) == self.index(),
            keys_unique(r@),
            r@.len() == self.index().len(),
            forall|url: Seq<char>, hash: Seq<char>| #[trigger] lists_provider(r@, url, hash)
                <==> (self.index().contains_key(url) && self.index()[url] == hash),
    {
        let mut out: Vec<(String, String)> = Vec::new();
        let mut i: usize = 0;
        while i < self.provider_index.len()
            invariant
                i <= self.provider_index@.len(),
                out@ == self.provider_index@.subrange(0, i as int),
            decreases self.provider_index@.len() - i,
        {
            out.push((self.provider_index[i].0.clone(), self.provider_index[i].1.clone()));
            i = i + 1;
            assert(out@ =~= self.provider_index@.subrange(0, i as int));
        }
        assert(out@ =~= self.provider_index@);
        proof {
            lemma_unique_pairs_len(out@);
            assert forall|url: Seq<char>, hash: Seq<char>| #[trigger] lists_provider(out@, url, hash)
                <==> (self.index().contains_key(url) && self.index()[url] == hash) by {
                lemma_pairs_membership(out@, url, hash);
            }
        }
        out
    }

    /// The favourites kept in the cache (none when the entry is missing).
    pub fn get_favourites(&self, cached: Option<Vec<FavouriteStream>>) -> (r: Vec<FavouriteStream>)
        ensures
            match cached {
                Some(v) => r@ == v@,
                None => r@.len() == 0,
            },
    {
        match cached {
            Some(v) => v,
            None => Vec::new(),
        }
    }

    /// The favourites list after adding `favourite`, or `None` when a
    /// favourite with the same id and type is already there (nothing to store).
    pub fn add_favourite(&self, current: Vec<FavouriteStream>, favourite: FavouriteStream) -> (r: Option<Vec<FavouriteStream>>)
        ensures
            opt_list_view(r) == favourite_added(current@, favourite),
    {
        crate::favourites::add_favourite_to(current, favourite)
    }

    /// The favourites list without any entry of the given id and type.
    pub fn remove_favourite(&self, current: Vec<FavouriteStream>, stream_id: u32, stream_type: &str) -> (r: Vec<FavouriteStream>)
        ensures
            r@ == favourite_removed(current@, stream_id, stream_type@),
    {
        crate::favourites::remove_favourite_from(current, stream_id, stream_type)
    }

    /// Whether the list holds an entry of the given id and type.
    pub fn is_favourite(&self, current: &Vec<FavouriteStream>, stream_id: u32, stream_type: &str) -> (r: bool)
        ensures
            r == contains_favourite(current@, stream_id, stream_type@),
    {
        crate::favourites::list_has_favourite(current, stream_id, stream_type)
    }
}

proof fn lemma_map_agree(old_pairs: Seq<(String, String)>, new_pairs: Seq<(String, String)>, i: int, k: Seq<char>)
    requires
        keys_unique(old_pairs),
        0 <= i < old_pairs.len(),
        new_pairs.len() == old_pairs.len(),
        new_pairs[i].0@ == old_pairs[i].0@,
        forall|j: int| 0 <= j < old_pairs.len() && j != i ==> new_pairs[j] == old_pairs[j],
    ensures
        pairs_map(new_pairs).contains_key(k) == pairs_map(old_pairs).insert(new_pairs[i].0@, new_pairs[i].1@).contains_key(k),
        pairs_map(new_pairs).contains_key(k) ==> pairs_map(new_pairs)[k]
            == pairs_map(old_pairs).insert(new_pairs[i].0@, new_pairs[i].1@)[k],
    decreases old_pairs.len(),
{
    let n = old_pairs.len();
    if i == n - 1 {
        assert(new_pairs.drop_last() =~= old_pairs.drop_last());
    } else {
        lemma_map_agree(old_pairs.drop_last(), new_pairs.drop_last(), i, k);
        assert(old_pairs.last().0@ != old_pairs[i].0@);
    }
}

proof fn lemma_unique_pairs_len(pairs: Seq<(String, String)>)
    requires
        keys_unique(pairs),
    ensures
        pairs_map(pairs).len() == pairs.len(),
        pairs_map(pairs).dom().finite(),
    decreases pairs.len(),
{
    if pairs.len() > 0 {
        let init = pairs.drop_last();
        lemma_unique_pairs_len(init);
        assert forall|i: int| 0 <= i < init.len() implies init[i].0@ != pairs.last().0@ by {
            assert(pairs[i] == init[i]);
        }
        lemma_pairs_map_absent(init, pairs.last().0@);
    }
}

} // verus!
