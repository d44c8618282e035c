//! The guild policy cache: a bounded map from guild id to configuration
//! with least-recently-used eviction. The entries live in a `DashMap`, the
//! recency order in an `lru::LruCache` of guild ids.
use vstd::prelude::*;

use std::collections::hash_map::RandomState;

use crate::models::ServerConfig;

verus! {

/// The number of guilds whose configuration is kept in memory.
pub const CACHE_CAPACITY: usize = 1000;

#[verifier::external_type_specification]
#[verifier::external_body]
#[verifier::reject_recursive_types(K)]
#[verifier::reject_recursive_types(V)]
#[verifier::reject_recursive_types(S)]
pub struct ExLruCache<K, V, S>(lru::LruCache<K, V, S>);

#[verifier::external_type_specification]
#[verifier::external_body]
#[verifier::reject_recursive_types(K)]
#[verifier::reject_recursive_types(V)]
#[verifier::reject_recursive_types(S)]
pub struct ExDashMap<K, V, S>(dashmap::DashMap<K, V, S>);

/// The keys of a recency order, least recently used first.
pub uninterp spec fn lru_keys(c: lru::LruCache<u64, (), RandomState>) -> Seq<u64>;

/// The capacity a recency order was made with.
pub uninterp spec fn lru_cap(c: lru::LruCache<u64, (), RandomState>) -> nat;

/// The entries of a guild map.
pub uninterp spec fn map_entries(m: dashmap::DashMap<u64, ServerConfig>) -> Map<u64, ServerConfig>;

/// `s` with `k` moved from where it stands to the back.
pub open spec fn moved_back(s: Seq<u64>, k: u64) -> Seq<u64> {
    s.remove(s.index_of(k)).push(k)
}

/// Relies on `lru::LruCache::with_hasher`: an empty cache that holds at most `cap` keys.
#[verifier::external_body]
fn order_new(cap: usize) -> (r: lru::LruCache<u64, (), RandomState>)
    requires
        cap > 0,
    ensures
        lru_keys(r) == Seq::<u64>::empty(),
        lru_cap(r) == cap,
{
    lru::LruCache::with_hasher(std::num::NonZeroUsize::new(cap).unwrap(), RandomState::new())
}

/// Relies on `lru::LruCache::push`: a present key becomes the most recent and
/// is handed back; a new key is added as the most recent, and when the cache
/// is full the least recent key is removed and handed back.
#[verifier::external_body]
fn order_push(c: &mut lru::LruCache<u64, (), RandomState>, k: u64) -> (r: Option<u64>)
    requires
        lru_keys(*old(c)).no_duplicates(),
        lru_keys(*old(c)).len() <= lru_cap(*old(c)),
    ensures
        lru_cap(*final(c)) == lru_cap(*old(c)),
        lru_keys(*old(c)).contains(k) ==> r == Some(k) && lru_keys(*final(c)) == moved_back(
            lru_keys(*old(c)),
            k,
        ),
        !lru_keys(*old(c)).contains(k) && lru_keys(*old(c)).len() == lru_cap(*old(c)) ==> r
            == Some(lru_keys(*old(c))[0]) && lru_keys(*final(c)) == lru_keys(
            *old(c),
        ).drop_first().push(k),
        !lru_keys(*old(c)).contains(k) && lru_keys(*old(c)).len() < lru_cap(*old(c)) ==> r
            is None && lru_keys(*final(c)) == lru_keys(*old(c)).push(k),
{
    c.push(k, ()).map(|(key, _)| key)
}

/// Relies on `lru::LruCache::promote`: a present key becomes the most recent.
#[verifier::external_body]
fn order_promote(c: &mut lru::LruCache<u64, (), RandomState>, k: u64) -> (r: bool)
    ensures
        lru_cap(*final(c)) == lru_cap(*old(c)),
        r == lru_keys(*old(c)).contains(k),
        r ==> lru_keys(*final(c)) == moved_back(lru_keys(*old(c)), k),
        !r ==> lru_keys(*final(c)) == lru_keys(*old(c)),
{
    c.promote(&k)
}

/// Relies on `lru::LruCache::clear`: no key is left.
#[verifier::external_body]
fn order_clear(c: &mut lru::LruCache<u64, (), RandomState>)
    ensures
        lru_cap(*final(c)) == lru_cap(*old(c)),
        lru_keys(*final(c)) == Seq::<u64>::empty(),
{
    c.clear()
}

/// Relies on `dashmap::DashMap::new`: an empty map.
#[verifier::external_body]
fn map_new() -> (r: dashmap::DashMap<u64, ServerConfig>)
    ensures
        map_entries(r).dom() == Set::<u64>::empty(),
{
    dashmap::DashMap::new()
}

/// Relies on `dashmap::DashMap::get`: the value stored under `k`, if any.
#[verifier::external_body]
fn map_get(m: &dashmap::DashMap<u64, ServerConfig>, k: u64) -> (r: Option<ServerConfig>)
    ensures
        r == (if map_entries(*m).contains_key(k) {
            Some(map_entries(*m)[k])
        } else {
            None
        }),
{
    m.get(&k).map(|entry| *entry.value())
}

/// Relies on `dashmap::DashMap::insert`: `k` now maps to `v`.
#[verifier::external_body]
fn map_insert(m: &mut dashmap::DashMap<u64, ServerConfig>, k: u64, v: ServerConfig)
    ensures
        map_entries(*final(m)) == map_entries(*old(m)).insert(k, v),
{
    m.insert(k, v);
}

/// Relies on `dashmap::DashMap::remove`: `k` no longer has an entry.
#[verifier::external_body]
fn map_remove(m: &mut dashmap::DashMap<u64, ServerConfig>, k: u64)
    ensures
        map_entries(*final(m)) == map_entries(*old(m)).remove(k),
{
    m.remove(&k);
}

/// The abstract state of the cache: the recency order of the tracked guilds
/// (least recent first) and the cached configurations.
pub struct CacheState {
    pub order: Seq<u64>,
    pub entries: Map<u64, ServerConfig>,
}

pub open spec fn empty_state() -> CacheState {
    CacheState { order: Seq::empty(), entries: Map::empty() }
}

/// The order has each guild once and stays within the capacity.
pub open spec fn state_wf(st: CacheState, cap: nat) -> bool {
    &&& cap > 0
    &&& st.order.no_duplicates()
    &&& st.order.len() <= cap
}

/// The order tracks exactly the cached guilds.
pub open spec fn in_sync(st: CacheState) -> bool {
    forall|x: u64| st.order.contains(x) <==> st.entries.contains_key(x)
}

/// While the order tracks exactly the cached guilds, the cache holds at most
/// `cap` configurations.
pub proof fn lemma_sync_bounds_entries(st: CacheState, cap: nat)
    requires
        state_wf(st, cap),
        in_sync(st),
    ensures
        st.entries.dom() == st.order.to_set(),
        st.entries.dom().len() <= cap,
{
    assert(st.entries.dom() =~= st.order.to_set());
    st.order.lemma_cardinality_of_set();
}

/// A hit on `k`: a tracked guild becomes the most recent.
pub open spec fn touch(st: CacheState, k: u64) -> CacheState {
    if st.order.contains(k) {
        CacheState { order: moved_back(st.order, k), entries: st.entries }
    } else {
        st
    }
}

/// Storing `c` under `k`: `k` becomes the most recent; a new guild in a full
/// cache evicts the least recent one, from the order and the entries alike.
pub open spec fn store_spec(st: CacheState, cap: nat, k: u64, c: ServerConfig) -> CacheState {
    if st.order.contains(k) {
        CacheState { order: moved_back(st.order, k), entries: st.entries.insert(k, c) }
    } else if st.order.len() >= cap {
        CacheState {
            order: st.order.drop_first().push(k),
            entries: st.entries.remove(st.order[0]).insert(k, c),
        }
    } else {
        CacheState { order: st.order.push(k), entries: st.entries.insert(k, c) }
    }
}

/// Filling the cache after a lookup: a guild already cached is only touched.
pub open spec fn fill_spec(st: CacheState, cap: nat, k: u64, c: ServerConfig) -> CacheState {
    if st.entries.contains_key(k) {
        touch(st, k)
    } else {
        store_spec(st, cap, k, c)
    }
}

/// Looking up each guild of `keys` in turn, a miss filling the cache with
/// the guild's stored configuration `rows(guild)`.
pub open spec fn fill_all(
    st: CacheState,
    cap: nat,
    keys: Seq<u64>,
    rows: spec_fn(u64) -> ServerConfig,
) -> CacheState
    decreases keys.len(),
{
    if keys.len() == 0 {
        st
    } else {
        let k = keys.last();
        fill_spec(fill_all(st, cap, keys.drop_last(), rows), cap, k, rows(k))
    }
}

pub proof fn lemma_moved_back(s: Seq<u64>, k: u64)
    requires
        s.no_duplicates(),
        s.contains(k),
    ensures
        moved_back(s, k).no_duplicates(),
        moved_back(s, k).len() == s.len(),
        forall|x: u64| moved_back(s, k).contains(x) <==> s.contains(x),
{
    let i = s.index_of(k);
    let t = s.remove(i);
    s.remove_ensures(i);
    assert forall|a: int, b: int| 0 <= a < b < t.len() implies t[a] != t[b] by {
        let a2 = if a < i { a } else { a + 1 };
        let b2 = if b < i { b } else { b + 1 };
        assert(t[a] == s[a2] && t[b] == s[b2]);
    }
    assert forall|a: int| 0 <= a < t.len() implies t[a] != k by {
        let a2 = if a < i { a } else { a + 1 };
        assert(t[a] == s[a2]);
    }
    let u = t.push(k);
    assert forall|a: int, b: int| 0 <= a < b < u.len() implies u[a] != u[b] by {
        if b == u.len() - 1 {
            assert(u[a] == t[a]);
        } else {
            assert(u[a] == t[a] && u[b] == t[b]);
        }
    }
    assert forall|x: u64| u.contains(x) <==> s.contains(x) by {
        if s.contains(x) {
            let j = choose|j: int| 0 <= j < s.len() && s[j] == x;
            if j < i {
                assert(u[j] == x);
            } else if j > i {
                assert(u[j - 1] == x);
            } else {
                assert(u[u.len() - 1] == x);
            }
        }
        if u.contains(x) {
            let j = choose|j: int| 0 <= j < u.len() && u[j] == x;
            if j == u.len() - 1 {
                assert(s[i] == x);
            } else if j < i {
                assert(s[j] == x);
            } else {
                assert(s[j + 1] == x);
            }
        }
    }
}

pub proof fn lemma_drop_push(s: Seq<u64>, k: u64)
    requires
        s.no_duplicates(),
        !s.contains(k),
        s.len() > 0,
    ensures
        s.drop_first().push(k).no_duplicates(),
        s.drop_first().push(k).len() == s.len(),
        forall|x: u64|
            s.drop_first().push(k).contains(x) <==> ((s.contains(x) && x != s[0]) || x == k),
{
    let u = s.drop_first().push(k);
    assert forall|a: int, b: int| 0 <= a < b < u.len() implies u[a] != u[b] by {
        if b == u.len() - 1 {
            assert(u[a] == s[a + 1]);
        } else {
            assert(u[a] == s[a + 1] && u[b] == s[b + 1]);
        }
    }
    assert forall|x: u64| u.contains(x) <==> ((s.contains(x) && x != s[0]) || x == k) by {
        if s.contains(x) && x != s[0] {
            let j = choose|j: int| 0 <= j < s.len() && s[j] == x;
            assert(j != 0);
            assert(u[j - 1] == x);
        }
        if x == k {
            assert(u[u.len() - 1] == x);
        }
        if u.contains(x) {
            let j = choose|j: int| 0 <= j < u.len() && u[j] == x;
            if j < u.len() - 1 {
                assert(s[j + 1] == x);
                assert(x != s[0]);
            }
        }
    }
}

pub proof fn lemma_push_fresh(s: Seq<u64>, k: u64)
    requires
        s.no_duplicates(),
        !s.contains(k),
    ensures
        s.push(k).no_duplicates(),
        forall|x: u64| s.push(k).contains(x) <==> (s.contains(x) || x == k),
{
    let u = s.push(k);
    assert forall|a: int, b: int| 0 <= a < b < u.len() implies u[a] != u[b] by {
        if b == u.len() - 1 {
            assert(u[a] == s[a]);
        } else {
            assert(u[a] == s[a] && u[b] == s[b]);
        }
    }
    assert forall|x: u64| u.contains(x) <==> (s.contains(x) || x == k) by {
        if s.contains(x) {
            let j = choose|j: int| 0 <= j < s.len() && s[j] == x;
            assert(u[j] == x);
        }
        if x == k {
            assert(u[u.len() - 1] == x);
        }
        if u.contains(x) {
            let j = choose|j: int| 0 <= j < u.len() && u[j] == x;
            if j < u.len() - 1 {
                assert(s[j] == x);
            }
        }
    }
}

/// Every cache operation keeps the state well formed.
pub proof fn lemma_ops_keep_wf(st: CacheState, cap: nat, k: u64, c: ServerConfig)
    requires
        state_wf(st, cap),
    ensures
        state_wf(touch(st, k), cap),
        state_wf(store_spec(st, cap, k, c), cap),
        state_wf(fill_spec(st, cap, k, c), cap),
        in_sync(st) ==> in_sync(touch(st, k)),
        in_sync(st) ==> in_sync(store_spec(st, cap, k, c)),
        in_sync(st) ==> in_sync(fill_spec(st, cap, k, c)),
{
    if st.order.contains(k) {
        lemma_moved_back(st.order, k);
        let o = moved_back(st.order, k);
        assert forall|x: u64| #[trigger] o.contains(x) <==> st.order.contains(x) by {}
    } else if st.order.len() >= cap {
        lemma_drop_push(st.order, k);
        let o = st.order.drop_first().push(k);
        let e2 = st.entries.remove(st.order[0]).insert(k, c);
        if in_sync(st) {
            assert forall|x: u64| #[trigger] o.contains(x) <==> e2.contains_key(x) by {
                if x != k && x != st.order[0] {
                    assert(st.order.contains(x) <==> st.entries.contains_key(x));
                }
            }
        }
    } else {
        lemma_push_fresh(st.order, k);
        let o = st.order.push(k);
        let e = st.entries.insert(k, c);
        if in_sync(st) {
            assert forall|x: u64| #[trigger] o.contains(x) <==> e.contains_key(x) by {
                if x != k {
                    assert(st.order.contains(x) <==> st.entries.contains_key(x));
                }
            }
        }
    }
}

/// Storing a guild that a full cache does not hold evicts exactly the least
/// recently used guild: every other entry is kept unchanged, the new guild
/// holds its configuration and is the most recent, and the order still
/// tracks exactly the cached guilds.
pub proof fn lemma_full_store_evicts_least_recent(
    st: CacheState,
    cap: nat,
    k: u64,
    c: ServerConfig,
)
    requires
        state_wf(st, cap),
        in_sync(st),
        st.order.len() == cap,
        !st.entries.contains_key(k),
    ensures
        ({
            let r = store_spec(st, cap, k, c);
            &&& r.entries.dom() == st.entries.dom().remove(st.order[0]).insert(k)
            &&& r.entries[k] == c
            &&& forall|x: u64|
                st.entries.contains_key(x) && x != st.order[0] ==> #[trigger] r.entries[x]
                    == st.entries[x]
            &&& r.order == st.order.drop_first().push(k)
            &&& r.order.last() == k
            &&& in_sync(r)
        }),
{
    lemma_ops_keep_wf(st, cap, k, c);
    let r = store_spec(st, cap, k, c);
    assert(r.entries.dom() =~= st.entries.dom().remove(st.order[0]).insert(k));
}

/// Looking up `cap + 1` distinct guilds in an empty cache of capacity `cap`
/// evicts exactly the first of them, the least recently used: a later lookup
/// misses on it and hits on every other, each holding its stored row.
pub proof fn lemma_lru_eviction(cap: nat, keys: Seq<u64>, rows: spec_fn(u64) -> ServerConfig)
    requires
        cap > 0,
        keys.len() == cap + 1,
        keys.no_duplicates(),
    ensures
        !fill_all(empty_state(), cap, keys, rows).entries.contains_key(keys[0]),
        forall|i: int|
            1 <= i < keys.len() ==> #[trigger] fill_all(
                empty_state(),
                cap,
                keys,
                rows,
            ).entries.contains_key(keys[i]) && fill_all(empty_state(), cap, keys, rows).entries[keys[i]]
                == rows(keys[i]),
        in_sync(fill_all(empty_state(), cap, keys, rows)),
{
    let pre = keys.drop_last();
    assert(pre.no_duplicates());
    lemma_fill_distinct(cap, pre, rows);
    let st = fill_all(empty_state(), cap, pre, rows);
    let k = keys.last();
    assert(!pre.contains(k)) by {
        if pre.contains(k) {
            let j = choose|j: int| 0 <= j < pre.len() && pre[j] == k;
            assert(keys[j] == keys[keys.len() - 1]);
        }
    }
    assert(!st.entries.contains_key(k));
    assert(st.order[0] == keys[0]);
    assert(keys[0] != k);
    lemma_ops_keep_wf(st, cap, k, rows(k));
    assert forall|i: int| 1 <= i < keys.len() implies #[trigger] fill_all(
        empty_state(),
        cap,
        keys,
        rows,
    ).entries.contains_key(keys[i]) && fill_all(empty_state(), cap, keys, rows).entries[keys[i]]
        == rows(keys[i]) by {
        if i < keys.len() - 1 {
            assert(pre[i] == keys[i]);
            assert(pre.contains(keys[i]));
            assert(keys[i] != keys[0]);
        }
    }
}

/// Looking up at most `cap` distinct guilds in an empty cache tracks them in
/// that order and caches exactly them, each with its stored row.
pub proof fn lemma_fill_distinct(cap: nat, keys: Seq<u64>, rows: spec_fn(u64) -> ServerConfig)
    requires
        cap > 0,
        keys.len() <= cap,
        keys.no_duplicates(),
    ensures
        fill_all(empty_state(), cap, keys, rows).order == keys,
        forall|x: u64|
            fill_all(empty_state(), cap, keys, rows).entries.contains_key(x) <==> keys.contains(x),
        forall|x: u64|
            keys.contains(x) ==> #[trigger] fill_all(empty_state(), cap, keys, rows).entries[x]
                == rows(x),
        state_wf(fill_all(empty_state(), cap, keys, rows), cap),
        in_sync(fill_all(empty_state(), cap, keys, rows)),
    decreases keys.len(),
{
    if keys.len() > 0 {
        let pre = keys.drop_last();
        let k = keys.last();
        assert(pre.no_duplicates());
        lemma_fill_distinct(cap, pre, rows);
        assert(!pre.contains(k)) by {
            if pre.contains(k) {
                let j = choose|j: int| 0 <= j < pre.len() && pre[j] == k;
                assert(keys[j] == keys[keys.len() - 1]);
            }
        }
        lemma_ops_keep_wf(fill_all(empty_state(), cap, pre, rows), cap, k, rows(k));
        assert(pre.push(k) =~= keys);
        assert forall|x: u64| keys.contains(x) <==> (pre.contains(x) || x == k) by {
            lemma_push_fresh(pre, k);
        }
    } else {
        assert(keys =~= Seq::<u64>::empty());
        assert(Seq::<u64>::empty().no_duplicates());
    }
}

/// The guild policy cache.
pub struct ConfigCache {
    cache: dashmap::DashMap<u64, ServerConfig>,
    lru: lru::LruCache<u64, (), RandomState>,
}

impl ConfigCache {
    pub closed spec fn state(&self) -> CacheState {
        CacheState { order: lru_keys(self.lru), entries: map_entries(self.cache) }
    }

    pub closed spec fn capacity(&self) -> nat {
        lru_cap(self.lru)
    }

    pub open spec fn wf(&self) -> bool {
        state_wf(self.state(), self.capacity())
    }

    pub open spec fn in_sync(&self) -> bool {
        in_sync(self.state())
    }

    /// An empty cache for `CACHE_CAPACITY` guilds.
    pub fn new() -> (r: ConfigCache)
        ensures
            r.wf(),
            r.in_sync(),
            r.state() == empty_state(),
            r.capacity() == CACHE_CAPACITY,
    {
        ConfigCache::with_capacity(CACHE_CAPACITY)
    }

    /// An empty cache for `cap` guilds.
    pub fn with_capacity(cap: usize) -> (r: ConfigCache)
        requires
            cap > 0,
        ensures
            r.wf(),
            r.in_sync(),
            r.state() == empty_state(),
            r.capacity() == cap,
    {
        let r = ConfigCache { cache: map_new(), lru: order_new(cap) };
        assert(r.state().entries =~= Map::<u64, ServerConfig>::empty());
        r
    }

    /// The cached configuration of a guild; a hit makes it the most recent.
    pub fn get_cached(&mut self, guild_id: u64) -> (r: Option<ServerConfig>)
        requires
            old(self).wf(),
        ensures
            old(self).in_sync() ==> final(self).in_sync(),
            final(self).wf(),
            final(self).capacity() == old(self).capacity(),
            r == (if old(self).state().entries.contains_key(guild_id) {
                Some(old(self).state().entries[guild_id])
            } else {
                None
            }),
            final(self).state() == (if old(self).state().entries.contains_key(guild_id) {
                touch(old(self).state(), guild_id)
            } else {
                old(self).state()
            }),
    {
        proof {
            lemma_ops_keep_wf(self.state(), self.capacity(), guild_id, ServerConfig::new_spec(guild_id));
        }
        match map_get(&self.cache, guild_id) {
            Some(c) => {
                order_promote(&mut self.lru, guild_id);
                Some(c)
            },
            None => None,
        }
    }

    /// Caches `config` for a guild unless it is cached already, in which case
    /// the guild only becomes the most recent.
    pub fn try_insert(&mut self, guild_id: u64, config: ServerConfig)
        requires
            old(self).wf(),
        ensures
            old(self).in_sync() ==> final(self).in_sync(),
            final(self).wf(),
            final(self).capacity() == old(self).capacity(),
            final(self).state() == fill_spec(old(self).state(), old(self).capacity(), guild_id, config),
    {
        proof {
            lemma_ops_keep_wf(self.state(), self.capacity(), guild_id, config);
        }
        if map_get(&self.cache, guild_id).is_some() {
            order_promote(&mut self.lru, guild_id);
        } else {
            self.insert(guild_id, config);
        }
    }

    fn insert(&mut self, guild_id: u64, config: ServerConfig)
        requires
            old(self).wf(),
        ensures
            old(self).in_sync() ==> final(self).in_sync(),
            final(self).wf(),
            final(self).capacity() == old(self).capacity(),
            final(self).state() == store_spec(old(self).state(), old(self).capacity(), guild_id, config),
    {
        proof {
            lemma_ops_keep_wf(self.state(), self.capacity(), guild_id, config);
        }
        let ghost st = self.state();
        match order_push(&mut self.lru, guild_id) {
            Some(evicted) => map_remove(&mut self.cache, evicted),
            None => {},
        }
        map_insert(&mut self.cache, guild_id, config);
        proof {
            if st.order.contains(guild_id) {
                assert(map_entries(self.cache) =~= st.entries.insert(guild_id, config));
            }
        }
    }

    /// Completes a lookup that missed: the stored configuration, or the
    /// default when the store has none (or could not be read), is cached and
    /// returned.
    pub fn fill(&mut self, guild_id: u64, stored: Option<ServerConfig>) -> (r: ServerConfig)
        requires
            old(self).wf(),
        ensures
            old(self).in_sync() ==> final(self).in_sync(),
            final(self).wf(),
            final(self).capacity() == old(self).capacity(),
            r == match stored {
                Some(c) => c,
                None => ServerConfig::new_spec(guild_id),
            },
            final(self).state() == fill_spec(old(self).state(), old(self).capacity(), guild_id, r),
    {
        let config = match stored {
            Some(c) => c,
            None => ServerConfig::new(guild_id),
        };
        self.try_insert(guild_id, config);
        config
    }

    /// Replaces a guild's cached configuration after it was stored.
    pub fn update_config(&mut self, guild_id: u64, config: ServerConfig)
        requires
            old(self).wf(),
        ensures
            old(self).in_sync() ==> final(self).in_sync(),
            final(self).wf(),
            final(self).capacity() == old(self).capacity(),
            final(self).state() == store_spec(old(self).state(), old(self).capacity(), guild_id, config),
            old(self).in_sync() && old(self).state().order.len() == old(self).capacity()
                && !old(self).state().entries.contains_key(guild_id) ==> ({
                let o = old(self).state();
                let f = final(self).state();
                &&& f.entries.dom() == o.entries.dom().remove(o.order[0]).insert(guild_id)
                &&& f.entries[guild_id] == config
                &&& forall|x: u64|
                    o.entries.contains_key(x) && x != o.order[0] ==> #[trigger] f.entries[x]
                        == o.entries[x]
                &&& f.order.last() == guild_id
            }),
    {
        proof {
            if self.in_sync() && self.state().order.len() == self.capacity()
                && !self.state().entries.contains_key(guild_id) {
                lemma_full_store_evicts_least_recent(self.state(), self.capacity(), guild_id, config);
            }
        }
        self.insert(guild_id, config);
    }

    /// Recovers from a recency order left inconsistent by a failure: the
    /// order is cleared and restarts with only `guild_id`, the guild being
    /// touched; the cached configurations are left as they are.
    pub fn recover(&mut self, guild_id: u64)
        requires
            old(self).wf(),
        ensures
            final(self).wf(),
            final(self).capacity() == old(self).capacity(),
            final(self).state().order == seq![guild_id],
            final(self).state().entries == old(self).state().entries,
    {
        order_clear(&mut self.lru);
        order_push(&mut self.lru, guild_id);
        proof {
            assert(Seq::<u64>::empty().push(guild_id) =~= seq![guild_id]);
            assert(seq![guild_id].no_duplicates());
        }
    }
}

} // verus!
