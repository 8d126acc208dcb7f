//! The local cache in front of the backend: entries with a time to live,
//! kept by a weighted in-memory cache.
//!
//! The caches themselves come from outside this library and forget entries
//! as they see fit. What this module decides, and proves, is what may leave
//! them: an entry is handed out only for the key it was stored under and
//! only before its time is up.

use vstd::prelude::*;
use crate::config::{MemoryCacheImpl, MAX_LOCAL_TTL_SECONDS};
use crate::memcache::{Value, ValueView};

verus! {

/// The bytes that an entry weighs beyond its key and its data.
pub const ENTRY_OVERHEAD: usize = 32;

/// What the local cache keeps for a key.
#[derive(Debug, Clone, PartialEq, Eq)]
pub enum CacheValue {
    Memcached { value: Value },
}

impl View for CacheValue {
    type V = ValueView;

    open spec fn view(&self) -> ValueView {
        match self {
            CacheValue::Memcached { value } => value@,
        }
    }
}

/// A cached value and the instant, in seconds on the caller's clock, from
/// which it is no longer served.
#[derive(Debug, Clone, PartialEq, Eq)]
pub struct CacheEntry {
    pub value: CacheValue,
    pub expire_at: u64,
}

/// The seconds that entries live in a cache built for `ttl` seconds: that
/// many, five years at most.
pub open spec fn clamped_ttl(ttl: u64) -> u64 {
    if ttl > MAX_LOCAL_TTL_SECONDS {
        MAX_LOCAL_TTL_SECONDS
    } else {
        ttl
    }
}

/// The instant from which an entry stored at `now` to live `ttl` seconds is
/// no longer served; the last instant of the clock where that lies beyond it.
pub open spec fn expiry(now: u64, ttl: u64) -> u64 {
    if now + ttl > u64::MAX {
        u64::MAX
    } else {
        (now + ttl) as u64
    }
}

/// The weight of an entry with a key and data of these lengths.
pub open spec fn entry_weight(key_len: nat, data_len: nat) -> nat {
    key_len + data_len + ENTRY_OVERHEAD as nat
}

/// The entry `e` may be served for `key` at `now`: it was stored for that
/// key and its time is not up.
pub open spec fn servable(e: CacheEntry, key: Seq<u8>, now: u64) -> bool {
    e.value@.key == key && now < e.expire_at
}

/// What a lookup that found `found` hands out for `key` at `now`.
pub open spec fn released(found: Option<CacheEntry>, key: Seq<u8>, now: u64) -> Option<
    CacheEntry,
> {
    match found {
        Some(e) => if servable(e, key, now) {
            Some(e)
        } else {
            None
        },
        None => None,
    }
}

impl CacheEntry {
    /// The entry that holds `value` from `now` on for `ttl` seconds.
    pub fn stamp(value: CacheValue, now: u64, ttl: u64) -> (entry: CacheEntry)
        ensures
            entry.value == value,
            entry.expire_at == expiry(now, ttl),
    {
        let expire_at = if ttl > u64::MAX - now {
            u64::MAX
        } else {
            now + ttl
        };
        CacheEntry { value, expire_at }
    }

    /// The cached value.
    pub fn into_value(self) -> (value: CacheValue)
        ensures
            value == self.value,
    {
        self.value
    }

    /// The seconds that the entry has left at `now`; 0 once its time is up.
    pub fn remaining_seconds(&self, now: u64) -> (left: u64)
        ensures
            left == if now < self.expire_at {
                self.expire_at - now
            } else {
                0
            },
    {
        if now < self.expire_at {
            self.expire_at - now
        } else {
            0
        }
    }

    /// The wall-clock second at which the entry expires, given that the
    /// caller's clock reads `now` when the wall clock reads `epoch_now`; the
    /// last second of the wall clock where that lies beyond it.
    pub fn expiry_epoch_seconds(&self, now: u64, epoch_now: u64) -> (at: u64)
        ensures
            at == expiry(
                epoch_now,
                if now < self.expire_at {
                    (self.expire_at - now) as u64
                } else {
                    0
                },
            ),
    {
        let left = self.remaining_seconds(now);
        if left > u64::MAX - epoch_now {
            u64::MAX
        } else {
            epoch_now + left
        }
    }

    /// Whether the key under which the entry was stored is `key`.
    pub fn is_for(&self, key: &[u8]) -> (yes: bool)
        ensures
            yes == (self.value@.key == key@),
    {
        match &self.value {
            CacheValue::Memcached { value } => crate::bytes::bytes_eq(value.key.as_slice(), key),
        }
    }

    /// What a lookup that found `found` hands out for `key` at `now`: the
    /// entry where it was stored for that key and its time is not up.
    pub fn release(found: Option<CacheEntry>, key: &[u8], now: u64) -> (out: Option<CacheEntry>)
        ensures
            out == released(found, key@, now),
    {
        match found {
            Some(e) => {
                if e.is_for(key) && now < e.expire_at {
                    Some(e)
                } else {
                    None
                }
            },
            None => None,
        }
    }
}

/// The weight of an entry: the lengths of its key and of its data and a
/// fixed overhead, or the largest weight where that is more.
pub fn weigh(key: &Vec<u8>, entry: &CacheEntry) -> (weight: u32)
    ensures
        weight == if entry_weight(key@.len(), entry.value@.data.len()) > u32::MAX {
            u32::MAX as nat
        } else {
            entry_weight(key@.len(), entry.value@.data.len())
        },
{
    let data_len = match &entry.value {
        CacheValue::Memcached { value } => value.data.len(),
    };
    let limit: usize = u32::MAX as usize;
    let key_len = key.len();
    if key_len > limit || data_len > limit - key_len {
        return u32::MAX;
    }
    let sum = key_len + data_len;
    if ENTRY_OVERHEAD > limit - sum {
        return u32::MAX;
    }
    (sum + ENTRY_OVERHEAD) as u32
}

/// The weight of an entry for a cache that counts in `usize`.
pub fn weigh_wide(key: &Vec<u8>, entry: &CacheEntry) -> (weight: usize)
    ensures
        weight == if entry_weight(key@.len(), entry.value@.data.len()) > usize::MAX {
            usize::MAX as nat
        } else {
            entry_weight(key@.len(), entry.value@.data.len())
        },
{
    let data_len = match &entry.value {
        CacheValue::Memcached { value } => value.data.len(),
    };
    let key_len = key.len();
    if data_len > usize::MAX - key_len {
        return usize::MAX;
    }
    let sum = key_len + data_len;
    if ENTRY_OVERHEAD > usize::MAX - sum {
        return usize::MAX;
    }
    sum + ENTRY_OVERHEAD
}

/// A `moka::sync::Cache` from byte keys to entries. The cache is shared and
/// changes under a shared reference, so this library reads nothing from it
/// but through the calls below.
#[verifier::external_body]
struct MokaStore {
    cache: moka::sync::Cache<Vec<u8>, CacheEntry>,
}

/// `moka::sync::CacheBuilder`: a cache that holds up to `max_capacity` in
/// weight, weighs each entry with `weigh`, and drops an entry `ttl_seconds`
/// after it was stored. The builder panics on a time to live of more than a
/// thousand years, which the bound keeps out. Nothing is claimed of the
/// cache that comes back.
#[verifier::external_body]
fn moka_build(max_capacity: u64, ttl_seconds: u64) -> (store: MokaStore)
    requires
        ttl_seconds <= MAX_LOCAL_TTL_SECONDS,
{
    let cache = moka::sync::Cache::builder()
        .max_capacity(max_capacity)
        .weigher(|key: &Vec<u8>, entry: &CacheEntry| weigh(key, entry))
        .time_to_live(std::time::Duration::from_secs(ttl_seconds))
        .build();
    MokaStore { cache }
}

/// `moka::sync::Cache::get`: a clone of an entry stored under `key`, or
/// nothing. The cache drops entries on its own, so nothing is claimed of
/// what comes back.
#[verifier::external_body]
fn moka_get(store: &MokaStore, key: &[u8]) -> (found: Option<CacheEntry>) {
    store.cache.get(key)
}

/// `moka::sync::Cache::insert`: stores `entry` under `key`.
#[verifier::external_body]
fn moka_insert(store: &MokaStore, key: Vec<u8>, entry: CacheEntry) {
    store.cache.insert(key, entry)
}

/// `moka::sync::Cache::remove`: drops what is stored under `key` and hands
/// out a clone of it, if there was anything.
#[verifier::external_body]
fn moka_remove(store: &MokaStore, key: &[u8]) -> (removed: Option<CacheEntry>) {
    store.cache.remove(key)
}

/// A clone of the handle: the same cache.
#[verifier::external_body]
fn moka_share(store: &MokaStore) -> (shared: MokaStore) {
    MokaStore { cache: store.cache.clone() }
}

/// The in-memory tier for callers on a blocking thread.
pub struct SyncMokaCache {
    cache: MokaStore,
    ttl: u64,
}

impl Clone for SyncMokaCache {
    /// Another handle to the same cache.
    fn clone(&self) -> (other: SyncMokaCache)
        ensures
            other.ttl() == self.ttl(),
    {
        proof {
            use_type_invariant(self);
        }
        SyncMokaCache { cache: moka_share(&self.cache), ttl: self.ttl }
    }
}

impl SyncMokaCache {
    /// The seconds that entries of this cache live.
    pub closed spec fn ttl(&self) -> u64 {
        self.ttl
    }

    #[verifier::type_invariant]
    spec fn ttl_is_clamped(self) -> bool {
        self.ttl <= MAX_LOCAL_TTL_SECONDS
    }

    /// The entry that this cache stores for `value` at `now`: it expires
    /// when the time to live of the cache has passed, which is never more
    /// than five years.
    pub fn entry_for(&self, value: CacheValue, now: u64) -> (entry: CacheEntry)
        ensures
            entry.value == value,
            entry.expire_at == expiry(now, self.ttl()),
            entry.expire_at - now <= MAX_LOCAL_TTL_SECONDS,
    {
        proof {
            use_type_invariant(self);
        }
        CacheEntry::stamp(value, now, self.ttl)
    }

    /// A cache of up to `max_bytes` in weight whose entries live `ttl`
    /// seconds, five years at most.
    pub fn new(max_bytes: usize, ttl: u64) -> (cache: SyncMokaCache)
        ensures
            cache.ttl() == clamped_ttl(ttl),
    {
        let ttl = if ttl > MAX_LOCAL_TTL_SECONDS {
            MAX_LOCAL_TTL_SECONDS
        } else {
            ttl
        };
        SyncMokaCache { cache: moka_build(max_bytes as u64, ttl), ttl }
    }

    /// The seconds that entries of this cache live.
    pub fn ttl_seconds(&self) -> (ttl: u64)
        ensures
            ttl == self.ttl(),
    {
        self.ttl
    }

    /// The entry for `key`, where the cache holds one whose time is not up
    /// at `now`.
    pub fn get(&self, key: &[u8], now: u64) -> (found: Option<CacheEntry>)
        ensures
            found matches Some(e) ==> servable(e, key@, now),
    {
        CacheEntry::release(moka_get(&self.cache, key), key, now)
    }

    /// Stores `value` under `key`, to be served from `now` until the time to
    /// live of this cache has passed.
    pub fn set(&self, key: Vec<u8>, value: CacheValue, now: u64) {
        let entry = self.entry_for(value, now);
        moka_insert(&self.cache, key, entry)
    }

    /// Drops what is stored under `key`, and hands out what the cache held.
    pub fn delete(&self, key: &[u8]) -> (removed: Option<CacheValue>) {
        CacheEntry::value_of(
            // what the cache held under the key
            moka_remove(&self.cache, key),
        )
    }
}

/// A `foyer::Cache` from byte keys to entries, the memory tier of foyer. The
/// cache is shared and changes under a shared reference, so this library
/// reads nothing from it but through the calls below.
#[verifier::external_body]
struct FoyerStore {
    cache: foyer::Cache<Vec<u8>, CacheEntry>,
}

/// `foyer::CacheBuilder`: a cache that holds up to `capacity` in weight and
/// weighs each entry with `weigh_wide`. Nothing is claimed of the cache that
/// comes back.
#[verifier::external_body]
fn foyer_build(capacity: usize) -> (store: FoyerStore) {
    let cache = foyer::CacheBuilder::new(capacity)
        .with_weighter(|key: &Vec<u8>, entry: &CacheEntry| weigh_wide(key, entry))
        .build();
    FoyerStore { cache }
}

/// `foyer::Cache::get`: a clone of the entry that the cache holds for `key`,
/// or nothing. The cache drops entries on its own, so nothing is claimed of
/// what comes back.
#[verifier::external_body]
fn foyer_get(store: &FoyerStore, key: &[u8]) -> (found: Option<CacheEntry>) {
    store.cache.get(key).map(|held| held.value().clone())
}

/// `foyer::Cache::insert`: stores `entry` under `key`.
#[verifier::external_body]
fn foyer_insert(store: &FoyerStore, key: Vec<u8>, entry: CacheEntry) {
    store.cache.insert(key, entry);
}

/// `foyer::Cache::remove`: drops what is stored under `key` and hands out a
/// clone of it, if there was anything.
#[verifier::external_body]
fn foyer_remove(store: &FoyerStore, key: &[u8]) -> (removed: Option<CacheEntry>) {
    store.cache.remove(key).map(|held| held.value().clone())
}

/// A clone of the handle: the same cache.
#[verifier::external_body]
fn foyer_share(store: &FoyerStore) -> (shared: FoyerStore) {
    FoyerStore { cache: store.cache.clone() }
}

/// The memory tier of the cache that can spill to disk.
pub struct FoyerCache {
    cache: FoyerStore,
    ttl: u64,
}

impl Clone for FoyerCache {
    /// Another handle to the same cache.
    fn clone(&self) -> (other: FoyerCache)
        ensures
            other.ttl() == self.ttl(),
    {
        proof {
            use_type_invariant(self);
        }
        FoyerCache { cache: foyer_share(&self.cache), ttl: self.ttl }
    }
}

impl FoyerCache {
    /// The seconds that entries of this cache live.
    pub closed spec fn ttl(&self) -> u64 {
        self.ttl
    }

    #[verifier::type_invariant]
    spec fn ttl_is_clamped(self) -> bool {
        self.ttl <= MAX_LOCAL_TTL_SECONDS
    }

    /// A cache of up to `memory_bytes` in weight whose entries live `ttl`
    /// seconds, five years at most.
    pub fn new(memory_bytes: usize, ttl: u64) -> (cache: FoyerCache)
        ensures
            cache.ttl() == clamped_ttl(ttl),
    {
        let ttl = if ttl > MAX_LOCAL_TTL_SECONDS {
            MAX_LOCAL_TTL_SECONDS
        } else {
            ttl
        };
        FoyerCache { cache: foyer_build(memory_bytes), ttl }
    }

    /// The seconds that entries of this cache live.
    pub fn ttl_seconds(&self) -> (ttl: u64)
        ensures
            ttl == self.ttl(),
    {
        self.ttl
    }

    /// The entry that this cache stores for `value` at `now`.
    pub fn entry_for(&self, value: CacheValue, now: u64) -> (entry: CacheEntry)
        ensures
            entry.value == value,
            entry.expire_at == expiry(now, self.ttl()),
            entry.expire_at - now <= MAX_LOCAL_TTL_SECONDS,
    {
        proof {
            use_type_invariant(self);
        }
        CacheEntry::stamp(value, now, self.ttl)
    }

    /// The entry for `key`, where the cache holds one whose time is not up
    /// at `now`.
    pub fn get(&self, key: &[u8], now: u64) -> (found: Option<CacheEntry>)
        ensures
            found matches Some(e) ==> servable(e, key@, now),
    {
        CacheEntry::release(foyer_get(&self.cache, key), key, now)
    }

    /// Stores `value` under `key`, to be served from `now` until the time to
    /// live of this cache has passed.
    pub fn set(&self, key: Vec<u8>, value: CacheValue, now: u64) {
        let entry = self.entry_for(value, now);
        foyer_insert(&self.cache, key, entry)
    }

    /// Drops what is stored under `key`, and hands out what the cache held.
    pub fn delete(&self, key: &[u8]) -> (removed: Option<CacheValue>) {
        CacheEntry::value_of(
            // what the cache held under the key
            foyer_remove(&self.cache, key),
        )
    }
}

/// The local cache of one logical cache, in one of its implementations.
#[derive(Clone)]
pub enum LocalCache {
    SyncMoka(SyncMokaCache),
    Foyer(FoyerCache),
}

impl LocalCache {
    /// The seconds that entries of this cache live.
    pub open spec fn ttl(&self) -> u64 {
        match self {
            LocalCache::SyncMoka(cache) => cache.ttl(),
            LocalCache::Foyer(cache) => cache.ttl(),
        }
    }

    /// The entry for `key`, where the cache holds one whose time is not up
    /// at `now`. An entry is never handed out at or after its expiry, nor
    /// for another key than its own.
    pub fn get(&self, key: &[u8], now: u64) -> (found: Option<CacheEntry>)
        ensures
            found matches Some(e) ==> servable(e, key@, now),
    {
        match self {
            LocalCache::SyncMoka(cache) => cache.get(key, now),
            LocalCache::Foyer(cache) => cache.get(key, now),
        }
    }

    /// Stores `value` under `key`, to be served from `now` until the time to
    /// live of this cache has passed.
    pub fn set(&self, key: Vec<u8>, value: CacheValue, now: u64) {
        match self {
            LocalCache::SyncMoka(cache) => cache.set(key, value, now),
            LocalCache::Foyer(cache) => cache.set(key, value, now),
        }
    }

    /// Drops what is stored under `key`, and hands out what the cache held.
    pub fn delete(&self, key: &[u8]) -> (removed: Option<CacheValue>) {
        match self {
            LocalCache::SyncMoka(cache) => cache.delete(key),
            LocalCache::Foyer(cache) => cache.delete(key),
        }
    }
}

/// The tier that a configuration asks for.
#[derive(Clone, Copy, Debug, PartialEq, Eq, Structural)]
pub enum Tier {
    /// In memory, for callers on a blocking thread.
    SyncMemory,
    /// In memory, for callers that may be suspended.
    AsyncMemory,
    /// The memory tier of the cache that can spill to disk, without a disk.
    SpillableMemory,
    /// Memory with a disk tier behind it.
    MemoryAndDisk,
}

/// The tier for an implementation and its disk options: a disk tier needs
/// both a size above 0 and a directory.
pub open spec fn tier_of(implementation: MemoryCacheImpl, disk_bytes: usize, has_disk_dir: bool)
    -> Tier {
    match implementation {
        MemoryCacheImpl::Moka => Tier::SyncMemory,
        MemoryCacheImpl::MokaAsync => Tier::AsyncMemory,
        MemoryCacheImpl::Foyer => if disk_bytes > 0 && has_disk_dir {
            Tier::MemoryAndDisk
        } else {
            Tier::SpillableMemory
        },
    }
}

/// The tier for an implementation and its disk options.
pub fn choose_tier(implementation: MemoryCacheImpl, disk_bytes: usize, has_disk_dir: bool) -> (tier:
    Tier)
    ensures
        tier == tier_of(implementation, disk_bytes, has_disk_dir),
{
    match implementation {
        MemoryCacheImpl::Moka => Tier::SyncMemory,
        MemoryCacheImpl::MokaAsync => Tier::AsyncMemory,
        MemoryCacheImpl::Foyer => if disk_bytes > 0 && has_disk_dir {
            Tier::MemoryAndDisk
        } else {
            Tier::SpillableMemory
        },
    }
}

/// Builds the local cache for a configuration, where its tier is one that
/// needs neither a disk nor a suspended caller; those are built by the
/// caller, who gets `None`.
pub fn create_cache(
    implementation: MemoryCacheImpl,
    memory_bytes: usize,
    ttl: u64,
    disk_bytes: usize,
    has_disk_dir: bool,
) -> (cache: Option<LocalCache>)
    ensures
        match tier_of(implementation, disk_bytes, has_disk_dir) {
            Tier::SyncMemory => cache matches Some(LocalCache::SyncMoka(c)) && c.ttl()
                == clamped_ttl(ttl),
            Tier::SpillableMemory => cache matches Some(LocalCache::Foyer(c)) && c.ttl()
                == clamped_ttl(ttl),
            _ => cache is None,
        },
{
    match choose_tier(implementation, disk_bytes, has_disk_dir) {
        Tier::SyncMemory => Some(LocalCache::SyncMoka(SyncMokaCache::new(memory_bytes, ttl))),
        Tier::SpillableMemory => Some(LocalCache::Foyer(FoyerCache::new(memory_bytes, ttl))),
        _ => None,
    }
}

impl CacheEntry {
    /// What a `delete` hands out for what the cache removed: the value of
    /// the entry, whatever its age, or nothing where the cache held nothing.
    pub fn value_of(removed: Option<CacheEntry>) -> (value: Option<CacheValue>)
        ensures
            value == match removed {
                Some(entry) => Some(entry.value),
                None => None,
            },
    {
        match removed {
            Some(entry) => Some(entry.into_value()),
            None => None,
        }
    }
}

} // verus!
