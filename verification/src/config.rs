//! The options that the core reads: one set per cache that the proxy
//! serves, and the number of worker threads.

use vstd::prelude::*;
use std::time::Duration;
use crate::{default_buffer_size, PAGESIZE};

verus! {

/// The longest time that an entry may live in the local cache: five years,
/// in seconds.
pub const MAX_LOCAL_TTL_SECONDS: u64 = 157680000;

/// The wire protocol that a cache is served with.
#[derive(Copy, Clone, Debug, PartialEq, Eq, Structural)]
pub enum Protocol {
    Memcache,
    Resp,
}

impl Default for Protocol {
    fn default() -> (protocol: Protocol)
        ensures
            protocol == Protocol::Memcache,
    {
        Protocol::Memcache
    }
}

/// The implementation behind the local cache.
#[derive(Copy, Clone, Debug, PartialEq, Eq, Structural)]
pub enum MemoryCacheImpl {
    /// In memory, for callers on a blocking thread.
    Moka,
    /// In memory, for callers that may be suspended.
    MokaAsync,
    /// In memory, with an optional disk tier behind it.
    Foyer,
}

impl Default for MemoryCacheImpl {
    fn default() -> (implementation: MemoryCacheImpl)
        ensures
            implementation == MemoryCacheImpl::Moka,
    {
        MemoryCacheImpl::Moka
    }
}

/// Whether memcache flags are carried when the configuration does not say:
/// they are.
pub fn flags() -> (on: bool)
    ensures
        on,
{
    true
}

/// The number of connections to the backend when the configuration names
/// none.
pub fn four() -> (n: usize)
    ensures
        n == 4,
{
    4
}

/// The duration of `secs` whole seconds.
pub uninterp spec fn duration_of_secs(secs: u64) -> Duration;

/// `Duration::from_secs` of std: the duration of that many whole seconds.
#[verifier::external_body]
fn duration_from_secs(secs: u64) -> (d: Duration)
    ensures
        d == duration_of_secs(secs),
{
    Duration::from_secs(secs)
}

/// Options of the proxy as a whole.
#[derive(Clone, Copy, Debug, PartialEq, Eq, Structural)]
pub struct Proxy {
    pub threads: Option<usize>,
}

impl Default for Proxy {
    fn default() -> (proxy: Proxy)
        ensures
            proxy.threads is None,
    {
        Proxy { threads: None }
    }
}

/// What a `Cache` holds.
pub struct CacheView {
    pub host: Seq<char>,
    pub port: Seq<char>,
    pub cache_name: Seq<char>,
    pub default_ttl: u64,
    pub connection_count: usize,
    pub protocol: Protocol,
    pub flags: bool,
    pub memory_cache_bytes: usize,
    pub memory_cache_ttl_seconds: u64,
    pub memory_cache_impl: MemoryCacheImpl,
    pub disk_cache_bytes: usize,
    pub disk_dir: Option<Seq<char>>,
    pub buffer_size: usize,
}

/// The options of one cache.
#[derive(Clone, Debug)]
pub struct Cache {
    host: String,
    port: String,
    cache_name: String,
    default_ttl: u64,
    connection_count: usize,
    protocol: Protocol,
    flags: bool,
    memory_cache_bytes: usize,
    memory_cache_ttl_seconds: u64,
    memory_cache_impl: MemoryCacheImpl,
    disk_cache_bytes: usize,
    disk_dir: Option<String>,
    buffer_size: usize,
}

/// The size of a buffer of `size` bytes, rounded up to whole pages; the
/// largest whole number of pages where that does not fit the machine.
pub open spec fn page_rounded(size: usize) -> int {
    let pages = (size + PAGESIZE - 1) / (PAGESIZE as int);
    if pages * PAGESIZE <= usize::MAX {
        pages * PAGESIZE
    } else {
        (usize::MAX / PAGESIZE) * PAGESIZE
    }
}

/// The time that entries live in a local cache configured with `seconds`:
/// that many seconds, five years at most, and five years where the
/// configuration says 0, which stands for no limit.
pub open spec fn local_ttl(seconds: u64) -> u64 {
    if seconds == 0 || seconds > MAX_LOCAL_TTL_SECONDS {
        MAX_LOCAL_TTL_SECONDS
    } else {
        seconds
    }
}

impl View for Cache {
    type V = CacheView;

    closed spec fn view(&self) -> CacheView {
        CacheView {
            host: self.host@,
            port: self.port@,
            cache_name: self.cache_name@,
            default_ttl: self.default_ttl,
            connection_count: self.connection_count,
            protocol: self.protocol,
            flags: self.flags,
            memory_cache_bytes: self.memory_cache_bytes,
            memory_cache_ttl_seconds: self.memory_cache_ttl_seconds,
            memory_cache_impl: self.memory_cache_impl,
            disk_cache_bytes: self.disk_cache_bytes,
            disk_dir: match self.disk_dir {
                Some(dir) => Some(dir@),
                None => None,
            },
            buffer_size: self.buffer_size,
        }
    }
}

impl Cache {
    /// The options are usable: the default time to live, the number of
    /// connections and the buffer size are not 0.
    pub open spec fn wf(&self) -> bool {
        self@.default_ttl > 0 && self@.connection_count > 0 && self@.buffer_size > 0
    }

    /// The options of a cache that listens on `host` and `port` and
    /// forwards to `cache_name`, with every other option at its default:
    /// four connections, the memcache protocol with flags, no local cache
    /// and no disk behind it, and the default buffer size. A default time to
    /// live of 0 is refused.
    pub fn new(host: String, port: String, cache_name: String, default_ttl: u64) -> (cache:
        Option<Cache>)
        ensures
            cache is Some <==> default_ttl > 0,
            cache matches Some(c) ==> c.wf() && c@ == (CacheView {
                host: host@,
                port: port@,
                cache_name: cache_name@,
                default_ttl,
                connection_count: 4,
                protocol: Protocol::Memcache,
                flags: true,
                memory_cache_bytes: 0,
                memory_cache_ttl_seconds: 0,
                memory_cache_impl: MemoryCacheImpl::Moka,
                disk_cache_bytes: 0,
                disk_dir: None,
                buffer_size: crate::INITIAL_BUFFER_SIZE,
            }),
    {
        if default_ttl == 0 {
            return None;
        }
        Some(
            Cache {
                host,
                port,
                cache_name,
                default_ttl,
                connection_count: four(),
                protocol: Protocol::default(),
                flags: flags(),
                memory_cache_bytes: 0,
                memory_cache_ttl_seconds: 0,
                memory_cache_impl: MemoryCacheImpl::default(),
                disk_cache_bytes: 0,
                disk_dir: None,
                buffer_size: default_buffer_size(),
            },
        )
    }

    /// These options with `count` connections to the backend; 0 is refused.
    pub fn with_connection_count(self, count: usize) -> (cache: Option<Cache>)
        requires
            self.wf(),
        ensures
            cache is Some <==> count > 0,
            cache matches Some(c) ==> c.wf() && c@ == (CacheView { connection_count: count, ..self@ }),
    {
        if count == 0 {
            return None;
        }
        let mut cache = self;
        cache.connection_count = count;
        Some(cache)
    }

    /// These options with another wire protocol.
    pub fn with_protocol(self, protocol: Protocol) -> (cache: Cache)
        requires
            self.wf(),
        ensures
            cache.wf(),
            cache@ == (CacheView { protocol, ..self@ }),
    {
        let mut cache = self;
        cache.protocol = protocol;
        cache
    }

    /// These options with memcache flags carried or not.
    pub fn with_flags(self, flags: bool) -> (cache: Cache)
        requires
            self.wf(),
        ensures
            cache.wf(),
            cache@ == (CacheView { flags, ..self@ }),
    {
        let mut cache = self;
        cache.flags = flags;
        cache
    }

    /// These options with a local cache of `bytes` bytes whose entries live
    /// `ttl_seconds` seconds.
    pub fn with_memory_cache(self, bytes: usize, ttl_seconds: u64) -> (cache: Cache)
        requires
            self.wf(),
        ensures
            cache.wf(),
            cache@ == (CacheView {
                memory_cache_bytes: bytes,
                memory_cache_ttl_seconds: ttl_seconds,
                ..self@
            }),
    {
        let mut cache = self;
        cache.memory_cache_bytes = bytes;
        cache.memory_cache_ttl_seconds = ttl_seconds;
        cache
    }

    /// These options with another implementation of the local cache.
    pub fn with_memory_cache_impl(self, implementation: MemoryCacheImpl) -> (cache: Cache)
        requires
            self.wf(),
        ensures
            cache.wf(),
            cache@ == (CacheView { memory_cache_impl: implementation, ..self@ }),
    {
        let mut cache = self;
        cache.memory_cache_impl = implementation;
        cache
    }

    /// These options with a disk tier of `bytes` bytes in the directory
    /// `dir` behind the local cache.
    pub fn with_disk_cache(self, bytes: usize, dir: Option<String>) -> (cache: Cache)
        requires
            self.wf(),
        ensures
            cache.wf(),
            cache@ == (CacheView {
                disk_cache_bytes: bytes,
                disk_dir: match dir {
                    Some(d) => Some(d@),
                    None => None,
                },
                ..self@
            }),
    {
        let mut cache = self;
        cache.disk_cache_bytes = bytes;
        cache.disk_dir = dir;
        cache
    }

    /// These options with a buffer of `size` bytes for each connection; 0
    /// is refused.
    pub fn with_buffer_size(self, size: usize) -> (cache: Option<Cache>)
        requires
            self.wf(),
        ensures
            cache is Some <==> size > 0,
            cache matches Some(c) ==> c.wf() && c@ == (CacheView { buffer_size: size, ..self@ }),
    {
        if size == 0 {
            return None;
        }
        let mut cache = self;
        cache.buffer_size = size;
        Some(cache)
    }

    /// Host address to listen on.
    pub fn host(&self) -> (host: String)
        ensures
            host@ == self@.host,
    {
        self.host.clone()
    }

    /// Port to listen on.
    pub fn port(&self) -> (port: String)
        ensures
            port@ == self@.port,
    {
        self.port.clone()
    }

    /// The name of the cache that requests are forwarded to.
    pub fn cache_name(&self) -> (name: String)
        ensures
            name@ == self@.cache_name,
    {
        self.cache_name.clone()
    }

    /// The time to live of an item whose `set` names none.
    pub fn default_ttl(&self) -> (ttl: Duration)
        ensures
            ttl == duration_of_secs(self@.default_ttl),
    {
        duration_from_secs(self.default_ttl)
    }

    /// The time to live of an item whose `set` names none, in seconds.
    pub fn default_ttl_seconds(&self) -> (seconds: u64)
        ensures
            seconds == self@.default_ttl,
    {
        self.default_ttl
    }

    /// Whether the default time to live is one that the backend takes: in
    /// microseconds it must not exceed a thousandth of the largest 64-bit
    /// number.
    pub fn default_ttl_in_range(&self) -> (ok: bool)
        ensures
            ok == (self@.default_ttl * 1000000 <= u64::MAX / 1000),
    {
        self.default_ttl <= u64::MAX / 1000 / 1000000
    }

    /// The number of connections to the backend.
    pub fn connection_count(&self) -> (count: usize)
        ensures
            count == self@.connection_count,
    {
        self.connection_count
    }

    /// The wire protocol that clients of this cache speak.
    pub fn protocol(&self) -> (protocol: Protocol)
        ensures
            protocol == self@.protocol,
    {
        self.protocol
    }

    /// Whether memcache flags are carried through the backend.
    pub fn flags(&self) -> (flags: bool)
        ensures
            flags == self@.flags,
    {
        self.flags
    }

    /// The size of the local cache in bytes; 0 for none.
    pub fn memory_cache_bytes(&self) -> (bytes: usize)
        ensures
            bytes == self@.memory_cache_bytes,
    {
        self.memory_cache_bytes
    }

    /// The seconds that an entry lives in the local cache; 0 for no limit.
    pub fn memory_cache_ttl_seconds(&self) -> (seconds: u64)
        ensures
            seconds == self@.memory_cache_ttl_seconds,
    {
        self.memory_cache_ttl_seconds
    }

    /// The implementation of the local cache.
    pub fn memory_cache_impl(&self) -> (implementation: MemoryCacheImpl)
        ensures
            implementation == self@.memory_cache_impl,
    {
        self.memory_cache_impl
    }

    /// The size of the disk tier in bytes; 0 for none.
    pub fn disk_cache_bytes(&self) -> (bytes: usize)
        ensures
            bytes == self@.disk_cache_bytes,
    {
        self.disk_cache_bytes
    }

    /// The directory of the disk tier, where one is configured.
    pub fn disk_dir(&self) -> (dir: Option<String>)
        ensures
            match (dir, self@.disk_dir) {
                (Some(got), Some(want)) => got@ == want,
                (None, None) => true,
                _ => false,
            },
    {
        match &self.disk_dir {
            Some(dir) => Some(dir.clone()),
            None => None,
        }
    }

    /// The tier of the local cache that these options ask for.
    pub fn tier(&self) -> (tier: crate::cache::Tier)
        ensures
            tier == crate::cache::tier_of(
                self@.memory_cache_impl,
                self@.disk_cache_bytes,
                self@.disk_dir is Some,
            ),
    {
        crate::cache::choose_tier(
            self.memory_cache_impl,
            self.disk_cache_bytes,
            self.disk_dir.is_some(),
        )
    }

    /// The seconds that entries are to live in the local cache, or `None`
    /// where the cache has no local cache.
    pub fn local_cache_ttl(&self) -> (ttl: Option<u64>)
        ensures
            ttl == if self@.memory_cache_bytes > 0 {
                Some(local_ttl(self@.memory_cache_ttl_seconds))
            } else {
                None
            },
    {
        if self.memory_cache_bytes > 0 {
            let seconds = self.memory_cache_ttl_seconds;
            if seconds == 0 || seconds > MAX_LOCAL_TTL_SECONDS {
                Some(MAX_LOCAL_TTL_SECONDS)
            } else {
                Some(seconds)
            }
        } else {
            None
        }
    }

    /// The size of the buffers of a connection, in bytes: the configured
    /// size rounded up to whole pages.
    pub fn buffer_size(&self) -> (size: usize)
        requires
            self.wf(),
        ensures
            size == page_rounded(self@.buffer_size),
            size % PAGESIZE == 0,
    {
        let pages = (self.buffer_size - 1) / PAGESIZE + 1;
        assert(pages == (self.buffer_size + PAGESIZE - 1) / (PAGESIZE as int));
        if pages <= usize::MAX / PAGESIZE {
            assert(pages * PAGESIZE <= usize::MAX) by (nonlinear_arith)
                requires
                    pages <= usize::MAX / PAGESIZE,
                    PAGESIZE == 4096,
            ;
            assert((pages * PAGESIZE) % (PAGESIZE as int) == 0) by (nonlinear_arith)
                requires
                    PAGESIZE == 4096,
            ;
            pages * PAGESIZE
        } else {
            assert(pages * PAGESIZE > usize::MAX) by (nonlinear_arith)
                requires
                    pages > usize::MAX / PAGESIZE,
                    PAGESIZE == 4096,
            ;
            let whole = usize::MAX / PAGESIZE;
            assert(whole * PAGESIZE <= usize::MAX) by (nonlinear_arith)
                requires
                    whole == usize::MAX / PAGESIZE,
                    PAGESIZE == 4096,
            ;
            assert((whole * PAGESIZE) % (PAGESIZE as int) == 0) by (nonlinear_arith)
                requires
                    PAGESIZE == 4096,
            ;
            whole * PAGESIZE
        }
    }
}

/// The options of the proxy: those of the process and those of each cache.
#[derive(Clone, Debug)]
pub struct MomentoProxyConfig {
    proxy: Proxy,
    cache: Vec<Cache>,
}

impl MomentoProxyConfig {
    /// The options of the process.
    pub closed spec fn proxy_spec(&self) -> Proxy {
        self.proxy
    }

    /// The options of the caches.
    pub closed spec fn caches_spec(&self) -> Seq<Cache> {
        self.cache@
    }

    /// The configuration with these options.
    pub fn new(proxy: Proxy, cache: Vec<Cache>) -> (config: MomentoProxyConfig)
        ensures
            config.proxy_spec() == proxy,
            config.caches_spec() == cache@,
    {
        MomentoProxyConfig { proxy, cache }
    }

    /// The caches that the proxy serves.
    pub fn caches(&self) -> (caches: &[Cache])
        ensures
            caches@ == self.caches_spec(),
    {
        self.cache.as_slice()
    }

    /// The number of worker threads, where the configuration names one.
    pub fn threads(&self) -> (threads: Option<usize>)
        ensures
            threads == self.proxy_spec().threads,
    {
        self.proxy.threads
    }
}

} // verus!
