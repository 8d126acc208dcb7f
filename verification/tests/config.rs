use momento_proxy::cache::Tier;
use momento_proxy::config::{
    flags, four, Cache, MemoryCacheImpl, MomentoProxyConfig, Protocol, Proxy,
};
use momento_proxy::frontend::{detect_protocol, Codec, Detected, Peek};
use momento_proxy::metrics::{
    with_rpc_call_guard, with_wrapped_error_response_rpc_call_guard, ConnectionCounts,
    ConnectionGuard, ConnectionMetrics, DefaultProxyMetrics, MemcachedMetrics, Outcome,
    ProxyMetricsBuilder, RespMetrics, Rpc, RpcCallGuard, RpcMetrics,
};
use momento_proxy::commands::RespCommand;
use momento_proxy::memcache::Response;
use momento_proxy::session::{
    backend_listener_serves, read_step, write_step, ReadStep, Transfer, WriteStep,
    SOCKET_BUFFER_BYTES,
};
use momento_proxy::{default_buffer_size, INITIAL_BUFFER_SIZE, KB, MAX_REQUEST_SIZE, MB, PAGESIZE};

fn cache() -> Cache {
    Cache::new("0.0.0.0".to_string(), "12321".to_string(), "cache".to_string(), 60).unwrap()
}

#[test]
fn defaults_of_a_cache() {
    let cache = cache();
    assert_eq!(cache.host(), "0.0.0.0");
    assert_eq!(cache.port(), "12321");
    assert_eq!(cache.cache_name(), "cache");
    assert_eq!(cache.default_ttl(), std::time::Duration::from_secs(60));
    assert_eq!(cache.default_ttl_seconds(), 60);
    assert_eq!(cache.connection_count(), 4);
    assert_eq!(cache.protocol(), Protocol::Memcache);
    assert!(cache.flags());
    assert_eq!(cache.memory_cache_bytes(), 0);
    assert_eq!(cache.memory_cache_ttl_seconds(), 0);
    assert_eq!(cache.buffer_size(), 16384);
    assert_eq!(cache.local_cache_ttl(), None);
    assert_eq!(cache.memory_cache_impl(), MemoryCacheImpl::Moka);
    assert_eq!(cache.disk_cache_bytes(), 0);
    assert_eq!(cache.disk_dir(), None);
    assert_eq!(cache.tier(), Tier::SyncMemory);
    assert_eq!(MemoryCacheImpl::default(), MemoryCacheImpl::Moka);
    assert!(flags());
    assert_eq!(four(), 4);
    assert_eq!(Protocol::default(), Protocol::Memcache);
    assert_eq!(Proxy::default(), Proxy { threads: None });
    assert_eq!(default_buffer_size(), INITIAL_BUFFER_SIZE);
    assert_eq!((KB, MB, PAGESIZE, MAX_REQUEST_SIZE), (1024, 1024 * 1024, 4096, 100 * 1024 * 1024));
}

#[test]
fn zero_is_refused_where_it_makes_no_sense() {
    assert!(Cache::new("h".to_string(), "1".to_string(), "c".to_string(), 0).is_none());
    assert!(cache().with_connection_count(0).is_none());
    assert!(cache().with_buffer_size(0).is_none());
    assert_eq!(cache().with_connection_count(9).unwrap().connection_count(), 9);
}

#[test]
fn buffer_size_is_rounded_up_to_pages() {
    for (configured, expected) in [
        (1usize, 4096usize),
        (4095, 4096),
        (4096, 4096),
        (4097, 8192),
        (16384, 16384),
        (16385, 20480),
        (usize::MAX, usize::MAX / 4096 * 4096),
        (usize::MAX - 4095, usize::MAX / 4096 * 4096),
    ] {
        assert_eq!(cache().with_buffer_size(configured).unwrap().buffer_size(), expected);
    }
}

#[test]
fn local_cache_ttl_of_a_cache() {
    let five_years = 5 * 365 * 24 * 3600;
    assert_eq!(cache().with_memory_cache(0, 30).local_cache_ttl(), None);
    assert_eq!(cache().with_memory_cache(1, 30).local_cache_ttl(), Some(30));
    assert_eq!(cache().with_memory_cache(1, 0).local_cache_ttl(), Some(five_years));
    assert_eq!(cache().with_memory_cache(1, five_years).local_cache_ttl(), Some(five_years));
    assert_eq!(cache().with_memory_cache(1, five_years + 1).local_cache_ttl(), Some(five_years));
    assert_eq!(cache().with_memory_cache(1, u64::MAX).local_cache_ttl(), Some(five_years));
    let cache = cache().with_memory_cache(7, 9).with_flags(false).with_protocol(Protocol::Resp);
    assert_eq!(cache.memory_cache_bytes(), 7);
    assert_eq!(cache.memory_cache_ttl_seconds(), 9);
    assert!(!cache.flags());
    assert_eq!(cache.protocol(), Protocol::Resp);
}

#[test]
fn tier_of_a_cache() {
    let foyer = cache().with_memory_cache_impl(MemoryCacheImpl::Foyer);
    assert_eq!(foyer.tier(), Tier::SpillableMemory);
    let no_dir = foyer.clone().with_disk_cache(1 << 20, None);
    assert_eq!(no_dir.tier(), Tier::SpillableMemory);
    let disk = foyer.with_disk_cache(1 << 20, Some("/var/cache/proxy".to_string()));
    assert_eq!(disk.tier(), Tier::MemoryAndDisk);
    assert_eq!(disk.disk_cache_bytes(), 1 << 20);
    assert_eq!(disk.disk_dir(), Some("/var/cache/proxy".to_string()));
    let async_memory = cache().with_memory_cache_impl(MemoryCacheImpl::MokaAsync);
    assert_eq!(async_memory.tier(), Tier::AsyncMemory);
}

#[test]
fn default_ttl_must_fit_the_backend() {
    let limit = u64::MAX / 1000 / 1_000_000;
    let at = Cache::new("h".to_string(), "1".to_string(), "c".to_string(), limit).unwrap();
    let over = Cache::new("h".to_string(), "1".to_string(), "c".to_string(), limit + 1).unwrap();
    assert!(at.default_ttl_in_range());
    assert!(!over.default_ttl_in_range());
}

#[test]
fn configuration_hands_out_its_parts() {
    let config = MomentoProxyConfig::new(Proxy { threads: Some(3) }, vec![cache(), cache()]);
    assert_eq!(config.threads(), Some(3));
    assert_eq!(config.caches().len(), 2);
    assert_eq!(config.caches()[1].cache_name(), "cache");
}

#[test]
fn protocol_is_detected_by_the_first_byte() {
    assert_eq!(detect_protocol(Peek::Bytes { count: 1, first: 0x80 }), Detected::Binary);
    assert_eq!(detect_protocol(Peek::Bytes { count: 1, first: b'g' }), Detected::Text);
    assert_eq!(detect_protocol(Peek::Bytes { count: 1, first: 0x81 }), Detected::Text);
    assert_eq!(detect_protocol(Peek::Bytes { count: 0, first: 0x80 }), Detected::Hangup);
    assert_eq!(detect_protocol(Peek::WouldBlock), Detected::Retry);
    assert_eq!(detect_protocol(Peek::Failed), Detected::Hangup);
    assert_eq!(Detected::Text.codec(), Some(Codec::Text));
    assert_eq!(Detected::Binary.codec(), Some(Codec::Binary));
    assert_eq!(Detected::Retry.codec(), None);
    assert_eq!(Detected::Hangup.codec(), None);
}

#[test]
fn steps_after_reads_and_writes() {
    assert_eq!(read_step(Transfer::Bytes(0), 100), ReadStep::Hangup);
    assert_eq!(read_step(Transfer::Failed, 100), ReadStep::Failed);
    assert_eq!(read_step(Transfer::Bytes(101), 100), ReadStep::Failed);
    assert_eq!(
        read_step(Transfer::Bytes(10), 16384),
        ReadStep::Progress { bytes: 10, grow: false }
    );
    assert_eq!(
        read_step(Transfer::Bytes(8192), 16384),
        ReadStep::Progress { bytes: 8192, grow: false }
    );
    assert_eq!(
        read_step(Transfer::Bytes(8193), 16384),
        ReadStep::Progress { bytes: 8193, grow: true }
    );
    assert_eq!(write_step(Transfer::Bytes(0), 5), WriteStep::Hangup);
    assert_eq!(write_step(Transfer::Bytes(5), 5), WriteStep::Progress { bytes: 5 });
    assert_eq!(write_step(Transfer::Bytes(6), 5), WriteStep::Failed);
    assert_eq!(write_step(Transfer::Failed, 5), WriteStep::Failed);
    assert!(backend_listener_serves(Protocol::Memcache));
    assert!(!backend_listener_serves(Protocol::Resp));
    assert_eq!(SOCKET_BUFFER_BYTES, 4 * 1024 * 1024);
}

#[test]
fn recorder_files_once_for_the_call_and_always_for_a_key() {
    let mut guard = RpcCallGuard::new(Rpc::MemcachedGet);
    guard.complete_ok();
    guard.complete_error();
    guard.complete_ok();
    assert_eq!(guard.finish(), vec![Outcome::Success]);

    let mut guard = RpcCallGuard::new(Rpc::MemcachedGet);
    guard.complete_miss();
    guard.complete_hit_mcache();
    guard.complete_hit_momento();
    guard.complete_timeout();
    guard.complete(&Ok::<(), ()>(()));
    guard.complete(&Err::<(), ()>(()));
    assert_eq!(
        guard.finish(),
        vec![Outcome::Miss, Outcome::HitLocal, Outcome::HitRemote, Outcome::Timeout]
    );

    assert_eq!(RpcCallGuard::new(Rpc::MemcachedSet).finish(), vec![Outcome::Timeout]);

    let mut guard = RpcCallGuard::new(Rpc::MemcachedSet);
    let failed: Result<Response, ()> = Ok(Response::ServerError(Vec::new()));
    assert_eq!(with_wrapped_error_response_rpc_call_guard(&mut guard, failed.clone()), failed);
    assert_eq!(guard.finish(), vec![Outcome::Error]);
    let mut guard = RpcCallGuard::new(Rpc::MemcachedSet);
    let stored: Result<Response, ()> = Ok(Response::Stored { noreply: false });
    assert_eq!(with_wrapped_error_response_rpc_call_guard(&mut guard, stored.clone()), stored);
    assert_eq!(guard.finish(), vec![Outcome::Success]);
    let mut guard = RpcCallGuard::new(Rpc::MemcachedSet);
    let broken: Result<Response, u8> = Err(7);
    assert_eq!(with_wrapped_error_response_rpc_call_guard(&mut guard, broken), Err(7));
    assert_eq!(guard.finish(), vec![Outcome::Error]);
    let mut guard = RpcCallGuard::new(Rpc::RespUnimplemented);
    assert_eq!(with_rpc_call_guard(&mut guard, Err::<(), u8>(1)), Err(1));
    assert_eq!(guard.call(), Rpc::RespUnimplemented);
    assert_eq!(guard.finish(), vec![Outcome::Error]);
    let mut guard = RpcCallGuard::new(Rpc::RespUnimplemented);
    assert_eq!(with_rpc_call_guard(&mut guard, Ok::<u8, ()>(1)), Ok(1));
    assert_eq!(guard.finish(), vec![Outcome::Success]);
}

#[test]
fn names_of_calls_and_series() {
    assert_eq!(Rpc::MemcachedGet.name_bytes(), b"memcached_get".to_vec());
    assert_eq!(Rpc::MemcachedSet.name_bytes(), b"memcached_set".to_vec());
    assert_eq!(Rpc::MemcachedDelete.name_bytes(), b"memcached_delete".to_vec());
    assert_eq!(Rpc::MemcachedUnimplemented.name_bytes(), b"memcached_unimplemented".to_vec());
    assert_eq!(Rpc::Resp(RespCommand::SortedSetAdd).name_bytes(), b"resp_zadd".to_vec());
    assert_eq!(Rpc::Resp(RespCommand::HashGetAll).name_bytes(), b"resp_hgetall".to_vec());
    assert_eq!(Rpc::RespUnimplemented.name_bytes(), b"resp_unimplemented".to_vec());
    let series: Vec<(Outcome, &[u8], Option<&[u8]>)> = vec![
        (Outcome::Success, b"ok", None),
        (Outcome::Error, b"error", None),
        (Outcome::Timeout, b"timeout", None),
        (Outcome::Miss, b"miss", None),
        (Outcome::HitLocal, b"hit", Some(b"mcache")),
        (Outcome::HitRemote, b"hit", Some(b"momento")),
    ];
    for (outcome, result, source) in series {
        assert_eq!(outcome.result_name(), result.to_vec());
        assert_eq!(outcome.source_name(), source.map(|s| s.to_vec()));
    }
}

#[test]
fn metrics_hand_out_fresh_recorders() {
    let builder = ProxyMetricsBuilder::new();
    assert_eq!(builder.batch_interval_seconds, 1);
    assert_eq!(builder.batch_capacity, 128);
    let mut metrics = DefaultProxyMetrics::new();
    assert_eq!(metrics.begin_memcached_get().call(), Rpc::MemcachedGet);
    assert_eq!(metrics.begin_memcached_set().call(), Rpc::MemcachedSet);
    assert_eq!(metrics.begin_memcached_delete().call(), Rpc::MemcachedDelete);
    assert_eq!(metrics.begin_memcached_unimplemented().call(), Rpc::MemcachedUnimplemented);
    assert_eq!(metrics.begin_resp(RespCommand::Del).call(), Rpc::Resp(RespCommand::Del));
    assert_eq!(metrics.begin_resp_unimplemented().call(), Rpc::RespUnimplemented);
    assert_eq!(RpcMetrics::new(Rpc::MemcachedGet).record_api_call().finish(), vec![Outcome::Timeout]);
    let first = metrics.begin_connection();
    let second = metrics.begin_connection();
    assert_eq!(metrics.connections, ConnectionCounts { opened: 2, closed: 0 });
    assert_eq!(metrics.connections.total_active_connections(), 2);
    first.close(&mut metrics.connections);
    assert_eq!(metrics.connections.total_active_connections(), 1);
    second.close(&mut metrics.connections);
    assert_eq!(metrics.connections, ConnectionCounts { opened: 2, closed: 2 });
    let mut full = ConnectionCounts { opened: u64::MAX, closed: 0 };
    let uncounted = ConnectionGuard::new(&mut full);
    uncounted.close(&mut full);
    assert_eq!(full, ConnectionCounts { opened: u64::MAX, closed: 0 });
}

#[test]
fn a_connection_is_counted_unless_the_counter_is_full() {
    let mut metrics = DefaultProxyMetrics::new();
    let guard = metrics.begin_connection();
    assert_eq!(metrics.connections, ConnectionCounts { opened: 1, closed: 0 });
    guard.close(&mut metrics.connections);
    assert_eq!(metrics.connections, ConnectionCounts { opened: 1, closed: 1 });
    let mut full = DefaultProxyMetrics {
        connections: ConnectionCounts { opened: u64::MAX, closed: 3 },
    };
    let uncounted = full.begin_connection();
    assert_eq!(full.connections, ConnectionCounts { opened: u64::MAX, closed: 3 });
    uncounted.close(&mut full.connections);
    assert_eq!(full.connections, ConnectionCounts { opened: u64::MAX, closed: 3 });
}
