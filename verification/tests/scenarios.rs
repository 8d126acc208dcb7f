use std::cell::{Cell, RefCell};
use std::collections::{HashMap, HashSet};

use momento_proxy::cache::{LocalCache, SyncMokaCache};
use momento_proxy::cache_backend::{BackendError, CacheBackend, GetResponse};
use momento_proxy::dispatch::{handle_memcache_request, Handled};
use momento_proxy::binary::{compose_binary_response, parse_binary, BinaryParsed, Envelope};
use momento_proxy::memcache::Response;
use momento_proxy::frontend::{Codec, ConnectionPhase, ConnectionState, PipelineSlot};
use momento_proxy::metrics::{DefaultProxyMetrics, Outcome, Rpc};

/// A backend that keeps what it is given, and never answers for the keys
/// that are marked as slow.
struct MapBackend {
    store: RefCell<HashMap<Vec<u8>, Vec<u8>>>,
    ttls: RefCell<HashMap<Vec<u8>, Option<u64>>>,
    slow: HashSet<Vec<u8>>,
    gets: Cell<usize>,
}

impl MapBackend {
    fn new() -> Self {
        MapBackend {
            store: RefCell::new(HashMap::new()),
            ttls: RefCell::new(HashMap::new()),
            slow: HashSet::new(),
            gets: Cell::new(0),
        }
    }

    fn slow_on(key: &[u8]) -> Self {
        let mut backend = MapBackend::new();
        backend.slow.insert(key.to_vec());
        backend
    }
}

impl CacheBackend for MapBackend {
    fn get(&self, _cache_name: &str, key: &[u8]) -> Result<GetResponse, BackendError> {
        self.gets.set(self.gets.get() + 1);
        if self.slow.contains(key) {
            return Err(BackendError::Timeout);
        }
        match self.store.borrow().get(key) {
            Some(value) => Ok(GetResponse::Hit { value: value.clone() }),
            None => Ok(GetResponse::Miss),
        }
    }

    fn set(
        &self,
        _cache_name: &str,
        key: Vec<u8>,
        value: Vec<u8>,
        ttl: Option<u64>,
    ) -> Result<(), BackendError> {
        if self.slow.contains(&key) {
            return Err(BackendError::Timeout);
        }
        self.ttls.borrow_mut().insert(key.clone(), ttl);
        self.store.borrow_mut().insert(key, value);
        Ok(())
    }

    fn delete(&self, _cache_name: &str, key: Vec<u8>) -> Result<(), BackendError> {
        self.store.borrow_mut().remove(&key);
        Ok(())
    }
}

/// One connection in front of a backend: requests are read from the bytes
/// of the client and served in the order in which they stand.
struct Connection<'a> {
    backend: &'a MapBackend,
    cache: Option<LocalCache>,
    flags: bool,
    state: ConnectionState,
    now: u64,
    codec: Codec,
    envelopes: Vec<Option<Envelope>>,
}

impl<'a> Connection<'a> {
    fn new(backend: &'a MapBackend, cache: Option<LocalCache>, flags: bool) -> Self {
        Connection {
            backend,
            cache,
            flags,
            state: ConnectionState::new(),
            now: 1000,
            codec: Codec::Text,
            envelopes: Vec::new(),
        }
    }

    fn read(&mut self, wire: &[u8]) -> Vec<Handled> {
        let drained = self.state.drain_requests(wire, self.codec);
        assert!(!drained.malformed);
        assert_eq!(drained.consumed, wire.len());
        let mut handled = Vec::new();
        for accepted in drained.requests {
            assert_eq!(accepted.sequence as usize, self.envelopes.len());
            self.envelopes.push(accepted.envelope);
            handled.push(handle_memcache_request(
                self.backend,
                "cache",
                accepted.sequence,
                accepted.request,
                self.flags,
                &DefaultProxyMetrics::new(),
                self.cache.as_ref(),
                self.now,
            ));
        }
        handled
    }

    fn write(&mut self, handled: Handled, out: &mut Vec<u8>) -> u64 {
        let slot = PipelineSlot {
            sequence: handled.sequence,
            request: handled.request,
            response: handled.response,
            envelope: self.envelopes[handled.sequence as usize],
        };
        self.state.complete(slot, out)
    }

    /// Sends `wire` and returns what the server writes back.
    fn exchange(&mut self, wire: &[u8]) -> Vec<u8> {
        let mut out = Vec::new();
        for handled in self.read(wire) {
            self.write(handled, &mut out);
        }
        out
    }
}

fn local_cache() -> Option<LocalCache> {
    Some(LocalCache::SyncMoka(SyncMokaCache::new(1 << 20, 60)))
}

#[test]
fn simple_set_get_flags_off() {
    for cache in [None, local_cache()] {
        let backend = MapBackend::new();
        let mut client = Connection::new(&backend, cache, false);
        assert_eq!(client.exchange(b"set foo 0 60 3\r\nbar\r\n"), b"STORED\r\n".to_vec());
        assert_eq!(backend.store.borrow().get(&b"foo".to_vec()), Some(&b"bar".to_vec()));
        assert_eq!(client.exchange(b"get foo\r\n"), b"VALUE foo 0 3\r\nbar\r\nEND\r\n".to_vec());
    }
}

#[test]
fn set_with_flags_round_trip() {
    for cache in [None, local_cache()] {
        let backend = MapBackend::new();
        let mut client = Connection::new(&backend, cache, true);
        assert_eq!(client.exchange(b"set x 42 60 5\r\nhello\r\n"), b"STORED\r\n".to_vec());
        assert_eq!(
            backend.store.borrow().get(&b"x".to_vec()),
            Some(&b"\x00\x00\x00\x2ahello".to_vec())
        );
        assert_eq!(client.exchange(b"get x\r\n"), b"VALUE x 42 5\r\nhello\r\nEND\r\n".to_vec());
    }
}

#[test]
fn delete_invalidates_local_cache() {
    for cache in [None, local_cache()] {
        let backend = MapBackend::new();
        let mut client = Connection::new(&backend, cache, false);
        assert_eq!(client.exchange(b"set foo 0 60 3\r\nbar\r\n"), b"STORED\r\n".to_vec());
        assert_eq!(client.exchange(b"get foo\r\n"), b"VALUE foo 0 3\r\nbar\r\nEND\r\n".to_vec());
        assert_eq!(client.exchange(b"delete foo\r\n"), b"DELETED\r\n".to_vec());
        assert_eq!(client.exchange(b"get foo\r\n"), b"END\r\n".to_vec());
    }
}

#[test]
fn multi_key_get_preserves_order() {
    for cache in [None, local_cache()] {
        let backend = MapBackend::new();
        let mut client = Connection::new(&backend, cache, false);
        client.exchange(b"set foo 0 60 3\r\nbar\r\n");
        client.exchange(b"set qux 0 60 4\r\nquux\r\n");
        assert_eq!(
            client.exchange(b"get foo baz qux\r\n"),
            b"VALUE foo 0 3\r\nbar\r\nVALUE qux 0 4\r\nquux\r\nEND\r\n".to_vec()
        );
    }
}

#[test]
fn multi_key_get_mixes_local_and_backend_hits_in_key_order() {
    let backend = MapBackend::new();
    backend.store.borrow_mut().insert(b"remote".to_vec(), b"r".to_vec());
    let mut client = Connection::new(&backend, local_cache(), false);
    client.exchange(b"set local 0 60 1\r\nl\r\n");
    backend.gets.set(0);
    assert_eq!(
        client.exchange(b"get remote absent local\r\n"),
        b"VALUE remote 0 1\r\nr\r\nVALUE local 0 1\r\nl\r\nEND\r\n".to_vec()
    );
    assert_eq!(backend.gets.get(), 2);
    backend.gets.set(0);
    assert_eq!(
        client.exchange(b"get remote absent local\r\n"),
        b"VALUE remote 0 1\r\nr\r\nVALUE local 0 1\r\nl\r\nEND\r\n".to_vec()
    );
    assert_eq!(backend.gets.get(), 1);
}

#[test]
fn backend_timeout_on_get() {
    let backend = MapBackend::slow_on(b"slow");
    let mut client = Connection::new(&backend, None, false);
    let mut handled = client.read(b"get slow\r\n");
    assert_eq!(handled.len(), 1);
    let handled = handled.remove(0);
    assert_eq!(handled.rpc, Rpc::MemcachedGet);
    assert_eq!(handled.observed, vec![Outcome::Timeout]);
    assert!(!handled.fatal);
    let mut out = Vec::new();
    client.write(handled, &mut out);
    assert_eq!(out, b"END\r\n".to_vec());
}

#[test]
fn pipelined_requests_arrive_concurrently_responses_in_order() {
    let backend = MapBackend::new();
    backend.store.borrow_mut().insert(b"a".to_vec(), b"alpha".to_vec());
    let mut client = Connection::new(&backend, None, false);
    let mut handled = client.read(b"get a\r\nset b 0 60 1\r\n1\r\nget b\r\n");
    assert_eq!(handled.len(), 3);
    let get_b = handled.remove(2);
    let set_b = handled.remove(1);
    let get_a = handled.remove(0);
    let mut out = Vec::new();
    assert_eq!(client.write(set_b, &mut out), 0);
    assert_eq!(out, Vec::<u8>::new());
    assert_eq!(client.write(get_b, &mut out), 0);
    assert_eq!(out, Vec::<u8>::new());
    assert_eq!(client.state.backlog_len(), 2);
    assert_eq!(client.write(get_a, &mut out), 3);
    assert_eq!(
        out,
        b"VALUE a 0 5\r\nalpha\r\nEND\r\nSTORED\r\nVALUE b 0 1\r\n1\r\nEND\r\n".to_vec()
    );
    assert_eq!(client.state.backlog_len(), 0);
    assert_eq!(client.state.next_sequence_to_emit(), 3);
    assert_eq!(client.state.pending_dispatches(), 0);
}

#[test]
fn noreply_set_takes_a_sequence_number_and_writes_nothing() {
    let backend = MapBackend::new();
    let mut client = Connection::new(&backend, None, false);
    let out = client.exchange(b"set a 0 0 1 noreply\r\n1\r\nget a\r\n");
    assert_eq!(out, b"VALUE a 0 1\r\n1\r\nEND\r\n".to_vec());
    assert_eq!(client.state.next_sequence_to_emit(), 2);
}

#[test]
fn empty_set_is_a_client_error_and_the_connection_stays_open() {
    let backend = MapBackend::new();
    let mut client = Connection::new(&backend, local_cache(), true);
    assert_eq!(
        client.exchange(b"set k 0 0 0\r\n\r\n"),
        b"CLIENT_ERROR empty values not supported\r\n".to_vec()
    );
    assert!(backend.store.borrow().is_empty());
    assert_eq!(client.state.phase(), ConnectionPhase::Running);
    assert_eq!(client.exchange(b"get k\r\n"), b"END\r\n".to_vec());
}

#[test]
fn set_timeout_is_a_server_error() {
    let backend = MapBackend::slow_on(b"slow");
    let mut client = Connection::new(&backend, None, false);
    let mut handled = client.read(b"set slow 0 0 1\r\nx\r\n");
    let handled = handled.remove(0);
    assert_eq!(handled.rpc, Rpc::MemcachedSet);
    assert_eq!(handled.observed, vec![Outcome::Error]);
    let mut out = Vec::new();
    client.write(handled, &mut out);
    assert_eq!(out, b"SERVER_ERROR backend timeout\r\n".to_vec());
}

#[test]
fn ttl_floor_is_one_second() {
    let backend = MapBackend::new();
    let mut client = Connection::new(&backend, None, false);
    client.exchange(b"set a 0 0 1\r\nx\r\nset b 0 1 1\r\nx\r\nset c 0 86400 1\r\nx\r\n");
    assert_eq!(backend.ttls.borrow().get(&b"a".to_vec()), Some(&None));
    assert_eq!(backend.ttls.borrow().get(&b"b".to_vec()), Some(&Some(1)));
    assert_eq!(backend.ttls.borrow().get(&b"c".to_vec()), Some(&Some(86400)));
}

#[test]
fn unsupported_command_is_answered_and_closes() {
    let backend = MapBackend::new();
    let mut client = Connection::new(&backend, None, false);
    let mut handled = client.read(b"incr n 1\r\n");
    let handled = handled.remove(0);
    assert!(handled.fatal);
    assert_eq!(handled.rpc, Rpc::MemcachedUnimplemented);
    assert_eq!(handled.observed, vec![Outcome::Error]);
    let mut out = Vec::new();
    client.write(handled, &mut out);
    assert_eq!(out, b"ERROR\r\n".to_vec());
}

#[test]
fn malformed_request_ends_the_read_half() {
    let mut state = ConnectionState::new();
    let drained = state.drain_requests(b"get a\r\nget\r\nget b\r\n", Codec::Text);
    assert!(drained.malformed);
    assert_eq!(drained.requests.len(), 1);
    assert_eq!(drained.consumed, 7);
    assert!(!state.read_alive());
    assert_eq!(state.phase(), ConnectionPhase::ReaderDone);
    assert_eq!(state.accept(), None);
    assert!(!state.drained());
    let rejected = drained.rejected.expect("malformed bytes are answered");
    assert_eq!(rejected.sequence, 1);
    assert_eq!(rejected.response, Response::ClientError(b"malformed request".to_vec()));
    assert_eq!(rejected.envelope, None);
    assert_eq!(state.pending_dispatches(), 2);
}

#[test]
fn malformed_bytes_are_answered_after_the_replies_before_them_and_close() {
    let backend = MapBackend::new();
    backend.store.borrow_mut().insert(b"a".to_vec(), b"1".to_vec());
    let mut state = ConnectionState::new();
    let drained = state.drain_requests(b"get a\r\nget b\r\nget\r\nget a\r\n", Codec::Text);
    assert!(drained.malformed);
    assert!(!drained.stopped);
    assert_eq!(drained.consumed, 14);
    assert_eq!(drained.requests.len(), 2);
    let rejected = drained.rejected.unwrap();
    assert_eq!(rejected.sequence, 2);
    let mut slots = Vec::new();
    for accepted in drained.requests {
        let envelope = accepted.envelope;
        let handled = handle_memcache_request(
            &backend,
            "cache",
            accepted.sequence,
            accepted.request,
            false,
            &DefaultProxyMetrics::new(),
            None,
            0,
        );
        slots.push(handled.into_slot(envelope));
    }
    let mut out = Vec::new();
    assert_eq!(state.complete(rejected, &mut out), 0);
    assert_eq!(state.complete(slots.remove(1), &mut out), 0);
    assert!(!state.drained());
    assert_eq!(state.complete(slots.remove(0), &mut out), 3);
    assert_eq!(
        out,
        b"VALUE a 0 1\r\n1\r\nEND\r\nEND\r\nCLIENT_ERROR malformed request\r\n".to_vec()
    );
    assert!(state.drained());
    let again = state.drain_requests(b"get a\r\n", Codec::Text);
    assert_eq!(again.requests.len(), 0);
    assert!(again.stopped);
}

#[test]
fn malformed_binary_bytes_are_answered_in_binary() {
    let mut state = ConnectionState::new();
    let drained = state.drain_requests(b"get a\r\n", Codec::Binary);
    assert!(drained.malformed);
    assert_eq!(drained.consumed, 0);
    let rejected = drained.rejected.unwrap();
    assert_eq!(rejected.sequence, 0);
    let mut out = Vec::new();
    assert_eq!(state.complete(rejected, &mut out), 1);
    assert_eq!(out, reply(0, 0, 4, b"", b"", b"malformed request"));
    assert!(state.drained());
}

#[test]
fn malformed_bytes_wait_while_the_window_is_full() {
    let mut state = ConnectionState::new();
    for _ in 0..1024 {
        state.accept();
    }
    let drained = state.drain_requests(b"get\r\n", Codec::Text);
    assert!(!drained.malformed);
    assert!(drained.stopped);
    assert_eq!(drained.rejected, None);
    assert!(state.read_alive());
}

#[test]
fn set_reports_what_it_sent() {
    let backend = MapBackend::new();
    let cache = local_cache().unwrap();
    let request = momento_proxy::memcache::SetRequest {
        key: b"k".to_vec(),
        value: b"v".to_vec(),
        flags: 258,
        ttl: Some(0),
        noreply: true,
    };
    let report = momento_proxy::dispatch::set(&backend, "cache", &request, true, Some(&cache), 5);
    assert_eq!(report.response, Response::Stored { noreply: true });
    let forward = report.forward.expect("a set with a value is sent on");
    assert_eq!(forward.key, b"k".to_vec());
    assert_eq!(forward.value, b"\x00\x00\x01\x02v".to_vec());
    assert_eq!(forward.ttl, Some(1));
    assert_eq!(
        forward.local,
        momento_proxy::memcache::Value { key: b"k".to_vec(), flags: 258, data: b"v".to_vec() }
    );
    assert_eq!(backend.store.borrow().get(&b"k".to_vec()), Some(&forward.value));
    assert_eq!(backend.ttls.borrow().get(&b"k".to_vec()), Some(&forward.ttl));
    assert_eq!(
        cache.get(b"k", 5).map(|e| e.into_value()),
        Some(momento_proxy::cache::CacheValue::Memcached { value: forward.local.clone() })
    );
    assert_eq!(momento_proxy::dispatch::clone_forward(&forward), forward);
    let plain = momento_proxy::dispatch::set(&backend, "cache", &request, false, None, 5);
    assert_eq!(plain.forward.unwrap().value, b"v".to_vec());
    let empty = momento_proxy::memcache::SetRequest { value: Vec::new(), ..request };
    let refused = momento_proxy::dispatch::set(&backend, "cache", &empty, true, None, 5);
    assert_eq!(refused.forward, None);
    assert_eq!(
        refused.response,
        Response::ClientError(b"empty values not supported".to_vec())
    );
}

#[test]
fn get_reports_what_it_handed_to_the_local_cache() {
    let backend = MapBackend::new();
    backend.store.borrow_mut().insert(b"a".to_vec(), b"1".to_vec());
    backend.store.borrow_mut().insert(b"c".to_vec(), b"3".to_vec());
    let cache = local_cache().unwrap();
    let request = momento_proxy::memcache::GetRequest {
        keys: vec![b"a".to_vec(), b"b".to_vec(), b"c".to_vec()],
    };
    let value = |key: &[u8], data: &[u8]| momento_proxy::memcache::Value {
        key: key.to_vec(),
        flags: 0,
        data: data.to_vec(),
    };
    let mut recorder = momento_proxy::metrics::RpcCallGuard::new(Rpc::MemcachedGet);
    let first = momento_proxy::dispatch::get(
        &backend, "cache", &request, false, Some(&cache), &mut recorder, 5,
    );
    assert_eq!(first.backfill, vec![value(b"a", b"1"), value(b"c", b"3")]);
    assert_eq!(first.backend_calls, 3);
    let second = momento_proxy::dispatch::get(
        &backend, "cache", &request, false, Some(&cache), &mut recorder, 5,
    );
    assert_eq!(second.backfill, Vec::new());
    assert_eq!(second.backend_calls, 1);
    assert_eq!(second.response, first.response);
    let uncached =
        momento_proxy::dispatch::get(&backend, "cache", &request, false, None, &mut recorder, 5);
    assert_eq!(uncached.backfill, Vec::new());
    assert_eq!(uncached.backend_calls, 3);
}

#[test]
fn keys_are_split_by_what_the_local_cache_had() {
    let entry = |key: &[u8]| {
        momento_proxy::cache::CacheEntry::stamp(
            momento_proxy::cache::CacheValue::Memcached {
                value: momento_proxy::memcache::Value {
                    key: key.to_vec(),
                    flags: 1,
                    data: b"d".to_vec(),
                },
            },
            0,
            10,
        )
    };
    let keys = vec![b"a".to_vec(), b"b".to_vec(), b"c".to_vec(), b"d".to_vec()];
    let plan = momento_proxy::dispatch::begin_get(
        &keys,
        vec![None, Some(entry(b"b")), None],
    );
    assert_eq!(plan.fetch, vec![b"a".to_vec(), b"c".to_vec(), b"d".to_vec()]);
    assert_eq!(plan.local.len(), 4);
    assert_eq!(plan.local[1].as_ref().map(|v| v.key.clone()), Some(b"b".to_vec()));
    assert!(plan.local[0].is_none() && plan.local[2].is_none() && plan.local[3].is_none());
    let none = momento_proxy::dispatch::begin_get(&keys, Vec::new());
    assert_eq!(none.fetch, keys);
}

#[test]
fn a_call_is_closed_with_its_outcome() {
    let metrics = DefaultProxyMetrics::new();
    let request = momento_proxy::memcache::Request::Unsupported { verb: b"quit".to_vec() };
    let recorder = momento_proxy::dispatch::recorder_for(&metrics, &request);
    assert_eq!(recorder.call(), Rpc::MemcachedUnimplemented);
    let handled = momento_proxy::dispatch::finish_request(
        9, request.clone(), Response::Error, Vec::new(), recorder,
    );
    assert!(handled.fatal);
    assert_eq!(handled.observed, vec![Outcome::Error]);
    assert_eq!(handled.rpc, Rpc::MemcachedUnimplemented);
    let slot = handled.into_slot(Some(Envelope { opcode: 7, opaque: 8 }));
    assert_eq!(slot.sequence, 9);
    assert_eq!(slot.request, request);
    assert_eq!(slot.response, Response::Error);
    assert_eq!(slot.envelope, Some(Envelope { opcode: 7, opaque: 8 }));
    let get = momento_proxy::memcache::Request::Get(momento_proxy::memcache::GetRequest {
        keys: vec![b"k".to_vec()],
    });
    let mut recorder = momento_proxy::dispatch::recorder_for(&metrics, &get);
    assert_eq!(recorder.call(), Rpc::MemcachedGet);
    recorder.complete_miss();
    let handled = momento_proxy::dispatch::finish_request(
        1,
        get,
        Response::NotFound { noreply: false },
        vec![momento_proxy::dispatch::KeyResult::Miss],
        recorder,
    );
    assert!(!handled.fatal);
    assert_eq!(handled.observed, vec![Outcome::Miss]);
}


#[test]
fn local_cache_serves_what_the_backend_has_lost() {
    let backend = MapBackend::new();
    let mut client = Connection::new(&backend, local_cache(), true);
    assert_eq!(client.exchange(b"set k 7 60 1\r\nv\r\n"), b"STORED\r\n".to_vec());
    backend.store.borrow_mut().clear();
    backend.gets.set(0);
    assert_eq!(client.exchange(b"get k\r\n"), b"VALUE k 7 1\r\nv\r\nEND\r\n".to_vec());
    assert_eq!(backend.gets.get(), 0);
    client.now += 60;
    assert_eq!(client.exchange(b"get k\r\n"), b"END\r\n".to_vec());
    assert_eq!(backend.gets.get(), 1);
}

#[test]
fn backend_hits_are_stored_in_the_local_cache() {
    let backend = MapBackend::new();
    backend.store.borrow_mut().insert(b"k".to_vec(), b"\x00\x00\x01\x00value".to_vec());
    let mut client = Connection::new(&backend, local_cache(), true);
    assert_eq!(client.exchange(b"get k\r\n"), b"VALUE k 256 5\r\nvalue\r\nEND\r\n".to_vec());
    backend.store.borrow_mut().clear();
    assert_eq!(client.exchange(b"get k\r\n"), b"VALUE k 256 5\r\nvalue\r\nEND\r\n".to_vec());
    assert_eq!(backend.gets.get(), 1);
}

#[test]
fn short_values_are_misses_when_flags_are_carried() {
    let backend = MapBackend::new();
    backend.store.borrow_mut().insert(b"k".to_vec(), b"\x00\x00\x00\x00".to_vec());
    let mut client = Connection::new(&backend, None, true);
    let mut handled = client.read(b"get k\r\n");
    let handled = handled.remove(0);
    assert_eq!(handled.observed, vec![Outcome::Miss]);
    let mut out = Vec::new();
    client.write(handled, &mut out);
    assert_eq!(out, b"END\r\n".to_vec());
}

/// A backend whose every call fails.
struct BrokenBackend;

impl CacheBackend for BrokenBackend {
    fn get(&self, _cache_name: &str, _key: &[u8]) -> Result<GetResponse, BackendError> {
        Err(BackendError::Remote { code: b"LIMIT".to_vec(), message: b"limit exceeded".to_vec() })
    }

    fn set(
        &self,
        _cache_name: &str,
        _key: Vec<u8>,
        _value: Vec<u8>,
        _ttl: Option<u64>,
    ) -> Result<(), BackendError> {
        Err(BackendError::Io { message: b"connection reset".to_vec() })
    }

    fn delete(&self, _cache_name: &str, _key: Vec<u8>) -> Result<(), BackendError> {
        Err(BackendError::Config { message: b"no such cache".to_vec() })
    }
}

#[test]
fn backend_failures_become_server_errors() {
    let cases: Vec<(&[u8], &[u8], Rpc, Outcome)> = vec![
        (b"get a b\r\n", b"SERVER_ERROR limit exceeded\r\n", Rpc::MemcachedGet, Outcome::Error),
        (b"set a 0 0 1\r\nx\r\n", b"SERVER_ERROR connection reset\r\n", Rpc::MemcachedSet, Outcome::Error),
        (b"delete a\r\n", b"SERVER_ERROR no such cache\r\n", Rpc::MemcachedDelete, Outcome::Error),
    ];
    for (wire, expected, rpc, outcome) in cases {
        let mut state = ConnectionState::new();
        let mut drained = state.drain_requests(wire, Codec::Text);
        let accepted = drained.requests.remove(0);
        let handled = handle_memcache_request(
            &BrokenBackend,
            "cache",
            accepted.sequence,
            accepted.request,
            false,
            &DefaultProxyMetrics::new(),
            None,
            0,
        );
        assert_eq!(handled.rpc, rpc);
        assert_eq!(handled.observed, vec![outcome]);
        assert!(!handled.fatal);
        let mut out = Vec::new();
        state.complete(
            PipelineSlot {
                sequence: handled.sequence,
                request: handled.request,
                response: handled.response,
                envelope: None,
            },
            &mut out,
        );
        assert_eq!(out, expected.to_vec());
    }
}

#[test]
fn a_failed_key_fails_the_whole_get_and_nothing_is_backfilled() {
    struct HalfBroken;
    impl CacheBackend for HalfBroken {
        fn get(&self, _cache_name: &str, key: &[u8]) -> Result<GetResponse, BackendError> {
            if key == b"bad" {
                Err(BackendError::Remote { code: Vec::new(), message: b"boom".to_vec() })
            } else {
                Ok(GetResponse::Hit { value: b"v".to_vec() })
            }
        }
        fn set(&self, _: &str, _: Vec<u8>, _: Vec<u8>, _: Option<u64>) -> Result<(), BackendError> {
            Ok(())
        }
        fn delete(&self, _: &str, _: Vec<u8>) -> Result<(), BackendError> {
            Ok(())
        }
    }
    let cache = local_cache().unwrap();
    let request = momento_proxy::memcache::GetRequest {
        keys: vec![b"good".to_vec(), b"bad".to_vec(), b"fine".to_vec()],
    };
    let mut recorder = momento_proxy::metrics::RpcCallGuard::new(Rpc::MemcachedGet);
    let report = momento_proxy::dispatch::get(
        &HalfBroken,
        "cache",
        &request,
        false,
        Some(&cache),
        &mut recorder,
        5,
    );
    assert_eq!(
        report.response,
        momento_proxy::memcache::Response::ServerError(b"boom".to_vec())
    );
    assert_eq!(report.backend_calls, 3);
    assert_eq!(recorder.finish(), vec![Outcome::HitRemote, Outcome::HitRemote]);
    assert_eq!(cache.get(b"good", 5), None);
    assert_eq!(cache.get(b"fine", 5), None);
}

#[test]
fn writer_drops_what_was_never_accepted_or_is_already_out() {
    let mut state = ConnectionState::new();
    let request = momento_proxy::memcache::Request::Unsupported { verb: b"quit".to_vec() };
    let slot = |sequence| PipelineSlot {
        sequence,
        request: request.clone(),
        response: momento_proxy::memcache::Response::Error,
        envelope: None,
    };
    let mut out = Vec::new();
    assert_eq!(state.complete(slot(0), &mut out), 0);
    assert_eq!(state.accept(), Some(0));
    assert_eq!(state.accept(), Some(1));
    assert_eq!(state.pending_dispatches(), 2);
    assert_eq!(state.complete(slot(2), &mut out), 0);
    assert_eq!(state.backlog_len(), 0);
    assert_eq!(state.complete(slot(0), &mut out), 1);
    assert_eq!(state.complete(slot(0), &mut out), 0);
    assert_eq!(out, b"ERROR\r\n".to_vec());
    assert!(!state.drained());
    state.reader_done();
    assert_eq!(state.complete(slot(1), &mut out), 1);
    assert!(state.drained());
    state.writer_done();
    assert_eq!(state.phase(), ConnectionPhase::Closing);
    assert!(!state.write_alive());
}

fn packet(opcode: u8, opaque: u32, extras: &[u8], key: &[u8], value: &[u8]) -> Vec<u8> {
    let mut out = vec![0x80, opcode];
    out.extend_from_slice(&(key.len() as u16).to_be_bytes());
    out.push(extras.len() as u8);
    out.push(0);
    out.extend_from_slice(&[0, 0]);
    out.extend_from_slice(&((extras.len() + key.len() + value.len()) as u32).to_be_bytes());
    out.extend_from_slice(&opaque.to_be_bytes());
    out.extend_from_slice(&[0; 8]);
    out.extend_from_slice(extras);
    out.extend_from_slice(key);
    out.extend_from_slice(value);
    out
}

fn reply(opcode: u8, opaque: u32, status: u16, extras: &[u8], key: &[u8], value: &[u8]) -> Vec<u8> {
    let mut out = vec![0x81, opcode];
    out.extend_from_slice(&(key.len() as u16).to_be_bytes());
    out.push(extras.len() as u8);
    out.push(0);
    out.extend_from_slice(&status.to_be_bytes());
    out.extend_from_slice(&((extras.len() + key.len() + value.len()) as u32).to_be_bytes());
    out.extend_from_slice(&opaque.to_be_bytes());
    out.extend_from_slice(&[0; 8]);
    out.extend_from_slice(extras);
    out.extend_from_slice(key);
    out.extend_from_slice(value);
    out
}

#[test]
fn binary_client_sets_gets_and_deletes() {
    let backend = MapBackend::new();
    let mut client = Connection::new(&backend, local_cache(), true);
    client.codec = Codec::Binary;
    let set = packet(0x01, 7, &[0, 0, 0, 42, 0, 0, 0, 60], b"x", b"hello");
    assert_eq!(client.exchange(&set), reply(0x01, 7, 0, b"", b"", b""));
    assert_eq!(backend.ttls.borrow().get(&b"x".to_vec()), Some(&Some(60)));
    let get = packet(0x00, 8, b"", b"x", b"");
    assert_eq!(client.exchange(&get), reply(0x00, 8, 0, &[0, 0, 0, 42], b"", b"hello"));
    let getk = packet(0x0c, 9, b"", b"x", b"");
    assert_eq!(client.exchange(&getk), reply(0x0c, 9, 0, &[0, 0, 0, 42], b"x", b"hello"));
    let delete = packet(0x04, 10, b"", b"x", b"");
    assert_eq!(client.exchange(&delete), reply(0x04, 10, 0, b"", b"", b""));
    assert_eq!(client.exchange(&get), reply(0x00, 8, 1, b"", b"", b"Not found"));
    let quiet = packet(0x11, 11, &[0; 8], b"q", b"v");
    assert_eq!(client.exchange(&quiet), Vec::<u8>::new());
    assert_eq!(backend.ttls.borrow().get(&b"q".to_vec()), Some(&None));
    let empty = packet(0x01, 12, &[0; 8], b"e", b"");
    assert_eq!(
        client.exchange(&empty),
        reply(0x01, 12, 4, b"", b"", b"empty values not supported")
    );
}

#[test]
fn binary_pipeline_keeps_the_order() {
    let backend = MapBackend::new();
    backend.store.borrow_mut().insert(b"a".to_vec(), b"alpha".to_vec());
    let mut client = Connection::new(&backend, None, false);
    client.codec = Codec::Binary;
    let mut wire = packet(0x00, 1, b"", b"a", b"");
    wire.extend_from_slice(&packet(0x01, 2, &[0; 8], b"b", b"1"));
    wire.extend_from_slice(&packet(0x00, 3, b"", b"b", b""));
    let mut handled = client.read(&wire);
    let get_b = handled.remove(2);
    let set_b = handled.remove(1);
    let get_a = handled.remove(0);
    let mut out = Vec::new();
    client.write(get_b, &mut out);
    client.write(set_b, &mut out);
    assert_eq!(out, Vec::<u8>::new());
    client.write(get_a, &mut out);
    let mut expected = reply(0x00, 1, 0, &[0; 4], b"", b"alpha");
    expected.extend_from_slice(&reply(0x01, 2, 0, b"", b"", b""));
    expected.extend_from_slice(&reply(0x00, 3, 0, &[0; 4], b"", b"1"));
    assert_eq!(out, expected);
}

#[test]
fn binary_requests_are_framed_by_their_header() {
    let set = packet(0x01, 0xdead_beef, &[1, 2, 3, 4, 0, 0, 1, 0], b"key", b"value");
    for cut in 0..set.len() {
        assert_eq!(parse_binary(&set[..cut]), BinaryParsed::NeedMore);
    }
    let mut two = set.clone();
    two.extend_from_slice(&[0x80, 0x00]);
    assert_eq!(
        parse_binary(&two),
        BinaryParsed::Ready {
            request: momento_proxy::memcache::Request::Store(momento_proxy::memcache::SetRequest {
                key: b"key".to_vec(),
                value: b"value".to_vec(),
                flags: 0x01020304,
                ttl: Some(256),
                noreply: false,
            }),
            envelope: Envelope { opcode: 0x01, opaque: 0xdead_beef },
            consumed: set.len(),
        }
    );
    assert_eq!(parse_binary(b"get foo\r\n"), BinaryParsed::Malformed);
    assert_eq!(parse_binary(&packet(0x00, 0, &[0], b"k", b"")), BinaryParsed::Malformed);
    assert_eq!(parse_binary(&packet(0x00, 0, b"", b"k", b"v")), BinaryParsed::Malformed);
    assert_eq!(parse_binary(&packet(0x00, 0, b"", b"", b"")), BinaryParsed::Malformed);
    assert_eq!(parse_binary(&packet(0x01, 0, &[0; 4], b"k", b"v")), BinaryParsed::Malformed);
    assert_eq!(parse_binary(&packet(0x04, 0, b"", b"bad key", b"")), BinaryParsed::Malformed);
    let mut lying = packet(0x00, 0, b"", b"k", b"");
    lying[3] = 9;
    assert_eq!(parse_binary(&lying), BinaryParsed::Malformed);
    assert_eq!(
        parse_binary(&packet(0x0a, 5, b"", b"", b"")),
        BinaryParsed::Ready {
            request: momento_proxy::memcache::Request::Unsupported { verb: vec![0x0a] },
            envelope: Envelope { opcode: 0x0a, opaque: 5 },
            consumed: 24,
        }
    );
}

#[test]
fn binary_failures_have_a_status() {
    let envelope = Envelope { opcode: 0x00, opaque: 3 };
    let mut out = Vec::new();
    compose_binary_response(envelope, &Response::Error, &mut out);
    assert_eq!(out, reply(0x00, 3, 0x81, b"", b"", b"Unknown command"));
    let mut out = Vec::new();
    compose_binary_response(envelope, &Response::ServerError(b"backend timeout".to_vec()), &mut out);
    assert_eq!(out, reply(0x00, 3, 0x84, b"", b"", b"backend timeout"));
    let mut out = Vec::new();
    let long_key = momento_proxy::memcache::Value {
        key: vec![b'k'; 70000],
        flags: 0,
        data: Vec::new(),
    };
    let getk = Envelope { opcode: 0x0c, opaque: 4 };
    compose_binary_response(getk, &Response::Values(vec![long_key]), &mut out);
    assert_eq!(out, reply(0x0c, 4, 0x84, b"", b"", b""));
}

#[test]
fn a_broken_handler_is_a_server_error() {
    let request = momento_proxy::memcache::Request::Delete(momento_proxy::memcache::DeleteRequest {
        key: b"k".to_vec(),
        noreply: false,
    });
    let handled = momento_proxy::dispatch::handler_failed(4, request.clone());
    assert_eq!(handled.sequence, 4);
    assert_eq!(handled.request, request);
    assert_eq!(
        handled.response,
        momento_proxy::memcache::Response::ServerError(b"internal error".to_vec())
    );
    assert_eq!(handled.rpc, Rpc::MemcachedDelete);
    assert_eq!(handled.observed, vec![Outcome::Error]);
    assert!(!handled.fatal);
}

#[test]
fn backend_answers_fill_the_places_of_local_misses() {
    let value = |key: &[u8]| momento_proxy::memcache::Value {
        key: key.to_vec(),
        flags: 0,
        data: b"v".to_vec(),
    };
    let local = vec![None, Some(value(b"b")), None, None, Some(value(b"e"))];
    let fetched = vec![
        momento_proxy::dispatch::KeyResult::Hit(value(b"a")),
        momento_proxy::dispatch::KeyResult::Timeout,
    ];
    let results = momento_proxy::dispatch::merge_results(local, fetched);
    assert_eq!(
        results,
        vec![
            momento_proxy::dispatch::KeyResult::Hit(value(b"a")),
            momento_proxy::dispatch::KeyResult::Local(value(b"b")),
            momento_proxy::dispatch::KeyResult::Timeout,
            momento_proxy::dispatch::KeyResult::Miss,
            momento_proxy::dispatch::KeyResult::Local(value(b"e")),
        ]
    );
    assert_eq!(momento_proxy::dispatch::merge_results(Vec::new(), Vec::new()), Vec::new());
}
