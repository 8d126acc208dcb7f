use momento_proxy::cache::{
    choose_tier, create_cache, weigh, weigh_wide, CacheEntry, CacheValue, FoyerCache, LocalCache,
    SyncMokaCache, Tier,
};
use momento_proxy::cache_backend::{
    decode_value, delete_command, delete_reply, encode_value, expiration, get_command,
    pick_worker, server_address, set_command, set_reply, strip_flags, value_length,
    zero_flagged, BackendError,
};
use momento_proxy::config::MemoryCacheImpl;
use momento_proxy::memcache::Value;

const FIVE_YEARS: u64 = 5 * 365 * 24 * 3600;

fn value(key: &[u8], flags: u32, data: &[u8]) -> CacheValue {
    CacheValue::Memcached { value: Value { key: key.to_vec(), flags, data: data.to_vec() } }
}

fn tiers() -> Vec<LocalCache> {
    vec![
        LocalCache::SyncMoka(SyncMokaCache::new(1 << 20, 10)),
        LocalCache::Foyer(FoyerCache::new(1 << 20, 10)),
    ]
}

#[test]
fn entries_are_served_until_their_time_is_up() {
    for cache in tiers() {
        cache.set(b"k".to_vec(), value(b"k", 3, b"data"), 100);
        let found = cache.get(b"k", 100).expect("stored a moment ago");
        assert_eq!(found.expire_at, 110);
        assert_eq!(found.clone().into_value(), value(b"k", 3, b"data"));
        assert!(cache.get(b"k", 109).is_some());
        assert_eq!(cache.get(b"k", 110), None);
        assert_eq!(cache.get(b"k", 111), None);
        assert_eq!(cache.get(b"other", 100), None);
    }
}

#[test]
fn delete_hands_out_what_was_held() {
    for cache in tiers() {
        cache.set(b"k".to_vec(), value(b"k", 0, b"data"), 0);
        assert_eq!(cache.delete(b"k"), Some(value(b"k", 0, b"data")));
        assert_eq!(cache.get(b"k", 0), None);
        assert_eq!(cache.delete(b"k"), None);
    }
}

#[test]
fn an_entry_is_not_served_for_another_key() {
    for cache in tiers() {
        cache.set(b"alias".to_vec(), value(b"real", 0, b"data"), 0);
        assert_eq!(cache.get(b"alias", 0), None);
    }
}

#[test]
fn ttl_is_clamped_to_five_years() {
    assert_eq!(SyncMokaCache::new(1024, u64::MAX).ttl_seconds(), FIVE_YEARS);
    assert_eq!(SyncMokaCache::new(1024, FIVE_YEARS + 1).ttl_seconds(), FIVE_YEARS);
    assert_eq!(SyncMokaCache::new(1024, FIVE_YEARS).ttl_seconds(), FIVE_YEARS);
    assert_eq!(FoyerCache::new(1024, u64::MAX).ttl_seconds(), FIVE_YEARS);
    assert_eq!(FoyerCache::new(1024, 0).ttl_seconds(), 0);
    let cache = SyncMokaCache::new(1024, u64::MAX);
    assert_eq!(cache.entry_for(value(b"k", 0, b"v"), 1000).expire_at, 1000 + FIVE_YEARS);
    assert_eq!(cache.entry_for(value(b"k", 0, b"v"), u64::MAX - 5).expire_at, u64::MAX);
}

#[test]
fn stamp_and_release() {
    let entry = CacheEntry::stamp(value(b"k", 1, b"v"), 10, 5);
    assert_eq!(entry.expire_at, 15);
    assert_eq!(entry.remaining_seconds(10), 5);
    assert_eq!(entry.remaining_seconds(15), 0);
    assert_eq!(entry.remaining_seconds(99), 0);
    assert_eq!(entry.expiry_epoch_seconds(12, 1_700_000_000), 1_700_000_003);
    assert!(entry.is_for(b"k"));
    assert!(!entry.is_for(b"kk"));
    assert_eq!(CacheEntry::release(Some(entry.clone()), b"k", 14), Some(entry.clone()));
    assert_eq!(CacheEntry::release(Some(entry.clone()), b"k", 15), None);
    assert_eq!(CacheEntry::release(Some(entry), b"x", 14), None);
    assert_eq!(CacheEntry::release(None, b"k", 0), None);
}

#[test]
fn weight_is_key_plus_data_plus_overhead() {
    let entry = CacheEntry::stamp(value(b"key", 0, b"12345"), 0, 1);
    assert_eq!(weigh(&b"key".to_vec(), &entry), 3 + 5 + 32);
    assert_eq!(weigh_wide(&b"key".to_vec(), &entry), 3 + 5 + 32);
    let empty = CacheEntry::stamp(value(b"", 0, b""), 0, 1);
    assert_eq!(weigh(&Vec::new(), &empty), 32);
}

#[test]
fn tiers_by_configuration() {
    assert_eq!(choose_tier(MemoryCacheImpl::Moka, 10, true), Tier::SyncMemory);
    assert_eq!(choose_tier(MemoryCacheImpl::MokaAsync, 0, false), Tier::AsyncMemory);
    assert_eq!(choose_tier(MemoryCacheImpl::Foyer, 10, true), Tier::MemoryAndDisk);
    assert_eq!(choose_tier(MemoryCacheImpl::Foyer, 0, true), Tier::SpillableMemory);
    assert_eq!(choose_tier(MemoryCacheImpl::Foyer, 10, false), Tier::SpillableMemory);
    assert!(matches!(
        create_cache(MemoryCacheImpl::Moka, 1024, 60, 0, false),
        Some(LocalCache::SyncMoka(_))
    ));
    assert!(matches!(
        create_cache(MemoryCacheImpl::Foyer, 1024, 60, 0, false),
        Some(LocalCache::Foyer(_))
    ));
    assert!(create_cache(MemoryCacheImpl::Foyer, 1024, 60, 4096, true).is_none());
    assert!(create_cache(MemoryCacheImpl::MokaAsync, 1024, 60, 0, false).is_none());
}

#[test]
fn flags_travel_as_four_big_endian_bytes() {
    assert_eq!(encode_value(true, 42, b"hello"), b"\x00\x00\x00\x2ahello".to_vec());
    assert_eq!(encode_value(true, 0x01020304, b"x"), b"\x01\x02\x03\x04x".to_vec());
    assert_eq!(encode_value(false, 42, b"hello"), b"hello".to_vec());
    assert_eq!(decode_value(true, b"\x01\x02\x03\x04x"), Some((0x01020304, b"x".to_vec())));
    assert_eq!(decode_value(true, b"\xff\xff\xff\xffpayload"), Some((u32::MAX, b"payload".to_vec())));
    assert_eq!(decode_value(true, b"\x00\x00\x00\x2a"), None);
    assert_eq!(decode_value(true, b""), None);
    assert_eq!(decode_value(false, b"\x00\x00\x00\x2a"), Some((0, b"\x00\x00\x00\x2a".to_vec())));
    for flags in [0u32, 1, 255, 256, 65535, 65536, 0x7fff_ffff, u32::MAX] {
        assert_eq!(
            decode_value(true, &encode_value(true, flags, b"p")),
            Some((flags, b"p".to_vec()))
        );
    }
}

#[test]
fn memcached_backend_commands() {
    assert_eq!(get_command(b"foo"), b"get foo\r\n".to_vec());
    assert_eq!(set_command(b"foo", 60, b"bar"), b"set foo 0 60 3\r\nbar\r\n".to_vec());
    assert_eq!(set_command(b"foo", 0, b""), b"set foo 0 0 0\r\n\r\n".to_vec());
    assert_eq!(delete_command(b"foo"), b"delete foo\r\n".to_vec());
}

#[test]
fn memcached_backend_replies() {
    assert_eq!(value_length(b"VALUE foo 0 3\r\n"), Ok(Some(3)));
    assert_eq!(value_length(b"VALUE foo 0 0\r\n"), Ok(Some(0)));
    assert_eq!(value_length(b"VALUE foo 0 3 17\r\n"), Ok(Some(3)));
    assert_eq!(value_length(b"VALUE foo 0 104857600\r\n"), Ok(Some(104857600)));
    assert_eq!(
        value_length(b"VALUE foo 0 x\r\n"),
        Err(BackendError::Remote {
            code: b"INTERNAL_SERVER_ERROR".to_vec(),
            message: b"Get failed: VALUE foo 0 x".to_vec(),
        })
    );
    assert_eq!(
        value_length(b"VALUE foo 0 104857601\r\n"),
        Err(BackendError::Remote {
            code: b"INTERNAL_SERVER_ERROR".to_vec(),
            message: b"Get failed: VALUE foo 0 104857601".to_vec(),
        })
    );
    assert_eq!(value_length(b"VALUE foo 0\r\n"), Ok(None));
    assert_eq!(value_length(b"END\r\n"), Ok(None));
    assert_eq!(value_length(b"SERVER_ERROR out of memory\r\n"), Ok(None));
    assert_eq!(set_reply(b"STORED\r\n"), Ok(()));
    assert_eq!(
        set_reply(b"SERVER_ERROR object too large for cache\r\n"),
        Err(BackendError::Remote {
            code: b"INTERNAL_SERVER_ERROR".to_vec(),
            message: b"Set failed: SERVER_ERROR object too large for cache".to_vec(),
        })
    );
    assert_eq!(delete_reply(b"DELETED\r\n"), Ok(()));
    assert_eq!(delete_reply(b"NOT_FOUND\r\n"), Ok(()));
    assert_eq!(
        delete_reply(b"ERROR\r\n"),
        Err(BackendError::Remote {
            code: b"INTERNAL_SERVER_ERROR".to_vec(),
            message: b"Delete failed: ERROR".to_vec(),
        })
    );
}

#[test]
fn memcached_backend_helpers() {
    assert_eq!(pick_worker(0, 100), 0);
    assert_eq!(pick_worker(99, 100), 99);
    assert_eq!(pick_worker(100, 100), 0);
    assert_eq!(pick_worker(usize::MAX, 100), usize::MAX % 100);
    assert_eq!(
        server_address(&vec![b"memcache://127.0.0.1:11211".to_vec(), b"other".to_vec()]),
        Some(b"127.0.0.1:11211".to_vec())
    );
    assert_eq!(server_address(&vec![b"localhost:11211".to_vec()]), Some(b"localhost:11211".to_vec()));
    assert_eq!(server_address(&Vec::new()), None);
    assert_eq!(zero_flagged(b"data"), b"\x00\x00\x00\x00data".to_vec());
    assert_eq!(strip_flags(b"\x00\x00\x00\x2adata".to_vec()), b"data".to_vec());
    assert_eq!(strip_flags(b"abc".to_vec()), b"abc".to_vec());
    assert_eq!(strip_flags(b"abcd".to_vec()), b"".to_vec());
    assert_eq!(expiration(None), 0);
    assert_eq!(expiration(Some(60)), 60);
    assert_eq!(expiration(Some(u64::MAX)), u32::MAX);
}

#[test]
fn backend_errors() {
    assert_eq!(BackendError::Timeout.message(), b"backend timeout".to_vec());
    assert!(BackendError::Timeout.is_retriable());
    assert!(BackendError::Io { message: b"reset".to_vec() }.is_retriable());
    let remote = BackendError::Remote { code: b"LIMIT".to_vec(), message: b"too many".to_vec() };
    assert_eq!(remote.message(), b"too many".to_vec());
    assert!(!remote.is_retriable());
    assert!(!BackendError::Config { message: b"bad".to_vec() }.is_retriable());
}

#[test]
fn delete_hands_out_the_value_of_what_was_removed() {
    let entry = CacheEntry::stamp(value(b"k", 9, b"data"), 10, 5);
    assert_eq!(CacheEntry::value_of(Some(entry)), Some(value(b"k", 9, b"data")));
    assert_eq!(CacheEntry::value_of(None), None);
    for cache in tiers() {
        cache.set(b"old".to_vec(), value(b"old", 0, b"x"), 0);
        assert_eq!(cache.get(b"old", 1000), None);
        assert_eq!(cache.delete(b"old"), Some(value(b"old", 0, b"x")));
    }
}
