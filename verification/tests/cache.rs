use disk_state_cache::{CacheEntry, CacheError, CacheKey, DiskStateCache};

fn key_with_last_byte(last: u8) -> CacheKey {
    let mut bytes = [0u8; 32];
    bytes[31] = last;
    CacheKey::new(bytes)
}

fn enabled_store(root: &str) -> DiskStateCache {
    DiskStateCache::default().with_path(root.to_string())
}

#[test]
fn file_name_is_hex_of_key_with_json_extension() {
    let key = key_with_last_byte(0x01);
    let expected = "0x0000000000000000000000000000000000000000000000000000000000000001.json";
    assert_eq!(key.file_name(), expected);
}

#[test]
fn file_name_uses_lowercase_hex_digits() {
    let key = CacheKey::new([0xabu8; 32]);
    let expected = "0xabababababababababababababababababababababababababababababababab.json";
    assert_eq!(key.file_name(), expected);
}

#[test]
fn cache_file_path_joins_root_and_file_name() {
    let store = enabled_store("scratch");
    let key = key_with_last_byte(0xff);
    let path = store.cache_file_path(&key).unwrap();
    assert_eq!(
        path,
        "scratch/0x00000000000000000000000000000000000000000000000000000000000000ff.json"
    );
}

#[test]
fn disabled_store_is_a_noop_for_all_operations() {
    let store = DiskStateCache::default();
    let key = key_with_last_byte(0x42);
    let entry = CacheEntry { balance: 9, nonce: 3 };
    assert!(!store.is_enabled());
    assert!(store.write(&key, &entry).is_none());
    assert!(store.read(&key, None).is_none());
    assert!(store.read(&key, Some(vec![1, 2, 3])).is_none());
    assert!(store.remove(&key).is_none());
    assert!(store.cache_file_path(&key).is_none());
}

#[test]
fn configure_with_none_disables_and_with_some_enables() {
    let key = key_with_last_byte(0x42);
    let entry = CacheEntry { balance: 1, nonce: 1 };
    let disabled = DiskStateCache::configure(None);
    assert!(disabled.write(&key, &entry).is_none());
    let enabled = DiskStateCache::configure(Some("root".to_string()));
    assert!(enabled.is_enabled());
    assert!(enabled.write(&key, &entry).is_some());
}

#[test]
fn written_bytes_read_back_as_the_same_entry() {
    let store = enabled_store("root");
    let key = key_with_last_byte(0x07);
    let entry = CacheEntry { balance: 12345678901234567890, nonce: 77 };
    let job = store.write(&key, &entry).expect("write on an enabled store yields a job");
    assert_eq!(store.read(&key, Some(job.bytes)), Some(entry));
}

#[test]
fn written_bytes_are_a_compressed_frame_not_the_plain_encoding() {
    let store = enabled_store("root");
    let key = key_with_last_byte(0x07);
    let entry = CacheEntry { balance: 5, nonce: 0 };
    let job = store.write(&key, &entry).expect("write on an enabled store yields a job");
    // An LZ4 frame starts with the fixed magic number 0x184D2204,
    // little-endian on disk.
    assert!(job.bytes.len() >= 4);
    assert_eq!(&job.bytes[0..4], &[0x04, 0x22, 0x4d, 0x18]);
}

#[test]
fn overwrite_reads_back_the_second_entry() {
    let store = enabled_store("root");
    let key = key_with_last_byte(0x09);
    let first = CacheEntry { balance: 1, nonce: 1 };
    let second = CacheEntry { balance: 2, nonce: 2 };
    let job1 = store.write(&key, &first).expect("write on an enabled store yields a job");
    let job2 = store.write(&key, &second).expect("write on an enabled store yields a job");
    // Both writes resolve the same file, so the second replaces the first.
    assert_eq!(job1.path, job2.path);
    let read = store.read(&key, Some(job2.bytes));
    assert_eq!(read, Some(second));
    assert_ne!(read, Some(first));
}

#[test]
fn missing_file_reads_as_absent() {
    let store = enabled_store("root");
    let key = key_with_last_byte(0x0a);
    assert!(store.read(&key, None).is_none());
}

#[test]
fn corrupt_bytes_read_as_absent() {
    let store = enabled_store("root");
    let key = key_with_last_byte(0x0b);
    assert!(store.read(&key, Some(vec![0xff, 0x00, 0xaa, 0x55])).is_none());
    assert!(store.read(&key, Some(Vec::new())).is_none());
}

#[test]
fn truncated_file_reads_as_absent() {
    let store = enabled_store("root");
    let key = key_with_last_byte(0x0c);
    let entry = CacheEntry { balance: 5, nonce: 5 };
    let mut job = store.write(&key, &entry).expect("write on an enabled store yields a job");
    job.bytes.truncate(job.bytes.len() / 2);
    assert!(store.read(&key, Some(job.bytes)).is_none());
}

#[test]
fn repeated_reads_of_equal_bytes_agree() {
    let store = enabled_store("root");
    let key = key_with_last_byte(0x10);
    let entry = CacheEntry { balance: 8, nonce: 8 };
    let job = store.write(&key, &entry).expect("write on an enabled store yields a job");
    let first = store.read(&key, Some(job.bytes.clone()));
    let second = store.read(&key, Some(job.bytes));
    assert_eq!(first, second);
    let garbage = vec![0x99u8, 0x98, 0x97];
    assert_eq!(
        store.read(&key, Some(garbage.clone())),
        store.read(&key, Some(garbage))
    );
}

#[test]
fn remove_resolves_the_same_path_as_write() {
    let store = enabled_store("root");
    let key = key_with_last_byte(0x0d);
    let entry = CacheEntry { balance: 5, nonce: 5 };
    let job = store.write(&key, &entry).expect("write on an enabled store yields a job");
    assert_eq!(store.remove(&key), Some(job.path));
}

#[test]
fn end_to_end_scenario_over_one_key() {
    // A store over an empty scratch directory; the key is 31 zero bytes then
    // 0x01; the entry has balance 5.
    let store = enabled_store("scratch");
    let key = key_with_last_byte(0x01);
    let entry = CacheEntry { balance: 5, nonce: 0 };

    // The write settles: its bytes stand at the resolved path.
    let job = store.write(&key, &entry).expect("write on an enabled store yields a job");
    assert_eq!(
        job.path,
        "scratch/0x0000000000000000000000000000000000000000000000000000000000000001.json"
    );

    // A read of the file's contents returns the entry.
    assert_eq!(store.read(&key, Some(job.bytes)), Some(entry));

    // Remove names the key's file; once it is gone the read misses.
    assert_eq!(store.remove(&key), Some(job.path));
    assert_eq!(store.read(&key, None), None);
}

#[test]
fn decode_failure_names_the_path_it_read() {
    let store = enabled_store("root");
    let key = key_with_last_byte(0x0e);
    let path = store.cache_file_path(&key).unwrap();
    match disk_state_cache::decode_snapshot(&[0xde, 0xad, 0xbe, 0xef], &path) {
        Err(CacheError::ReadSerde { path: p, .. }) => assert_eq!(p, path),
        other => panic!("expected a decode failure, got {other:?}"),
    }
}
