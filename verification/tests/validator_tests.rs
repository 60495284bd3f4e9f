use store_validator::engine::StoreValidator;
use store_validator::store::{DBCol, GenesisConfig, Record, ShardRoot, ShardTries, Store};

fn hash_key(b: u8) -> Vec<u8> {
    vec![b; 32]
}

fn header_value(height: u64) -> Vec<u8> {
    height.to_le_bytes().to_vec()
}

fn block_value(header_hash: &[u8], height: u64, chunk_hashes: &[Vec<u8>]) -> Vec<u8> {
    let mut v = Vec::new();
    v.extend_from_slice(header_hash);
    v.extend_from_slice(&height.to_le_bytes());
    v.extend_from_slice(&(chunk_hashes.len() as u32).to_le_bytes());
    for h in chunk_hashes {
        v.extend_from_slice(h);
    }
    v
}

fn chunk_value(pairs: &[(u64, Vec<u8>)]) -> Vec<u8> {
    let mut v = Vec::new();
    v.extend_from_slice(&(pairs.len() as u32).to_le_bytes());
    for (shard_id, root) in pairs {
        v.extend_from_slice(&shard_id.to_le_bytes());
        v.extend_from_slice(root);
    }
    v
}

fn record(key: Vec<u8>, value: Vec<u8>) -> Record {
    Record { key, value }
}

fn empty_store() -> Store {
    Store { headers: Vec::new(), blocks: Vec::new(), chunks: Vec::new(), tail: None }
}

fn engine(store: Store, tries: ShardTries, genesis_height: u64) -> StoreValidator {
    StoreValidator::new(GenesisConfig { genesis_height }, tries, store)
}

fn no_tries() -> ShardTries {
    ShardTries { roots: Vec::new() }
}

#[test]
fn fresh_engine_reports_failure() {
    let v = engine(empty_store(), no_tries(), 0);
    assert!(v.is_failed());
    assert_eq!(v.tests_done(), 0);
    assert_eq!(v.num_failed(), 0);
}

#[test]
fn empty_store_audit_passes() {
    let mut v = engine(empty_store(), no_tries(), 0);
    v.validate();
    assert_eq!(v.tests_done(), 1);
    assert_eq!(v.num_failed(), 0);
    assert!(!v.is_failed());
}

#[test]
fn checks_executed_counts_invocations() {
    let mut store = empty_store();
    store.headers.push(record(hash_key(1), header_value(0)));
    store.headers.push(record(hash_key(2), header_value(0)));
    store.blocks.push(record(hash_key(1), block_value(&hash_key(1), 0, &[])));
    store.chunks.push(record(hash_key(3), chunk_value(&[])));
    store.chunks.push(record(hash_key(4), chunk_value(&[])));
    let mut v = engine(store, no_tries(), 0);
    v.validate();
    // 1 sentinel + 2 headers + 3 * 1 block + 3 * 2 chunks
    assert_eq!(v.tests_done(), 1 + 2 + 3 + 6);
}

fn mixed_store() -> Store {
    let mut store = empty_store();
    store.headers.push(record(hash_key(1), header_value(9)));
    store.headers.push(record(vec![7; 3], header_value(9)));
    store.blocks.push(record(hash_key(1), block_value(&hash_key(1), 2, &[hash_key(5)])));
    store.blocks.push(record(hash_key(2), block_value(&hash_key(9), 20, &[])));
    store.chunks.push(record(hash_key(5), chunk_value(&[(0, hash_key(6))])));
    store.tail = Some(10);
    store
}

#[test]
fn validate_twice_identical_reports() {
    let mut a = engine(mixed_store(), no_tries(), 4);
    let mut b = engine(mixed_store(), no_tries(), 4);
    a.validate();
    b.validate();
    assert_eq!(a.tests_done(), b.tests_done());
    assert_eq!(a.num_failed(), b.num_failed());
    for (ea, eb) in a.errors.iter().zip(b.errors.iter()) {
        assert_eq!(ea.col, eb.col);
        assert_eq!(ea.key, eb.key);
        assert_eq!(ea.func, eb.func);
        assert_eq!(ea.reason, eb.reason);
    }
}

#[test]
fn header_bad_key_one_error() {
    let mut store = empty_store();
    store.headers.push(record(vec![7; 31], header_value(0)));
    let mut v = engine(store, no_tries(), 0);
    v.validate();
    assert_eq!(v.num_failed(), 1);
    assert_eq!(v.errors[0].func, "header_validity");
    assert_eq!(v.errors[0].reason, "header key is not a valid hash");
    assert_eq!(v.errors[0].col, Some(DBCol::ColBlockHeader));
    assert_eq!(v.errors[0].key.as_deref(), Some("invalid hash key"));
}

#[test]
fn header_good_record_no_error() {
    let mut store = empty_store();
    store.headers.push(record(hash_key(1), header_value(3)));
    let mut v = engine(store, no_tries(), 0);
    v.validate();
    assert_eq!(v.num_failed(), 0);
    assert!(!v.is_failed());
}

#[test]
fn header_bad_value_flagged() {
    let mut store = empty_store();
    store.headers.push(record(hash_key(1), vec![0; 7]));
    let mut v = engine(store, no_tries(), 0);
    v.validate();
    assert_eq!(v.num_failed(), 1);
    assert_eq!(v.errors[0].func, "header_validity");
    assert_eq!(v.errors[0].reason, "header record does not decode");
}

#[test]
fn block_missing_header_one_error() {
    // The block's own key is malformed on purpose: the missing header must
    // still be reported exactly once, independent of the hash-validity
    // outcome.
    let mut store = empty_store();
    store.blocks.push(record(vec![9; 5], block_value(&hash_key(1), 0, &[])));
    let mut v = engine(store, no_tries(), 0);
    v.validate();
    assert_eq!(v.num_failed(), 2);
    let missing: Vec<_> =
        v.errors.iter().filter(|e| e.func == "block_header_exists").collect();
    assert_eq!(missing.len(), 1);
    assert_eq!(missing[0].reason, "block header not found");
    assert_eq!(missing[0].col, Some(DBCol::ColBlock));
    assert!(v.errors.iter().any(|e| e.func == "block_hash_validity"));
}

#[test]
fn block_height_below_tail_flagged() {
    let mut store = empty_store();
    store.headers.push(record(hash_key(1), header_value(3)));
    store.blocks.push(record(hash_key(1), block_value(&hash_key(1), 3, &[])));
    store.tail = Some(10);
    let mut v = engine(store, no_tries(), 5);
    v.validate();
    assert_eq!(v.num_failed(), 1);
    assert_eq!(v.errors[0].func, "block_height_cmp_tail");
    assert_eq!(v.errors[0].reason, "block height is below tail");
}

#[test]
fn block_at_genesis_no_tail_passes() {
    let mut store = empty_store();
    store.headers.push(record(hash_key(1), header_value(7)));
    store.blocks.push(record(hash_key(1), block_value(&hash_key(1), 7, &[])));
    let mut v = engine(store, no_tries(), 7);
    v.validate();
    assert_eq!(v.num_failed(), 0);
    assert!(!v.is_failed());
}

fn store_with_one_chunk(pairs: &[(u64, Vec<u8>)]) -> Store {
    let mut store = empty_store();
    let chunk_hash = hash_key(5);
    store.headers.push(record(hash_key(1), header_value(0)));
    store.blocks.push(
        record(hash_key(1), block_value(&hash_key(1), 0, &[chunk_hash.clone()])),
    );
    store.chunks.push(record(chunk_hash, chunk_value(pairs)));
    store
}

#[test]
fn chunk_missing_state_root_flagged() {
    let store = store_with_one_chunk(&[(0, hash_key(6))]);
    let mut v = engine(store, no_tries(), 0);
    v.validate();
    assert_eq!(v.num_failed(), 1);
    assert_eq!(v.errors[0].func, "chunks_state_roots_in_trie");
    assert_eq!(v.errors[0].reason, "missing state root in trie");
    assert_eq!(v.errors[0].col, Some(DBCol::ColChunks));
}

#[test]
fn chunk_all_roots_present_no_error() {
    let store = store_with_one_chunk(&[(0, hash_key(6)), (1, hash_key(7))]);
    let tries = ShardTries {
        roots: vec![
            ShardRoot { shard_id: 0, root: hash_key(6) },
            ShardRoot { shard_id: 1, root: hash_key(7) },
        ],
    };
    let mut v = engine(store, tries, 0);
    v.validate();
    assert_eq!(v.num_failed(), 0);
    assert!(!v.is_failed());
}

#[test]
fn chunk_no_block_reference_flagged() {
    let mut store = empty_store();
    store.chunks.push(record(hash_key(5), chunk_value(&[])));
    let mut v = engine(store, no_tries(), 0);
    v.validate();
    assert_eq!(v.num_failed(), 1);
    assert_eq!(v.errors[0].func, "block_of_chunk_exists");
    assert_eq!(v.errors[0].reason, "no block references this chunk");
}

#[test]
fn chunk_bad_key_flagged() {
    // A malformed chunk key cannot be referenced by any well-formed block
    // either, so the unreferenced-chunk rule fails along with key validity.
    let mut store = empty_store();
    store.chunks.push(record(vec![5; 3], chunk_value(&[])));
    let mut v = engine(store, no_tries(), 0);
    v.validate();
    assert_eq!(v.num_failed(), 2);
    assert_eq!(v.errors[0].func, "chunk_hash_validity");
    assert_eq!(v.errors[0].reason, "chunk key is not a valid chunk hash");
    assert_eq!(v.errors[0].key.as_deref(), Some("invalid chunk hash key"));
    assert_eq!(v.errors[1].func, "block_of_chunk_exists");
}

#[test]
fn malformed_block_value_two_decode_errors() {
    let mut store = empty_store();
    store.blocks.push(record(hash_key(1), vec![0; 10]));
    let mut v = engine(store, no_tries(), 0);
    v.validate();
    assert_eq!(v.num_failed(), 2);
    assert_eq!(v.errors[0].func, "block_header_exists");
    assert_eq!(v.errors[0].reason, "block record does not decode");
    assert_eq!(v.errors[1].func, "block_height_cmp_tail");
    assert_eq!(v.errors[1].reason, "block record does not decode");
}

#[test]
fn malformed_chunk_value_decode_error() {
    let mut store = empty_store();
    let chunk_hash = hash_key(5);
    store.headers.push(record(hash_key(1), header_value(0)));
    store.blocks.push(
        record(hash_key(1), block_value(&hash_key(1), 0, &[chunk_hash.clone()])),
    );
    store.chunks.push(record(chunk_hash, vec![0; 2]));
    let mut v = engine(store, no_tries(), 0);
    v.validate();
    assert_eq!(v.num_failed(), 1);
    assert_eq!(v.errors[0].func, "chunks_state_roots_in_trie");
    assert_eq!(v.errors[0].reason, "chunk record does not decode");
}

#[test]
fn error_order_follows_store_order() {
    let mut store = empty_store();
    store.headers.push(record(vec![1; 31], header_value(0)));
    store.blocks.push(record(vec![2; 31], block_value(&hash_key(1), 0, &[])));
    let mut v = engine(store, no_tries(), 0);
    v.validate();
    assert!(v.num_failed() >= 2);
    assert_eq!(v.errors[0].func, "header_validity");
    assert_eq!(v.errors[1].func, "block_hash_validity");
}
