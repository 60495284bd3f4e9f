use store_validator::bytes_util::bytes_eq;
use store_validator::store::{Record, ShardRoot, ShardTries, Store};
use store_validator::wire::{decode_block, decode_chunk};

fn block_value(header_hash: &[u8], height: u64, chunk_hashes: &[Vec<u8>]) -> Vec<u8> {
    let mut v = Vec::new();
    v.extend_from_slice(header_hash);
    v.extend_from_slice(&height.to_le_bytes());
    v.extend_from_slice(&(chunk_hashes.len() as u32).to_le_bytes());
    for h in chunk_hashes {
        v.extend_from_slice(h);
    }
    v
}

fn chunk_value(pairs: &[(u64, Vec<u8>)]) -> Vec<u8> {
    let mut v = Vec::new();
    v.extend_from_slice(&(pairs.len() as u32).to_le_bytes());
    for (shard_id, root) in pairs {
        v.extend_from_slice(&shard_id.to_le_bytes());
        v.extend_from_slice(root);
    }
    v
}

#[test]
fn decode_block_roundtrip() {
    let h1 = vec![3u8; 32];
    let h2 = vec![4u8; 32];
    let v = block_value(&[7u8; 32], 123456789, &[h1.clone(), h2.clone()]);
    let b = decode_block(&v).expect("well-formed block value");
    assert_eq!(b.header_hash, vec![7u8; 32]);
    assert_eq!(b.height, 123456789);
    assert_eq!(b.chunk_hashes, vec![h1, h2]);
}

#[test]
fn decode_block_no_chunks() {
    let v = block_value(&[0u8; 32], 0, &[]);
    let b = decode_block(&v).expect("well-formed block value");
    assert_eq!(b.chunk_hashes.len(), 0);
}

#[test]
fn decode_block_rejects_malformed() {
    assert!(decode_block(&[]).is_none());
    assert!(decode_block(&[0; 43]).is_none());
    let mut v = block_value(&[0u8; 32], 1, &[vec![1u8; 32]]);
    v.pop();
    assert!(decode_block(&v).is_none());
    // Declared count disagrees with the actual length.
    let mut w = block_value(&[0u8; 32], 1, &[]);
    w[40] = 2;
    assert!(decode_block(&w).is_none());
}

#[test]
fn decode_chunk_roundtrip() {
    let v = chunk_value(&[(0, vec![5u8; 32]), (7, vec![6u8; 32])]);
    let c = decode_chunk(&v).expect("well-formed chunk value");
    assert_eq!(c.shard_roots.len(), 2);
    assert_eq!(c.shard_roots[0].shard_id, 0);
    assert_eq!(c.shard_roots[0].root, vec![5u8; 32]);
    assert_eq!(c.shard_roots[1].shard_id, 7);
    assert_eq!(c.shard_roots[1].root, vec![6u8; 32]);
}

#[test]
fn decode_chunk_rejects_malformed() {
    assert!(decode_chunk(&[]).is_none());
    assert!(decode_chunk(&[0; 3]).is_none());
    let mut v = chunk_value(&[(1, vec![9u8; 32])]);
    v.push(0);
    assert!(decode_chunk(&v).is_none());
}

#[test]
fn bytes_eq_compares_contents() {
    assert!(bytes_eq(&[1, 2, 3], &[1, 2, 3]));
    assert!(!bytes_eq(&[1, 2, 3], &[1, 2, 4]));
    assert!(!bytes_eq(&[1, 2], &[1, 2, 3]));
    assert!(bytes_eq(&[], &[]));
}

#[test]
fn store_header_lookup() {
    let store = Store {
        headers: vec![Record { key: vec![1u8; 32], value: vec![0u8; 8] }],
        blocks: Vec::new(),
        chunks: Vec::new(),
        tail: None,
    };
    assert!(store.header_exists(&[1u8; 32]));
    assert!(!store.header_exists(&[2u8; 32]));
}

#[test]
fn tries_root_lookup() {
    let tries = ShardTries { roots: vec![ShardRoot { shard_id: 3, root: vec![8u8; 32] }] };
    assert!(tries.has_root(3, &[8u8; 32]));
    assert!(!tries.has_root(2, &[8u8; 32]));
    assert!(!tries.has_root(3, &[9u8; 32]));
}
