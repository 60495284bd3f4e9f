//! The on-disk record encodings the rules read, and their verified decoders.
//!
//! Values use a fixed little-endian layout:
//! - a header value is the header's height, 8 bytes;
//! - a block value is the referenced header hash (32 bytes), the block
//!   height (8 bytes), a chunk count (4 bytes) and that many 32-byte chunk
//!   hashes;
//! - a chunk value is a pair count (4 bytes) and that many 40-byte
//!   (shard id, post-state root) pairs.
//!
//! Decoding is total: malformed bytes yield `None`, never a panic.

use vstd::prelude::*;
use vstd::bytes::{spec_u32_from_le_bytes, spec_u64_from_le_bytes, u32_from_le_bytes,
    u64_from_le_bytes};
use vstd::slice::{slice_subrange, slice_to_vec};
use crate::store::ShardRoot;

verus! {

/// A key of a hash-keyed column is exactly a 32-byte hash.
pub open spec fn valid_hash_key(k: Seq<u8>) -> bool {
    k.len() == 32
}

/// A header value decodes iff it is exactly the 8-byte height.
pub open spec fn valid_header_value(v: Seq<u8>) -> bool {
    v.len() == 8
}

/// The mathematical content of a block record.
pub struct BlockView {
    /// Hash of the header this block refers to.
    pub header_hash: Seq<u8>,
    pub height: u64,
    /// Hashes of the chunks the block includes, one per shard.
    pub chunk_hashes: Seq<Seq<u8>>,
}

/// The chunk count declared by a block value.
pub open spec fn block_chunk_count(v: Seq<u8>) -> int {
    spec_u32_from_le_bytes(v.subrange(40, 44)) as int
}

/// Whether a block value is well-formed.
pub open spec fn valid_block_value(v: Seq<u8>) -> bool {
    &&& v.len() >= 44
    &&& v.len() == 44 + 32 * block_chunk_count(v)
}

/// The block a well-formed block value decodes to.
pub open spec fn spec_block(v: Seq<u8>) -> BlockView
    recommends
        valid_block_value(v),
{
    BlockView {
        header_hash: v.subrange(0, 32),
        height: spec_u64_from_le_bytes(v.subrange(32, 40)),
        chunk_hashes: Seq::new(
            block_chunk_count(v) as nat,
            |i: int| v.subrange(44 + 32 * i, 44 + 32 * i + 32),
        ),
    }
}

/// The mathematical content of a chunk record: the declared
/// (shard id, post-state root) pairs.
pub struct ChunkView {
    pub shard_roots: Seq<(u64, Seq<u8>)>,
}

/// The pair count declared by a chunk value.
pub open spec fn chunk_pair_count(v: Seq<u8>) -> int {
    spec_u32_from_le_bytes(v.subrange(0, 4)) as int
}

/// Whether a chunk value is well-formed.
pub open spec fn valid_chunk_value(v: Seq<u8>) -> bool {
    &&& v.len() >= 4
    &&& v.len() == 4 + 40 * chunk_pair_count(v)
}

/// The pairs a well-formed chunk value decodes to.
pub open spec fn spec_chunk(v: Seq<u8>) -> ChunkView
    recommends
        valid_chunk_value(v),
{
    ChunkView {
        shard_roots: Seq::new(
            chunk_pair_count(v) as nat,
            |i: int| (
                spec_u64_from_le_bytes(v.subrange(4 + 40 * i, 4 + 40 * i + 8)),
                v.subrange(4 + 40 * i + 8, 4 + 40 * i + 40),
            ),
        ),
    }
}

/// A decoded block record.
pub struct BlockRecord {
    pub header_hash: Vec<u8>,
    pub height: u64,
    pub chunk_hashes: Vec<Vec<u8>>,
}

impl View for BlockRecord {
    type V = BlockView;

    open spec fn view(&self) -> BlockView {
        BlockView {
            header_hash: self.header_hash@,
            height: self.height,
            chunk_hashes: self.chunk_hashes@.map_values(|h: Vec<u8>| h@),
        }
    }
}

/// A decoded chunk record.
pub struct ChunkRecord {
    pub shard_roots: Vec<ShardRoot>,
}

impl View for ChunkRecord {
    type V = ChunkView;

    open spec fn view(&self) -> ChunkView {
        ChunkView { shard_roots: self.shard_roots@.map_values(|r: ShardRoot| r@) }
    }
}

/// Decodes a block value; `None` exactly on malformed bytes.
pub fn decode_block(v: &[u8]) -> (r: Option<BlockRecord>)
    ensures
        r is Some <==> valid_block_value(v@),
        r matches Some(b) ==> b@ == spec_block(v@),
{
    if v.len() < 44 {
        return None;
    }
    let count = u32_from_le_bytes(slice_subrange(v, 40, 44)) as usize;
    let rest = v.len() - 44;
    if rest % 32 != 0 || rest / 32 != count {
        proof {
            assert(rest == 32 * (rest / 32) + rest % 32);
            assert(!valid_block_value(v@));
        }
        return None;
    }
    assert(v@.len() == 44 + 32 * count);
    let header_hash = slice_to_vec(slice_subrange(v, 0, 32));
    let height = u64_from_le_bytes(slice_subrange(v, 32, 40));
    let mut chunk_hashes: Vec<Vec<u8>> = Vec::new();
    let mut i: usize = 0;
    while i < count
        invariant
            i <= count,
            v@.len() == 44 + 32 * count,
            v@.len() <= usize::MAX,
            chunk_hashes@.len() == i,
            forall|j: int| 0 <= j < i ==>
                #[trigger] chunk_hashes@[j]@ == v@.subrange(44 + 32 * j, 44 + 32 * j + 32),
        decreases count - i,
    {
        let start = 44 + 32 * i;
        let h = slice_to_vec(slice_subrange(v, start, start + 32));
        chunk_hashes.push(h);
        i += 1;
    }
    let result = BlockRecord { header_hash, height, chunk_hashes };
    proof {
        assert(result@.chunk_hashes =~= spec_block(v@).chunk_hashes);
        assert(result@ == spec_block(v@));
    }
    Some(result)
}

/// Decodes a chunk value; `None` exactly on malformed bytes.
pub fn decode_chunk(v: &[u8]) -> (r: Option<ChunkRecord>)
    ensures
        r is Some <==> valid_chunk_value(v@),
        r matches Some(c) ==> c@ == spec_chunk(v@),
{
    if v.len() < 4 {
        return None;
    }
    let count = u32_from_le_bytes(slice_subrange(v, 0, 4)) as usize;
    let rest = v.len() - 4;
    if rest % 40 != 0 || rest / 40 != count {
        proof {
            assert(rest == 40 * (rest / 40) + rest % 40);
            assert(!valid_chunk_value(v@));
        }
        return None;
    }
    assert(v@.len() == 4 + 40 * count);
    let mut shard_roots: Vec<ShardRoot> = Vec::new();
    let mut i: usize = 0;
    while i < count
        invariant
            i <= count,
            v@.len() == 4 + 40 * count,
            v@.len() <= usize::MAX,
            shard_roots@.len() == i,
            forall|j: int| 0 <= j < i ==>
                #[trigger] shard_roots@[j]@ == (
                    spec_u64_from_le_bytes(v@.subrange(4 + 40 * j, 4 + 40 * j + 8)),
                    v@.subrange(4 + 40 * j + 8, 4 + 40 * j + 40),
                ),
        decreases count - i,
    {
        let start = 4 + 40 * i;
        let shard_id = u64_from_le_bytes(slice_subrange(v, start, start + 8));
        let root = slice_to_vec(slice_subrange(v, start + 8, start + 40));
        shard_roots.push(ShardRoot { shard_id, root });
        i += 1;
    }
    let result = ChunkRecord { shard_roots };
    proof {
        assert(result@.shard_roots =~= spec_chunk(v@).shard_roots);
        assert(result@ == spec_chunk(v@));
    }
    Some(result)
}

} // verus!
