//! The validation rule set: a closed collection of pure, read-only
//! predicates, each scoped to one column family.
//!
//! A rule maps (read-only collaborators, key bytes, value bytes) to success
//! or a reason string. Decode failures are caught and turned into rule
//! failures, never propagated. The set is a closed enum dispatched by
//! exhaustive matching, so adding a rule forces every dispatch site to
//! handle it.

use vstd::prelude::*;
use vstd::string::StringExecFns;
use crate::bytes_util::bytes_eq;
use crate::report::ErrorMessage;
use crate::store::{col_has_key, trie_has_root, GenesisConfig, ShardTries, Store, StoreView};
use crate::wire::{decode_block, decode_chunk, spec_block, spec_chunk, valid_block_value,
    valid_chunk_value, valid_hash_key, valid_header_value};

verus! {

/// The closed set of validation rules.
#[derive(Clone, Copy, PartialEq, Eq, Structural, Debug)]
pub enum Rule {
    /// Always passes; guarantees at least one check runs per audit.
    Nothing,
    /// Header column: key and value must both decode.
    HeaderValidity,
    /// Block column: the key must decode as a hash.
    BlockHashValidity,
    /// Block column: the referenced header must exist in the header column.
    BlockHeaderExists,
    /// Block column: the height must reach the recorded tail, or the
    /// genesis height when no tail is recorded.
    BlockHeightCmpTail,
    /// Chunk column: the key must decode as a chunk hash.
    ChunkHashValidity,
    /// Chunk column: some block's chunk-hash list must reference the chunk.
    BlockOfChunkExists,
    /// Chunk column: every declared post-state root must be in its
    /// shard's trie.
    ChunksStateRootsInTrie,
}

/// The identifier a failing rule stamps on its error.
pub open spec fn rule_name(r: Rule) -> Seq<char> {
    match r {
        Rule::Nothing => "nothing"@,
        Rule::HeaderValidity => "header_validity"@,
        Rule::BlockHashValidity => "block_hash_validity"@,
        Rule::BlockHeaderExists => "block_header_exists"@,
        Rule::BlockHeightCmpTail => "block_height_cmp_tail"@,
        Rule::ChunkHashValidity => "chunk_hash_validity"@,
        Rule::BlockOfChunkExists => "block_of_chunk_exists"@,
        Rule::ChunksStateRootsInTrie => "chunks_state_roots_in_trie"@,
    }
}

/// Everything a rule may read: the genesis height, the loadable trie
/// roots, and the store snapshot.
pub struct EnvView {
    pub genesis_height: u64,
    pub trie: Seq<(u64, Seq<u8>)>,
    pub store: StoreView,
}

/// The height floor a block must reach: the recorded tail if present,
/// else the genesis height.
pub open spec fn spec_floor(tail: Option<u64>, genesis_height: u64) -> u64 {
    match tail {
        Some(t) => t,
        None => genesis_height,
    }
}

/// Whether some well-formed block in the column references the chunk hash.
pub open spec fn some_block_references_chunk(
    blocks: Seq<(Seq<u8>, Seq<u8>)>,
    chunk_hash: Seq<u8>,
) -> bool {
    exists|i: int|
        0 <= i < blocks.len() && valid_block_value(blocks[i].1)
            && spec_block(blocks[i].1).chunk_hashes.contains(chunk_hash)
}

/// Whether every declared (shard, root) pair resolves in the tries.
pub open spec fn all_roots_present(
    trie: Seq<(u64, Seq<u8>)>,
    pairs: Seq<(u64, Seq<u8>)>,
) -> bool {
    forall|i: int| 0 <= i < pairs.len() ==> trie_has_root(trie, pairs[i].0, pairs[i].1)
}

/// What a rule decides: `None` is success, `Some(reason)` is the failure
/// reason it reports.
pub open spec fn spec_rule_outcome(env: EnvView, r: Rule, k: Seq<u8>, v: Seq<u8>) -> Option<
    Seq<char>,
> {
    match r {
        Rule::Nothing => None,
        Rule::HeaderValidity => if !valid_hash_key(k) {
            Some("header key is not a valid hash"@)
        } else if !valid_header_value(v) {
            Some("header record does not decode"@)
        } else {
            None
        },
        Rule::BlockHashValidity => if !valid_hash_key(k) {
            Some("block key is not a valid hash"@)
        } else {
            None
        },
        Rule::BlockHeaderExists => if !valid_block_value(v) {
            Some("block record does not decode"@)
        } else if !col_has_key(env.store.headers, spec_block(v).header_hash) {
            Some("block header not found"@)
        } else {
            None
        },
        Rule::BlockHeightCmpTail => if !valid_block_value(v) {
            Some("block record does not decode"@)
        } else if spec_block(v).height < spec_floor(env.store.tail, env.genesis_height) {
            Some("block height is below tail"@)
        } else {
            None
        },
        Rule::ChunkHashValidity => if !valid_hash_key(k) {
            Some("chunk key is not a valid chunk hash"@)
        } else {
            None
        },
        Rule::BlockOfChunkExists => if !some_block_references_chunk(env.store.blocks, k) {
            Some("no block references this chunk"@)
        } else {
            None
        },
        Rule::ChunksStateRootsInTrie => if !valid_chunk_value(v) {
            Some("chunk record does not decode"@)
        } else if !all_roots_present(env.trie, spec_chunk(v).shard_roots) {
            Some("missing state root in trie"@)
        } else {
            None
        },
    }
}

/// The rule environment read from the engine's collaborators.
pub open spec fn env_view(config: GenesisConfig, tries: ShardTries, store: Store) -> EnvView {
    EnvView { genesis_height: config.genesis_height, trie: tries@, store: store@ }
}

/// A fresh failure record carrying the rule identifier and the reason.
fn rule_err(func: &str, reason: &str) -> (r: ErrorMessage)
    ensures
        r@.col is None,
        r@.key is None,
        r@.func == func@,
        r@.reason == reason@,
{
    ErrorMessage::new(String::from_str(func), String::from_str(reason))
}

/// The sentinel rule: passes on every input.
pub fn nothing(_key: &[u8], _value: &[u8]) -> (r: Result<(), ErrorMessage>)
    ensures
        r is Ok,
{
    Ok(())
}

/// Header column: both the key (a hash) and the value must decode.
pub fn header_validity(key: &[u8], value: &[u8]) -> (r: Result<(), ErrorMessage>)
    ensures
        r is Ok <==> (valid_hash_key(key@) && valid_header_value(value@)),
        r matches Err(e) ==> e@.col is None && e@.key is None && e@.func == "header_validity"@
            && e@.reason == (if !valid_hash_key(key@) {
                "header key is not a valid hash"@
            } else {
                "header record does not decode"@
            }),
{
    if key.len() != 32 {
        Err(rule_err("header_validity", "header key is not a valid hash"))
    } else if value.len() != 8 {
        Err(rule_err("header_validity", "header record does not decode"))
    } else {
        Ok(())
    }
}

/// Block column: the key must decode as a hash.
pub fn block_hash_validity(key: &[u8], _value: &[u8]) -> (r: Result<(), ErrorMessage>)
    ensures
        r is Ok <==> valid_hash_key(key@),
        r matches Err(e) ==> e@.col is None && e@.key is None
            && e@.func == "block_hash_validity"@ && e@.reason == "block key is not a valid hash"@,
{
    if key.len() != 32 {
        Err(rule_err("block_hash_validity", "block key is not a valid hash"))
    } else {
        Ok(())
    }
}

/// Block column: the header the block refers to must exist in the header
/// column.
pub fn block_header_exists(store: &Store, _key: &[u8], value: &[u8]) -> (r: Result<
    (),
    ErrorMessage,
>)
    ensures
        r is Ok <==> (valid_block_value(value@) && col_has_key(
            store@.headers,
            spec_block(value@).header_hash,
        )),
        r matches Err(e) ==> e@.col is None && e@.key is None
            && e@.func == "block_header_exists"@
            && e@.reason == (if !valid_block_value(value@) {
                "block record does not decode"@
            } else {
                "block header not found"@
            }),
{
    match decode_block(value) {
        None => Err(rule_err("block_header_exists", "block record does not decode")),
        Some(b) => {
            if store.header_exists(b.header_hash.as_slice()) {
                Ok(())
            } else {
                Err(rule_err("block_header_exists", "block header not found"))
            }
        },
    }
}

/// Block column: the height must reach the floor (recorded tail, else the
/// genesis height).
pub fn block_height_cmp_tail(
    config: &GenesisConfig,
    store: &Store,
    _key: &[u8],
    value: &[u8],
) -> (r: Result<(), ErrorMessage>)
    ensures
        r is Ok <==> (valid_block_value(value@) && spec_block(value@).height >= spec_floor(
            store@.tail,
            config.genesis_height,
        )),
        r matches Err(e) ==> e@.col is None && e@.key is None
            && e@.func == "block_height_cmp_tail"@
            && e@.reason == (if !valid_block_value(value@) {
                "block record does not decode"@
            } else {
                "block height is below tail"@
            }),
{
    match decode_block(value) {
        None => Err(rule_err("block_height_cmp_tail", "block record does not decode")),
        Some(b) => {
            let floor = match store.tail {
                Some(t) => t,
                None => config.genesis_height,
            };
            if b.height >= floor {
                Ok(())
            } else {
                Err(rule_err("block_height_cmp_tail", "block height is below tail"))
            }
        },
    }
}

/// Chunk column: the key must decode as a chunk hash.
pub fn chunk_hash_validity(key: &[u8], _value: &[u8]) -> (r: Result<(), ErrorMessage>)
    ensures
        r is Ok <==> valid_hash_key(key@),
        r matches Err(e) ==> e@.col is None && e@.key is None
            && e@.func == "chunk_hash_validity"@
            && e@.reason == "chunk key is not a valid chunk hash"@,
{
    if key.len() != 32 {
        Err(rule_err("chunk_hash_validity", "chunk key is not a valid chunk hash"))
    } else {
        Ok(())
    }
}

/// Scans a chunk-hash list for the given hash.
fn hashes_contain(hashes: &Vec<Vec<u8>>, k: &[u8]) -> (r: bool)
    ensures
        r == hashes@.map_values(|h: Vec<u8>| h@).contains(k@),
{
    let ghost m = hashes@.map_values(|h: Vec<u8>| h@);
    let mut i: usize = 0;
    while i < hashes.len()
        invariant
            i <= hashes@.len(),
            m == hashes@.map_values(|h: Vec<u8>| h@),
            forall|j: int| 0 <= j < i ==> m[j] != k@,
        decreases hashes@.len() - i,
    {
        if bytes_eq(hashes[i].as_slice(), k) {
            proof {
                assert(m[i as int] == k@);
            }
            return true;
        }
        i += 1;
    }
    proof {
        assert(!m.contains(k@));
    }
    false
}

/// Chunk column: some block must reference the chunk through its
/// chunk-hash list.
pub fn block_of_chunk_exists(store: &Store, key: &[u8], _value: &[u8]) -> (r: Result<
    (),
    ErrorMessage,
>)
    ensures
        r is Ok <==> some_block_references_chunk(store@.blocks, key@),
        r matches Err(e) ==> e@.col is None && e@.key is None
            && e@.func == "block_of_chunk_exists"@
            && e@.reason == "no block references this chunk"@,
{
    let ghost bs = store@.blocks;
    let mut i: usize = 0;
    while i < store.blocks.len()
        invariant
            i <= store.blocks@.len(),
            bs == store@.blocks,
            forall|j: int| 0 <= j < i ==> !(valid_block_value(#[trigger] bs[j].1) && spec_block(
                bs[j].1,
            ).chunk_hashes.contains(key@)),
        decreases store.blocks@.len() - i,
    {
        match decode_block(store.blocks[i].value.as_slice()) {
            Some(b) => {
                if hashes_contain(&b.chunk_hashes, key) {
                    proof {
                        assert(valid_block_value(bs[i as int].1) && spec_block(
                            bs[i as int].1,
                        ).chunk_hashes.contains(key@));
                    }
                    return Ok(());
                }
            },
            None => {},
        }
        i += 1;
    }
    Err(rule_err("block_of_chunk_exists", "no block references this chunk"))
}

/// Chunk column: every declared post-state root must be loadable in its
/// shard's trie.
pub fn chunks_state_roots_in_trie(tries: &ShardTries, _key: &[u8], value: &[u8]) -> (r: Result<
    (),
    ErrorMessage,
>)
    ensures
        r is Ok <==> (valid_chunk_value(value@) && all_roots_present(
            tries@,
            spec_chunk(value@).shard_roots,
        )),
        r matches Err(e) ==> e@.col is None && e@.key is None
            && e@.func == "chunks_state_roots_in_trie"@
            && e@.reason == (if !valid_chunk_value(value@) {
                "chunk record does not decode"@
            } else {
                "missing state root in trie"@
            }),
{
    match decode_chunk(value) {
        None => Err(rule_err("chunks_state_roots_in_trie", "chunk record does not decode")),
        Some(c) => {
            let ghost pairs = spec_chunk(value@).shard_roots;
            let mut i: usize = 0;
            while i < c.shard_roots.len()
                invariant
                    i <= c.shard_roots@.len(),
                    valid_chunk_value(value@),
                    c@ == spec_chunk(value@),
                    pairs == spec_chunk(value@).shard_roots,
                    forall|j: int| 0 <= j < i ==> trie_has_root(
                        tries@,
                        #[trigger] pairs[j].0,
                        pairs[j].1,
                    ),
                decreases c.shard_roots@.len() - i,
            {
                let present = tries.has_root(
                    c.shard_roots[i].shard_id,
                    c.shard_roots[i].root.as_slice(),
                );
                if !present {
                    proof {
                        assert(pairs[i as int] == c.shard_roots@[i as int]@);
                        assert(!trie_has_root(tries@, pairs[i as int].0, pairs[i as int].1));
                        assert(!all_roots_present(tries@, pairs));
                    }
                    return Err(
                        rule_err("chunks_state_roots_in_trie", "missing state root in trie"),
                    );
                }
                i += 1;
            }
            Ok(())
        },
    }
}

/// Runs one rule against one record; the sole rule dispatch point.
pub fn run_rule(
    rule: Rule,
    config: &GenesisConfig,
    tries: &ShardTries,
    store: &Store,
    key: &[u8],
    value: &[u8],
) -> (r: Result<(), ErrorMessage>)
    ensures
        r is Ok <==> spec_rule_outcome(env_view(*config, *tries, *store), rule, key@, value@)
            is None,
        r matches Err(e) ==> e@.col is None && e@.key is None && e@.func == rule_name(rule)
            && Some(e@.reason) == spec_rule_outcome(
            env_view(*config, *tries, *store),
            rule,
            key@,
            value@,
        ),
{
    match rule {
        Rule::Nothing => nothing(key, value),
        Rule::HeaderValidity => header_validity(key, value),
        Rule::BlockHashValidity => block_hash_validity(key, value),
        Rule::BlockHeaderExists => block_header_exists(store, key, value),
        Rule::BlockHeightCmpTail => block_height_cmp_tail(config, store, key, value),
        Rule::ChunkHashValidity => chunk_hash_validity(key, value),
        Rule::BlockOfChunkExists => block_of_chunk_exists(store, key, value),
        Rule::ChunksStateRootsInTrie => chunks_state_roots_in_trie(tries, key, value),
    }
}

} // verus!
