//! The data the audit reads: a snapshot of the targeted column families,
//! the per-shard trie roots that are loadable, and the genesis configuration.
//!
//! The engine itself never touches the database: a host tool reads the
//! columns it wants audited into a [`Store`] snapshot (records in the store's
//! natural key order), collects the loadable trie roots into [`ShardTries`],
//! and hands both to the engine together with the genesis configuration.
//! The store must not change between being snapshotted and being audited;
//! that is the caller's responsibility.

use vstd::prelude::*;
use crate::bytes_util::bytes_eq;

verus! {

/// The column families the audit knows about.
///
/// A closed enumeration: every rule and the key formatter match on it
/// exhaustively, so a new column has to be handled explicitly.
#[derive(Clone, Copy, PartialEq, Eq, Structural, Debug)]
pub enum DBCol {
    /// Miscellaneous chain bookkeeping (the recorded tail, ...).
    ColBlockMisc,
    /// Block headers, keyed by the header's hash.
    ColBlockHeader,
    /// Blocks, keyed by the block's hash.
    ColBlock,
    /// Chunks, keyed by the chunk's hash.
    ColChunks,
}

/// One record of a column: raw key bytes and raw value bytes.
pub struct Record {
    pub key: Vec<u8>,
    pub value: Vec<u8>,
}

impl View for Record {
    type V = (Seq<u8>, Seq<u8>);

    open spec fn view(&self) -> (Seq<u8>, Seq<u8>) {
        (self.key@, self.value@)
    }
}

/// A read-only snapshot of the columns the audit targets.
///
/// Each column holds its records in the store's natural key order; the
/// engine iterates them in exactly that order.
pub struct Store {
    pub headers: Vec<Record>,
    pub blocks: Vec<Record>,
    pub chunks: Vec<Record>,
    /// The recorded chain tail height, if the store has one.
    pub tail: Option<u64>,
}

/// The mathematical value of a [`Store`]: each column as a sequence of
/// (key, value) byte-sequence pairs.
pub struct StoreView {
    pub headers: Seq<(Seq<u8>, Seq<u8>)>,
    pub blocks: Seq<(Seq<u8>, Seq<u8>)>,
    pub chunks: Seq<(Seq<u8>, Seq<u8>)>,
    pub tail: Option<u64>,
}

impl View for Store {
    type V = StoreView;

    open spec fn view(&self) -> StoreView {
        StoreView {
            headers: self.headers@.map_values(|r: Record| r@),
            blocks: self.blocks@.map_values(|r: Record| r@),
            chunks: self.chunks@.map_values(|r: Record| r@),
            tail: self.tail,
        }
    }
}

/// Whether a column snapshot holds a record under the given key.
pub open spec fn col_has_key(recs: Seq<(Seq<u8>, Seq<u8>)>, k: Seq<u8>) -> bool {
    exists|i: int| 0 <= i < recs.len() && recs[i].0 == k
}

impl Store {
    /// Point lookup into the header column: is there a record with this key?
    pub fn header_exists(&self, k: &[u8]) -> (r: bool)
        ensures
            r == col_has_key(self@.headers, k@),
    {
        recs_have_key(&self.headers, k)
    }
}

/// Scans a column snapshot for a record with the given key.
fn recs_have_key(recs: &Vec<Record>, k: &[u8]) -> (r: bool)
    ensures
        r == col_has_key(recs@.map_values(|r: Record| r@), k@),
{
    let ghost m = recs@.map_values(|r: Record| r@);
    let mut i: usize = 0;
    while i < recs.len()
        invariant
            i <= recs@.len(),
            m == recs@.map_values(|r: Record| r@),
            forall|j: int| 0 <= j < i ==> m[j].0 != k@,
        decreases recs@.len() - i,
    {
        if bytes_eq(recs[i].key.as_slice(), k) {
            proof {
                assert(m[i as int].0 == k@);
            }
            return true;
        }
        i += 1;
    }
    false
}

/// One loadable trie root: the shard it belongs to and the root hash.
pub struct ShardRoot {
    pub shard_id: u64,
    pub root: Vec<u8>,
}

impl View for ShardRoot {
    type V = (u64, Seq<u8>);

    open spec fn view(&self) -> (u64, Seq<u8>) {
        (self.shard_id, self.root@)
    }
}

/// The per-shard state tries, abstracted to the set of (shard, root hash)
/// pairs whose roots are present and loadable.
pub struct ShardTries {
    pub roots: Vec<ShardRoot>,
}

impl View for ShardTries {
    type V = Seq<(u64, Seq<u8>)>;

    open spec fn view(&self) -> Seq<(u64, Seq<u8>)> {
        self.roots@.map_values(|r: ShardRoot| r@)
    }
}

/// Whether the given shard's trie holds the given root.
pub open spec fn trie_has_root(tries: Seq<(u64, Seq<u8>)>, shard_id: u64, root: Seq<u8>) -> bool {
    exists|i: int| 0 <= i < tries.len() && tries[i].0 == shard_id && tries[i].1 == root
}

impl ShardTries {
    /// Existence check: is this root present and loadable in this shard's trie?
    pub fn has_root(&self, shard_id: u64, root: &[u8]) -> (r: bool)
        ensures
            r == trie_has_root(self@, shard_id, root@),
    {
        let ghost m = self@;
        let mut i: usize = 0;
        while i < self.roots.len()
            invariant
                i <= self.roots@.len(),
                m == self@,
                forall|j: int| 0 <= j < i ==> !(m[j].0 == shard_id && m[j].1 == root@),
            decreases self.roots@.len() - i,
        {
            if self.roots[i].shard_id == shard_id && bytes_eq(self.roots[i].root.as_slice(), root) {
                proof {
                    assert(m[i as int].0 == shard_id && m[i as int].1 == root@);
                }
                return true;
            }
            i += 1;
        }
        false
    }
}

/// The genesis configuration, reduced to what the height rules read.
pub struct GenesisConfig {
    pub genesis_height: u64,
}

} // verus!
