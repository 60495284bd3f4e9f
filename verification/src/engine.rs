//! The validator engine.
//!
//! `validate` runs one fixed program of checks over the snapshot: a
//! sentinel check, then every header, block and chunk record in store
//! order, each against its column's rules. `check` is the sole execution
//! primitive: it runs one rule, increments the counter unconditionally,
//! and on failure annotates the error with the column and the formatted
//! key before appending it to the report. One failing rule never aborts
//! the audit.

use vstd::prelude::*;
use crate::format::{format_key, spec_format_key};
use crate::report::{ErrorMessage, ErrorView};
use crate::rules::{env_view, rule_name, run_rule, spec_rule_outcome, EnvView, Rule};
use crate::store::{DBCol, GenesisConfig, ShardTries, Store};
use crate::bytes_util::copy_bytes;

verus! {

/// The errors one check appends: none on success, one annotated error on
/// failure.
pub open spec fn spec_error_for(
    env: EnvView,
    rule: Rule,
    col: DBCol,
    k: Seq<u8>,
    v: Seq<u8>,
) -> Seq<ErrorView> {
    match spec_rule_outcome(env, rule, k, v) {
        None => Seq::empty(),
        Some(reason) => seq![
            ErrorView {
                col: Some(col),
                key: Some(spec_format_key(col, k)),
                func: rule_name(rule),
                reason,
            },
        ],
    }
}

/// The errors the header-column checks append for one record.
pub open spec fn header_record_errors(env: EnvView, k: Seq<u8>, v: Seq<u8>) -> Seq<ErrorView> {
    spec_error_for(env, Rule::HeaderValidity, DBCol::ColBlockHeader, k, v)
}

/// The errors the block-column checks append for one record.
pub open spec fn block_record_errors(env: EnvView, k: Seq<u8>, v: Seq<u8>) -> Seq<ErrorView> {
    spec_error_for(env, Rule::BlockHashValidity, DBCol::ColBlock, k, v) + spec_error_for(
        env,
        Rule::BlockHeaderExists,
        DBCol::ColBlock,
        k,
        v,
    ) + spec_error_for(env, Rule::BlockHeightCmpTail, DBCol::ColBlock, k, v)
}

/// The errors the chunk-column checks append for one record.
pub open spec fn chunk_record_errors(env: EnvView, k: Seq<u8>, v: Seq<u8>) -> Seq<ErrorView> {
    spec_error_for(env, Rule::ChunkHashValidity, DBCol::ColChunks, k, v) + spec_error_for(
        env,
        Rule::BlockOfChunkExists,
        DBCol::ColChunks,
        k,
        v,
    ) + spec_error_for(env, Rule::ChunksStateRootsInTrie, DBCol::ColChunks, k, v)
}

/// The errors of the header pass, in record order.
pub open spec fn headers_errors(env: EnvView, recs: Seq<(Seq<u8>, Seq<u8>)>) -> Seq<ErrorView>
    decreases recs.len(),
{
    if recs.len() == 0 {
        Seq::empty()
    } else {
        headers_errors(env, recs.drop_last()) + header_record_errors(
            env,
            recs.last().0,
            recs.last().1,
        )
    }
}

/// The errors of the block pass, in record order.
pub open spec fn blocks_errors(env: EnvView, recs: Seq<(Seq<u8>, Seq<u8>)>) -> Seq<ErrorView>
    decreases recs.len(),
{
    if recs.len() == 0 {
        Seq::empty()
    } else {
        blocks_errors(env, recs.drop_last()) + block_record_errors(
            env,
            recs.last().0,
            recs.last().1,
        )
    }
}

/// The errors of the chunk pass, in record order.
pub open spec fn chunks_errors(env: EnvView, recs: Seq<(Seq<u8>, Seq<u8>)>) -> Seq<ErrorView>
    decreases recs.len(),
{
    if recs.len() == 0 {
        Seq::empty()
    } else {
        chunks_errors(env, recs.drop_last()) + chunk_record_errors(
            env,
            recs.last().0,
            recs.last().1,
        )
    }
}

/// Every error one full audit of the environment records, in order.
pub open spec fn spec_validate_errors(env: EnvView) -> Seq<ErrorView> {
    spec_error_for(env, Rule::Nothing, DBCol::ColBlockMisc, seq![0u8], seq![0u8])
        + headers_errors(env, env.store.headers) + blocks_errors(env, env.store.blocks)
        + chunks_errors(env, env.store.chunks)
}

/// How many checks one full audit of the environment performs: the
/// sentinel, one per header record, three per block record and three per
/// chunk record.
pub open spec fn spec_total_checks(env: EnvView) -> int {
    1 + env.store.headers.len() as int + 3 * env.store.blocks.len() as int + 3
        * env.store.chunks.len() as int
}

/// The validator engine: the read-only collaborators plus the report it
/// fills during `validate`.
pub struct StoreValidator {
    pub config: GenesisConfig,
    pub shard_tries: ShardTries,
    pub store: Store,
    /// The recorded failures, append-only, in check order.
    pub errors: Vec<ErrorMessage>,
    /// How many checks have run, success or failure.
    pub tests: u64,
}

impl StoreValidator {
    /// The rule environment this engine audits.
    pub open spec fn env(self) -> EnvView {
        env_view(self.config, self.shard_tries, self.store)
    }

    /// The recorded failures as mathematical values.
    pub open spec fn errors_view(self) -> Seq<ErrorView> {
        self.errors@.map_values(|e: ErrorMessage| e@)
    }

    /// A run has failed when it performed no checks at all or recorded
    /// some error.
    pub open spec fn spec_is_failed(self) -> bool {
        self.tests == 0 || self.errors@.len() > 0
    }

    /// A fresh engine over the given collaborators, with an empty report.
    pub fn new(config: GenesisConfig, shard_tries: ShardTries, store: Store) -> (r: Self)
        ensures
            r.config == config,
            r.shard_tries == shard_tries,
            r.store == store,
            r.tests == 0,
            r.errors@.len() == 0,
    {
        StoreValidator { config, shard_tries, store, errors: Vec::new(), tests: 0 }
    }

    /// True iff the audit performed no checks or recorded an error.
    ///
    /// Treating a zero-check run as a failure keeps an empty or
    /// misconfigured audit from reporting false success; it also means an
    /// engine that has not run `validate` yet reports failure.
    pub fn is_failed(&self) -> (r: bool)
        ensures
            r == self.spec_is_failed(),
    {
        self.tests == 0 || self.errors.len() > 0
    }

    /// How many checks failed.
    pub fn num_failed(&self) -> (r: u64)
        ensures
            r == self.errors@.len(),
    {
        self.errors.len() as u64
    }

    /// How many checks have run.
    pub fn tests_done(&self) -> (r: u64)
        ensures
            r == self.tests,
    {
        self.tests
    }

    /// Runs one rule against one record: increments the counter
    /// unconditionally and, on failure, annotates the error with the
    /// column and the formatted key and appends it to the report.
    pub fn check(&mut self, rule: Rule, key: &[u8], value: &[u8], col: DBCol)
        requires
            old(self).tests < u64::MAX,
        ensures
            final(self).config == old(self).config,
            final(self).shard_tries == old(self).shard_tries,
            final(self).store == old(self).store,
            final(self).tests == old(self).tests + 1,
            final(self).errors_view() == old(self).errors_view() + spec_error_for(
                old(self).env(),
                rule,
                col,
                key@,
                value@,
            ),
    {
        let result = run_rule(rule, &self.config, &self.shard_tries, &self.store, key, value);
        self.tests = self.tests + 1;
        match result {
            Ok(()) => {
                proof {
                    assert(self.errors_view() =~= old(self).errors_view() + spec_error_for(
                        old(self).env(),
                        rule,
                        col,
                        key@,
                        value@,
                    ));
                }
            },
            Err(e) => {
                let mut e = e;
                e.col = Some(col);
                e.key = Some(format_key(col, key));
                self.errors.push(e);
                proof {
                    assert(self.errors_view() =~= old(self).errors_view() + spec_error_for(
                        old(self).env(),
                        rule,
                        col,
                        key@,
                        value@,
                    ));
                }
            },
        }
    }

    /// Runs the full fixed program of checks once.
    ///
    /// The engine is meant to run it on a fresh instance; callers
    /// construct a new engine per audit.
    pub fn validate(&mut self)
        requires
            old(self).tests == 0,
            old(self).errors@.len() == 0,
            spec_total_checks(old(self).env()) <= u64::MAX,
        ensures
            final(self).config == old(self).config,
            final(self).shard_tries == old(self).shard_tries,
            final(self).store == old(self).store,
            final(self).tests == spec_total_checks(old(self).env()),
            final(self).errors_view() == spec_validate_errors(old(self).env()),
    {
        let ghost env0 = old(self).env();
        let ghost base = spec_error_for(env0, Rule::Nothing, DBCol::ColBlockMisc, seq![0u8],
            seq![0u8]);
        proof {
            assert(old(self).errors_view() =~= Seq::<ErrorView>::empty());
        }
        let mut sentinel: Vec<u8> = Vec::new();
        sentinel.push(0u8);
        proof {
            assert(sentinel@ =~= seq![0u8]);
        }
        self.check(Rule::Nothing, sentinel.as_slice(), sentinel.as_slice(), DBCol::ColBlockMisc);
        proof {
            assert(self.errors_view() =~= base);
        }

        let mut i: usize = 0;
        while i < self.store.headers.len()
            invariant
                i <= self.store.headers@.len(),
                self.config == old(self).config,
                self.shard_tries == old(self).shard_tries,
                self.store == old(self).store,
                self.env() == env0,
                spec_total_checks(env0) <= u64::MAX,
                self.tests == 1 + i,
                self.errors_view() == base + headers_errors(
                    env0,
                    env0.store.headers.take(i as int),
                ),
            decreases self.store.headers@.len() - i,
        {
            let key = copy_bytes(self.store.headers[i].key.as_slice());
            let value = copy_bytes(self.store.headers[i].value.as_slice());
            self.check(Rule::HeaderValidity, key.as_slice(), value.as_slice(),
                DBCol::ColBlockHeader);
            proof {
                let recs = env0.store.headers;
                assert(recs.take(i as int + 1).drop_last() =~= recs.take(i as int));
                assert(recs.take(i as int + 1).last() == recs[i as int]);
                assert(recs[i as int] == (key@, value@));
                assert(self.errors_view() =~= base + headers_errors(
                    env0,
                    recs.take(i as int + 1),
                ));
            }
            i += 1;
        }
        let ghost after_headers = base + headers_errors(env0, env0.store.headers);
        proof {
            assert(env0.store.headers.take(env0.store.headers.len() as int)
                =~= env0.store.headers);
        }

        let mut i: usize = 0;
        while i < self.store.blocks.len()
            invariant
                i <= self.store.blocks@.len(),
                self.config == old(self).config,
                self.shard_tries == old(self).shard_tries,
                self.store == old(self).store,
                self.env() == env0,
                spec_total_checks(env0) <= u64::MAX,
                self.tests == 1 + env0.store.headers.len() + 3 * i,
                self.errors_view() == after_headers + blocks_errors(
                    env0,
                    env0.store.blocks.take(i as int),
                ),
            decreases self.store.blocks@.len() - i,
        {
            let key = copy_bytes(self.store.blocks[i].key.as_slice());
            let value = copy_bytes(self.store.blocks[i].value.as_slice());
            self.check(Rule::BlockHashValidity, key.as_slice(), value.as_slice(),
                DBCol::ColBlock);
            self.check(Rule::BlockHeaderExists, key.as_slice(), value.as_slice(),
                DBCol::ColBlock);
            self.check(Rule::BlockHeightCmpTail, key.as_slice(), value.as_slice(),
                DBCol::ColBlock);
            proof {
                let recs = env0.store.blocks;
                assert(recs.take(i as int + 1).drop_last() =~= recs.take(i as int));
                assert(recs.take(i as int + 1).last() == recs[i as int]);
                assert(recs[i as int] == (key@, value@));
                assert(self.errors_view() =~= after_headers + blocks_errors(
                    env0,
                    recs.take(i as int + 1),
                ));
            }
            i += 1;
        }
        let ghost after_blocks = after_headers + blocks_errors(env0, env0.store.blocks);
        proof {
            assert(env0.store.blocks.take(env0.store.blocks.len() as int)
                =~= env0.store.blocks);
        }

        let mut i: usize = 0;
        while i < self.store.chunks.len()
            invariant
                i <= self.store.chunks@.len(),
                self.config == old(self).config,
                self.shard_tries == old(self).shard_tries,
                self.store == old(self).store,
                self.env() == env0,
                spec_total_checks(env0) <= u64::MAX,
                self.tests == 1 + env0.store.headers.len() + 3 * env0.store.blocks.len() + 3 * i,
                self.errors_view() == after_blocks + chunks_errors(
                    env0,
                    env0.store.chunks.take(i as int),
                ),
            decreases self.store.chunks@.len() - i,
        {
            let key = copy_bytes(self.store.chunks[i].key.as_slice());
            let value = copy_bytes(self.store.chunks[i].value.as_slice());
            self.check(Rule::ChunkHashValidity, key.as_slice(), value.as_slice(),
                DBCol::ColChunks);
            self.check(Rule::BlockOfChunkExists, key.as_slice(), value.as_slice(),
                DBCol::ColChunks);
            self.check(Rule::ChunksStateRootsInTrie, key.as_slice(), value.as_slice(),
                DBCol::ColChunks);
            proof {
                let recs = env0.store.chunks;
                assert(recs.take(i as int + 1).drop_last() =~= recs.take(i as int));
                assert(recs.take(i as int + 1).last() == recs[i as int]);
                assert(recs[i as int] == (key@, value@));
                assert(self.errors_view() =~= after_blocks + chunks_errors(
                    env0,
                    recs.take(i as int + 1),
                ));
            }
            i += 1;
        }
        proof {
            assert(env0.store.chunks.take(env0.store.chunks.len() as int)
                =~= env0.store.chunks);
            assert(self.errors_view() =~= spec_validate_errors(env0));
        }
    }
}

} // verus!
