//! The audit's stated guarantees, proved against the contracts of the
//! engine, the rule set and the key formatter.

use vstd::prelude::*;
use crate::engine::{block_record_errors, chunk_record_errors, header_record_errors,
    spec_error_for, spec_total_checks, spec_validate_errors, StoreValidator};
use crate::format::{digit_char, spec_format_key, spec_hex};
use crate::report::ErrorView;
use crate::rules::{all_roots_present, rule_name, spec_rule_outcome, EnvView, Rule};
use crate::store::{col_has_key, trie_has_root, DBCol};
use crate::wire::{spec_block, spec_chunk, valid_block_value, valid_chunk_value, valid_hash_key,
    valid_header_value};

verus! {

/// How many recorded errors carry the given rule identifier.
pub open spec fn count_with_func(errs: Seq<ErrorView>, name: Seq<char>) -> int
    decreases errs.len(),
{
    if errs.len() == 0 {
        0
    } else {
        count_with_func(errs.drop_last(), name) + if errs.last().func == name {
            1int
        } else {
            0int
        }
    }
}

/// Counting distributes over concatenation.
pub proof fn lemma_count_concat(a: Seq<ErrorView>, b: Seq<ErrorView>, name: Seq<char>)
    ensures
        count_with_func(a + b, name) == count_with_func(a, name) + count_with_func(b, name),
    decreases b.len(),
{
    if b.len() == 0 {
        assert(a + b =~= a);
    } else {
        lemma_count_concat(a, b.drop_last(), name);
        assert((a + b).drop_last() =~= a + b.drop_last());
        assert((a + b).last() == b.last());
    }
}

/// What one check contributes to the count of one rule identifier:
/// one error exactly when the rule is the counted one and it failed.
pub proof fn lemma_count_error_for(
    env: EnvView,
    rule: Rule,
    col: DBCol,
    k: Seq<u8>,
    v: Seq<u8>,
    name: Seq<char>,
)
    ensures
        count_with_func(spec_error_for(env, rule, col, k, v), name) == if spec_rule_outcome(
            env,
            rule,
            k,
            v,
        ) is Some && rule_name(rule) == name {
            1int
        } else {
            0int
        },
{
    let errs = spec_error_for(env, rule, col, k, v);
    if spec_rule_outcome(env, rule, k, v) is Some {
        assert(errs.drop_last() =~= Seq::<ErrorView>::empty());
        assert(count_with_func(Seq::<ErrorView>::empty(), name) == 0);
        assert(errs.last().func == rule_name(rule));
    }
}

/// The rule identifiers, pinned down enough to tell them apart.
proof fn lemma_rule_name_facts()
    ensures
        "header_validity"@.len() == 15,
        "block_hash_validity"@.len() == 19,
        "block_header_exists"@.len() == 19,
        "block_height_cmp_tail"@.len() == 21,
        "chunk_hash_validity"@.len() == 19,
        "block_of_chunk_exists"@.len() == 21,
        "chunks_state_roots_in_trie"@.len() == 26,
        "block_hash_validity"@[7] == 'a',
        "block_header_exists"@[7] == 'e',
{
    reveal_strlit("header_validity");
    reveal_strlit("block_hash_validity");
    reveal_strlit("block_header_exists");
    reveal_strlit("block_height_cmp_tail");
    reveal_strlit("chunk_hash_validity");
    reveal_strlit("block_of_chunk_exists");
    reveal_strlit("chunks_state_roots_in_trie");
}

/// A run that performed no checks at all reports failure, whatever its
/// error list holds.
pub proof fn lemma_vacuous_run_is_failed(v: StoreValidator)
    requires
        v.tests == 0,
    ensures
        v.spec_is_failed(),
{
}

/// Auditing an unchanged environment twice is idempotent: any two engines
/// that completed `validate` over the same environment agree on the check
/// count and record the same errors, in the same order (so in particular
/// as unordered sets).
pub proof fn lemma_validate_idempotent(a: StoreValidator, b: StoreValidator)
    requires
        a.env() == b.env(),
        a.tests == spec_total_checks(a.env()),
        b.tests == spec_total_checks(b.env()),
        a.errors_view() == spec_validate_errors(a.env()),
        b.errors_view() == spec_validate_errors(b.env()),
    ensures
        a.tests == b.tests,
        a.errors_view() == b.errors_view(),
{
}

/// A header record whose key does not decode as a hash contributes
/// exactly one error, carrying the header-validity rule identifier.
pub proof fn lemma_header_bad_key_one_error(env: EnvView, k: Seq<u8>, v: Seq<u8>)
    requires
        !valid_hash_key(k),
    ensures
        count_with_func(header_record_errors(env, k, v), "header_validity"@) == 1,
        header_record_errors(env, k, v).len() == 1,
{
    lemma_count_error_for(env, Rule::HeaderValidity, DBCol::ColBlockHeader, k, v,
        "header_validity"@);
}

/// A header record whose key and value both decode contributes no error.
pub proof fn lemma_header_good_record_no_error(env: EnvView, k: Seq<u8>, v: Seq<u8>)
    requires
        valid_hash_key(k),
        valid_header_value(v),
    ensures
        header_record_errors(env, k, v).len() == 0,
{
}

/// A block record that decodes but whose referenced header hash has no
/// entry in the header column contributes exactly one error with the
/// block-header-exists rule identifier, whatever its own key looks like.
pub proof fn lemma_missing_header_one_error(env: EnvView, k: Seq<u8>, v: Seq<u8>)
    requires
        valid_block_value(v),
        !col_has_key(env.store.headers, spec_block(v).header_hash),
    ensures
        count_with_func(block_record_errors(env, k, v), "block_header_exists"@) == 1,
{
    let name = "block_header_exists"@;
    let a = spec_error_for(env, Rule::BlockHashValidity, DBCol::ColBlock, k, v);
    let b = spec_error_for(env, Rule::BlockHeaderExists, DBCol::ColBlock, k, v);
    let c = spec_error_for(env, Rule::BlockHeightCmpTail, DBCol::ColBlock, k, v);
    lemma_count_concat(a + b, c, name);
    lemma_count_concat(a, b, name);
    lemma_count_error_for(env, Rule::BlockHashValidity, DBCol::ColBlock, k, v, name);
    lemma_count_error_for(env, Rule::BlockHeaderExists, DBCol::ColBlock, k, v, name);
    lemma_count_error_for(env, Rule::BlockHeightCmpTail, DBCol::ColBlock, k, v, name);
    lemma_rule_name_facts();
    assert(rule_name(Rule::BlockHashValidity) != name);
    assert(rule_name(Rule::BlockHeightCmpTail) != name);
}

/// A block record strictly below the recorded tail and the genesis height
/// contributes exactly one error with the height rule identifier.
pub proof fn lemma_low_block_one_error(env: EnvView, k: Seq<u8>, v: Seq<u8>)
    requires
        valid_block_value(v),
        match env.store.tail {
            Some(t) => spec_block(v).height < t,
            None => false,
        },
        spec_block(v).height < env.genesis_height,
    ensures
        count_with_func(block_record_errors(env, k, v), "block_height_cmp_tail"@) == 1,
{
    let name = "block_height_cmp_tail"@;
    let a = spec_error_for(env, Rule::BlockHashValidity, DBCol::ColBlock, k, v);
    let b = spec_error_for(env, Rule::BlockHeaderExists, DBCol::ColBlock, k, v);
    let c = spec_error_for(env, Rule::BlockHeightCmpTail, DBCol::ColBlock, k, v);
    lemma_count_concat(a + b, c, name);
    lemma_count_concat(a, b, name);
    lemma_count_error_for(env, Rule::BlockHashValidity, DBCol::ColBlock, k, v, name);
    lemma_count_error_for(env, Rule::BlockHeaderExists, DBCol::ColBlock, k, v, name);
    lemma_count_error_for(env, Rule::BlockHeightCmpTail, DBCol::ColBlock, k, v, name);
    lemma_rule_name_facts();
    assert(rule_name(Rule::BlockHashValidity) != name);
    assert(rule_name(Rule::BlockHeaderExists) != name);
}

/// A block record exactly at the genesis height, with no recorded tail,
/// contributes no height error.
pub proof fn lemma_genesis_block_no_height_error(env: EnvView, k: Seq<u8>, v: Seq<u8>)
    requires
        valid_block_value(v),
        env.store.tail is None,
        spec_block(v).height == env.genesis_height,
    ensures
        count_with_func(block_record_errors(env, k, v), "block_height_cmp_tail"@) == 0,
{
    let name = "block_height_cmp_tail"@;
    let a = spec_error_for(env, Rule::BlockHashValidity, DBCol::ColBlock, k, v);
    let b = spec_error_for(env, Rule::BlockHeaderExists, DBCol::ColBlock, k, v);
    let c = spec_error_for(env, Rule::BlockHeightCmpTail, DBCol::ColBlock, k, v);
    lemma_count_concat(a + b, c, name);
    lemma_count_concat(a, b, name);
    lemma_count_error_for(env, Rule::BlockHashValidity, DBCol::ColBlock, k, v, name);
    lemma_count_error_for(env, Rule::BlockHeaderExists, DBCol::ColBlock, k, v, name);
    lemma_count_error_for(env, Rule::BlockHeightCmpTail, DBCol::ColBlock, k, v, name);
    lemma_rule_name_facts();
    assert(rule_name(Rule::BlockHashValidity) != name);
    assert(rule_name(Rule::BlockHeaderExists) != name);
}

/// A chunk record that declares a post-state root absent from its shard's
/// trie contributes exactly one error with the state-roots rule
/// identifier.
pub proof fn lemma_missing_state_root_one_error(
    env: EnvView,
    k: Seq<u8>,
    v: Seq<u8>,
    shard_id: u64,
    root: Seq<u8>,
)
    requires
        valid_chunk_value(v),
        spec_chunk(v).shard_roots.contains((shard_id, root)),
        !trie_has_root(env.trie, shard_id, root),
    ensures
        count_with_func(chunk_record_errors(env, k, v), "chunks_state_roots_in_trie"@) == 1,
{
    let name = "chunks_state_roots_in_trie"@;
    let pairs = spec_chunk(v).shard_roots;
    let j = choose|j: int| 0 <= j < pairs.len() && pairs[j] == (shard_id, root);
    assert(!trie_has_root(env.trie, pairs[j].0, pairs[j].1));
    assert(!all_roots_present(env.trie, pairs));
    let a = spec_error_for(env, Rule::ChunkHashValidity, DBCol::ColChunks, k, v);
    let b = spec_error_for(env, Rule::BlockOfChunkExists, DBCol::ColChunks, k, v);
    let c = spec_error_for(env, Rule::ChunksStateRootsInTrie, DBCol::ColChunks, k, v);
    lemma_count_concat(a + b, c, name);
    lemma_count_concat(a, b, name);
    lemma_count_error_for(env, Rule::ChunkHashValidity, DBCol::ColChunks, k, v, name);
    lemma_count_error_for(env, Rule::BlockOfChunkExists, DBCol::ColChunks, k, v, name);
    lemma_count_error_for(env, Rule::ChunksStateRootsInTrie, DBCol::ColChunks, k, v, name);
    lemma_rule_name_facts();
    assert(rule_name(Rule::ChunkHashValidity) != name);
    assert(rule_name(Rule::BlockOfChunkExists) != name);
}

/// A chunk record all of whose declared roots are present contributes no
/// state-roots error.
pub proof fn lemma_state_roots_present_no_error(env: EnvView, k: Seq<u8>, v: Seq<u8>)
    requires
        valid_chunk_value(v),
        all_roots_present(env.trie, spec_chunk(v).shard_roots),
    ensures
        count_with_func(chunk_record_errors(env, k, v), "chunks_state_roots_in_trie"@) == 0,
{
    let name = "chunks_state_roots_in_trie"@;
    let a = spec_error_for(env, Rule::ChunkHashValidity, DBCol::ColChunks, k, v);
    let b = spec_error_for(env, Rule::BlockOfChunkExists, DBCol::ColChunks, k, v);
    let c = spec_error_for(env, Rule::ChunksStateRootsInTrie, DBCol::ColChunks, k, v);
    lemma_count_concat(a + b, c, name);
    lemma_count_concat(a, b, name);
    lemma_count_error_for(env, Rule::ChunkHashValidity, DBCol::ColChunks, k, v, name);
    lemma_count_error_for(env, Rule::BlockOfChunkExists, DBCol::ColChunks, k, v, name);
    lemma_count_error_for(env, Rule::ChunksStateRootsInTrie, DBCol::ColChunks, k, v, name);
    lemma_rule_name_facts();
    assert(rule_name(Rule::ChunkHashValidity) != name);
    assert(rule_name(Rule::BlockOfChunkExists) != name);
}

/// The hexadecimal rendering writes two digits per byte.
pub proof fn lemma_spec_hex_len(s: Seq<u8>)
    ensures
        spec_hex(s).len() == 2 * s.len(),
    decreases s.len(),
{
    if s.len() > 0 {
        lemma_spec_hex_len(s.drop_last());
    }
}

/// Digits below sixteen render as sixteen distinct characters.
proof fn lemma_digit_char_injective(m: int, n: int)
    requires
        0 <= m < 16,
        0 <= n < 16,
        digit_char(m) == digit_char(n),
    ensures
        m == n,
{
}

/// The hexadecimal rendering is injective: equal renderings of
/// equal-length byte sequences mean equal bytes.
pub proof fn lemma_hex_injective(a: Seq<u8>, b: Seq<u8>)
    requires
        a.len() == b.len(),
        spec_hex(a) == spec_hex(b),
    ensures
        a == b,
    decreases a.len(),
{
    if a.len() == 0 {
        assert(a =~= b);
    } else {
        let n = a.len() as int;
        lemma_spec_hex_len(a.drop_last());
        lemma_spec_hex_len(b.drop_last());
        assert(spec_hex(a)[2 * n - 2] == digit_char(a.last() as int / 16));
        assert(spec_hex(a)[2 * n - 1] == digit_char(a.last() as int % 16));
        assert(spec_hex(b)[2 * n - 2] == digit_char(b.last() as int / 16));
        assert(spec_hex(b)[2 * n - 1] == digit_char(b.last() as int % 16));
        lemma_digit_char_injective(a.last() as int / 16, b.last() as int / 16);
        lemma_digit_char_injective(a.last() as int % 16, b.last() as int % 16);
        assert(a.last() == b.last());
        assert(spec_hex(a.drop_last()) =~= spec_hex(a).subrange(0, 2 * n - 2));
        assert(spec_hex(b.drop_last()) =~= spec_hex(b).subrange(0, 2 * n - 2));
        lemma_hex_injective(a.drop_last(), b.drop_last());
        assert forall|i: int| 0 <= i < n implies a[i] == b[i] by {
            if i < n - 1 {
                assert(a[i] == a.drop_last()[i]);
                assert(b[i] == b.drop_last()[i]);
            } else {
                assert(a[i] == a.last());
                assert(b[i] == b.last());
            }
        };
        assert(a =~= b);
    }
}

/// For a hash-keyed column, formatting a well-formed key is faithful:
/// two well-formed keys render to the same string only if they are the
/// same hash.
pub proof fn lemma_format_key_faithful(col: DBCol, k1: Seq<u8>, k2: Seq<u8>)
    requires
        col == DBCol::ColBlockHeader || col == DBCol::ColBlock,
        valid_hash_key(k1),
        valid_hash_key(k2),
        spec_format_key(col, k1) == spec_format_key(col, k2),
    ensures
        k1 == k2,
{
    let p = "hash:"@;
    lemma_spec_hex_len(k1);
    lemma_spec_hex_len(k2);
    assert(spec_hex(k1) =~= (p + spec_hex(k1)).subrange(p.len() as int, p.len() as int + 64));
    assert(spec_hex(k2) =~= (p + spec_hex(k2)).subrange(p.len() as int, p.len() as int + 64));
    lemma_hex_injective(k1, k2);
}

/// For a hash-keyed column, formatting a malformed key yields the fixed
/// decode-error string, and a well-formed key never does.
pub proof fn lemma_format_key_malformed(col: DBCol, bad: Seq<u8>, good: Seq<u8>)
    requires
        col == DBCol::ColBlockHeader || col == DBCol::ColBlock,
        !valid_hash_key(bad),
        valid_hash_key(good),
    ensures
        spec_format_key(col, bad) == "invalid hash key"@,
        spec_format_key(col, good) != "invalid hash key"@,
{
    reveal_strlit("hash:");
    reveal_strlit("invalid hash key");
    lemma_spec_hex_len(good);
    assert(spec_format_key(col, good).len() == 69);
}

} // verus!
