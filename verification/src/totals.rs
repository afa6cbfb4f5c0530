use vstd::prelude::*;

use crate::record::CacheRecord;

verus! {

/// Which of a record's three token counts a total is taken over.
#[derive(Debug, Clone, Copy, PartialEq, Eq, Structural)]
pub enum TokenKind {
    /// `input_tokens`: uncached input.
    Input,
    /// `cache_read_tokens`: tokens served from the cache.
    CacheRead,
    /// `cache_write_tokens`: tokens written to the cache.
    CacheWrite,
}

/// The count of the given kind in one record.
pub open spec fn token_count(r: CacheRecord, kind: TokenKind) -> nat {
    match kind {
        TokenKind::Input => r.input_tokens as nat,
        TokenKind::CacheRead => r.cache_read_tokens as nat,
        TokenKind::CacheWrite => r.cache_write_tokens as nat,
    }
}

/// The sum, over all records of `records`, of their counts of the given kind.
pub open spec fn total(records: Seq<CacheRecord>, kind: TokenKind) -> nat
    decreases records.len(),
{
    if records.len() == 0 {
        0
    } else {
        total(records.drop_last(), kind) + token_count(records.last(), kind)
    }
}

/// With no requests recorded, every total is zero.
pub proof fn lemma_total_empty(kind: TokenKind)
    ensures
        total(Seq::<CacheRecord>::empty(), kind) == 0,
{
}

/// Recording one more request adds exactly its count to every total.
pub proof fn lemma_total_push(records: Seq<CacheRecord>, r: CacheRecord, kind: TokenKind)
    ensures
        total(records.push(r), kind) == total(records, kind) + token_count(r, kind),
{
    assert(records.push(r).drop_last() =~= records);
}

/// Recording the request `(input, read, write)` raises the input total by exactly
/// `input`, the cache-read total by exactly `read` and the cache-write total by
/// exactly `write`, whatever the other two counts of that request are (zero
/// included) and whatever was recorded before.
pub proof fn lemma_record_raises_totals(
    records: Seq<CacheRecord>,
    input_tokens: u64,
    cache_read_tokens: u64,
    cache_write_tokens: u64,
)
    ensures
        ({
            let after = records.push(
                CacheRecord { input_tokens, cache_read_tokens, cache_write_tokens },
            );
            &&& total(after, TokenKind::Input) == total(records, TokenKind::Input) + input_tokens
            &&& total(after, TokenKind::CacheRead) == total(records, TokenKind::CacheRead)
                + cache_read_tokens
            &&& total(after, TokenKind::CacheWrite) == total(records, TokenKind::CacheWrite)
                + cache_write_tokens
        }),
{
    let r = CacheRecord { input_tokens, cache_read_tokens, cache_write_tokens };
    lemma_total_push(records, r, TokenKind::Input);
    lemma_total_push(records, r, TokenKind::CacheRead);
    lemma_total_push(records, r, TokenKind::CacheWrite);
}

/// A single recorded request's totals are exactly its own three counts.
pub proof fn lemma_single_request_totals(r: CacheRecord)
    ensures
        total(seq![r], TokenKind::Input) == r.input_tokens,
        total(seq![r], TokenKind::CacheRead) == r.cache_read_tokens,
        total(seq![r], TokenKind::CacheWrite) == r.cache_write_tokens,
{
    lemma_record_raises_totals(Seq::empty(), r.input_tokens, r.cache_read_tokens, r.cache_write_tokens);
    assert(Seq::<CacheRecord>::empty().push(r) =~= seq![r]);
}

/// The total over two runs of requests, one after the other, is the sum of the
/// totals over each run: aggregating is additive.
pub proof fn lemma_total_append(a: Seq<CacheRecord>, b: Seq<CacheRecord>, kind: TokenKind)
    ensures
        total(a + b, kind) == total(a, kind) + total(b, kind),
    decreases b.len(),
{
    if b.len() == 0 {
        assert(a + b =~= a);
    } else {
        lemma_total_append(a, b.drop_last(), kind);
        assert((a + b).drop_last() =~= a + b.drop_last());
        assert((a + b).last() == b.last());
    }
}

/// No prefix of the recorded requests has a larger total than all of them.
pub proof fn lemma_total_prefix_bounded(records: Seq<CacheRecord>, n: int, kind: TokenKind)
    requires
        0 <= n <= records.len(),
    ensures
        total(records.take(n), kind) <= total(records, kind),
{
    lemma_total_append(records.take(n), records.skip(n), kind);
    assert(records.take(n) + records.skip(n) =~= records);
}

} // verus!
