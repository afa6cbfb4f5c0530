use vstd::prelude::*;

verus! {

/// Cache statistics for a single request, as reported by one response's `usage`.
#[derive(Debug, Clone, PartialEq, Eq, Structural)]
pub struct CacheRecord {
    /// Uncached input tokens, billed at the full input price.
    pub input_tokens: u64,
    /// Tokens served from the cache (`cache_read_input_tokens`).
    pub cache_read_tokens: u64,
    /// Tokens written to the cache (`cache_creation_input_tokens`).
    pub cache_write_tokens: u64,
}

/// The number of uncached input tokens not covered by cache reads: the
/// difference of the two counts, or zero when the reads exceed the input.
pub open spec fn spec_miss_tokens(r: CacheRecord) -> nat {
    if r.cache_read_tokens <= r.input_tokens {
        (r.input_tokens - r.cache_read_tokens) as nat
    } else {
        0
    }
}

/// The misses of a request are its input less its cache reads when the reads do
/// not exceed the input, and zero otherwise; the cache-write count plays no part:
/// two requests that differ only in their writes have the same misses.
pub proof fn lemma_miss_tokens(r: CacheRecord, other_write_tokens: u64)
    ensures
        r.cache_read_tokens <= r.input_tokens ==> spec_miss_tokens(r) + r.cache_read_tokens
            == r.input_tokens,
        r.cache_read_tokens > r.input_tokens ==> spec_miss_tokens(r) == 0,
        spec_miss_tokens(CacheRecord { cache_write_tokens: other_write_tokens, ..r })
            == spec_miss_tokens(r),
{
}

impl CacheRecord {
    /// Tokens served from the cache (a "hit").
    pub fn hit_tokens(&self) -> (hits: u64)
        ensures
            hits == self.cache_read_tokens,
    {
        self.cache_read_tokens
    }

    /// Uncached input tokens (a "miss"), saturating at zero if `cache_read_tokens`
    /// somehow exceeds `input_tokens`.
    pub fn miss_tokens(&self) -> (misses: u64)
        ensures
            misses == spec_miss_tokens(*self),
            self.cache_read_tokens <= self.input_tokens ==> misses == self.input_tokens
                - self.cache_read_tokens,
            self.cache_read_tokens > self.input_tokens ==> misses == 0,
            misses <= self.input_tokens,
    {
        self.input_tokens.saturating_sub(self.cache_read_tokens)
    }
}

} // verus!
