use vstd::prelude::*;

use crate::record::CacheRecord;
use crate::totals::{lemma_total_prefix_bounded, lemma_total_push, total, TokenKind};

verus! {

/// Aggregates cache statistics across multiple requests.
#[derive(Debug, Clone)]
pub struct CacheStats {
    records: Vec<CacheRecord>,
}

impl View for CacheStats {
    type V = Seq<CacheRecord>;

    /// The recorded requests, in the order they were recorded.
    closed spec fn view(&self) -> Seq<CacheRecord> {
        self.records@
    }
}

impl Default for CacheStats {
    fn default() -> (stats: Self)
        ensures
            stats@ == Seq::<CacheRecord>::empty(),
    {
        CacheStats { records: Vec::new() }
    }
}

impl CacheStats {
    /// Create an empty aggregator.
    pub fn new() -> (stats: Self)
        ensures
            stats@ == Seq::<CacheRecord>::empty(),
    {
        CacheStats { records: Vec::new() }
    }

    /// Record one request's cache metrics, taken from a response's `usage` block:
    /// `input_tokens`, `cache_read_input_tokens`, and `cache_creation_input_tokens`.
    pub fn record(&mut self, input_tokens: u64, cache_read_tokens: u64, cache_write_tokens: u64)
        ensures
            final(self)@ == old(self)@.push(
                CacheRecord { input_tokens, cache_read_tokens, cache_write_tokens },
            ),
    {
        self.push(CacheRecord { input_tokens, cache_read_tokens, cache_write_tokens });
    }

    /// Record a pre-built [`CacheRecord`].
    pub fn push(&mut self, record: CacheRecord)
        ensures
            final(self)@ == old(self)@.push(record),
    {
        self.records.push(record);
    }

    /// Number of recorded requests.
    pub fn request_count(&self) -> (count: usize)
        ensures
            count == self@.len(),
    {
        self.records.len()
    }

    /// Whether any requests have been recorded.
    pub fn is_empty(&self) -> (empty: bool)
        ensures
            empty <==> self@.len() == 0,
    {
        self.records.is_empty()
    }

    /// The sum of the counts of one kind over all recorded requests.
    fn total_tokens(&self, kind: TokenKind) -> (sum: u64)
        requires
            total(self@, kind) <= u64::MAX,
        ensures
            sum == total(self@, kind),
    {
        let mut sum: u64 = 0;
        let mut i: usize = 0;
        while i < self.records.len()
            invariant
                i <= self@.len(),
                total(self@, kind) <= u64::MAX,
                sum == total(self@.take(i as int), kind),
            decreases self@.len() - i,
        {
            let r = &self.records[i];
            let count: u64 = match kind {
                TokenKind::Input => r.input_tokens,
                TokenKind::CacheRead => r.cache_read_tokens,
                TokenKind::CacheWrite => r.cache_write_tokens,
            };
            proof {
                assert(self@.take(i + 1) =~= self@.take(i as int).push(self@[i as int]));
                lemma_total_push(self@.take(i as int), self@[i as int], kind);
                lemma_total_prefix_bounded(self@, i + 1, kind);
            }
            sum = sum + count;
            i = i + 1;
        }
        assert(self@.take(i as int) =~= self@);
        sum
    }

    /// Total uncached input tokens across all requests.
    pub fn total_input_tokens(&self) -> (sum: u64)
        requires
            total(self@, TokenKind::Input) <= u64::MAX,
        ensures
            sum == total(self@, TokenKind::Input),
    {
        self.total_tokens(TokenKind::Input)
    }

    /// Total cache-read tokens across all requests.
    pub fn total_cache_read_tokens(&self) -> (sum: u64)
        requires
            total(self@, TokenKind::CacheRead) <= u64::MAX,
        ensures
            sum == total(self@, TokenKind::CacheRead),
    {
        self.total_tokens(TokenKind::CacheRead)
    }

    /// Total cache-write tokens across all requests.
    pub fn total_cache_write_tokens(&self) -> (sum: u64)
        requires
            total(self@, TokenKind::CacheWrite) <= u64::MAX,
        ensures
            sum == total(self@, TokenKind::CacheWrite),
    {
        self.total_tokens(TokenKind::CacheWrite)
    }

    /// All recorded requests, in insertion order.
    pub fn records(&self) -> (records: &[CacheRecord])
        ensures
            records@ == self@,
    {
        self.records.as_slice()
    }

    /// Remove all recorded requests, keeping the allocated capacity.
    pub fn clear(&mut self)
        ensures
            final(self)@ == Seq::<CacheRecord>::empty(),
    {
        self.records.clear();
    }
}

impl Extend<CacheRecord> for CacheStats {
    /// Appends every record that `iter` yields, in order, through std's
    /// `Vec::extend`; nothing is stated of what the iterator yields.
    #[verifier::external_body]
    fn extend<T: IntoIterator<Item = CacheRecord>>(&mut self, iter: T) {
        self.records.extend(iter)
    }
}

impl FromIterator<CacheRecord> for CacheStats {
    /// Collects every record that `iter` yields, in order, through std's
    /// `FromIterator` for `Vec`; nothing is stated of what the iterator yields.
    #[verifier::external_body]
    fn from_iter<T: IntoIterator<Item = CacheRecord>>(iter: T) -> Self {
        CacheStats { records: Vec::from_iter(iter) }
    }
}

} // verus!
