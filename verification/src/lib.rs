//! Aggregation of prompt-cache token counts across requests.
//!
//! Each response of a prompt-caching API reports three token counts: the
//! uncached input tokens, the tokens read from the cache and the tokens written
//! to it. [`CacheRecord`] holds one request's counts and [`CacheStats`] keeps
//! every recorded request, in order, and sums their counts.

pub mod record;
pub mod stats;
pub mod totals;

pub use record::CacheRecord;
pub use stats::CacheStats;
pub use totals::TokenKind;
