use llm_prompt_cache_stats::{CacheRecord, CacheStats};

fn rec(input: u64, read: u64, write: u64) -> CacheRecord {
    CacheRecord {
        input_tokens: input,
        cache_read_tokens: read,
        cache_write_tokens: write,
    }
}

#[test]
fn record_adds_exactly_its_counts_to_each_total() {
    let mut s = CacheStats::new();
    s.record(500, 0, 8000);
    let (i0, r0, w0) = (
        s.total_input_tokens(),
        s.total_cache_read_tokens(),
        s.total_cache_write_tokens(),
    );
    s.record(200, 8000, 7);
    assert_eq!(s.total_input_tokens(), i0 + 200);
    assert_eq!(s.total_cache_read_tokens(), r0 + 8000);
    assert_eq!(s.total_cache_write_tokens(), w0 + 7);
}

#[test]
fn record_is_push_of_the_built_record() {
    let mut a = CacheStats::new();
    let mut b = CacheStats::new();
    a.record(3, 2, 1);
    b.push(rec(3, 2, 1));
    assert_eq!(a.records(), b.records());
    assert_eq!(a.records(), &[rec(3, 2, 1)]);
}

#[test]
fn records_keep_insertion_order() {
    let mut s = CacheStats::new();
    s.record(1, 0, 0);
    s.record(2, 0, 0);
    s.record(3, 0, 0);
    assert_eq!(s.records(), &[rec(1, 0, 0), rec(2, 0, 0), rec(3, 0, 0)]);
}

#[test]
fn totals_over_two_runs_add_up() {
    let first = vec![rec(100, 10, 1), rec(200, 20, 2)];
    let second = vec![rec(300, 30, 3)];
    let a: CacheStats = first.iter().cloned().collect();
    let b: CacheStats = second.iter().cloned().collect();
    let mut both: CacheStats = first.iter().cloned().collect();
    both.extend(second);
    assert_eq!(both.total_input_tokens(), a.total_input_tokens() + b.total_input_tokens());
    assert_eq!(both.total_input_tokens(), 600);
    assert_eq!(both.total_cache_read_tokens(), 60);
    assert_eq!(both.total_cache_write_tokens(), 6);
}

#[test]
fn clear_resets_every_total() {
    let mut s = CacheStats::new();
    s.record(100, 50, 25);
    s.clear();
    assert_eq!(s.request_count(), 0);
    assert_eq!(s.total_input_tokens(), 0);
    assert_eq!(s.total_cache_read_tokens(), 0);
    assert_eq!(s.total_cache_write_tokens(), 0);
    assert!(s.records().is_empty());
}

#[test]
fn empty_stats_totals_are_zero() {
    let s = CacheStats::new();
    assert_eq!(s.request_count(), 0);
    assert_eq!(s.total_input_tokens(), 0);
    assert_eq!(s.total_cache_read_tokens(), 0);
    assert_eq!(s.total_cache_write_tokens(), 0);
    let d = CacheStats::default();
    assert!(d.is_empty());
}

#[test]
fn is_empty_matches_request_count() {
    let mut s = CacheStats::new();
    assert!(s.is_empty());
    s.record(0, 0, 0);
    assert!(!s.is_empty());
    assert_eq!(s.request_count(), 1);
}

#[test]
fn miss_tokens_is_input_minus_reads() {
    assert_eq!(rec(1000, 999, 0).miss_tokens(), 1);
    assert_eq!(rec(1000, 1000, 0).miss_tokens(), 0);
    assert_eq!(rec(1000, 0, 0).miss_tokens(), 1000);
    assert_eq!(rec(0, 0, 0).miss_tokens(), 0);
    assert_eq!(rec(u64::MAX, 0, 0).miss_tokens(), u64::MAX);
    assert_eq!(rec(0, u64::MAX, 0).miss_tokens(), 0);
}

#[test]
fn hit_tokens_are_the_cache_reads() {
    assert_eq!(rec(200, 8000, 5).hit_tokens(), 8000);
    assert_eq!(rec(0, 0, 5).hit_tokens(), 0);
}

#[test]
fn totals_reach_u64_max_without_overflow() {
    let mut s = CacheStats::new();
    s.record(u64::MAX - 1, 0, 0);
    s.record(1, 0, 0);
    assert_eq!(s.total_input_tokens(), u64::MAX);
}

#[test]
fn session_token_counts() {
    let mut s = CacheStats::new();
    s.record(500, 0, 8000);
    for _ in 0..4 {
        s.record(200, 8000, 0);
    }
    assert_eq!(s.request_count(), 5);
    assert_eq!(s.total_cache_write_tokens(), 8000);
    assert_eq!(s.total_cache_read_tokens(), 32_000);
    assert_eq!(s.total_input_tokens(), 1300);
}
