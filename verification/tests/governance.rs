//! Deduplication, rate limiting and the permit pool.

use clipflow::limits::{DedupSet, PermitPool, RateLimiter, MIN_SUBMIT_INTERVAL_MS};

#[test]
fn dedup_second_claim_rejected() {
    let mut dedup = DedupSet::new();
    let link = String::from("https://www.tiktok.com/@a/video/1");
    assert!(dedup.claim(&link));
    // a second task for the same link is rejected while the first is in flight
    assert!(!dedup.claim(&link));
    assert_eq!(dedup.len(), 1);
    dedup.release(&link);
    assert_eq!(dedup.len(), 0);
    // once released, the link can be claimed again
    assert!(dedup.claim(&link));
}

#[test]
fn dedup_distinct_links_are_independent() {
    let mut dedup = DedupSet::new();
    let a = String::from("link-a");
    let b = String::from("link-b");
    assert!(dedup.claim(&a));
    assert!(dedup.claim(&b));
    dedup.release(&a);
    assert!(!dedup.claim(&b));
    assert!(dedup.claim(&a));
}

#[test]
fn rate_limiter_spaces_submissions() {
    let mut rate = RateLimiter::new();
    // a first submission waits for nothing
    assert_eq!(rate.submission_delay(7, 1_000), 0);
    rate.record(7, 1_000);
    // a second submission 500ms later still owes 1500ms
    let d = rate.submission_delay(7, 1_500);
    assert_eq!(d, 1_500);
    // waiting out the delay restores the minimum spacing
    assert!(1_500 + d >= 1_000 + MIN_SUBMIT_INTERVAL_MS);
    // another recipient is not delayed
    assert_eq!(rate.submission_delay(8, 1_500), 0);
    // after the interval has elapsed, no delay is owed
    rate.record(7, 1_500 + d);
    assert_eq!(rate.submission_delay(7, 3_000 + MIN_SUBMIT_INTERVAL_MS), 0);
}

#[test]
fn rate_limiter_spaces_queued_submissions() {
    let mut rate = RateLimiter::new();
    // a task already waiting has its effective send on record in the future
    rate.record(7, 12_000);
    // a submission arriving before that instant owes the gap plus the
    // interval, so its own effective send keeps the full spacing
    let d = rate.submission_delay(7, 10_200);
    assert_eq!(d, 3_800);
    assert!(10_200 + d >= 12_000 + MIN_SUBMIT_INTERVAL_MS);
}

#[test]
fn permit_pool_bounds_concurrency() {
    let mut pool = PermitPool::new(2);
    assert!(pool.try_acquire());
    assert!(pool.try_acquire());
    // with pool size 2, a third concurrent task gets no permit and must wait
    assert!(!pool.try_acquire());
    assert_eq!(pool.held(), 2);
    pool.release();
    // once one releases, the waiting task gets its permit
    assert!(pool.try_acquire());
    pool.release();
    pool.release();
    assert_eq!(pool.held(), 0);
}
