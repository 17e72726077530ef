use rustplus::clock::Clock;
use rustplus::ratelimit::RateLimiter;

#[test]
fn fresh_limiter_sends_single_request_at_once() {
    let mut limiter = RateLimiter::new();
    assert_eq!(limiter.acquire_at(0, 100), 0);
}

#[test]
fn fresh_limiter_allows_player_burst_of_25_tokens() {
    let mut limiter = RateLimiter::new();
    assert_eq!(limiter.acquire_at(0, 2500), 0);
}

#[test]
fn one_hundredth_past_the_player_burst_waits() {
    let mut limiter = RateLimiter::new();
    // 25.01 tokens: the player bucket is 10_000_000 ticks (one hundredth of a
    // token at 3 tokens per second) over, which is 3_333_334 ns rounded up.
    assert_eq!(limiter.acquire_at(0, 2501), 3_333_334);
}

#[test]
fn consecutive_charges_add_up() {
    let mut split = RateLimiter::new();
    assert_eq!(split.acquire_at(7, 1500), 0);
    let second = split.acquire_at(7, 1500);
    let mut whole = RateLimiter::new();
    let combined = whole.acquire_at(7, 3000);
    // 30 tokens at once: 5 tokens beyond the player burst, 5/3 s.
    assert_eq!(combined, 1_666_666_667);
    assert_eq!(second, combined);
}

#[test]
fn map_requests_drain_the_player_bucket() {
    let mut limiter = RateLimiter::new();
    // Five map requests of 5 tokens fill the player bucket exactly.
    for _ in 0..5 {
        assert_eq!(limiter.acquire_at(0, 500), 0);
    }
    // The sixth waits 5 tokens at 3 per second.
    assert_eq!(limiter.acquire_at(0, 500), 1_666_666_667);
}

#[test]
fn idle_limiter_refills() {
    let mut limiter = RateLimiter::new();
    assert!(limiter.acquire_at(0, 10_000) > 0);
    // Far later both buckets are full again.
    let later = 1_000_000_000_000u64;
    assert_eq!(limiter.acquire_at(later, 2500), 0);
    assert_eq!(limiter.acquire_at(later, 1), 3_333_334);
}

#[test]
fn ip_bucket_binds_when_player_bucket_is_drained_slowly() {
    let mut limiter = RateLimiter::new();
    // Spread 60 one-token requests over 20 seconds: the player bucket refills
    // 3 per second, so it never runs out; the IP bucket refills 15 per second.
    for i in 0..60u64 {
        assert_eq!(limiter.acquire_at(i * 333_333_334, 100), 0);
    }
}

#[test]
fn limiter_default_is_fresh() {
    let mut limiter = RateLimiter::default();
    assert_eq!(limiter.acquire_at(0, 2500), 0);
}

#[test]
fn limiter_acquire_reads_its_clock() {
    let mut limiter = RateLimiter::new();
    assert_eq!(limiter.acquire(100), 0);
    let mut drained = RateLimiter::new();
    assert!(drained.acquire(5000) > 0);
}

#[test]
fn clock_readings_do_not_go_back() {
    let mut clock = Clock::start();
    let first = clock.now_ns();
    let second = clock.now_ns();
    assert!(second >= first);
}

#[test]
fn throughput_of_one_token_requests_at_once() {
    let mut limiter = RateLimiter::new();
    let mut last = 0;
    for _ in 0..40 {
        last = limiter.acquire_at(0, 100);
    }
    // 40 tokens: 25 from the full player bucket, 15 more at 3 per second.
    assert_eq!(last, 5_000_000_000);
}

#[test]
fn ip_bucket_limits_fast_steady_traffic() {
    let mut limiter = RateLimiter::new();
    // One hundredth of a token every microsecond for a second: 10_000
    // hundredths, 100 tokens, which neither bucket allows without waiting.
    let mut last = 0;
    for i in 0..10_000u64 {
        last = limiter.acquire_at(i * 1_000, 1);
    }
    assert!(last > 0);
}

#[test]
fn same_charge_later_waits_no_longer() {
    let mut early = RateLimiter::new();
    early.acquire_at(0, 3000);
    let mut late = early.clone();
    let w_early = early.acquire_at(1_000, 500);
    let w_late = late.acquire_at(2_000_000_000, 500);
    assert!(w_late <= w_early);
    assert_eq!(w_early, 3_333_332_334);
    assert_eq!(w_late, 1_333_333_334);
}

#[test]
fn player_bucket_gives_the_wait() {
    let mut limiter = RateLimiter::new();
    // 60 tokens at once: the per-IP bucket would need (60 - 50) / 15 s, the
    // per-player bucket (60 - 25) / 3 s, which is the wait.
    assert_eq!(limiter.acquire_at(0, 6000), 11_666_666_667);
}

#[test]
fn refilled_after_wait_and_full_refill_time() {
    let mut limiter = RateLimiter::new();
    let w = limiter.acquire_at(0, 4000);
    assert_eq!(w, 5_000_000_000);
    let now = w as u64 + 8_333_333_334;
    let mut fresh = RateLimiter::new();
    assert_eq!(limiter.acquire_at(now, 2600), fresh.acquire_at(now, 2600));
}

#[test]
fn clock_readings_start_from_zero_and_advance() {
    let mut clock = Clock::start();
    let mut last = 0;
    for _ in 0..100 {
        let r = clock.now_ns();
        assert!(r >= last);
        last = r;
    }
    let started = std::time::Instant::now();
    while started.elapsed() < std::time::Duration::from_millis(2) {}
    assert!(clock.now_ns() >= last + 1_000_000);
}
