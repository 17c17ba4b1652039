use vmm_core::rate_limiter::{gcd, RateLimiter, TokenBucket, TokenType};

const NANOSEC_IN_ONE_MILLISEC: u64 = 1_000_000;
const REFILL_TIMER_INTERVAL_MS: u64 = 100;

// Blocks the calling thread for `ms` milliseconds on a kernel timer.
fn sleep_ms(ms: u64) {
    let mut tfd = timerfd::TimerFd::new().unwrap();
    tfd.set_state(
        timerfd::TimerState::Oneshot(std::time::Duration::from_millis(ms)),
        timerfd::SetTimeFlags::Default,
    );
    tfd.read();
}

#[test]
fn test_gcd() {
    assert_eq!(gcd(12, 18), 6);
    assert_eq!(gcd(1000, 1000), 1000);
    assert_eq!(gcd(7, 0), 7);
    assert_eq!(gcd(0, 7), 7);
    assert_eq!(gcd(17, 13), 1);
}

#[test]
fn test_token_bucket_create() {
    let before = time::precise_time_ns();
    let tb = TokenBucket::new(1000, None, 1000);
    assert_eq!(tb.capacity(), 1000);
    assert_eq!(tb.budget(), 1000);
    assert!(tb.get_last_update() >= before);
    assert!(tb.get_last_update() <= time::precise_time_ns());
    assert_eq!(tb.get_processed_capacity(), 1);
    assert_eq!(tb.get_processed_refill_time(), 1_000_000);
}

#[test]
fn test_token_bucket_preprocess() {
    let tb = TokenBucket::new(1000, None, 1000);
    assert_eq!(tb.get_processed_capacity(), 1);
    assert_eq!(tb.get_processed_refill_time(), NANOSEC_IN_ONE_MILLISEC);

    let thousand = 1000;
    let tb = TokenBucket::new(3 * 7 * 11 * 19 * thousand, None, 7 * 11 * 13 * 17);
    assert_eq!(tb.get_processed_capacity(), 3 * 19);
    assert_eq!(
        tb.get_processed_refill_time(),
        13 * 17 * (NANOSEC_IN_ONE_MILLISEC / thousand)
    );
}

#[test]
fn test_exact_refill_ratio() {
    // The preprocessed factors satisfy the exact integer equality
    // processed_capacity * refill_time_ms * 1_000_000
    //     == size * processed_refill_time.
    for (size, refill) in [(1000u64, 1000u64), (231_000, 17_017), (3, 1_000_000), (1, 1)] {
        let tb = TokenBucket::new(size, None, refill);
        let lhs = (tb.get_processed_capacity() as u128)
            * (tb.refill_time_ms() as u128)
            * 1_000_000u128;
        let rhs = (tb.capacity() as u128) * (tb.get_processed_refill_time() as u128);
        assert_eq!(lhs, rhs);
    }
}

#[test]
fn test_token_bucket_reduce() {
    // token bucket with capacity 1000 and refill time of 1000 milliseconds
    // allowing rate of 1 token/ms.
    let capacity = 1000;
    let refill_ms = 1000;
    let mut tb = TokenBucket::new(capacity, None, refill_ms as u64);

    assert!(tb.reduce(123));
    assert_eq!(tb.budget(), capacity - 123);

    sleep_ms(123);
    assert!(tb.reduce(1));
    assert_eq!(tb.budget(), capacity - 1);
    assert!(tb.reduce(100));
    assert!(!tb.reduce(capacity));

    // token bucket with capacity 1000 and refill time of 1000 milliseconds
    let mut tb = TokenBucket::new(1000, Some(1100), 1000);
    // safely assuming these consume calls take less than 500ms together
    assert!(tb.reduce(1000));
    assert_eq!(tb.one_time_burst(), 100);
    assert!(tb.reduce(500));
    assert_eq!(tb.one_time_burst(), 0);
    assert!(tb.reduce(500));
    assert!(!tb.reduce(500));
    sleep_ms(500);
    assert!(tb.reduce(500));

    let before = time::precise_time_ns();
    tb.reset();
    assert_eq!(tb.capacity(), 1000);
    assert_eq!(tb.budget(), 1000);
    assert!(tb.get_last_update() >= before);
    assert!(tb.get_last_update() <= time::precise_time_ns());
}

#[test]
fn test_rate_limiter_disabled() {
    // A limiter whose both token types are disabled is a no-op.
    let mut l = RateLimiter::new(0, None, 0, 0, None, 0).unwrap();

    // limiter should not be blocked
    assert!(!l.is_blocked());
    // even a disabled limiter carries a valid timer fd
    assert!(l.as_raw_fd() > 0);
    // limiter should be disabled so consume(whatever) should work
    assert!(l.consume(u64::max_value(), TokenType::Ops));
    assert!(l.consume(u64::max_value(), TokenType::Bytes));
    // calling the handler without there having been an event should error
    assert!(l.event_handler().is_err());
    assert_eq!(
        format!("{:?}", l.event_handler().err().unwrap()),
        "SpuriousRateLimiterEvent(\
         \"Rate limiter event handler called without a present timer\")"
    );
}

#[test]
fn test_rate_limiter_new() {
    let l = RateLimiter::new(1000, Some(1001), 1002, 1003, Some(1004), 1005).unwrap();

    let bw = l.bandwidth().unwrap();
    assert_eq!(bw.capacity(), 1000);
    assert_eq!(bw.one_time_burst(), 1001);
    assert_eq!(bw.refill_time_ms(), 1002);
    assert_eq!(bw.budget(), 1000);

    let ops = l.ops().unwrap();
    assert_eq!(ops.capacity(), 1003);
    assert_eq!(ops.one_time_burst(), 1004);
    assert_eq!(ops.refill_time_ms(), 1005);
    assert_eq!(ops.budget(), 1003);
}

#[test]
fn test_rate_limiter_zero_size_yields_absent_bucket() {
    // Constructing with size 0 or refill 0 yields an absent bucket, and
    // consume on that kind always succeeds.
    let mut l = RateLimiter::new(0, None, 1000, 1000, None, 0).unwrap();
    assert!(l.bandwidth().is_none());
    assert!(l.ops().is_none());
    assert!(l.consume(u64::max_value(), TokenType::Bytes));
    assert!(l.consume(u64::max_value(), TokenType::Ops));
    assert!(!l.is_blocked());
}

#[test]
fn test_rate_limiter_manual_replenish() {
    // rate limiter with limit of 1000 bytes/s and 1000 ops/s
    let mut l = RateLimiter::new(1000, None, 1000, 1000, None, 1000).unwrap();

    // consume 123 bytes
    assert!(l.consume(123, TokenType::Bytes));
    l.manual_replenish(23, TokenType::Bytes);
    {
        let bytes_tb = l.get_token_bucket(TokenType::Bytes).unwrap();
        assert_eq!(bytes_tb.budget(), 900);
    }
    // consume 123 ops
    assert!(l.consume(123, TokenType::Ops));
    l.manual_replenish(23, TokenType::Ops);
    {
        let bytes_tb = l.get_token_bucket(TokenType::Ops).unwrap();
        assert_eq!(bytes_tb.budget(), 900);
    }
}

#[test]
fn test_rate_limiter_bandwidth() {
    // rate limiter with limit of 1000 bytes/s
    let mut l = RateLimiter::new(1000, None, 1000, 0, None, 0).unwrap();

    // limiter should not be blocked
    assert!(!l.is_blocked());
    // raw FD of the refill timer should be valid
    assert!(l.as_raw_fd() > 0);

    // ops/s limiter should be disabled so consume(whatever) should work
    assert!(l.consume(u64::max_value(), TokenType::Ops));

    // do full 1000 bytes
    assert!(l.consume(1000, TokenType::Bytes));
    // try and fail on another 100
    assert!(!l.consume(100, TokenType::Bytes));
    // since consume failed, limiter should be blocked now
    assert!(l.is_blocked());
    // wait half the timer period
    sleep_ms(REFILL_TIMER_INTERVAL_MS / 2);
    // limiter should still be blocked
    assert!(l.is_blocked());
    // wait the other half of the timer period
    sleep_ms(REFILL_TIMER_INTERVAL_MS / 2);
    // the timer_fd should have an event on it by now
    assert!(l.event_handler().is_ok());
    // limiter should now be unblocked
    assert!(!l.is_blocked());
    // try and succeed on another 100 bytes this time
    assert!(l.consume(100, TokenType::Bytes));
}

#[test]
fn test_rate_limiter_ops() {
    // rate limiter with limit of 1000 ops/s
    let mut l = RateLimiter::new(0, None, 0, 1000, None, 1000).unwrap();

    // limiter should not be blocked
    assert!(!l.is_blocked());
    // raw FD of the refill timer should be valid
    assert!(l.as_raw_fd() > 0);

    // bytes/s limiter should be disabled so consume(whatever) should work
    assert!(l.consume(u64::max_value(), TokenType::Bytes));

    // do full 1000 ops
    assert!(l.consume(1000, TokenType::Ops));
    // try and fail on another 100
    assert!(!l.consume(100, TokenType::Ops));
    // since consume failed, limiter should be blocked now
    assert!(l.is_blocked());
    // wait half the timer period
    sleep_ms(REFILL_TIMER_INTERVAL_MS / 2);
    // limiter should still be blocked
    assert!(l.is_blocked());
    // wait the other half of the timer period
    sleep_ms(REFILL_TIMER_INTERVAL_MS / 2);
    // the timer_fd should have an event on it by now
    assert!(l.event_handler().is_ok());
    // limiter should now be unblocked
    assert!(!l.is_blocked());
    // try and succeed on another 100 ops this time
    assert!(l.consume(100, TokenType::Ops));
}

#[test]
fn test_rate_limiter_full() {
    // rate limiter with limit of 1000 bytes/s and 1000 ops/s
    let mut l = RateLimiter::new(1000, None, 1000, 1000, None, 1000).unwrap();

    // limiter should not be blocked
    assert!(!l.is_blocked());
    // raw FD of the refill timer should be valid
    assert!(l.as_raw_fd() > 0);

    // do full 1000 ops
    assert!(l.consume(1000, TokenType::Ops));
    // do full 1000 bytes
    assert!(l.consume(1000, TokenType::Bytes));
    // try and fail on another 100 ops
    assert!(!l.consume(100, TokenType::Ops));
    // try and fail on another 100 bytes
    assert!(!l.consume(100, TokenType::Bytes));
    // since consume failed, limiter should be blocked now
    assert!(l.is_blocked());
    // wait half the timer period
    sleep_ms(REFILL_TIMER_INTERVAL_MS / 2);
    // limiter should still be blocked
    assert!(l.is_blocked());
    // wait the other half of the timer period
    sleep_ms(REFILL_TIMER_INTERVAL_MS / 2);
    // the timer_fd should have an event on it by now
    assert!(l.event_handler().is_ok());
    // limiter should now be unblocked
    assert!(!l.is_blocked());
    // try and succeed on another 100 ops this time
    assert!(l.consume(100, TokenType::Ops));
    // try and succeed on another 100 bytes this time
    assert!(l.consume(100, TokenType::Bytes));
}

#[test]
fn test_rate_limiter_timer_state_tracks_blocking() {
    // is_blocked follows the kernel timer: armed by a refused consume, and
    // cleared by the event handler once the one-shot timer has fired.
    let mut l = RateLimiter::new(1000, None, 1000, 0, None, 0).unwrap();
    assert!(!l.is_blocked());
    assert!(!l.timer_fd_armed());

    assert!(l.consume(1000, TokenType::Bytes));
    assert!(!l.consume(100, TokenType::Bytes));
    // a refused consume armed the one-shot timer
    assert!(l.is_blocked());
    assert!(l.timer_fd_armed());

    sleep_ms(REFILL_TIMER_INTERVAL_MS + 50);
    // the one-shot timer fired and disarmed itself; the limiter stays
    // blocked until its handler runs
    assert!(l.is_blocked());
    assert!(!l.timer_fd_armed());

    assert!(l.event_handler().is_ok());
    assert!(!l.is_blocked());
    assert!(!l.timer_fd_armed());
}

#[test]
fn test_update_buckets() {
    let mut x = RateLimiter::new(1000, Some(2000), 1000, 10, Some(20), 1000).unwrap();

    let initial_bw = x.bandwidth().cloned();
    let initial_ops = x.ops().cloned();

    x.update_buckets(None, None);
    assert_eq!(x.bandwidth().cloned(), initial_bw);
    assert_eq!(x.ops().cloned(), initial_ops);

    let new_bw = TokenBucket::new(123, None, 57);
    let new_ops = TokenBucket::new(321, Some(12346), 89);
    x.update_buckets(Some(new_bw.clone()), Some(new_ops.clone()));

    // The rebuilt buckets carry their own creation stamps; align the
    // expected values' last-update stamps before comparing.
    let mut expected_bw = new_bw;
    expected_bw.set_last_update(x.bandwidth().unwrap().get_last_update());
    let mut expected_ops = new_ops;
    expected_ops.set_last_update(x.ops().unwrap().get_last_update());

    assert_eq!(x.bandwidth().cloned(), Some(expected_bw));
    assert_eq!(x.ops().cloned(), Some(expected_ops));
}

#[test]
fn test_rate_limiter_eq() {
    // Limiter equality compares the two buckets; the timer is not part of it.
    let mut l1 = RateLimiter::new(1000, None, 1000, 0, None, 0).unwrap();
    let l2 = RateLimiter::new(2000, None, 1000, 0, None, 0).unwrap();
    let l3 = RateLimiter::new(0, None, 0, 0, None, 0).unwrap();
    assert!(l1 == l1);
    assert!(l1 != l2);
    assert!(l1 != l3);
    assert!(l3 == l3);
    // a consumed budget distinguishes two otherwise equal limiters
    assert!(l1.consume(123, TokenType::Bytes));
    assert!(l1 != l2);
}

#[test]
fn test_update_buckets_disables_with_zero_size() {
    let mut x = RateLimiter::new(1000, None, 1000, 1000, None, 1000).unwrap();
    // A zero-sized bucket is the way to disable a token type.
    let zero = TokenBucket::new(0, None, 1000);
    x.update_buckets(Some(zero), None);
    assert!(x.bandwidth().is_none());
    assert!(x.ops().is_some());
}

#[test]
fn test_oversized_request_drains_full_bucket() {
    // A request larger than the bucket size is satisfied opportunistically
    // when the bucket is full, draining it (known issue kept).
    let mut tb = TokenBucket::new(1000, None, 1000);
    assert!(tb.reduce(5000));
    assert_eq!(tb.budget(), 0);
    // and refused while the bucket is not full
    assert!(!tb.reduce(5000));
}

#[test]
fn test_reduce_at_is_deterministic() {
    // Driving the clock by hand: a bucket of 1000 tokens per 1000 ms earns
    // exactly one token per million nanoseconds.
    let mut tb = TokenBucket::new(1000, None, 1000);
    let t0 = tb.get_last_update();
    assert!(tb.reduce_at(1000, t0));
    assert_eq!(tb.budget(), 0);
    // 250 ms later, a quarter of the bucket is back.
    assert!(!tb.reduce_at(500, t0 + 250 * NANOSEC_IN_ONE_MILLISEC));
    assert_eq!(tb.budget(), 250);
    assert!(tb.reduce_at(250, t0 + 250 * NANOSEC_IN_ONE_MILLISEC));
    assert_eq!(tb.budget(), 0);
}

#[test]
fn test_replenish_caps_at_size() {
    let mut tb = TokenBucket::new(1000, None, 1000);
    let t0 = tb.get_last_update();
    assert!(tb.reduce_at(300, t0));
    tb.replenish(100);
    assert_eq!(tb.budget(), 800);
    tb.replenish(10_000);
    assert_eq!(tb.budget(), 1000);
    // a remaining burst is credited instead of the budget
    let mut tb = TokenBucket::new(1000, Some(5), 1000);
    tb.replenish(10);
    assert_eq!(tb.one_time_burst(), 15);
    assert_eq!(tb.budget(), 1000);
}
