use async_bench::params::{
    counter_step, producer_quota, should_yield, BOUNDED_CAPACITY, MANY_TO_ONE_DIVISOR, MESSAGE,
    YIELD_STRIDE,
};

#[test]
fn constants_match_the_design() {
    assert_eq!(BOUNDED_CAPACITY, 1024);
    assert_eq!(YIELD_STRIDE, 256);
    assert_eq!(MANY_TO_ONE_DIVISOR, 10);
    assert_eq!(MESSAGE, 1);
}

#[test]
fn yield_points_fall_on_stride_multiples() {
    assert!(should_yield(0));
    assert!(!should_yield(1));
    assert!(!should_yield(255));
    assert!(should_yield(256));
    assert!(!should_yield(257));
    assert!(should_yield(512));
    assert!(should_yield(256 * 1000));
    assert!(!should_yield(256 * 1000 + 7));
}

#[test]
fn producer_quota_is_a_tenth() {
    assert_eq!(producer_quota(10000), 1000);
    assert_eq!(producer_quota(100), 10);
    assert_eq!(producer_quota(9), 0);
    assert_eq!(producer_quota(1), 0);
    assert_eq!(producer_quota(25), 2);
}

#[test]
fn counter_step_increments_until_the_width_is_exhausted() {
    assert_eq!(counter_step(0), Some(1));
    assert_eq!(counter_step(41), Some(42));
    assert_eq!(counter_step(u64::MAX - 1), Some(u64::MAX));
    assert_eq!(counter_step(u64::MAX), None);
}
