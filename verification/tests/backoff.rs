use retry_backoff::backoff::backoff_table;
use retry_backoff::backoff::delay;
use retry_backoff::backoff::MAX_DELAY;

#[test]
fn delay_starts_at_the_base_delay() {
    assert_eq!(delay(0, 10), 10);
    assert_eq!(delay(0, 1), 1);
    assert_eq!(delay(0, u64::MAX), u64::MAX);
}

#[test]
fn delay_doubles_with_every_attempt() {
    assert_eq!(delay(1, 10), 20);
    assert_eq!(delay(2, 10), 40);
    assert_eq!(delay(3, 10), 80);
    assert_eq!(delay(10, 3), 3072);
    assert_eq!(delay(63, 1), 1u64 << 63);
}

#[test]
fn delay_is_the_same_on_every_call() {
    for attempt in [0usize, 1, 7, 63, 64, 1000] {
        for base in [0u64, 1, 10, u64::MAX / 2, u64::MAX] {
            assert_eq!(delay(attempt, base), delay(attempt, base));
        }
    }
}

#[test]
fn delay_never_shrinks() {
    for base in [1u64, 3, 10, 1 << 40, u64::MAX] {
        let mut previous = 0u64;
        for attempt in 0..200usize {
            let wait = delay(attempt, base);
            assert!(wait >= previous);
            assert!(wait >= base);
            previous = wait;
        }
    }
}

#[test]
fn delay_clamps_at_the_edge_of_the_range() {
    // 2^63 fits, 2^64 does not.
    assert_eq!(delay(63, 1), 9_223_372_036_854_775_808);
    assert_eq!(delay(64, 1), MAX_DELAY);
    // 3 * 2^62 fits, 3 * 2^63 does not.
    assert_eq!(delay(62, 3), 13_835_058_055_282_163_712);
    assert_eq!(delay(63, 3), MAX_DELAY);
    // The largest base delay fits only at the first attempt.
    assert_eq!(delay(0, u64::MAX), u64::MAX);
    assert_eq!(delay(1, u64::MAX), MAX_DELAY);
    assert_eq!(delay(1, u64::MAX / 2), u64::MAX - 1);
    assert_eq!(delay(1, u64::MAX / 2 + 1), MAX_DELAY);
}

#[test]
fn delay_clamps_for_very_large_attempts() {
    assert_eq!(MAX_DELAY, u64::MAX);
    assert_eq!(delay(64, 10), MAX_DELAY);
    assert_eq!(delay(65, 10), MAX_DELAY);
    assert_eq!(delay(1_000_000, 1), MAX_DELAY);
    assert_eq!(delay(usize::MAX, 1), MAX_DELAY);
    assert_eq!(delay(usize::MAX, u64::MAX), MAX_DELAY);
}

#[test]
fn delay_of_a_zero_base_is_zero() {
    assert_eq!(delay(0, 0), 0);
    assert_eq!(delay(5, 0), 0);
    assert_eq!(delay(64, 0), 0);
    assert_eq!(delay(usize::MAX, 0), 0);
}

#[test]
fn backoff_table_of_base_one_holds_the_powers_of_two() {
    let table: [u64; 5] = backoff_table::<5>(1);
    assert_eq!(table, [1, 2, 4, 8, 16]);
}

#[test]
fn backoff_table_scales_with_the_base_delay() {
    let table: [u64; 4] = backoff_table::<4>(10);
    assert_eq!(table, [10, 20, 40, 80]);
}

#[test]
fn backoff_table_may_be_empty() {
    let table: [u64; 0] = backoff_table::<0>(10);
    assert_eq!(table.len(), 0);
}

#[test]
fn backoff_table_agrees_with_delay_and_clamps() {
    let table: [u64; 70] = backoff_table::<70>(5);
    for attempt in 0..70usize {
        assert_eq!(table[attempt], delay(attempt, 5));
        if attempt > 0 {
            assert!(table[attempt - 1] <= table[attempt]);
        }
    }
    assert_eq!(table[61], 5 * (1u64 << 61));
    assert_eq!(table[62], MAX_DELAY);
    assert_eq!(table[69], MAX_DELAY);
}
