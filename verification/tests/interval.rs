use token_faucet::interval::{measure_interval, Interval};
use token_faucet::StatusInfo;

#[test]
fn interval_of_ten_seconds_holds_three_blocks() {
    let measured = measure_interval(1010, 1000, 3);
    assert_eq!(
        measured,
        Ok(Interval { elapsed: 10, blocks_elapsed: 3, remainder: 1, checkpoint_time: 1009 })
    );
}

#[test]
fn interval_of_exactly_one_period_holds_one_block() {
    let measured = measure_interval(1003, 1000, 3);
    assert_eq!(
        measured,
        Ok(Interval { elapsed: 3, blocks_elapsed: 1, remainder: 0, checkpoint_time: 1003 })
    );
}

#[test]
fn interval_floor_and_remainder_for_a_range_of_spans() {
    let last: i64 = 500;
    let period: u64 = 7;
    let mut elapsed: i64 = 7;
    while elapsed < 200 {
        let iv = measure_interval(last + elapsed, last, period).unwrap();
        assert_eq!(iv.elapsed, elapsed);
        assert_eq!(iv.blocks_elapsed, (elapsed as u64) / period);
        assert_eq!(iv.remainder, (elapsed as u64) % period);
        assert_eq!(iv.checkpoint_time, last + elapsed - (iv.remainder as i64));
        assert_eq!(iv.checkpoint_time, last + (iv.blocks_elapsed * period) as i64);
        elapsed += 1;
    }
}

#[test]
fn interval_with_negative_checkpoint() {
    let measured = measure_interval(4, -6, 3);
    assert_eq!(
        measured,
        Ok(Interval { elapsed: 10, blocks_elapsed: 3, remainder: 1, checkpoint_time: 3 })
    );
}

#[test]
fn interval_rejects_a_clock_that_stands_still() {
    assert_eq!(measure_interval(1000, 1000, 3), Err(StatusInfo::InvalidTimestamp));
}

#[test]
fn interval_rejects_a_clock_that_runs_backwards() {
    assert_eq!(measure_interval(999, 1000, 3), Err(StatusInfo::InvalidTimestamp));
    assert_eq!(measure_interval(i64::MIN, i64::MAX, 3), Err(StatusInfo::InvalidTimestamp));
}

#[test]
fn interval_rejects_less_than_one_period() {
    assert_eq!(measure_interval(1001, 1000, 3), Err(StatusInfo::InsufficientIntervalError));
    assert_eq!(measure_interval(1002, 1000, 3), Err(StatusInfo::InsufficientIntervalError));
}

#[test]
fn interval_reports_a_span_wider_than_the_clock_type() {
    assert_eq!(measure_interval(i64::MAX, -1, 3), Err(StatusInfo::ArithmeticOverflow));
    assert_eq!(measure_interval(1, i64::MIN, 3), Err(StatusInfo::ArithmeticOverflow));
}

#[test]
fn interval_of_the_widest_span_that_fits() {
    let iv = measure_interval(i64::MAX, 0, 3).unwrap();
    assert_eq!(iv.elapsed, i64::MAX);
    assert_eq!(iv.blocks_elapsed, 3_074_457_345_618_258_602);
    assert_eq!(iv.remainder, 1);
    assert_eq!(iv.checkpoint_time, i64::MAX - 1);
}

#[test]
fn interval_period_longer_than_any_span() {
    assert_eq!(measure_interval(i64::MAX, 0, u64::MAX), Err(StatusInfo::InsufficientIntervalError));
}

#[test]
fn interval_remainder_is_carried_to_the_next_call() {
    // Calls every 4 seconds with a period of 3: no second is lost.
    let mut checkpoint: i64 = 0;
    let mut blocks: u64 = 0;
    let mut now: i64 = 4;
    while now <= 120 {
        let iv = measure_interval(now, checkpoint, 3).unwrap();
        blocks += iv.blocks_elapsed;
        checkpoint = iv.checkpoint_time;
        now += 4;
    }
    assert_eq!(blocks, 40);
    assert_eq!(checkpoint, 120);
}
