use ciuc_planet::{now_ms, timestamp_ms};

#[test]
fn clock_reads_a_time_after_2020() {
    let first = now_ms();
    assert!(first >= 1_577_836_800_000);
    let second = now_ms();
    assert!(second >= 1_577_836_800_000);
}

#[test]
fn timestamp_of_a_reading() {
    assert_eq!(timestamp_ms(Some(0)), 0);
    assert_eq!(timestamp_ms(Some(1_577_836_800_000)), 1_577_836_800_000);
    assert_eq!(timestamp_ms(Some(i64::MAX as u128)), i64::MAX);
}

#[test]
fn timestamp_beyond_the_range() {
    assert_eq!(timestamp_ms(Some(i64::MAX as u128 + 1)), i64::MAX);
    assert_eq!(timestamp_ms(Some(u128::MAX)), i64::MAX);
}

#[test]
fn timestamp_before_the_epoch() {
    assert_eq!(timestamp_ms(None), 0);
}
