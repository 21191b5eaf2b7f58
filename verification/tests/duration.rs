use caco3::web::duration::AutoUnitDuration;
use std::time::Duration;

fn of(duration: Duration) -> AutoUnitDuration {
    AutoUnitDuration::new(duration.as_secs(), duration.subsec_nanos())
}

#[test]
fn test_elapsed_duration() {
    let actual = of(Duration::from_secs(7)).text();
    assert_eq!(actual, "7 s");
    let actual = of(Duration::from_millis(15)).text();
    assert_eq!(actual, "15 ms");
    let actual = of(Duration::from_micros(20)).text();
    assert_eq!(actual, "20 µs");
    let actual = of(Duration::from_nanos(25)).text();
    assert_eq!(actual, "25 ns");
    // this is ok, it is zero anyway
    let actual = of(Duration::from_secs(0)).text();
    assert_eq!(actual, "0 ns");
}

#[test]
fn what_is_left_over_is_dropped() {
    assert_eq!(AutoUnitDuration::new(1, 999_999_999).text(), "1 s");
    assert_eq!(AutoUnitDuration::new(0, 999_999_999).text(), "999 ms");
    assert_eq!(AutoUnitDuration::new(0, 1_000_000).text(), "1 ms");
    assert_eq!(AutoUnitDuration::new(0, 999_999).text(), "999 µs");
    assert_eq!(AutoUnitDuration::new(0, 1_000).text(), "1 µs");
    assert_eq!(AutoUnitDuration::new(0, 999).text(), "999 ns");
    assert_eq!(AutoUnitDuration::new(u64::MAX, 0).text(), "18446744073709551615 s");
    assert_eq!(AutoUnitDuration::new(3, 5), AutoUnitDuration::new(3, 5));
    assert_ne!(AutoUnitDuration::new(3, 5), AutoUnitDuration::new(3, 6));
}
