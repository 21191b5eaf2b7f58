use caco3::time::human_duration::{
    DurationComponent, HumanDuration, DAY_SECONDS, HOUR_SECONDS, MINUTE_SECONDS,
};
use time::ext::NumericalStdDuration;

#[test]
fn test_to_human() {
    assert_eq!(HumanDuration::from_secs(1).format(2), "1s");
    assert_eq!(HumanDuration::from_secs(10).format(2), "10s");
    assert_eq!(HumanDuration::from_secs(59).format(2), "59s");
    assert_eq!(HumanDuration::from_secs(MINUTE_SECONDS).format(2), "1m 0s");
    assert_eq!(HumanDuration::from_secs(HOUR_SECONDS).format(2), "1h 0m");
    assert_eq!(HumanDuration::from_secs(HOUR_SECONDS - 1).format(2), "59m 59s");
    assert_eq!(HumanDuration::from_secs(HOUR_SECONDS).format(2), "1h 0m");
    assert_eq!(HumanDuration::from_secs(HOUR_SECONDS + 1).format(2), "1h 0m");
    assert_eq!(HumanDuration::from_secs(DAY_SECONDS - 1).format(2), "23h 59m");
    assert_eq!(HumanDuration::from_secs(DAY_SECONDS).format(2), "1d 0h");
    assert_eq!(HumanDuration::from_secs(DAY_SECONDS + 1).format(2), "1d 0h");
}

#[test]
fn test_iterator() {
    let secs = (1.std_days() + 5.std_hours() + 7.std_minutes() + 3.std_seconds()).as_secs();
    let components = HumanDuration::from_secs(secs).components().collect();
    assert_eq!(components[0].text(), "1d");
    assert_eq!(components[1].text(), "5h");
    assert_eq!(components[2].text(), "7m");
    assert_eq!(components[3].text(), "3s");
}

#[test]
fn components_of_a_duration() {
    let d = HumanDuration::from_secs(DAY_SECONDS * 3 + HOUR_SECONDS * 4 + 5);
    assert_eq!(d.days(), Some(3));
    assert_eq!(d.hours(), Some(4));
    assert_eq!(d.minutes(), Some(0));
    assert_eq!(d.secs(), 5);
    let d = HumanDuration::from_secs(59);
    assert_eq!(d.days(), None);
    assert_eq!(d.hours(), None);
    assert_eq!(d.minutes(), None);
    assert_eq!(d.secs(), 59);
    let d = HumanDuration::from_secs(u64::MAX);
    assert_eq!(d.days(), Some(u64::MAX / 86_400));
    assert_eq!(d.format_all(), "213503982334601d 7h 0m 15s");
}

#[test]
fn format_takes_the_first_components() {
    let d = HumanDuration::from_secs(DAY_SECONDS + 2 * HOUR_SECONDS + 3 * MINUTE_SECONDS + 4);
    assert_eq!(d.format(0), "");
    assert_eq!(d.format(1), "1d");
    assert_eq!(d.format(3), "1d 2h 3m");
    assert_eq!(d.format(4), "1d 2h 3m 4s");
    assert_eq!(d.format(200), "1d 2h 3m 4s");
    assert_eq!(d.format_all(), "1d 2h 3m 4s");
    assert_eq!(d.display(2).text(), "1d 2h");
    assert_eq!(d.display_all().text(), "1d 2h 3m 4s");
    assert_eq!(HumanDuration::from_secs(0).format_all(), "0s");
    assert_eq!(HumanDuration::from_secs(0).format(0), "");
}

#[test]
fn components_come_one_by_one() {
    let mut parts = HumanDuration::from_secs(HOUR_SECONDS + 1).components();
    assert_eq!(parts.next().unwrap().text(), "1h");
    assert_eq!(parts.next().unwrap().text(), "0m");
    assert_eq!(parts.next().unwrap().text(), "1s");
    assert!(parts.next().is_none());
    assert!(parts.next().is_none());
    assert_eq!(DurationComponent::days(12).text(), "12d");
    assert_eq!(DurationComponent::hours(0).text(), "0h");
    assert_eq!(DurationComponent::minutes(7).text(), "7m");
    assert_eq!(DurationComponent::seconds(59).text(), "59s");
    assert_eq!(DurationComponent::ALL_COMPONENTS, 4);
}

#[test]
fn durations_are_ordered_by_their_seconds() {
    assert!(HumanDuration::from_secs(1) < HumanDuration::from_secs(2));
    assert_eq!(HumanDuration::from_secs(5), HumanDuration::from_secs(5));
}
