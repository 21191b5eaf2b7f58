use caco3::cargo::{discover_step, DiscoverWorkspaceError, Probe, Search};
use caco3::chars;
use caco3::config::meta::{find, find_in, path_components};
use caco3::time::duration_since_unix_time;
use caco3::time::local_time::{cache_timezone, offset_source, OffsetSource, TimezoneFailure};
use caco3::time::rfc3339::{floor_to_millisecond, floor_to_second, Millisecond, Second, Serde, Timestamp};
use caco3::web::future::{runs_on_drop, take_callback};
use caco3::web::middleware::request_trace::{
    finish, request_trace, FutureState, RequestTrace, RequestTraceData, RequestTraceLayer,
};
use std::io;

#[test]
fn splitting_follows_the_standard_library() {
    for text in ["", ".", "a", "a.b", "a..b", ".a", "a.", "..", "foo.bar.baz"] {
        let expected: Vec<String> = text.split('.').map(|piece| piece.to_string()).collect();
        let source: Vec<char> = text.chars().collect();
        let actual: Vec<String> =
            chars::split_at(&source, '.').iter().map(|piece| piece.iter().collect()).collect();
        assert_eq!(actual, expected, "pieces of {text:?}");
        assert_eq!(path_components(text), expected);
    }
}

fn test_config() -> toml::Value {
    let mut test = toml::Table::new();
    test.insert("bool".to_owned(), toml::Value::Boolean(true));
    test.insert("str".to_owned(), toml::Value::String("hello".to_owned()));
    let mut foo = toml::Table::new();
    foo.insert("bar".to_owned(), toml::Value::String("bar".to_owned()));
    let mut root = toml::Table::new();
    root.insert("test".to_owned(), toml::Value::Table(test));
    root.insert("foo".to_owned(), toml::Value::Table(foo));
    toml::Value::Table(root)
}

#[test]
fn a_value_is_found_by_its_path() {
    let config = test_config();
    assert_eq!(find(&config, "test.bool").and_then(toml::Value::as_bool), Some(true));
    assert_eq!(find(&config, "test.str").and_then(toml::Value::as_str), Some("hello"));
    assert_eq!(find(&config, "foo.bar").and_then(toml::Value::as_str), Some("bar"));
    assert!(find(&config, "foo").unwrap().is_table());
    assert!(find(&config, "foo.baz").is_none());
    assert!(find(&config, "test.bool.deeper").is_none());
    assert!(find(&config, "").is_none());
    assert!(find(&config, "foo.").is_none());
    assert!(find_in(&config, &Vec::new()).unwrap().is_table());
}

#[test]
fn the_time_zone_is_kept_unless_the_setting_says_no() {
    assert!(cache_timezone(None));
    assert!(cache_timezone(Some("true")));
    assert!(cache_timezone(Some("ON")));
    assert!(!cache_timezone(Some("false")));
    assert!(!cache_timezone(Some("")));
    assert!(!cache_timezone(Some("maybe")));
}

#[test]
fn a_missing_time_zone_means_utc_where_it_is_not_kept() {
    assert_eq!(offset_source(true, Ok(())), Ok(OffsetSource::Timezone));
    assert_eq!(offset_source(false, Ok(())), Ok(OffsetSource::Timezone));
    assert_eq!(offset_source(false, Err(TimezoneFailure::NotFound)), Ok(OffsetSource::Utc));
    assert_eq!(offset_source(true, Err(TimezoneFailure::NotFound)), Err(TimezoneFailure::NotFound));
    assert_eq!(offset_source(false, Err(TimezoneFailure::Other)), Err(TimezoneFailure::Other));
    assert_eq!(offset_source(true, Err(TimezoneFailure::Other)), Err(TimezoneFailure::Other));
}

#[test]
fn the_search_for_a_workspace() {
    assert!(matches!(discover_step(Probe::Workspace, true), Search::Found));
    assert!(matches!(discover_step(Probe::Workspace, false), Search::Found));
    assert!(matches!(discover_step(Probe::Missing, true), Search::Ascend));
    assert!(matches!(discover_step(Probe::Package, true), Search::Ascend));
    assert!(matches!(
        discover_step(Probe::Missing, false),
        Search::Failed(DiscoverWorkspaceError::NotFound)
    ));
    assert!(matches!(
        discover_step(Probe::Package, false),
        Search::Failed(DiscoverWorkspaceError::NotFound)
    ));
    match discover_step(Probe::Unreadable(io::Error::from_raw_os_error(13)), true) {
        Search::Failed(DiscoverWorkspaceError::Io(error)) => {
            assert_eq!(error.raw_os_error(), Some(13))
        }
        _ => panic!("an unreadable file ends the search"),
    }
    assert_eq!(DiscoverWorkspaceError::NotFound.message(), "not found workspace directory");
    assert_eq!(
        DiscoverWorkspaceError::Io(io::Error::new(io::ErrorKind::Other, "denied")).message(),
        "io error: denied"
    );
}

#[test]
fn the_clock_is_past_its_start() {
    assert!(duration_since_unix_time(0).unwrap().as_secs() > 1_600_000_000);
    assert!(duration_since_unix_time(u64::MAX).is_none());
}

fn timestamp(datetime: time::OffsetDateTime) -> Timestamp {
    Timestamp {
        unix_seconds: datetime.unix_timestamp(),
        nanosecond: datetime.nanosecond(),
        offset_seconds: datetime.offset().whole_seconds(),
    }
}

#[test]
fn a_timestamp_is_cut_to_its_precision() {
    let datetime = time::OffsetDateTime::from_unix_timestamp_nanos(1_641_038_410_123_456_789)
        .unwrap()
        .to_offset(time::UtcOffset::from_hms(7, 0, 0).unwrap());
    let floored = floor_to_millisecond(timestamp(datetime));
    assert_eq!(floored, timestamp(datetime.replace_millisecond(datetime.millisecond()).unwrap()));
    assert_eq!(floored.nanosecond, 123_000_000);
    assert_eq!(floored.unix_seconds, 1_641_038_410);
    assert_eq!(floored.offset_seconds, 7 * 3600);
    let floored = floor_to_second(timestamp(datetime));
    assert_eq!(floored, timestamp(datetime.replace_millisecond(0).unwrap()));
    assert_eq!(floored.nanosecond, 0);
    assert_eq!(floored.unix_seconds, 1_641_038_410);
    assert_eq!(floored.offset_seconds, 7 * 3600);

    let before_1970 = time::OffsetDateTime::from_unix_timestamp_nanos(-1_500_000_001).unwrap();
    let floored = floor_to_millisecond(timestamp(before_1970));
    assert_eq!(floored, timestamp(before_1970.replace_millisecond(before_1970.millisecond()).unwrap()));
    assert_eq!(floored.unix_seconds, -2);
    assert_eq!(floored.nanosecond, 499_000_000);

    let edge = Timestamp { unix_seconds: 0, nanosecond: 999_999_999, offset_seconds: 0 };
    assert_eq!(floor_to_millisecond(edge).nanosecond, 999_000_000);
    assert_eq!(floor_to_millisecond(floor_to_millisecond(edge)), floor_to_millisecond(edge));
    assert_eq!(Millisecond(edge).0, edge);
    assert_eq!(Second(floor_to_second(edge)).0.nanosecond, 0);
    let wrapped: Serde<u8, ()> = Serde::new(5);
    assert_eq!(wrapped.into_time(), 5);
}

#[test]
fn the_callback_of_a_dropped_future() {
    assert!(runs_on_drop(false, false));
    assert!(runs_on_drop(true, false));
    assert!(runs_on_drop(true, true));
    assert!(!runs_on_drop(false, true));
    let mut callback = Some(1);
    assert_eq!(take_callback(&mut callback, false, false), Some(1));
    assert_eq!(callback, None);
    let mut callback = Some(2);
    assert_eq!(take_callback(&mut callback, false, true), None);
    assert_eq!(callback, None);
    let mut callback: Option<u8> = None;
    assert_eq!(take_callback(&mut callback, true, true), None);
}

struct Tracer {
    enabled: bool,
}

impl RequestTrace for Tracer {
    fn is_traced(&self, path: Option<&str>) -> bool {
        path == Some("/traced")
    }

    fn enabled(&self) -> bool {
        self.enabled
    }
}

fn uri() -> http::Uri {
    http::Uri::from_static("/traced?x=1")
}

#[test]
fn a_request_is_noted_where_tracing_is_on() {
    let on = Tracer { enabled: true };
    let data = request_trace(&on, Some("/traced"), http::Method::POST, uri()).unwrap();
    assert!(data.trace);
    assert_eq!(data.method, http::Method::POST);
    assert_eq!(data.uri, uri());
    let data = request_trace(&on, Some("/other"), http::Method::GET, uri()).unwrap();
    assert!(!data.trace);
    let data = request_trace(&on, None, http::Method::GET, uri()).unwrap();
    assert!(!data.trace);
    let off = Tracer { enabled: false };
    assert!(request_trace(&off, Some("/traced"), http::Method::GET, uri()).is_none());
}

#[test]
fn the_note_goes_with_a_response_that_succeeded() {
    let note = || Some(RequestTraceData { trace: true, method: http::Method::GET, uri: uri() });
    let mut state = FutureState::Polling;
    let mut held = note();
    let attached = finish(&mut state, &mut held, true);
    assert!(attached.unwrap().trace);
    assert!(held.is_none());
    assert_eq!(state, FutureState::Finished);

    let mut state = FutureState::Polling;
    let mut held = note();
    assert!(finish(&mut state, &mut held, false).is_none());
    assert!(held.is_some());
    assert_eq!(state, FutureState::Finished);

    let layer = RequestTraceLayer::new(|| 3);
    let service = layer.layer("inner");
    assert_eq!(service.inner, "inner");
    assert_eq!((service.make_tracer)(), 3);
}

struct AlwaysOn;

impl RequestTrace for AlwaysOn {
    fn is_traced(&self, _path: Option<&str>) -> bool {
        true
    }
}

#[test]
fn tracing_is_on_unless_the_tracer_says_otherwise() {
    assert!(AlwaysOn.enabled());
    assert!(request_trace(&AlwaysOn, None, http::Method::GET, uri()).unwrap().trace);
}
