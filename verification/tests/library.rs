use rusttracks::config::{recorder_config, server_uri, MissingSetting};
use rusttracks::datetime::{date_to_unixts, month_length, DateTime};
use rusttracks::locations::{end_date_or_default, rows_in_span, start_date_or_default, time_range};
use rusttracks::session::{
    accepts, start, step, Action, Event, Phase, QOS, RECONNECT_DELAY_MILLIS, STREAM_CAPACITY,
};

fn s(text: &str) -> String {
    text.to_string()
}

#[test]
fn epoch_is_zero() {
    assert_eq!(date_to_unixts(s("1970-01-01T00:00")).unwrap(), 0);
}

#[test]
fn documented_timestamp() {
    assert_eq!(date_to_unixts(s("2015-05-15T00:00")).unwrap(), 1431648000);
}

#[test]
fn billennium_minute() {
    assert_eq!(date_to_unixts(s("2001-09-09T01:46")).unwrap(), 999999960);
}

#[test]
fn before_the_epoch_is_negative() {
    assert_eq!(date_to_unixts(s("1969-12-31T23:59")).unwrap(), -60);
}

#[test]
fn leap_day_is_accepted() {
    assert_eq!(date_to_unixts(s("2016-02-29T12:30")).unwrap(), 1456749000);
}

#[test]
fn missing_leap_day_is_refused() {
    assert!(date_to_unixts(s("2015-02-29T00:00")).is_err());
}

#[test]
fn seconds_in_the_text_are_refused() {
    assert!(date_to_unixts(s("1970-01-01 00:00:00")).is_err());
    assert!(date_to_unixts(s("2020-01-01T00:00:00")).is_err());
}

#[test]
fn garbage_is_refused() {
    assert!(date_to_unixts(s("yesterday")).is_err());
    assert!(date_to_unixts(s("")).is_err());
}

#[test]
fn timestamp_of_parts() {
    let dt = DateTime::from_parts(2030, 1, 1, 0, 0, 0).unwrap();
    assert_eq!(dt.timestamp(), 1893456000);
    let dt = DateTime::from_parts(1900, 3, 1, 0, 0, 1).unwrap();
    assert_eq!(dt.timestamp(), -2203891199);
}

#[test]
fn invalid_parts_are_refused() {
    assert!(DateTime::from_parts(2019, 2, 29, 0, 0, 0).is_none());
    assert!(DateTime::from_parts(1900, 2, 29, 0, 0, 0).is_none());
    assert!(DateTime::from_parts(2000, 2, 29, 0, 0, 0).is_some());
    assert!(DateTime::from_parts(2020, 13, 1, 0, 0, 0).is_none());
    assert!(DateTime::from_parts(2020, 4, 31, 0, 0, 0).is_none());
    assert!(DateTime::from_parts(2020, 4, 30, 24, 0, 0).is_none());
    assert!(DateTime::from_parts(2020, 4, 30, 23, 60, 0).is_none());
    assert!(DateTime::from_parts(2020, 4, 30, 23, 59, 60).is_none());
    assert!(DateTime::from_parts(300000, 1, 1, 0, 0, 0).is_none());
}

#[test]
fn month_lengths() {
    assert_eq!(month_length(2021, 1), 31);
    assert_eq!(month_length(2021, 2), 28);
    assert_eq!(month_length(2024, 2), 29);
    assert_eq!(month_length(2100, 2), 28);
    assert_eq!(month_length(2000, 2), 29);
    assert_eq!(month_length(2021, 9), 30);
}

#[test]
fn later_dates_have_larger_timestamps() {
    let a = date_to_unixts(s("2021-12-31T23:59")).unwrap();
    let b = date_to_unixts(s("2022-01-01T00:00")).unwrap();
    assert!(a < b);
    assert_eq!(b - a, 60);
}

#[test]
fn default_dates() {
    assert_eq!(start_date_or_default(None), "1970-01-01 00:00:00");
    assert_eq!(end_date_or_default(None), "2030-01-01 00:00:00");
    assert_eq!(start_date_or_default(Some(s("x"))), "x");
    assert_eq!(end_date_or_default(Some(s("y"))), "y");
}

#[test]
fn range_of_two_dates() {
    let range = time_range(Some(s("2020-01-01T00:00")), Some(s("2020-01-02T00:00")));
    assert_eq!(range, Some((1577836800, 1577923200)));
}

#[test]
fn default_dates_do_not_read() {
    assert_eq!(time_range(None, Some(s("2020-01-02T00:00"))), None);
    assert_eq!(time_range(Some(s("2020-01-02T00:00")), None), None);
    assert_eq!(time_range(None, None), None);
}

#[test]
fn unreadable_date_gives_no_range() {
    assert_eq!(time_range(Some(s("2020-01-01")), Some(s("2020-01-02T00:00"))), None);
}

#[test]
fn rows_within_span_in_order() {
    let stamps = vec![5, 10, 15, 20, 10, -3];
    assert_eq!(rows_in_span(&stamps, 10, 15), vec![1, 2, 4]);
    assert_eq!(rows_in_span(&stamps, -10, 100), vec![0, 1, 2, 3, 4, 5]);
    assert_eq!(rows_in_span(&stamps, 16, 19), Vec::<usize>::new());
    assert_eq!(rows_in_span(&stamps, 15, 10), Vec::<usize>::new());
    assert_eq!(rows_in_span(&Vec::new(), 0, 10), Vec::<usize>::new());
}

#[test]
fn wider_span_keeps_rows() {
    let stamps = vec![1, 2, 3, 4, 5];
    let narrow = rows_in_span(&stamps, 2, 3);
    let wide = rows_in_span(&stamps, 1, 4);
    assert!(narrow.iter().all(|r| wide.contains(r)));
}

#[test]
fn session_starts_by_connecting() {
    assert_eq!(start(), (Phase::Connecting, Action::Connect));
}

#[test]
fn session_happy_path() {
    let (p, a) = step(Phase::Connecting, Event::Connected);
    assert_eq!((p, a), (Phase::Subscribing, Action::Subscribe { qos: 1 }));
    assert_eq!(QOS, 1);
    let (p, a) = step(p, Event::Subscribed);
    assert_eq!((p, a), (Phase::Listening, Action::AwaitMessage));
    let (p, a) = step(p, Event::MessageArrived);
    assert_eq!((p, a), (Phase::Listening, Action::StorePayload));
    let (p, a) = step(p, Event::StreamEnded);
    assert_eq!((p, a), (Phase::Finished, Action::Stop));
}

#[test]
fn session_failures_abort() {
    assert_eq!(step(Phase::Connecting, Event::ConnectFailed), (Phase::Failed, Action::Abort));
    assert_eq!(step(Phase::Subscribing, Event::SubscribeFailed), (Phase::Failed, Action::Abort));
}

#[test]
fn session_reconnects_until_it_succeeds() {
    let (p, a) = step(Phase::Listening, Event::ConnectionLost);
    assert_eq!((p, a), (Phase::Reconnecting, Action::Reconnect));
    let (p, a) = step(p, Event::ReconnectFailed);
    assert_eq!((p, a), (Phase::Reconnecting, Action::ReconnectAfter { millis: 1000 }));
    assert_eq!(RECONNECT_DELAY_MILLIS, 1000);
    let (p, a) = step(p, Event::ReconnectFailed);
    assert_eq!((p, a), (Phase::Reconnecting, Action::ReconnectAfter { millis: 1000 }));
    let (p, a) = step(p, Event::Reconnected);
    assert_eq!((p, a), (Phase::Listening, Action::AwaitMessage));
}

#[test]
fn session_events_per_phase() {
    assert!(accepts(Phase::Listening, Event::MessageArrived));
    assert!(!accepts(Phase::Listening, Event::Connected));
    assert!(!accepts(Phase::Reconnecting, Event::MessageArrived));
    assert!(!accepts(Phase::Finished, Event::MessageArrived));
    assert!(!accepts(Phase::Failed, Event::Connected));
    assert_eq!(STREAM_CAPACITY, 25);
}

fn some(text: &str) -> Option<String> {
    Some(s(text))
}

#[test]
fn config_with_defaults() {
    let c = recorder_config(
        some("broker"),
        None,
        some("user"),
        some("secret"),
        None,
        s("generated"),
        some("owntracks/#"),
        some("db.sqlite"),
    )
    .unwrap();
    assert_eq!(c.mqtt_port, "1883");
    assert_eq!(c.mqtt_client_id, "generated");
    assert_eq!(c.server_uri(), "tcp://broker:1883");
    assert_eq!(c.topic, "owntracks/#");
    assert_eq!(c.database_url, "db.sqlite");
}

#[test]
fn config_given_values_win() {
    let c = recorder_config(
        some("broker"),
        some("8883"),
        some("user"),
        some("secret"),
        some("me"),
        s("generated"),
        some("t"),
        some("db"),
    )
    .unwrap();
    assert_eq!(c.mqtt_port, "8883");
    assert_eq!(c.mqtt_client_id, "me");
    assert_eq!(c.mqtt_username, "user");
    assert_eq!(c.mqtt_password, "secret");
}

#[test]
fn config_first_missing_setting() {
    let e = recorder_config(None, None, None, None, None, s("g"), None, None).unwrap_err();
    assert_eq!(e, MissingSetting::MqttUrl);
    assert_eq!(e.message(), "MQTT_URL must be set!");
    let e = recorder_config(some("u"), None, None, some("p"), None, s("g"), None, None).unwrap_err();
    assert_eq!(e, MissingSetting::MqttUsername);
    assert_eq!(e.message(), "MQTT_USERNAME must be set!");
    let e = recorder_config(some("u"), None, some("n"), None, None, s("g"), some("t"), some("d"))
        .unwrap_err();
    assert_eq!(e, MissingSetting::MqttPassword);
    assert_eq!(e.message(), "MQTT_PASSWORD must be set!");
    let e = recorder_config(some("u"), None, some("n"), some("p"), None, s("g"), None, None)
        .unwrap_err();
    assert_eq!(e, MissingSetting::Topic);
    assert_eq!(e.message(), "TOPIC for MQTT must be set!");
    let e = recorder_config(some("u"), None, some("n"), some("p"), None, s("g"), some("t"), None)
        .unwrap_err();
    assert_eq!(e, MissingSetting::SqliteDbUrl);
    assert_eq!(e.message(), "SQLITE_DB_URL must be set");
}

#[test]
fn broker_address() {
    assert_eq!(server_uri("mqtt.example.org", "1883"), "tcp://mqtt.example.org:1883");
    assert_eq!(server_uri("", ""), "tcp://:");
}
