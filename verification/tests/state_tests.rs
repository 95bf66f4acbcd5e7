//! The value objects and the fine-grained status transitions.

use aranet_dashboard::Action;
use aranet_dashboard::App;
use aranet_dashboard::ConnectionStatus;
use aranet_dashboard::CurrentReading;
use aranet_dashboard::HistoricalSeries;
use aranet_dashboard::Intent;
use aranet_dashboard::SensorError;
use aranet_dashboard::app::is_quit_key;

#[test]
fn the_default_reading_is_all_zero() {
    let reading = CurrentReading::default();
    assert_eq!(reading.co2_ppm, 0);
    assert_eq!(reading.temperature_centi, 0);
    assert_eq!(reading.pressure_deci_hpa, 0);
    assert_eq!(reading.humidity_percent, 0);
    assert_eq!(reading.captured_at, 0);
    assert_eq!(reading, CurrentReading::empty());
}

#[test]
fn status_labels() {
    assert_eq!(ConnectionStatus::Idle.label(), "Waiting to connect...");
    assert_eq!(ConnectionStatus::Connecting.label(), "Connecting...");
    assert_eq!(ConnectionStatus::Connected.label(), "Connected to Sensor");
    assert_eq!(ConnectionStatus::ConnectionFailed.label(), "Connection failed");
}

#[test]
fn only_connected_counts_as_connected() {
    assert!(ConnectionStatus::Connected.is_connected());
    assert!(!ConnectionStatus::Idle.is_connected());
    assert!(!ConnectionStatus::Connecting.is_connected());
    assert!(!ConnectionStatus::ConnectionFailed.is_connected());
}

#[test]
fn status_walks_the_documented_edges() {
    let mut app = App::new(Some(String::from("AA:BB:CC:DD:EE:FF")));
    assert_eq!(app.status(), ConnectionStatus::Idle);

    // Idle -> Connecting on an accepted connect intent.
    assert_eq!(app.on_intent(Intent::Connect), Action::EstablishLink);
    assert_eq!(app.status(), ConnectionStatus::Connecting);

    // Connecting -> ConnectionFailed on a transport error.
    assert_eq!(app.on_connect_result(Err(SensorError::DeviceNotFound)), Action::Noop);
    assert_eq!(app.status(), ConnectionStatus::ConnectionFailed);

    // ConnectionFailed -> Connecting is the only way back.
    assert_eq!(app.on_intent(Intent::Connect), Action::EstablishLink);
    assert_eq!(app.status(), ConnectionStatus::Connecting);

    // Connecting -> Connected on transport success, with an immediate
    // refresh demanded as part of the same transaction.
    assert_eq!(app.on_connect_result(Ok(())), Action::ReadCurrent);
    assert_eq!(app.status(), ConnectionStatus::Connected);

    // A redundant connect on a live link moves nothing.
    assert_eq!(app.on_intent(Intent::Connect), Action::Noop);
    assert_eq!(app.status(), ConnectionStatus::Connected);
}

#[test]
fn refresh_intents_act_only_on_a_live_link() {
    let mut app = App::new(None);
    assert_eq!(app.on_intent(Intent::RefreshCurrent), Action::Noop);
    assert_eq!(app.on_intent(Intent::RefreshHistory), Action::Noop);

    app.on_intent(Intent::Connect);
    app.on_connect_result(Ok(()));
    assert_eq!(app.on_intent(Intent::RefreshCurrent), Action::ReadCurrent);
    assert_eq!(app.on_intent(Intent::RefreshHistory), Action::ReadHistory);
}

#[test]
fn update_cache_replaces_on_success_and_keeps_on_failure() {
    let mut app = App::new(None);
    let reading = CurrentReading {
        co2_ppm: 800,
        temperature_centi: 1980,
        pressure_deci_hpa: 10205,
        humidity_percent: 55,
        captured_at: 42,
    };
    assert!(app.update_cache(42, Ok(reading)).is_ok());
    assert_eq!(app.get_cached_readings(), reading);

    let failed = app.update_cache(50, Err(SensorError::Timeout));
    assert_eq!(failed, Err(SensorError::Timeout));
    assert_eq!(app.get_cached_readings(), reading);
}

#[test]
fn empty_history_is_distinct_from_no_history() {
    let mut app = App::new(None);
    assert!(app.get_cached_history().is_none());

    app.update_history(Ok(HistoricalSeries::new()));
    let fetched = app.get_cached_history().unwrap();
    assert_eq!(fetched.len(), 0);
}

#[test]
fn a_series_snapshot_is_an_equal_independent_copy() {
    let mut series = HistoricalSeries::new();
    let a = CurrentReading {
        co2_ppm: 500,
        temperature_centi: 2100,
        pressure_deci_hpa: 10100,
        humidity_percent: 44,
        captured_at: 1,
    };
    let b = CurrentReading {
        co2_ppm: 510,
        temperature_centi: 2105,
        pressure_deci_hpa: 10101,
        humidity_percent: 45,
        captured_at: 2,
    };
    series.push(a);
    series.push(b);

    let copy = series.snapshot();
    assert_eq!(copy.len(), 2);
    assert_eq!(copy.get(0), a);
    assert_eq!(copy.get(1), b);
}

#[test]
fn only_q_quits() {
    assert!(is_quit_key('q'));
    assert!(!is_quit_key('Q'));
    assert!(!is_quit_key('x'));
    assert!(!is_quit_key(' '));
}

#[test]
fn the_address_is_kept_for_the_transport() {
    let app = App::new(Some(String::from("my-sensor")));
    assert_eq!(app.address().as_deref(), Some("my-sensor"));
    let bare = App::new(None);
    assert!(bare.address().is_none());
}
