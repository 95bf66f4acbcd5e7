//! End-to-end scenarios for the worker: connect transactions, refreshes,
//! failure handling, and the FIFO processing order.

use aranet_dashboard::App;
use aranet_dashboard::ConnectionStatus;
use aranet_dashboard::CurrentReading;
use aranet_dashboard::Handler;
use aranet_dashboard::HistoricalSeries;
use aranet_dashboard::Intent;
use aranet_dashboard::CommandQueue;
use aranet_dashboard::ScriptedTransport;
use aranet_dashboard::SensorError;

fn sample_reading() -> CurrentReading {
    CurrentReading {
        co2_ppm: 450,
        temperature_centi: 2150,
        pressure_deci_hpa: 10130,
        humidity_percent: 45,
        captured_at: 7,
    }
}

#[test]
fn connect_success_shows_live_data() {
    // Transport.connect succeeds instantly; read_current returns
    // {co2: 450ppm, temp: 21.5 C, pressure: 1013hPa, humidity: 45%}.
    let mut transport = ScriptedTransport::new();
    transport.push_connect_reply(Ok(()));
    transport.push_current_reply(Ok(sample_reading()));

    let mut handler = Handler::new(App::new(None));
    handler.handle_io_event(Intent::Connect, &mut transport, 7);

    assert_eq!(handler.app().status(), ConnectionStatus::Connected);
    assert_eq!(handler.app().get_cached_readings(), sample_reading());
    assert!(!handler.app().is_loading());
}

#[test]
fn connect_failure_keeps_default_reading_and_ui_retries() {
    // Transport.connect fails with a timeout error.
    let mut transport = ScriptedTransport::new();
    transport.push_connect_reply(Err(SensorError::Timeout));

    let mut handler = Handler::new(App::new(None));
    handler.handle_io_event(Intent::Connect, &mut transport, 1);

    assert_eq!(handler.app().status(), ConnectionStatus::ConnectionFailed);
    let snapshot = handler.app().get_cached_readings();
    assert_eq!(snapshot.co2_ppm, 0);
    assert_eq!(snapshot.temperature_centi, 0);
    assert_eq!(snapshot.pressure_deci_hpa, 0);
    assert_eq!(snapshot.humidity_percent, 0);
    assert_eq!(snapshot.captured_at, 0);

    // On its next iteration the UI loop sees a dead link and submits another
    // connect intent.
    let mut queue = CommandQueue::new(100);
    assert!(handler.app().reconnect_needed());
    let submitted = handler.app_mut().dispatch(&mut queue, Intent::Connect);
    assert!(submitted.is_ok());
    assert_eq!(queue.len(), 1);
    assert_eq!(queue.pop(), Some(Intent::Connect));
}

#[test]
fn round_trip_refresh_yields_exactly_the_fed_reading() {
    let mut transport = ScriptedTransport::new();
    transport.push_connect_reply(Ok(()));
    transport.push_current_reply(Ok(sample_reading()));
    let second = CurrentReading {
        co2_ppm: 900,
        temperature_centi: 2000,
        pressure_deci_hpa: 9990,
        humidity_percent: 50,
        captured_at: 127,
    };
    transport.push_current_reply(Ok(second));

    let mut handler = Handler::new(App::new(None));
    handler.handle_io_event(Intent::Connect, &mut transport, 7);
    assert_eq!(handler.app().get_cached_readings(), sample_reading());

    handler.handle_io_event(Intent::RefreshCurrent, &mut transport, 127);
    assert_eq!(handler.app().get_cached_readings(), second);
}

#[test]
fn failing_read_leaves_cache_unchanged() {
    let mut transport = ScriptedTransport::new();
    transport.push_connect_reply(Ok(()));
    transport.push_current_reply(Ok(sample_reading()));
    transport.push_current_reply(Err(SensorError::ReadFailed));

    let mut handler = Handler::new(App::new(None));
    handler.handle_io_event(Intent::Connect, &mut transport, 7);
    handler.handle_io_event(Intent::RefreshCurrent, &mut transport, 300);

    // The failed refresh is not fatal and the stale value keeps serving.
    assert_eq!(handler.app().status(), ConnectionStatus::Connected);
    assert_eq!(handler.app().get_cached_readings(), sample_reading());
}

#[test]
fn refresh_while_disconnected_is_a_no_op() {
    let mut transport = ScriptedTransport::new();
    transport.push_current_reply(Ok(sample_reading()));

    let mut handler = Handler::new(App::new(None));
    handler.handle_io_event(Intent::RefreshCurrent, &mut transport, 5);

    assert_eq!(handler.app().status(), ConnectionStatus::Idle);
    assert_eq!(handler.app().get_cached_readings().co2_ppm, 0);
}

#[test]
fn connect_while_connected_is_a_cheap_no_op() {
    let mut transport = ScriptedTransport::new();
    transport.push_connect_reply(Ok(()));
    transport.push_current_reply(Ok(sample_reading()));

    let mut handler = Handler::new(App::new(None));
    handler.handle_io_event(Intent::Connect, &mut transport, 7);
    assert_eq!(handler.app().status(), ConnectionStatus::Connected);

    // No replies are scripted any more: a real transport call would time out,
    // but the redundant connect never reaches the transport.
    handler.handle_io_event(Intent::Connect, &mut transport, 8);
    assert_eq!(handler.app().status(), ConnectionStatus::Connected);
    assert_eq!(handler.app().get_cached_readings(), sample_reading());
}

#[test]
fn worker_processes_intents_in_submission_order() {
    let mut queue = CommandQueue::new(100);
    queue.submit(Intent::Connect).unwrap();
    queue.submit(Intent::RefreshCurrent).unwrap();
    queue.submit(Intent::RefreshHistory).unwrap();
    queue.submit(Intent::RefreshCurrent).unwrap();

    let mut transport = ScriptedTransport::new();
    transport.push_connect_reply(Ok(()));
    transport.push_current_reply(Ok(sample_reading()));

    let mut handler = Handler::new(App::new(None));
    let processed = handler.run(&mut queue, &mut transport, 9);

    assert_eq!(
        processed,
        vec![
            Intent::Connect,
            Intent::RefreshCurrent,
            Intent::RefreshHistory,
            Intent::RefreshCurrent,
        ]
    );
    assert_eq!(queue.len(), 0);
}

#[test]
fn history_fetch_replaces_series_and_failure_is_silent() {
    let mut series = HistoricalSeries::new();
    series.push(sample_reading());
    let mut transport = ScriptedTransport::new();
    transport.push_connect_reply(Ok(()));
    transport.push_current_reply(Ok(sample_reading()));
    transport.push_history_reply(Ok(series));
    transport.push_history_reply(Err(SensorError::ReadFailed));

    let mut handler = Handler::new(App::new(None));

    // Before any fetch the history is absent, not defaulted.
    assert!(handler.app().get_cached_history().is_none());

    handler.handle_io_event(Intent::Connect, &mut transport, 7);
    handler.handle_io_event(Intent::RefreshHistory, &mut transport, 8);

    let fetched = handler.app().get_cached_history().unwrap();
    assert_eq!(fetched.len(), 1);
    assert_eq!(fetched.get(0), sample_reading());

    // A failing fetch is tolerated silently and keeps the old series.
    handler.handle_io_event(Intent::RefreshHistory, &mut transport, 9);
    let kept = handler.app().get_cached_history().unwrap();
    assert_eq!(kept.len(), 1);
    assert_eq!(kept.get(0), sample_reading());
}

#[test]
fn scheduler_driven_update_refreshes_only_when_connected() {
    let mut transport = ScriptedTransport::new();
    transport.push_connect_reply(Ok(()));
    transport.push_current_reply(Ok(sample_reading()));
    let second = CurrentReading {
        co2_ppm: 600,
        temperature_centi: 2200,
        pressure_deci_hpa: 10000,
        humidity_percent: 40,
        captured_at: 120,
    };
    transport.push_current_reply(Ok(second));

    let mut handler = Handler::new(App::new(None));

    // Not connected yet: the update is a no-op.
    handler.update(&mut transport, 60);
    assert_eq!(handler.app().get_cached_readings().co2_ppm, 0);

    handler.handle_io_event(Intent::Connect, &mut transport, 7);
    handler.update(&mut transport, 120);
    assert_eq!(handler.app().get_cached_readings(), second);
}

#[test]
fn exhausted_transport_times_out_and_downgrades_status() {
    let mut transport = ScriptedTransport::new();
    let mut handler = Handler::new(App::new(None));
    handler.handle_io_event(Intent::Connect, &mut transport, 3);
    assert_eq!(handler.app().status(), ConnectionStatus::ConnectionFailed);
}

#[test]
fn dispatch_marks_loading_and_rolls_back_on_refusal() {
    let mut app = App::new(None);
    let mut queue = CommandQueue::new(1);

    assert!(app.dispatch(&mut queue, Intent::Connect).is_ok());
    assert!(app.is_loading());

    // The queue is full now: the submission fails, the mark rolls back,
    // and the UI keeps rendering with stale data.
    let refused = app.dispatch(&mut queue, Intent::RefreshCurrent);
    assert!(refused.is_err());
    assert!(!app.is_loading());
    assert_eq!(queue.len(), 1);
}
