use iot_sound::queue::RawMessage;
use iot_sound::writer::{StoreError, Writer, WriterAction, WriterEvent};

fn started(ids: &[&str]) -> Writer {
    let (mut w, first) = Writer::new();
    assert!(matches!(first, WriterAction::LoadSensors));
    let ids: Vec<String> = ids.iter().map(|s| s.to_string()).collect();
    let next = w.step(WriterEvent::Loaded(Ok(ids)));
    assert!(matches!(next, WriterAction::NextMessage));
    w
}

fn received(w: &mut Writer, topic: &str, payload: &str) -> WriterAction {
    let ev = WriterEvent::Received(RawMessage::new(topic.to_string(), payload.as_bytes().to_vec()));
    assert!(w.awaits(&ev));
    w.step(ev)
}

fn store_error(m: &str) -> StoreError {
    StoreError { message: m.to_string() }
}

fn expect_log(a: WriterAction) -> String {
    match a {
        WriterAction::WriteLog(t) => t,
        other => panic!("expected a log entry, got {:?}", other),
    }
}

#[test]
fn new_sensor_is_registered_then_reading_stored() {
    let mut w = started(&["other"]);
    let sensor = match received(&mut w, "ntnu/bldg/room/loudness/group06/sensorX", "55.0,1700000000") {
        WriterAction::InsertSensor(s) => s,
        other => panic!("{:?}", other),
    };
    assert_eq!(sensor.id, "sensorX");
    assert_eq!(sensor.type_, "loudness");
    assert_eq!(sensor.location, "ntnu/bldg/room");
    assert!(matches!(w.step(WriterEvent::SensorInserted(Ok(()))), WriterAction::LoadSensors));
    let ids = vec!["other".to_string(), "sensorX".to_string()];
    let m = match w.step(WriterEvent::Loaded(Ok(ids))) {
        WriterAction::InsertMeasurement(m) => m,
        other => panic!("{:?}", other),
    };
    assert_eq!(m.sensor_id, "sensorX");
    assert_eq!(m.reading.db_level(), "55.0");
    assert_eq!(m.reading.timestamp().secs, 1700000000);
    assert!(w.knows(&"sensorX".to_string()));
    assert!(matches!(w.step(WriterEvent::MeasurementInserted(Ok(()))), WriterAction::NextMessage));
}

#[test]
fn known_sensor_reading_is_stored_directly() {
    let mut w = started(&["sensorX"]);
    match received(&mut w, "ntnu/bldg/room/loudness/group06/sensorX", "40.5,1700000001") {
        WriterAction::InsertMeasurement(m) => {
            assert_eq!(m.sensor_id, "sensorX");
            assert_eq!(m.reading.db_level(), "40.5");
        },
        other => panic!("{:?}", other),
    }
}

#[test]
fn unsupported_kind_logs_once_and_inserts_nothing() {
    let mut w = started(&[]);
    let text = expect_log(received(&mut w, "ntnu/bldg/room/temperature/group06/sensorY", "21.5,1700000000"));
    assert_eq!(text, "Sensor type not supported: temperature");
    assert!(matches!(w.step(WriterEvent::LogWritten(Ok(()))), WriterAction::NextMessage));
    assert!(!w.knows(&"sensorY".to_string()));
}

#[test]
fn malformed_payloads_are_logged_not_stored() {
    let mut w = started(&["sensorX"]);
    for payload in ["abc", "1.0,2.0,3.0"] {
        let text = expect_log(received(&mut w, "ntnu/bldg/room/loudness/group06/sensorX", payload));
        assert_eq!(text, "Error parsing payload");
        assert!(matches!(w.step(WriterEvent::LogWritten(Ok(()))), WriterAction::NextMessage));
    }
}

#[test]
fn undecodable_bytes_are_logged() {
    let mut w = started(&["s"]);
    let ev = WriterEvent::Received(RawMessage::new("o/s/r/loudness/g/s".to_string(), vec![0xff, 0x00]));
    assert_eq!(expect_log(w.step(ev)), "Error converting bytes to string");
}

#[test]
fn short_topic_is_logged() {
    let mut w = started(&[]);
    assert_eq!(expect_log(received(&mut w, "a/b", "1,2")), "Topic has fewer than five segments: a/b");
}

#[test]
fn second_registration_failure_is_logged_and_writer_goes_on() {
    let mut w = started(&[]);
    let topic = "ntnu/bldg/room/loudness/group06/sensorZ";
    assert!(matches!(received(&mut w, topic, "50,1"), WriterAction::InsertSensor(_)));
    assert!(matches!(w.step(WriterEvent::SensorInserted(Ok(()))), WriterAction::LoadSensors));
    // the reload does not list the sensor yet, so the next message registers it again
    assert!(matches!(w.step(WriterEvent::Loaded(Ok(vec![]))), WriterAction::InsertMeasurement(_)));
    assert!(matches!(w.step(WriterEvent::MeasurementInserted(Ok(()))), WriterAction::NextMessage));
    assert!(matches!(received(&mut w, topic, "51,2"), WriterAction::InsertSensor(_)));
    let text = expect_log(w.step(WriterEvent::SensorInserted(Err(store_error("duplicate key")))));
    assert_eq!(text, "Error adding new sensor: duplicate key");
    assert!(matches!(w.step(WriterEvent::LogWritten(Ok(()))), WriterAction::NextMessage));
    assert!(!w.is_stopped());
}

#[test]
fn store_failures_are_logged() {
    let mut w = started(&["s"]);
    assert!(matches!(received(&mut w, "o/a/b/loudness/g/s", "1,2"), WriterAction::InsertMeasurement(_)));
    let text = expect_log(w.step(WriterEvent::MeasurementInserted(Err(store_error("down")))));
    assert_eq!(text, "Error inserting loudness data into database: down");
    match w.step(WriterEvent::LogWritten(Err(store_error("still down")))) {
        WriterAction::Report(t) => assert_eq!(t, "Error inserting log into database: still down"),
        other => panic!("{:?}", other),
    }
    assert!(matches!(w.step(WriterEvent::Reported), WriterAction::NextMessage));
}

#[test]
fn reload_failure_drops_the_reading() {
    let mut w = started(&[]);
    assert!(matches!(received(&mut w, "o/a/b/loudness/g/n", "1,2"), WriterAction::InsertSensor(_)));
    assert!(matches!(w.step(WriterEvent::SensorInserted(Ok(()))), WriterAction::LoadSensors));
    let text = expect_log(w.step(WriterEvent::Loaded(Err(store_error("timeout")))));
    assert_eq!(text, "Error getting sensor ids from db: timeout");
}

#[test]
fn failed_first_load_stops_the_writer() {
    let (mut w, _) = Writer::new();
    match w.step(WriterEvent::Loaded(Err(store_error("refused")))) {
        WriterAction::Abort(t) => assert_eq!(t, "Error getting sensor ids from db: refused"),
        other => panic!("{:?}", other),
    }
    assert!(w.is_stopped());
    assert!(!w.awaits(&WriterEvent::Reported));
}

#[test]
fn writer_awaits_only_the_answer_to_its_action() {
    let mut w = started(&[]);
    assert!(!w.awaits(&WriterEvent::Reported));
    assert!(!w.awaits(&WriterEvent::LogWritten(Ok(()))));
    assert!(matches!(received(&mut w, "a", "1,2"), WriterAction::WriteLog(_)));
    assert!(w.awaits(&WriterEvent::LogWritten(Ok(()))));
}
