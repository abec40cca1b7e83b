use iot_sound::listener::{Listener, ListenerAction, ListenerEvent, ListenerState, TOPIC_PATTERN};
use iot_sound::queue::RawMessage;
use iot_sound::writer::StoreError;

fn polling() -> Listener {
    let mut l = Listener::new();
    assert_eq!(l.state, ListenerState::Connecting);
    match l.step(ListenerEvent::SessionOpened) {
        ListenerAction::Subscribe(p) => assert_eq!(p, "ntnu/+/+/+/group06/+"),
        other => panic!("{:?}", other),
    }
    assert!(matches!(l.step(ListenerEvent::SubscribeResult(Ok(()))), ListenerAction::Poll));
    assert_eq!(l.state, ListenerState::Polling);
    l
}

#[test]
fn subscribes_to_the_group_pattern() {
    assert_eq!(TOPIC_PATTERN, "ntnu/+/+/+/group06/+");
    polling();
}

#[test]
fn refused_subscription_aborts() {
    let mut l = Listener::new();
    l.step(ListenerEvent::SessionOpened);
    match l.step(ListenerEvent::SubscribeResult(Err("not authorised".to_string()))) {
        ListenerAction::Abort(t) => assert_eq!(t, "MQTT setup error: not authorised"),
        other => panic!("{:?}", other),
    }
    assert_eq!(l.state, ListenerState::Stopped);
}

#[test]
fn publish_is_enqueued_and_control_ignored() {
    let mut l = polling();
    let m = RawMessage::new("t/a/b/c/d/e".to_string(), b"1,2".to_vec());
    match l.step(ListenerEvent::Publish(m)) {
        ListenerAction::Enqueue(m) => {
            assert_eq!(m.topic, "t/a/b/c/d/e");
            assert_eq!(m.payload, b"1,2".to_vec());
        },
        other => panic!("{:?}", other),
    }
    assert!(matches!(l.step(ListenerEvent::Enqueued), ListenerAction::Poll));
    assert!(matches!(l.step(ListenerEvent::Control), ListenerAction::Poll));
    assert_eq!(l.state, ListenerState::Polling);
}

#[test]
fn transport_error_is_logged_and_polling_resumes() {
    let mut l = polling();
    match l.step(ListenerEvent::TransportError("connection reset".to_string())) {
        ListenerAction::WriteLog(t) => assert_eq!(t, "Mqtt Connection error: connection reset"),
        other => panic!("{:?}", other),
    }
    assert_eq!(l.state, ListenerState::Reconnecting);
    let failed = StoreError { message: "no db".to_string() };
    match l.step(ListenerEvent::LogWritten(Err(failed))) {
        ListenerAction::Report(t) => assert_eq!(t, "Error inserting log into database: no db"),
        other => panic!("{:?}", other),
    }
    assert!(matches!(l.step(ListenerEvent::Reported), ListenerAction::Poll));
    assert_eq!(l.state, ListenerState::Polling);
    l.step(ListenerEvent::TransportError("again".to_string()));
    assert!(matches!(l.step(ListenerEvent::LogWritten(Ok(()))), ListenerAction::Poll));
    assert_eq!(l.state, ListenerState::Polling);
}

#[test]
fn shutdown_stops() {
    let mut l = polling();
    assert!(matches!(l.step(ListenerEvent::Shutdown), ListenerAction::Stop));
    assert_eq!(l.state, ListenerState::Stopped);
    assert!(matches!(l.step(ListenerEvent::Control), ListenerAction::Stop));
}
