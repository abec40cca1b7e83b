use iot_sound::api::{get_link_string, index_page, BASE_URL};
use iot_sound::codec::Timestamp;
use iot_sound::directory::SensorDirectory;
use iot_sound::node::Message;
use iot_sound::records::{group_by_sensor, Data, Log, Sensor};

fn row(id: i32, sensor: &str, sound: &str) -> Data {
    Data::new(id, sound.to_string(), sensor.to_string(), Timestamp { secs: 1700000000, nanos: 5 })
}

#[test]
fn groups_rows_by_sensor_in_order() {
    let rows = vec![row(1, "a", "10"), row(2, "b", "20"), row(3, "a", "30"), row(4, "c", "40")];
    let sensors = vec!["a".to_string(), "b".to_string(), "d".to_string()];
    let groups = group_by_sensor(&sensors, &rows);
    assert_eq!(groups.len(), 3);
    let ids: Vec<Vec<i32>> = groups.iter().map(|g| g.iter().map(|d| d.get_id()).collect()).collect();
    assert_eq!(ids, vec![vec![1, 3], vec![2], vec![]]);
    assert_eq!(groups[0][1].sound, "30");
    assert_eq!(groups[0][1].get_sensor_name(), "a");
}

#[test]
fn date_time_string_keeps_the_row() {
    let d = row(7, "s", "55");
    let w = d.get_date_time_string();
    assert_eq!(w.id, 7);
    assert_eq!(w.sensor_name, "s");
    assert_eq!(w.sound, "55");
    assert_eq!(w.time, Timestamp { secs: 1700000000, nanos: 5 });
    assert!(w.time_string.contains("2023"));
    assert!(w.time_string.contains("Nov"));
}

#[test]
fn link_string_is_an_html_link() {
    assert_eq!(
        get_link_string("http://localhost:8081/", "sound"),
        "<a href=\"http://localhost:8081/sound\">sound</a><br>"
    );
}

#[test]
fn index_lists_every_endpoint() {
    let page = index_page(BASE_URL);
    assert!(page.starts_with("<div> <h1>Endpoints:</h1> \r"));
    assert!(page.ends_with("</div>"));
    for e in ["sound", "sensors", "sound/sorted", "sound/sorted/limit?limit_amount=10", "logs", "logs/limit?limit_amount=10"] {
        assert!(page.contains(&get_link_string(BASE_URL, e)));
    }
}

#[test]
fn directory_answers_from_its_last_load() {
    let mut dir = SensorDirectory::new();
    assert!(!dir.contains(&"a".to_string()));
    dir.load(vec!["a".to_string(), "b".to_string()]);
    assert!(dir.contains(&"a".to_string()));
    assert!(dir.contains(&"b".to_string()));
    assert!(!dir.contains(&"c".to_string()));
    dir.load(vec!["c".to_string()]);
    assert!(!dir.contains(&"a".to_string()));
    let loud = Sensor::new("x".to_string(), "loudness".to_string(), "l".to_string());
    let temp = Sensor::new("y".to_string(), "temperature".to_string(), "l".to_string());
    assert!(SensorDirectory::supports(&loud));
    assert!(!SensorDirectory::supports(&temp));
}

#[test]
fn records_keep_their_fields() {
    let s = Sensor::new("id".to_string(), "loudness".to_string(), "ntnu/a/b".to_string());
    assert_eq!(s.location, "ntnu/a/b");
    let l = Log::new(3, "oops".to_string(), Timestamp::from_secs(9));
    assert_eq!(l.id, 3);
    assert_eq!(l.message, "oops");
    assert_eq!(l.time.secs, 9);
}

#[test]
fn message_payload_is_the_text_bytes() {
    assert_eq!(Message::_payload_from_str_slice("55.5,17").payload, b"55.5,17".to_vec());
    assert_eq!(Message::_payload_from_str_slice("é").payload, vec![0xc3, 0xa9]);
}
