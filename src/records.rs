//! Rows of the store: sensors, loudness readings and the operational log.

use vstd::prelude::*;
use crate::codec::Timestamp;

verus! {

/// A sensor: its id, its kind (`loudness`, `temperature`, ...) and where it is.
#[derive(Debug)]
pub struct Sensor {
    pub id: String,
    pub type_: String,
    pub location: String,
}

pub ghost struct SensorView {
    pub id: Seq<char>,
    pub kind: Seq<char>,
    pub location: Seq<char>,
}

impl View for Sensor {
    type V = SensorView;

    open spec fn view(&self) -> SensorView {
        SensorView { id: self.id@, kind: self.type_@, location: self.location@ }
    }
}

impl Sensor {
    pub fn new(id: String, type_: String, location: String) -> (r: Sensor)
        ensures
            r@ == (SensorView { id: id@, kind: type_@, location: location@ }),
    {
        Sensor { id, type_, location }
    }
}

/// The last second, since the Unix epoch, whose local date is written with a
/// four-digit year in every time zone (the end of year 9999 UTC, less one day).
pub const LAST_WRITABLE_SECS: u64 = 253402214399;

/// A stored loudness reading.
#[derive(Debug)]
pub struct Data {
    pub id: i32,
    pub sensor_name: String,
    pub sound: String,
    pub time: Timestamp,
}

pub ghost struct DataView {
    pub id: i32,
    pub sensor_name: Seq<char>,
    pub sound: Seq<char>,
    pub time: Timestamp,
}

impl View for Data {
    type V = DataView;

    open spec fn view(&self) -> DataView {
        DataView { id: self.id, sensor_name: self.sensor_name@, sound: self.sound@, time: self.time }
    }
}

/// A stored loudness reading with its time written out in local time.
#[derive(Debug)]
pub struct DataWithDateTimeString {
    pub id: i32,
    pub sensor_name: String,
    pub sound: String,
    pub time: Timestamp,
    pub time_string: String,
}

/// Relies on chrono: `DateTime::<Utc>::from_timestamp` for the instant, then
/// `with_timezone(&Local)` and `to_rfc2822` for its text in the machine's time
/// zone. `to_rfc2822` panics on a year outside 0 to 9999, which the bound
/// rules out, since a local offset is less than a day. chrono's `Local` also
/// panics on time-zone data it cannot read, which depends on the machine and
/// no argument can rule out. The text depends on the time zone: nothing is
/// stated of it.
#[verifier::external_body]
fn local_rfc2822(secs: u64, nanos: u32) -> (r: String)
    requires
        secs <= LAST_WRITABLE_SECS,
        nanos < 1_000_000_000,
{
    chrono::DateTime::from_timestamp(secs as i64, nanos)
        .map(|t| t.with_timezone(&chrono::Local).to_rfc2822())
        .unwrap_or_default()
}

impl Data {
    pub fn new(id: i32, sound: String, sensor_name: String, time: Timestamp) -> (r: Data)
        ensures
            r@ == (DataView { id, sensor_name: sensor_name@, sound: sound@, time }),
    {
        Data { id, sensor_name, sound, time }
    }

    pub fn get_id(&self) -> (r: i32)
        ensures
            r == self.id,
    {
        self.id
    }

    pub fn get_sensor_name(&self) -> (r: String)
        ensures
            r@ == self.sensor_name@,
    {
        self.sensor_name.clone()
    }

    pub fn clone_data(&self) -> (r: Data)
        ensures
            r@ == self@,
    {
        Data {
            id: self.id,
            sensor_name: self.sensor_name.clone(),
            sound: self.sound.clone(),
            time: self.time,
        }
    }

    /// The same reading with its time written as RFC 2822 in local time.
    pub fn get_date_time_string(&self) -> (r: DataWithDateTimeString)
        requires
            self.time.wf(),
            self.time.secs <= LAST_WRITABLE_SECS,
        ensures
            r.id == self.id,
            r.sensor_name@ == self.sensor_name@,
            r.sound@ == self.sound@,
            r.time == self.time,
    {
        DataWithDateTimeString {
            id: self.id,
            sensor_name: self.sensor_name.clone(),
            sound: self.sound.clone(),
            time: self.time,
            time_string: local_rfc2822(self.time.secs, self.time.nanos),
        }
    }
}

/// The rows of `sensor`, in their order.
pub open spec fn rows_of(rows: Seq<DataView>, sensor: Seq<char>) -> Seq<DataView>
    decreases rows.len(),
{
    if rows.len() == 0 {
        Seq::empty()
    } else if rows.last().sensor_name == sensor {
        rows_of(rows.drop_last(), sensor).push(rows.last())
    } else {
        rows_of(rows.drop_last(), sensor)
    }
}

pub open spec fn data_views(rows: Seq<Data>) -> Seq<DataView> {
    rows.map_values(|d: Data| d@)
}

/// The rows of `sensor`, in their order.
pub fn rows_for_sensor(rows: &Vec<Data>, sensor: &String) -> (r: Vec<Data>)
    ensures
        data_views(r@) == rows_of(data_views(rows@), sensor@),
{
    let mut r: Vec<Data> = Vec::new();
    let mut i: usize = 0;
    while i < rows.len()
        invariant
            i <= rows@.len(),
            data_views(r@) == rows_of(data_views(rows@.take(i as int)), sensor@),
        decreases rows@.len() - i,
    {
        let ghost before = r@;
        assert(data_views(rows@.take(i + 1)).drop_last() =~= data_views(rows@.take(i as int)));
        assert(data_views(rows@.take(i + 1)).last() == rows@[i as int]@);
        if rows[i].sensor_name == *sensor {
            r.push(rows[i].clone_data());
            assert(data_views(r@) =~= data_views(before).push(rows@[i as int]@));
        }
        i += 1;
    }
    assert(rows@.take(i as int) =~= rows@);
    r
}

/// The rows grouped by sensor: one group for each sensor, in the order of
/// `sensors`, each holding that sensor's rows in their order.
pub fn group_by_sensor(sensors: &Vec<String>, rows: &Vec<Data>) -> (r: Vec<Vec<Data>>)
    ensures
        r@.len() == sensors@.len(),
        forall|i: int|
            0 <= i < sensors@.len() ==> data_views(#[trigger] r@[i]@) == rows_of(
                data_views(rows@),
                sensors@[i]@,
            ),
{
    let mut r: Vec<Vec<Data>> = Vec::new();
    let mut i: usize = 0;
    while i < sensors.len()
        invariant
            i <= sensors@.len(),
            r@.len() == i,
            forall|k: int|
                0 <= k < i ==> data_views(#[trigger] r@[k]@) == rows_of(
                    data_views(rows@),
                    sensors@[k]@,
                ),
        decreases sensors@.len() - i,
    {
        r.push(rows_for_sensor(rows, &sensors[i]));
        i += 1;
    }
    r
}

/// An entry of the operational log.
#[derive(Debug)]
pub struct Log {
    pub id: i64,
    pub message: String,
    pub time: Timestamp,
}

impl Log {
    pub fn new(id: i64, message: String, time: Timestamp) -> (r: Log)
        ensures
            r.id == id,
            r.message@ == message@,
            r.time == time,
    {
        Log { id, message, time }
    }
}

} // verus!
