//! The writer: takes each message off the queue, reads it, registers its
//! sensor when it is new and stores the reading. Every store round trip is an
//! action handed to the caller, whose outcome comes back as the next event;
//! any failure after startup is logged and the writer goes on with the next
//! message.

use vstd::prelude::*;
use vstd::string::StringExecFns;
use crate::codec::{decode, decoded, DecodeError, LoudnessData, LoudnessView};
use crate::directory::{id_set, supported_kind, SensorDirectory};
use crate::queue::{RawMessage, RawView};
use crate::records::{Sensor, SensorView};
use crate::topic::{route, routed};

verus! {

/// A failed store operation, with the store's own description.
#[derive(Debug)]
pub struct StoreError {
    pub message: String,
}

/// A reading attributed to its sensor.
#[derive(Debug)]
pub struct Measurement {
    pub sensor_id: String,
    pub reading: LoudnessData,
}

pub ghost struct MeasurementView {
    pub sensor_id: Seq<char>,
    pub reading: LoudnessView,
}

impl View for Measurement {
    type V = MeasurementView;

    open spec fn view(&self) -> MeasurementView {
        MeasurementView { sensor_id: self.sensor_id@, reading: self.reading@ }
    }
}

/// What the writer waits for.
#[derive(Debug)]
pub enum WriterPhase {
    /// The first load of the sensor ids.
    Starting,
    /// The next message.
    Idle,
    /// The insert of a new sensor, holding the reading that waits on it.
    Registering(Measurement),
    /// The reload of the sensor ids after a registration.
    Refreshing(Measurement),
    /// The insert of a reading.
    Persisting,
    /// The write of a log entry.
    Logging,
    /// The report of a log entry that could not be written.
    Reporting,
    /// Nothing: the first load failed.
    Stopped,
}

pub ghost enum PhaseView {
    Starting,
    Idle,
    Registering(MeasurementView),
    Refreshing(MeasurementView),
    Persisting,
    Logging,
    Reporting,
    Stopped,
}

/// The outcome of the writer's last action.
#[derive(Debug)]
pub enum WriterEvent {
    /// The sensor ids the store listed, for `LoadSensors`.
    Loaded(Result<Vec<String>, StoreError>),
    /// A message off the queue, for `NextMessage`.
    Received(RawMessage),
    SensorInserted(Result<(), StoreError>),
    MeasurementInserted(Result<(), StoreError>),
    LogWritten(Result<(), StoreError>),
    Reported,
}

pub ghost enum EventView {
    Loaded(Result<Set<Seq<char>>, Seq<char>>),
    Received(RawView),
    SensorInserted(Result<(), Seq<char>>),
    MeasurementInserted(Result<(), Seq<char>>),
    LogWritten(Result<(), Seq<char>>),
    Reported,
}

pub open spec fn outcome_view(r: Result<(), StoreError>) -> Result<(), Seq<char>> {
    match r {
        Ok(()) => Ok(()),
        Err(e) => Err(e.message@),
    }
}

impl View for WriterEvent {
    type V = EventView;

    open spec fn view(&self) -> EventView {
        match self {
            WriterEvent::Loaded(Ok(ids)) => EventView::Loaded(Ok(id_set(ids@))),
            WriterEvent::Loaded(Err(e)) => EventView::Loaded(Err(e.message@)),
            WriterEvent::Received(m) => EventView::Received(m@),
            WriterEvent::SensorInserted(r) => EventView::SensorInserted(outcome_view(*r)),
            WriterEvent::MeasurementInserted(r) => EventView::MeasurementInserted(outcome_view(*r)),
            WriterEvent::LogWritten(r) => EventView::LogWritten(outcome_view(*r)),
            WriterEvent::Reported => EventView::Reported,
        }
    }
}

/// What the caller is to do next; each action but `Abort` is answered by one event.
#[derive(Debug)]
pub enum WriterAction {
    /// List all sensor ids: answered by `Loaded`.
    LoadSensors,
    /// Take the next message off the queue: answered by `Received`.
    NextMessage,
    /// Insert a sensor row: answered by `SensorInserted`.
    InsertSensor(Sensor),
    /// Insert a loudness row: answered by `MeasurementInserted`.
    InsertMeasurement(Measurement),
    /// Append a log entry stamped with the current time: answered by `LogWritten`.
    WriteLog(String),
    /// Print to the process's own diagnostic stream: answered by `Reported`.
    Report(String),
    /// Give up: the writer cannot start.
    Abort(String),
}

pub ghost enum ActionView {
    LoadSensors,
    NextMessage,
    InsertSensor(SensorView),
    InsertMeasurement(MeasurementView),
    WriteLog(Seq<char>),
    Report(Seq<char>),
    Abort(Seq<char>),
}

impl View for WriterAction {
    type V = ActionView;

    open spec fn view(&self) -> ActionView {
        match self {
            WriterAction::LoadSensors => ActionView::LoadSensors,
            WriterAction::NextMessage => ActionView::NextMessage,
            WriterAction::InsertSensor(s) => ActionView::InsertSensor(s@),
            WriterAction::InsertMeasurement(m) => ActionView::InsertMeasurement(m@),
            WriterAction::WriteLog(t) => ActionView::WriteLog(t@),
            WriterAction::Report(t) => ActionView::Report(t@),
            WriterAction::Abort(t) => ActionView::Abort(t@),
        }
    }
}

pub ghost struct WriterView {
    pub known: Set<Seq<char>>,
    pub phase: PhaseView,
}

/// Whether `e` answers what a writer in phase `p` waits for.
pub open spec fn awaited(p: PhaseView, e: EventView) -> bool {
    match p {
        PhaseView::Starting => e is Loaded,
        PhaseView::Idle => e is Received,
        PhaseView::Registering(_) => e is SensorInserted,
        PhaseView::Refreshing(_) => e is Loaded,
        PhaseView::Persisting => e is MeasurementInserted,
        PhaseView::Logging => e is LogWritten,
        PhaseView::Reporting => e is Reported,
        PhaseView::Stopped => false,
    }
}

pub open spec fn route_failure(topic: Seq<char>) -> Seq<char> {
    "Topic has fewer than five segments: "@ + topic
}

pub open spec fn decode_failure(e: DecodeError) -> Seq<char> {
    match e {
        DecodeError::Encoding => "Error converting bytes to string"@,
        DecodeError::Malformed => "Error parsing payload"@,
    }
}

pub open spec fn unsupported_kind(kind: Seq<char>) -> Seq<char> {
    "Sensor type not supported: "@ + kind
}

pub open spec fn register_failure(e: Seq<char>) -> Seq<char> {
    "Error adding new sensor: "@ + e
}

pub open spec fn load_failure(e: Seq<char>) -> Seq<char> {
    "Error getting sensor ids from db: "@ + e
}

pub open spec fn persist_failure(e: Seq<char>) -> Seq<char> {
    "Error inserting loudness data into database: "@ + e
}

pub open spec fn log_failure(e: Seq<char>) -> Seq<char> {
    "Error inserting log into database: "@ + e
}

/// What the writer does with a message, given the ids it knows: drop it
/// with a log entry when its topic or payload cannot be read or its sensor is
/// new and of a kind that is not stored; store the reading when its sensor is
/// known; otherwise register the sensor first.
pub open spec fn intake(known: Set<Seq<char>>, m: RawView) -> (PhaseView, ActionView) {
    match routed(m.topic) {
        Err(_) => (PhaseView::Logging, ActionView::WriteLog(route_failure(m.topic))),
        Ok(s) => match decoded(m.payload) {
            Err(e) => (PhaseView::Logging, ActionView::WriteLog(decode_failure(e))),
            Ok(d) => {
                let mv = MeasurementView { sensor_id: s.id, reading: d };
                if known.contains(s.id) {
                    (PhaseView::Persisting, ActionView::InsertMeasurement(mv))
                } else if s.kind == supported_kind() {
                    (PhaseView::Registering(mv), ActionView::InsertSensor(s))
                } else {
                    (PhaseView::Logging, ActionView::WriteLog(unsupported_kind(s.kind)))
                }
            },
        },
    }
}

/// The writer's transitions, for an awaited event.
pub open spec fn next(w: WriterView, e: EventView) -> (WriterView, ActionView) {
    let known = w.known;
    match (w.phase, e) {
        (PhaseView::Starting, EventView::Loaded(Ok(ids))) => (
            WriterView { known: ids, phase: PhaseView::Idle },
            ActionView::NextMessage,
        ),
        (PhaseView::Starting, EventView::Loaded(Err(m))) => (
            WriterView { known, phase: PhaseView::Stopped },
            ActionView::Abort(load_failure(m)),
        ),
        (PhaseView::Idle, EventView::Received(m)) => {
            let (p, a) = intake(known, m);
            (WriterView { known, phase: p }, a)
        },
        (PhaseView::Registering(mv), EventView::SensorInserted(Ok(()))) => (
            WriterView { known, phase: PhaseView::Refreshing(mv) },
            ActionView::LoadSensors,
        ),
        (PhaseView::Registering(_), EventView::SensorInserted(Err(m))) => (
            WriterView { known, phase: PhaseView::Logging },
            ActionView::WriteLog(register_failure(m)),
        ),
        (PhaseView::Refreshing(mv), EventView::Loaded(Ok(ids))) => (
            WriterView { known: ids, phase: PhaseView::Persisting },
            ActionView::InsertMeasurement(mv),
        ),
        (PhaseView::Refreshing(_), EventView::Loaded(Err(m))) => (
            WriterView { known, phase: PhaseView::Logging },
            ActionView::WriteLog(load_failure(m)),
        ),
        (PhaseView::Persisting, EventView::MeasurementInserted(Ok(()))) => (
            WriterView { known, phase: PhaseView::Idle },
            ActionView::NextMessage,
        ),
        (PhaseView::Persisting, EventView::MeasurementInserted(Err(m))) => (
            WriterView { known, phase: PhaseView::Logging },
            ActionView::WriteLog(persist_failure(m)),
        ),
        (PhaseView::Logging, EventView::LogWritten(Ok(()))) => (
            WriterView { known, phase: PhaseView::Idle },
            ActionView::NextMessage,
        ),
        (PhaseView::Logging, EventView::LogWritten(Err(m))) => (
            WriterView { known, phase: PhaseView::Reporting },
            ActionView::Report(log_failure(m)),
        ),
        (PhaseView::Reporting, EventView::Reported) => (
            WriterView { known, phase: PhaseView::Idle },
            ActionView::NextMessage,
        ),
        _ => (w, ActionView::NextMessage),
    }
}

impl View for WriterPhase {
    type V = PhaseView;

    open spec fn view(&self) -> PhaseView {
        match self {
            WriterPhase::Starting => PhaseView::Starting,
            WriterPhase::Idle => PhaseView::Idle,
            WriterPhase::Registering(m) => PhaseView::Registering(m@),
            WriterPhase::Refreshing(m) => PhaseView::Refreshing(m@),
            WriterPhase::Persisting => PhaseView::Persisting,
            WriterPhase::Logging => PhaseView::Logging,
            WriterPhase::Reporting => PhaseView::Reporting,
            WriterPhase::Stopped => PhaseView::Stopped,
        }
    }
}

/// The writer: the sensor directory it owns and what it waits for.
pub struct Writer {
    directory: SensorDirectory,
    phase: WriterPhase,
}

impl View for Writer {
    type V = WriterView;

    closed spec fn view(&self) -> WriterView {
        WriterView { known: self.directory@, phase: self.phase@ }
    }
}

fn with_detail(prefix: &str, detail: &str) -> (r: String)
    ensures
        r@ == prefix@ + detail@,
{
    let mut r = String::from_str(prefix);
    r.append(detail);
    r
}

fn decode_failure_text(e: DecodeError) -> (r: String)
    ensures
        r@ == decode_failure(e),
{
    match e {
        DecodeError::Encoding => String::from_str("Error converting bytes to string"),
        DecodeError::Malformed => String::from_str("Error parsing payload"),
    }
}

fn intake_message(directory: &SensorDirectory, m: RawMessage) -> (r: (WriterPhase, WriterAction))
    ensures
        (r.0@, r.1@) == intake(directory@, m@),
{
    match route(m.topic.as_str()) {
        Err(_) => (
            WriterPhase::Logging,
            WriterAction::WriteLog(with_detail("Topic has fewer than five segments: ", m.topic.as_str())),
        ),
        Ok(sensor) => match decode(m.payload.as_slice()) {
            Err(e) => (WriterPhase::Logging, WriterAction::WriteLog(decode_failure_text(e))),
            Ok(reading) => {
                let known = directory.contains(&sensor.id);
                let mv = Measurement { sensor_id: sensor.id.clone(), reading };
                if known {
                    (WriterPhase::Persisting, WriterAction::InsertMeasurement(mv))
                } else if SensorDirectory::supports(&sensor) {
                    (WriterPhase::Registering(mv), WriterAction::InsertSensor(sensor))
                } else {
                    (
                        WriterPhase::Logging,
                        WriterAction::WriteLog(
                            with_detail("Sensor type not supported: ", sensor.type_.as_str()),
                        ),
                    )
                }
            },
        },
    }
}

impl Writer {
    /// A writer that first asks for the sensor ids in the store.
    pub fn new() -> (r: (Writer, WriterAction))
        ensures
            r.0@ == (WriterView { known: Set::<Seq<char>>::empty(), phase: PhaseView::Starting }),
            r.1@ == ActionView::LoadSensors,
    {
        (Writer { directory: SensorDirectory::new(), phase: WriterPhase::Starting }, WriterAction::LoadSensors)
    }

    /// Whether `e` answers the writer's last action.
    pub fn awaits(&self, e: &WriterEvent) -> (r: bool)
        ensures
            r == awaited(self@.phase, e@),
    {
        match (&self.phase, e) {
            (WriterPhase::Starting, WriterEvent::Loaded(_)) => true,
            (WriterPhase::Idle, WriterEvent::Received(_)) => true,
            (WriterPhase::Registering(_), WriterEvent::SensorInserted(_)) => true,
            (WriterPhase::Refreshing(_), WriterEvent::Loaded(_)) => true,
            (WriterPhase::Persisting, WriterEvent::MeasurementInserted(_)) => true,
            (WriterPhase::Logging, WriterEvent::LogWritten(_)) => true,
            (WriterPhase::Reporting, WriterEvent::Reported) => true,
            _ => false,
        }
    }

    /// Whether the sensor id was in the store at the writer's last load.
    pub fn knows(&self, id: &String) -> (r: bool)
        ensures
            r == self@.known.contains(id@),
    {
        self.directory.contains(id)
    }

    /// Whether the writer has given up.
    pub fn is_stopped(&self) -> (r: bool)
        ensures
            r == (self@.phase is Stopped),
    {
        match self.phase {
            WriterPhase::Stopped => true,
            _ => false,
        }
    }

    /// Takes the outcome of the last action and says what to do next.
    pub fn step(&mut self, e: WriterEvent) -> (r: WriterAction)
        requires
            awaited(old(self)@.phase, e@),
        ensures
            (final(self)@, r@) == next(old(self)@, e@),
    {
        let mut phase = WriterPhase::Stopped;
        std::mem::swap(&mut self.phase, &mut phase);
        match (phase, e) {
            (WriterPhase::Starting, WriterEvent::Loaded(Ok(ids))) => {
                self.directory.load(ids);
                self.phase = WriterPhase::Idle;
                WriterAction::NextMessage
            },
            (WriterPhase::Starting, WriterEvent::Loaded(Err(err))) => {
                WriterAction::Abort(with_detail("Error getting sensor ids from db: ", err.message.as_str()))
            },
            (WriterPhase::Idle, WriterEvent::Received(m)) => {
                let (p, a) = intake_message(&self.directory, m);
                self.phase = p;
                a
            },
            (WriterPhase::Registering(mv), WriterEvent::SensorInserted(Ok(()))) => {
                self.phase = WriterPhase::Refreshing(mv);
                WriterAction::LoadSensors
            },
            (WriterPhase::Registering(_), WriterEvent::SensorInserted(Err(err))) => {
                self.phase = WriterPhase::Logging;
                WriterAction::WriteLog(with_detail("Error adding new sensor: ", err.message.as_str()))
            },
            (WriterPhase::Refreshing(mv), WriterEvent::Loaded(Ok(ids))) => {
                self.directory.load(ids);
                self.phase = WriterPhase::Persisting;
                WriterAction::InsertMeasurement(mv)
            },
            (WriterPhase::Refreshing(_), WriterEvent::Loaded(Err(err))) => {
                self.phase = WriterPhase::Logging;
                WriterAction::WriteLog(
                    with_detail("Error getting sensor ids from db: ", err.message.as_str()),
                )
            },
            (WriterPhase::Persisting, WriterEvent::MeasurementInserted(Ok(()))) => {
                self.phase = WriterPhase::Idle;
                WriterAction::NextMessage
            },
            (WriterPhase::Persisting, WriterEvent::MeasurementInserted(Err(err))) => {
                self.phase = WriterPhase::Logging;
                WriterAction::WriteLog(
                    with_detail("Error inserting loudness data into database: ", err.message.as_str()),
                )
            },
            (WriterPhase::Logging, WriterEvent::LogWritten(Ok(()))) => {
                self.phase = WriterPhase::Idle;
                WriterAction::NextMessage
            },
            (WriterPhase::Logging, WriterEvent::LogWritten(Err(err))) => {
                self.phase = WriterPhase::Reporting;
                WriterAction::Report(with_detail("Error inserting log into database: ", err.message.as_str()))
            },
            (WriterPhase::Reporting, WriterEvent::Reported) => {
                self.phase = WriterPhase::Idle;
                WriterAction::NextMessage
            },
            (p, _) => {
                self.phase = p;
                WriterAction::NextMessage
            },
        }
    }
}

/// Once started, the writer never stops: whatever a store operation answers,
/// a failed second registration of the same sensor included, the writer logs
/// or reports it and goes on with the next message.
pub proof fn lemma_keeps_running(w: WriterView, e: EventView)
    requires
        !(w.phase is Starting),
        !(w.phase is Stopped),
        awaited(w.phase, e),
    ensures
        !(next(w, e).0.phase is Stopped),
        !(next(w, e).1 is Abort),
{
}

/// A message from a new sensor of a kind that is not stored, with a payload
/// that reads, is dropped with exactly one log entry: the writer asks to write
/// that entry and, whatever becomes of it, goes on to the next message
/// without inserting a sensor or a reading.
pub proof fn lemma_unsupported_kind_dropped(
    w: WriterView,
    m: RawView,
    logged: Result<(), Seq<char>>,
)
    requires
        w.phase is Idle,
        routed(m.topic) is Ok,
        routed(m.topic)->Ok_0.kind != supported_kind(),
        !w.known.contains(routed(m.topic)->Ok_0.id),
        decoded(m.payload) is Ok,
    ensures
        next(w, EventView::Received(m)).1 == ActionView::WriteLog(
            unsupported_kind(routed(m.topic)->Ok_0.kind),
        ),
        next(w, EventView::Received(m)).0.phase is Logging,
        next(next(w, EventView::Received(m)).0, EventView::LogWritten(logged)).1 is NextMessage
            || next(next(w, EventView::Received(m)).0, EventView::LogWritten(logged)).1 is Report,
        next(next(next(w, EventView::Received(m)).0, EventView::LogWritten(logged)).0, EventView::Reported).1
            is NextMessage,
        next(w, EventView::Received(m)).0.known == w.known,
{
}

/// A reading from a new sensor of the stored kind: the writer inserts the
/// sensor with the identity its topic gives, reloads the ids, then inserts
/// the reading under the sensor's id, and from then on knows the ids the
/// store listed.
pub proof fn lemma_new_sensor_flow(w: WriterView, m: RawView, ids: Set<Seq<char>>)
    requires
        w.phase is Idle,
        routed(m.topic) is Ok,
        routed(m.topic)->Ok_0.kind == supported_kind(),
        !w.known.contains(routed(m.topic)->Ok_0.id),
        decoded(m.payload) is Ok,
    ensures
        next(w, EventView::Received(m)).1 == ActionView::InsertSensor(routed(m.topic)->Ok_0),
        next(next(w, EventView::Received(m)).0, EventView::SensorInserted(Ok(()))).1
            == ActionView::LoadSensors,
        next(
            next(next(w, EventView::Received(m)).0, EventView::SensorInserted(Ok(()))).0,
            EventView::Loaded(Ok(ids)),
        ).1 == ActionView::InsertMeasurement(
            MeasurementView {
                sensor_id: routed(m.topic)->Ok_0.id,
                reading: decoded(m.payload)->Ok_0,
            },
        ),
        next(
            next(next(w, EventView::Received(m)).0, EventView::SensorInserted(Ok(()))).0,
            EventView::Loaded(Ok(ids)),
        ).0 == (WriterView { known: ids, phase: PhaseView::Persisting }),
{
}

} // verus!
