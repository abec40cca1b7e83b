//! The listener: keeps the pub/sub session, subscribes to the ingestion
//! topics and hands every published message to the ingest queue. Transport
//! faults are logged and polling goes on; only a shutdown stops it.

use vstd::prelude::*;
use vstd::string::StringExecFns;
use crate::queue::{RawMessage, RawView};
use crate::writer::{log_failure, outcome_view, StoreError};

verus! {

/// The topics the listener subscribes to: any site, subsite, kind and
/// sensor of the group.
pub const TOPIC_PATTERN: &'static str = "ntnu/+/+/+/group06/+";

#[derive(Clone, Copy, PartialEq, Eq, Structural, Debug)]
pub enum ListenerState {
    /// Waiting for the session to open.
    Connecting,
    /// Waiting for the subscription to be acknowledged.
    Subscribed,
    /// Waiting for the next transport event.
    Polling,
    /// Recording a transport fault before polling again.
    Reconnecting,
    /// Done.
    Stopped,
}

/// What the transport, the queue or the log store answered.
#[derive(Debug)]
pub enum ListenerEvent {
    /// The session is open.
    SessionOpened,
    /// The answer to `Subscribe`.
    SubscribeResult(Result<(), String>),
    /// A message was published on a subscribed topic.
    Publish(RawMessage),
    /// A ping, an acknowledgement or another control packet.
    Control,
    /// The transport failed; it reconnects by itself.
    TransportError(String),
    /// The queue took the message of the last `Enqueue`.
    Enqueued,
    /// The answer to `WriteLog`.
    LogWritten(Result<(), StoreError>),
    /// The answer to `Report`.
    Reported,
    /// The process is shutting down.
    Shutdown,
}

pub ghost enum ListenerEventView {
    SessionOpened,
    SubscribeResult(Result<(), Seq<char>>),
    Publish(RawView),
    Control,
    TransportError(Seq<char>),
    Enqueued,
    LogWritten(Result<(), Seq<char>>),
    Reported,
    Shutdown,
}

impl View for ListenerEvent {
    type V = ListenerEventView;

    open spec fn view(&self) -> ListenerEventView {
        match self {
            ListenerEvent::SessionOpened => ListenerEventView::SessionOpened,
            ListenerEvent::SubscribeResult(Ok(())) => ListenerEventView::SubscribeResult(Ok(())),
            ListenerEvent::SubscribeResult(Err(e)) => ListenerEventView::SubscribeResult(Err(e@)),
            ListenerEvent::Publish(m) => ListenerEventView::Publish(m@),
            ListenerEvent::Control => ListenerEventView::Control,
            ListenerEvent::TransportError(e) => ListenerEventView::TransportError(e@),
            ListenerEvent::Enqueued => ListenerEventView::Enqueued,
            ListenerEvent::LogWritten(r) => ListenerEventView::LogWritten(outcome_view(*r)),
            ListenerEvent::Reported => ListenerEventView::Reported,
            ListenerEvent::Shutdown => ListenerEventView::Shutdown,
        }
    }
}

/// What the caller is to do next.
#[derive(Debug)]
pub enum ListenerAction {
    /// Subscribe to the pattern: answered by `SubscribeResult`.
    Subscribe(String),
    /// Wait for the next transport event.
    Poll,
    /// Hand the message to the ingest queue, waiting while it is full:
    /// answered by `Enqueued`.
    Enqueue(RawMessage),
    /// Append a log entry stamped with the current time: answered by `LogWritten`.
    WriteLog(String),
    /// Print to the process's own diagnostic stream: answered by `Reported`.
    Report(String),
    /// Give up: the subscription was refused.
    Abort(String),
    /// Stop listening.
    Stop,
}

pub ghost enum ListenerActionView {
    Subscribe(Seq<char>),
    Poll,
    Enqueue(RawView),
    WriteLog(Seq<char>),
    Report(Seq<char>),
    Abort(Seq<char>),
    Stop,
}

impl View for ListenerAction {
    type V = ListenerActionView;

    open spec fn view(&self) -> ListenerActionView {
        match self {
            ListenerAction::Subscribe(p) => ListenerActionView::Subscribe(p@),
            ListenerAction::Poll => ListenerActionView::Poll,
            ListenerAction::Enqueue(m) => ListenerActionView::Enqueue(m@),
            ListenerAction::WriteLog(t) => ListenerActionView::WriteLog(t@),
            ListenerAction::Report(t) => ListenerActionView::Report(t@),
            ListenerAction::Abort(t) => ListenerActionView::Abort(t@),
            ListenerAction::Stop => ListenerActionView::Stop,
        }
    }
}

pub open spec fn subscribe_failure(e: Seq<char>) -> Seq<char> {
    "MQTT setup error: "@ + e
}

pub open spec fn transport_failure(e: Seq<char>) -> Seq<char> {
    "Mqtt Connection error: "@ + e
}

/// The listener's transitions. An event that does not answer what the
/// listener waits for leaves it as it is and asks for a poll, or, before
/// polling starts, for nothing new.
pub open spec fn listener_next(s: ListenerState, e: ListenerEventView) -> (
    ListenerState,
    ListenerActionView,
) {
    match (s, e) {
        (ListenerState::Stopped, _) => (ListenerState::Stopped, ListenerActionView::Stop),
        (_, ListenerEventView::Shutdown) => (ListenerState::Stopped, ListenerActionView::Stop),
        (ListenerState::Connecting, ListenerEventView::SessionOpened) => (
            ListenerState::Subscribed,
            ListenerActionView::Subscribe(TOPIC_PATTERN@),
        ),
        (ListenerState::Subscribed, ListenerEventView::SubscribeResult(Ok(()))) => (
            ListenerState::Polling,
            ListenerActionView::Poll,
        ),
        (ListenerState::Subscribed, ListenerEventView::SubscribeResult(Err(m))) => (
            ListenerState::Stopped,
            ListenerActionView::Abort(subscribe_failure(m)),
        ),
        (ListenerState::Polling, ListenerEventView::Publish(m)) => (
            ListenerState::Polling,
            ListenerActionView::Enqueue(m),
        ),
        (ListenerState::Polling, ListenerEventView::TransportError(m)) => (
            ListenerState::Reconnecting,
            ListenerActionView::WriteLog(transport_failure(m)),
        ),
        (ListenerState::Reconnecting, ListenerEventView::LogWritten(Err(m))) => (
            ListenerState::Reconnecting,
            ListenerActionView::Report(log_failure(m)),
        ),
        (ListenerState::Reconnecting, ListenerEventView::LogWritten(Ok(()))) => (
            ListenerState::Polling,
            ListenerActionView::Poll,
        ),
        (ListenerState::Reconnecting, ListenerEventView::Reported) => (
            ListenerState::Polling,
            ListenerActionView::Poll,
        ),
        (ListenerState::Polling, _) => (ListenerState::Polling, ListenerActionView::Poll),
        (ListenerState::Reconnecting, _) => (ListenerState::Polling, ListenerActionView::Poll),
        (ListenerState::Connecting, _) => (ListenerState::Connecting, ListenerActionView::Poll),
        (ListenerState::Subscribed, _) => (ListenerState::Subscribed, ListenerActionView::Poll),
    }
}

fn with_detail(prefix: &str, detail: &str) -> (r: String)
    ensures
        r@ == prefix@ + detail@,
{
    let mut r = String::from_str(prefix);
    r.append(detail);
    r
}

/// The listener's state machine.
#[derive(Debug)]
pub struct Listener {
    pub state: ListenerState,
}

impl Listener {
    /// A listener waiting for its session to open.
    pub fn new() -> (r: Listener)
        ensures
            r.state == ListenerState::Connecting,
    {
        Listener { state: ListenerState::Connecting }
    }

    /// Takes an event and says what to do next.
    pub fn step(&mut self, e: ListenerEvent) -> (r: ListenerAction)
        ensures
            (final(self).state, r@) == listener_next(old(self).state, e@),
    {
        let s = self.state;
        match (s, e) {
            (ListenerState::Stopped, _) => ListenerAction::Stop,
            (_, ListenerEvent::Shutdown) => {
                self.state = ListenerState::Stopped;
                ListenerAction::Stop
            },
            (ListenerState::Connecting, ListenerEvent::SessionOpened) => {
                self.state = ListenerState::Subscribed;
                ListenerAction::Subscribe(String::from_str(TOPIC_PATTERN))
            },
            (ListenerState::Subscribed, ListenerEvent::SubscribeResult(Ok(()))) => {
                self.state = ListenerState::Polling;
                ListenerAction::Poll
            },
            (ListenerState::Subscribed, ListenerEvent::SubscribeResult(Err(m))) => {
                self.state = ListenerState::Stopped;
                ListenerAction::Abort(with_detail("MQTT setup error: ", m.as_str()))
            },
            (ListenerState::Polling, ListenerEvent::Publish(m)) => ListenerAction::Enqueue(m),
            (ListenerState::Polling, ListenerEvent::TransportError(m)) => {
                self.state = ListenerState::Reconnecting;
                ListenerAction::WriteLog(with_detail("Mqtt Connection error: ", m.as_str()))
            },
            (ListenerState::Reconnecting, ListenerEvent::LogWritten(Err(err))) => {
                ListenerAction::Report(
                    with_detail("Error inserting log into database: ", err.message.as_str()),
                )
            },
            (ListenerState::Reconnecting, _) => {
                self.state = ListenerState::Polling;
                ListenerAction::Poll
            },
            (ListenerState::Polling, _) => ListenerAction::Poll,
            (_, _) => ListenerAction::Poll,
        }
    }
}

/// A transport fault never stops the listener: once subscribed, only a
/// shutdown does, and each published message is handed to the queue as it came.
pub proof fn lemma_listener_survives_faults(s: ListenerState, e: ListenerEventView)
    requires
        s == ListenerState::Polling || s == ListenerState::Reconnecting,
        !(e is Shutdown),
    ensures
        listener_next(s, e).0 == ListenerState::Polling || listener_next(s, e).0
            == ListenerState::Reconnecting,
        s == ListenerState::Polling && e is Publish ==> listener_next(s, e).1
            == ListenerActionView::Enqueue(e->Publish_0),
{
}

} // verus!
