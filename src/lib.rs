//! Ingestion pipeline for sound-level telemetry: payload codec, topic routing,
//! a bounded ingest queue, the sensor directory and the listener and writer
//! state machines that move messages from the transport into storage.

pub mod api;
pub mod codec;
pub mod directory;
pub mod listener;
pub mod node;
pub mod queue;
pub mod records;
pub mod text;
pub mod topic;
pub mod writer;
