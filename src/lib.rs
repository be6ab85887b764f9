//! Coordination core of a media playback session: metadata tracking, event
//! fan-out, the start-up readiness gate, ingestion gating and the playback
//! state machine, guarded by one lock.

pub mod metadata;
pub mod event;
pub mod frame;
pub mod bus;
pub mod gate;
pub mod session;
pub mod player;
