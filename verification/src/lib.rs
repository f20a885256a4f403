//! Core logic of a match-event sound engine: deduplicating a re-polled event
//! log, evaluating prioritized sound rules against normalized event contexts,
//! and coordinating a download-once acquisition cache for remote audio.
//!
//! Transport clients, configuration storage and the audio output device are
//! external collaborators; the shell around this crate performs their I/O and
//! hands plain values in and out.

pub mod backend;
pub mod cache;
pub mod clips;
pub mod context;
pub mod cues;
pub mod events;
pub mod engine;
pub mod lcu;
pub mod paths;
pub mod roster;
pub mod strutil;
pub mod watermark;
