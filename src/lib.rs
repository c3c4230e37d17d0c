//! A capture and playback engine for timestamped event streams.
//!
//! The library holds the decisions of the engine: the recorded streams,
//! the lifecycle of the engine, the replay schedule and the stored byte
//! format of a stream. Opening ports, sleeping and writing files belong to
//! the program that drives it.

pub mod codec;
pub mod engine;
pub mod phrase;
pub mod replay;
