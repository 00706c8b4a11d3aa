//! Durable text-to-speech: what a durable TTS component hands its provider,
//! what it records in the worker's oplog, and what its callers receive.

pub mod types;
pub mod voice_results;
pub mod guest;
pub mod voices;
pub mod records;
pub mod durability;
pub mod streams;
pub mod plans;
pub mod durable_tts;
pub mod durable_calls;
