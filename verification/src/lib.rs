//! Push-to-talk microphone control: the decisions behind a resident process
//! that watches one input device, derives an on/off intent from a chord of
//! keys and drives the microphone accordingly.
//!
//! The library decides; it does not act. Callers perform the device reads,
//! the external commands and the playback, and hand the outcomes back as
//! plain values. Every function is verified with Verus against a contract
//! over the mathematical form of its arguments. The few calls into other
//! crates and into the standard library (evdev's tables of names and event
//! types, the trimming and reading of numbers, the search for a program)
//! stand behind small private functions whose contracts are taken on
//! trust and say so.

pub mod action;
pub mod audio;
pub mod chord;
pub mod cli;
pub mod config;
pub mod decode;
pub mod device;
pub mod engine;
pub mod event;
pub mod fallback;
pub mod keys;
pub mod passthrough;
pub mod persisted;
pub mod queue;
pub mod report;
pub mod storage;
pub mod text;
