//! Helpers that feed a desktop status bar: a client for a network-attached
//! air conditioner, readers for what the audio server and the battery
//! report, and the labels the bar shows for each of them.

pub mod ac;
pub mod battery;
pub mod bulb;
pub mod client;
pub mod mic;
pub mod mute;
pub mod number;
pub mod pulse;
pub mod recorder;
pub mod text;
pub mod types;
