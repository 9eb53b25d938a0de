//! A word clock for a 5x5 panel of Hangul syllables: which LEDs spell the
//! time, how the knob-driven settings menu behaves, and the small decisions
//! around network time sync and stored settings.

pub mod global;
pub mod panel;
pub mod text;
pub mod net;
pub mod menu;
pub mod rotary;
pub mod nvs;
pub mod clock;
