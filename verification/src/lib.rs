//! Turns the raw messages of a MIDI keyboard into button and dial events,
//! and packs each event into one byte for the wire.

pub mod frame;
pub mod port;
pub mod relay;
pub mod translator;
pub mod types;
