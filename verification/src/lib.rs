//! A verified core for the PulseAudio client binding: time values, sample formats, error codes,
//! states and the parsing of the library's version string.

pub mod callbacks;
pub mod channelmap;
pub mod context;
pub mod def;
pub mod direction;
pub mod error;
pub mod format;
pub mod mainloop;
pub mod sample;
pub mod stream;
pub mod time;
pub mod timeval;
pub mod version;
