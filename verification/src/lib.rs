//! Audio transport engine for a narration project: stream-configuration
//! resolution, WAV clip encoding and decoding, and the playback/recording
//! transport state machine, together with the session and text-chunking
//! data the surrounding application keeps.

pub mod chunks;
pub mod config;
pub mod grabber;
pub mod devices;
pub mod sessions;
pub mod status;
pub mod time_display;
pub mod transport;
pub mod wav;
