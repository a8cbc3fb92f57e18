//! Statuses, selections and progress records shared with the caller,
//! and the traits a media backend implements.

use vstd::prelude::*;

verus! {

/// What a media backend is doing after a command.
#[derive(Clone, Copy, Debug, PartialEq, Eq, Structural)]
pub enum ProcessingStatus {
    Playing,
    Paused,
    Stopped,
    Recording,
}

/// Whether the media file of a chunk already exists.
#[derive(Clone, Copy, Debug, PartialEq, Eq, Structural)]
pub enum FileStatus {
    Exists,
    New,
}

/// An input device chosen in the preferences: its name and the desired
/// recording parameters.
#[derive(Clone, Debug, PartialEq, Eq)]
pub struct InputDeviceSelection {
    pub name: String,
    pub sample_rate: u32,
    pub num_channels: u16,
}

/// An output device chosen in the preferences.
#[derive(Clone, Debug, PartialEq, Eq)]
pub struct OutputDeviceSelection {
    pub name: String,
}

/// Playback progress in milliseconds, as the progress widgets show it.
#[derive(Clone, Copy, Debug, PartialEq, Eq, Structural)]
pub struct AudioPlaybackProgress {
    pub ms_passed: u32,
    pub ms_total: u32,
}

/// Text navigation progress: the current chunk and the total count.
#[derive(Clone, Copy, Debug, PartialEq, Eq, Structural)]
pub struct TextNavigationProgress {
    pub current_index: u32,
    pub total: u32,
}

/// A backend that plays and records the media of the current chunk.
/// Positions are in milliseconds, durations in milliseconds too.
/// These methods are declarations only: the commands' verified
/// semantics live on [`crate::transport::Media`] (`skip_to` as
/// `play_at`, `stop_recording` as `stop`); an implementor binds them
/// to files and devices.
pub trait MediaProcessor {
    /// Starts playing media from the current chunk's file.
    fn play(&mut self) -> Result<ProcessingStatus, String>;

    /// Pauses the running playback at the given position.
    fn pause(&mut self, pos_ms: u32) -> Result<ProcessingStatus, String>;

    /// Stops the running playback.
    fn stop(&mut self) -> Result<ProcessingStatus, String>;

    /// Restarts playback at the given position.
    fn skip_to(&mut self, position_in_seconds: u32) -> Result<ProcessingStatus, String>;

    /// Moves to the next chunk's media file.
    fn next(&mut self) -> Result<FileStatus, String>;

    /// Moves to the previous chunk's media file.
    fn prev(&mut self) -> Result<FileStatus, String>;

    /// Moves to the given chunk's media file.
    fn go_to(&mut self, idx: usize) -> Result<FileStatus, String>;

    /// Starts recording into the current chunk's file.
    fn record(&mut self) -> Result<ProcessingStatus, String>;

    /// Stops the running recording.
    fn stop_recording(&mut self) -> Result<ProcessingStatus, String>;

    /// Duration of the current media file.
    fn duration(&self) -> u32;
}

/// A narrower shape of the same backend boundary, for callers that
/// track positions themselves.
pub trait AudioProcessor {
    /// Starts playing audio from the current chunk's file.
    fn play(&mut self) -> Result<ProcessingStatus, String>;

    /// Pauses the running playback.
    fn pause(&mut self) -> Result<ProcessingStatus, String>;

    /// Stops the running playback.
    fn stop(&mut self) -> Result<ProcessingStatus, String>;

    /// Restarts playback at the given position.
    fn skip_to(&mut self, position_in_seconds: u32);

    /// Moves to the next chunk's audio file.
    fn next(&mut self) -> Result<FileStatus, String>;

    /// Moves to the previous chunk's audio file.
    fn prev(&mut self) -> Result<FileStatus, String>;

    /// Moves to the given chunk's audio file.
    fn go_to(&mut self, idx: usize) -> Result<FileStatus, String>;

    /// Starts recording into the current chunk's file.
    fn record(&mut self) -> Result<ProcessingStatus, String>;

    /// Stops the running recording.
    fn stop_recording(&mut self) -> Result<ProcessingStatus, String>;
}

} // verus!
