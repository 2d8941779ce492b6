//! What reaches the player from outside, and what it asks of the outside.

use crate::repeat::{LoopStatusEvent, MacRepeatMode};
use rspotify::model::enums::RepeatState;
use vstd::prelude::*;

verus! {

/// Where music comes from.
#[derive(Clone, Copy, Debug, PartialEq, Eq, Structural)]
pub enum Source {
    Spotify,
    Local,
    Subsonic,
    YouTube,
    Qobuz,
    Radio,
}

/// A request to the event pump. The sources' own routers see it first; what
/// none of them takes reaches the Spotify network.
#[derive(Debug, PartialEq)]
pub enum IoEvent {
    /// Context, tracks, and the place among them to start at. All absent means
    /// to resume.
    StartPlayback(Option<String>, Option<Vec<String>>, Option<usize>),
    PausePlayback,
    NextTrack,
    PreviousTrack,
    /// Absolute position in milliseconds.
    Seek(u32),
    Shuffle(bool),
    /// Carries the state to move on from.
    Repeat(RepeatState),
    ToggleNativeShuffleSession(bool),
    RunPlaylistSync { retry_unmatched: bool },
}

/// A control request from an MPRIS client (media keys, playerctl).
#[derive(Clone, Copy, Debug, PartialEq, Eq, Structural)]
pub enum MprisEvent {
    PlayPause,
    Play,
    Pause,
    Next,
    Previous,
    Stop,
    /// Relative offset in microseconds; negative rewinds.
    Seek(i64),
    /// Absolute position in microseconds.
    SetPosition(i64),
    SetShuffle(bool),
    SetLoopStatus(LoopStatusEvent),
    /// Per cent.
    SetVolume(u8),
}

/// A control request from macOS (media keys, Control Center, headphones).
#[derive(Clone, Copy, Debug, PartialEq, Eq, Structural)]
pub enum MacMediaEvent {
    PlayPause,
    Play,
    Pause,
    Next,
    Previous,
    Stop,
    /// Absolute seek target in milliseconds, from a Now Playing scrubber.
    Seek(u32),
    SetShuffle(bool),
    SetRepeat(MacRepeatMode),
}

/// A control request from the Windows media transport controls.
#[derive(Clone, Copy, Debug, PartialEq, Eq, Structural)]
pub enum WindowsMediaEvent {
    Play,
    Pause,
    Next,
    Previous,
    Stop,
    /// Absolute position in milliseconds.
    SetPosition(u64),
}

/// One thing for the surrounding program to do.
#[derive(Debug, PartialEq)]
pub enum Effect {
    /// Send the event to the pump.
    Dispatch(IoEvent),
    /// Send the event to the Spotify network, for a device that is not ours.
    SpotifyFallback(IoEvent),
    /// Skip forwards in whatever owns playback.
    NextTrack,
    /// Skip backwards in whatever owns playback.
    PreviousTrack,
    /// Set the volume, in per cent, of whatever owns playback.
    SetVolume(u8),
    /// The native streaming player: resume.
    PlayerPlay,
    /// The native streaming player: pause.
    PlayerPause,
    /// The native streaming player: go to this millisecond.
    PlayerSeek(u32),
    /// The native streaming player: move on from this repeat state.
    PlayerCycleRepeat(RepeatState),
    /// The native streaming player: set shuffle, and report whether it took.
    PlayerSetShuffle(bool),
    /// The native streaming player: set repeat, and report whether it took.
    PlayerSetRepeat(RepeatState),
    /// Store the position that the player's event handler shares.
    StoreSharedPosition(u64),
    /// Record the native seek in the application state, if the state is free;
    /// the next tick makes up for it if not.
    CommitSeek(u32),
    /// Tell MPRIS clients that the position jumped.
    MprisSeeked(u64),
    /// Publish shuffle to MPRIS clients.
    MprisShuffle(bool),
    /// Publish the loop status to MPRIS clients.
    MprisLoopStatus(LoopStatusEvent),
    /// Publish shuffle to Now Playing.
    MacShuffle(bool),
    /// Publish the repeat mode to Now Playing.
    MacRepeat(MacRepeatMode),
    /// Save the shuffle setting for the next launch.
    SaveShuffle(bool),
    /// A decoded source's own player: go to this millisecond.
    DecodedSeek(Source, u64),
    /// A decoded source's own player: pause.
    DecodedPause(Source),
}

/// The event that resumes whatever is loaded.
pub open spec fn resume_event() -> IoEvent {
    IoEvent::StartPlayback(None, None, None)
}

} // verus!
