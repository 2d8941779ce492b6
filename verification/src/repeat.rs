//! Repeat modes, and the mappings between the vocabularies that name them.

use rspotify::model::enums::RepeatState;
use vstd::prelude::*;

verus! {

/// Declares rspotify's `RepeatState`, an enum of the three field-less variants
/// `Off`, `Track` and `Context`. Nothing beyond those variants is claimed of it.
#[verifier::external_type_specification]
pub struct ExRepeatState(rspotify::model::enums::RepeatState);

/// How a decoded (non-Spotify) source repeats. The mode belongs to the player
/// as a whole, not to one source.
#[derive(Clone, Copy, Debug, PartialEq, Eq, Structural)]
pub enum RepeatMode {
    Off,
    /// Repeat the whole queue.
    Context,
    /// Repeat the current track.
    Track,
}

/// How an external controller asked us to repeat, in Now Playing's words.
#[derive(Clone, Copy, Debug, PartialEq, Eq, Structural)]
pub enum MacRepeatMode {
    Off,
    /// Repeat the current track.
    One,
    /// Repeat the whole context.
    All,
}

/// How an MPRIS client asked us to loop.
#[derive(Clone, Copy, Debug, PartialEq, Eq, Structural)]
pub enum LoopStatusEvent {
    Off,
    Track,
    Playlist,
}

/// The mode after `mode` in the cycle off, repeat all, repeat one, off.
pub open spec fn next_mode(mode: RepeatMode) -> RepeatMode {
    match mode {
        RepeatMode::Off => RepeatMode::Context,
        RepeatMode::Context => RepeatMode::Track,
        RepeatMode::Track => RepeatMode::Off,
    }
}

/// The Spotify state after `state` in the same cycle.
pub open spec fn next_state(state: RepeatState) -> RepeatState {
    match state {
        RepeatState::Off => RepeatState::Context,
        RepeatState::Context => RepeatState::Track,
        RepeatState::Track => RepeatState::Off,
    }
}

/// The decoded mode that a Spotify state names.
pub open spec fn mode_of_state(state: RepeatState) -> RepeatMode {
    match state {
        RepeatState::Off => RepeatMode::Off,
        RepeatState::Context => RepeatMode::Context,
        RepeatState::Track => RepeatMode::Track,
    }
}

/// The decoded mode that a Now Playing mode names.
pub open spec fn mode_of_mac(mode: MacRepeatMode) -> RepeatMode {
    match mode {
        MacRepeatMode::Off => RepeatMode::Off,
        MacRepeatMode::One => RepeatMode::Track,
        MacRepeatMode::All => RepeatMode::Context,
    }
}

/// The decoded mode that an MPRIS loop status names.
pub open spec fn mode_of_loop(status: LoopStatusEvent) -> RepeatMode {
    match status {
        LoopStatusEvent::Off => RepeatMode::Off,
        LoopStatusEvent::Track => RepeatMode::Track,
        LoopStatusEvent::Playlist => RepeatMode::Context,
    }
}

/// The Now Playing mode that a decoded mode shows as.
pub open spec fn mac_of_mode(mode: RepeatMode) -> MacRepeatMode {
    match mode {
        RepeatMode::Off => MacRepeatMode::Off,
        RepeatMode::Track => MacRepeatMode::One,
        RepeatMode::Context => MacRepeatMode::All,
    }
}

/// The Now Playing mode of a playback snapshot. A source with no repeat control
/// of its own (`None`) shows as off.
pub open spec fn mac_of_snapshot(state: Option<RepeatState>) -> MacRepeatMode {
    match state {
        Some(s) => mac_of_mode(mode_of_state(s)),
        None => MacRepeatMode::Off,
    }
}

/// The Spotify state that a decoded mode corresponds to.
pub open spec fn state_of_mode(mode: RepeatMode) -> RepeatState {
    match mode {
        RepeatMode::Off => RepeatState::Off,
        RepeatMode::Context => RepeatState::Context,
        RepeatMode::Track => RepeatState::Track,
    }
}

/// The MPRIS loop status that a Spotify state shows as.
pub open spec fn loop_of_state(state: RepeatState) -> LoopStatusEvent {
    match state {
        RepeatState::Off => LoopStatusEvent::Off,
        RepeatState::Context => LoopStatusEvent::Playlist,
        RepeatState::Track => LoopStatusEvent::Track,
    }
}

impl RepeatMode {
    /// The next mode in the cycle off, repeat all, repeat one, off.
    pub fn next(self) -> (r: RepeatMode)
        ensures
            r == next_mode(self),
    {
        match self {
            RepeatMode::Off => RepeatMode::Context,
            RepeatMode::Context => RepeatMode::Track,
            RepeatMode::Track => RepeatMode::Off,
        }
    }
}

/// The Spotify state after `state` in the cycle off, context, track, off.
pub fn next_repeat_state(state: RepeatState) -> (r: RepeatState)
    ensures
        r == next_state(state),
{
    match state {
        RepeatState::Off => RepeatState::Context,
        RepeatState::Context => RepeatState::Track,
        RepeatState::Track => RepeatState::Off,
    }
}

/// Read a Spotify state as a decoded mode.
pub fn decoded_repeat_from_state(state: RepeatState) -> (r: RepeatMode)
    ensures
        r == mode_of_state(state),
{
    match state {
        RepeatState::Off => RepeatMode::Off,
        RepeatState::Context => RepeatMode::Context,
        RepeatState::Track => RepeatMode::Track,
    }
}

/// Map the player-global decoded repeat mode onto the Now Playing vocabulary.
pub fn decoded_repeat_to_mac(mode: RepeatMode) -> (r: MacRepeatMode)
    ensures
        r == mac_of_mode(mode),
{
    match mode {
        RepeatMode::Off => MacRepeatMode::Off,
        RepeatMode::Track => MacRepeatMode::One,
        RepeatMode::Context => MacRepeatMode::All,
    }
}

/// Read a Now Playing mode as a decoded mode.
pub fn decoded_repeat_from_mac(mode: MacRepeatMode) -> (r: RepeatMode)
    ensures
        r == mode_of_mac(mode),
{
    match mode {
        MacRepeatMode::Off => RepeatMode::Off,
        MacRepeatMode::One => RepeatMode::Track,
        MacRepeatMode::All => RepeatMode::Context,
    }
}

/// Read an MPRIS loop status as a decoded mode.
pub fn decoded_repeat_from_loop(status: LoopStatusEvent) -> (r: RepeatMode)
    ensures
        r == mode_of_loop(status),
{
    match status {
        LoopStatusEvent::Off => RepeatMode::Off,
        LoopStatusEvent::Track => RepeatMode::Track,
        LoopStatusEvent::Playlist => RepeatMode::Context,
    }
}

/// Read a Now Playing mode as a Spotify state.
pub fn repeat_state_from_mac(mode: MacRepeatMode) -> (r: RepeatState)
    ensures
        r == state_of_mode(mode_of_mac(mode)),
{
    match mode {
        MacRepeatMode::Off => RepeatState::Off,
        MacRepeatMode::One => RepeatState::Track,
        MacRepeatMode::All => RepeatState::Context,
    }
}

/// Read an MPRIS loop status as a Spotify state.
pub fn repeat_state_from_loop(status: LoopStatusEvent) -> (r: RepeatState)
    ensures
        r == state_of_mode(mode_of_loop(status)),
{
    match status {
        LoopStatusEvent::Off => RepeatState::Off,
        LoopStatusEvent::Track => RepeatState::Track,
        LoopStatusEvent::Playlist => RepeatState::Context,
    }
}

/// Show a Spotify state as an MPRIS loop status.
pub fn loop_status_from_state(state: RepeatState) -> (r: LoopStatusEvent)
    ensures
        r == loop_of_state(state),
{
    match state {
        RepeatState::Off => LoopStatusEvent::Off,
        RepeatState::Context => LoopStatusEvent::Playlist,
        RepeatState::Track => LoopStatusEvent::Track,
    }
}

/// Show the repeat state of a playback snapshot as a Now Playing mode. A source
/// with no repeat control of its own shows as off.
pub fn mac_repeat_from_snapshot(state: Option<RepeatState>) -> (r: MacRepeatMode)
    ensures
        r == mac_of_snapshot(state),
{
    match state {
        Some(RepeatState::Track) => MacRepeatMode::One,
        Some(RepeatState::Context) => MacRepeatMode::All,
        Some(RepeatState::Off) | None => MacRepeatMode::Off,
    }
}

} // verus!
