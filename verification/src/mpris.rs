//! Control requests from MPRIS clients.
//!
//! A decoded source that owns playback answers first. The native streaming
//! player comes next, and a Spotify device of somebody else's last.

use crate::app::{App, AppView, NativeRecovery, Player};
use crate::events::{Effect, IoEvent, MprisEvent};
use crate::position::{position_target_ms, seek_target_ms};
use crate::repeat::{
    decoded_repeat_from_loop, repeat_state_from_loop, LoopStatusEvent, RepeatMode,
};
use rspotify::model::enums::RepeatState;
use vstd::prelude::*;

verus! {

/// What the native player's event handler shares without a lock.
#[derive(Clone, Copy, Debug, PartialEq, Eq, Structural)]
pub struct SharedPlayback {
    pub is_playing: bool,
    pub position_ms: u64,
}

/// The event that makes a paused player play, and a playing one pause.
pub open spec fn toggle_event(playing: bool) -> IoEvent {
    if playing {
        IoEvent::PausePlayback
    } else {
        crate::events::resume_event()
    }
}

impl AppView {
    /// With the wish to play, or not, remembered for a recovery.
    pub open spec fn with_intent(self, playing: bool) -> AppView {
        AppView {
            native_recovery: NativeRecovery { playing: Some(playing), ..self.native_recovery },
            ..self
        }
    }

    /// After a native seek is recorded in the application state.
    pub open spec fn seek_committed(self, ms: u32) -> AppView {
        AppView {
            song_progress_ms: ms as u128,
            native_recovery: NativeRecovery { position_ms: Some(ms), ..self.native_recovery },
            ..self
        }
    }

    /// After the native player is sent to a position.
    pub open spec fn native_sought(self, ms: u32) -> AppView {
        self.with(Effect::PlayerSeek(ms)).with(Effect::StoreSharedPosition(ms as u64)).with(
            Effect::CommitSeek(ms),
        )
    }

    /// After a device of somebody else's is sent to a position.
    pub open spec fn fallback_sought(self, ms: u32) -> AppView {
        (AppView { song_progress_ms: ms as u128, ..self }).with(
            Effect::SpotifyFallback(IoEvent::Seek(ms)),
        )
    }

    /// Is Spotify playing, as far as is known? The native player's word comes
    /// before the context's.
    pub open spec fn spotify_playing(self) -> bool {
        match self.native_is_playing {
            Some(playing) => playing,
            None => self.context is Some && self.context->0.is_playing,
        }
    }

    /// Does the owner of playback answer the request in Spotify's place?
    pub open spec fn mpris_claimed(self, event: MprisEvent) -> bool {
        if event is SetVolume {
            false
        } else if self.queue_owns() && (event is SetShuffle || event is SetLoopStatus) {
            true
        } else {
            self.decoded_player() is Some || self.decoded_source()
        }
    }

    /// After the owner of playback answered the request.
    pub open spec fn mpris_routed(self, event: MprisEvent) -> AppView {
        if self.queue_owns() && event is SetShuffle {
            self.with(Effect::MprisShuffle(false))
        } else if self.queue_owns() && event is SetLoopStatus {
            self.with(Effect::MprisLoopStatus(LoopStatusEvent::Off))
        } else if self.decoded_player() is Some {
            self.mpris_served(event, self.decoded_player()->0)
        } else {
            self
        }
    }

    /// After a decoded source with a player answered the request.
    pub open spec fn mpris_served(self, event: MprisEvent, player: Player) -> AppView {
        match event {
            MprisEvent::PlayPause => self.with(Effect::Dispatch(toggle_event(!player.paused))),
            MprisEvent::Play => self.with(Effect::Dispatch(crate::events::resume_event())),
            MprisEvent::Pause | MprisEvent::Stop => self.with(
                Effect::Dispatch(IoEvent::PausePlayback),
            ),
            MprisEvent::Next => self.with(Effect::Dispatch(IoEvent::NextTrack)),
            MprisEvent::Previous => self.with(Effect::Dispatch(IoEvent::PreviousTrack)),
            MprisEvent::Seek(offset) => {
                let ms = crate::position::seek_target(player.position_ms as int, offset);
                self.with(Effect::Dispatch(IoEvent::Seek(ms))).with(
                    Effect::MprisSeeked(ms as u64),
                )
            },
            MprisEvent::SetPosition(position) => {
                let ms = crate::position::position_target(position);
                self.with(Effect::Dispatch(IoEvent::Seek(ms))).with(
                    Effect::MprisSeeked(ms as u64),
                )
            },
            MprisEvent::SetShuffle(on) => self.decoded_shuffle_set(on).with(
                Effect::MprisShuffle(on && self.queueable()),
            ),
            MprisEvent::SetLoopStatus(status) => self.decoded_repeat_set(
                crate::repeat::mode_of_loop(status),
            ).with(
                Effect::MprisLoopStatus(
                    if self.queueable() {
                        status
                    } else {
                        LoopStatusEvent::Off
                    },
                ),
            ),
            MprisEvent::SetVolume(_) => self,
        }
    }

    /// After Spotify answered the request, through the native player if there is
    /// one.
    pub open spec fn mpris_to_spotify(
        self,
        event: MprisEvent,
        shared: SharedPlayback,
    ) -> AppView {
        match event {
            MprisEvent::Next => self.with(Effect::NextTrack),
            MprisEvent::Previous => self.with(Effect::PreviousTrack),
            MprisEvent::SetVolume(percent) => self.with(Effect::SetVolume(percent)),
            _ => if self.streaming_player {
                self.mpris_to_player(event, shared)
            } else {
                self.mpris_to_fallback(event)
            },
        }
    }

    /// After the native player got the request. It reports back on shuffle and
    /// repeat before anything else changes.
    pub open spec fn mpris_to_player(self, event: MprisEvent, shared: SharedPlayback) -> AppView {
        match event {
            MprisEvent::PlayPause => self.with(
                if shared.is_playing {
                    Effect::PlayerPause
                } else {
                    Effect::PlayerPlay
                },
            ),
            MprisEvent::Play => self.with(Effect::PlayerPlay).with_intent(true),
            MprisEvent::Pause | MprisEvent::Stop => self.with(Effect::PlayerPause).with_intent(
                false,
            ),
            MprisEvent::Seek(offset) => {
                let ms = crate::position::seek_target(shared.position_ms as int, offset);
                self.native_sought(ms).with(Effect::MprisSeeked(ms as u64))
            },
            MprisEvent::SetPosition(position) => {
                let ms = crate::position::position_target(position);
                self.native_sought(ms).with(Effect::MprisSeeked(ms as u64))
            },
            MprisEvent::SetShuffle(on) => self.with(Effect::PlayerSetShuffle(on)),
            MprisEvent::SetLoopStatus(status) => self.with(
                Effect::PlayerSetRepeat(
                    crate::repeat::state_of_mode(crate::repeat::mode_of_loop(status)),
                ),
            ),
            _ => self,
        }
    }

    /// After the request went out to a device of somebody else's.
    pub open spec fn mpris_to_fallback(self, event: MprisEvent) -> AppView {
        match event {
            MprisEvent::PlayPause => self.with(
                Effect::SpotifyFallback(toggle_event(self.spotify_playing())),
            ),
            MprisEvent::Play => self.with(Effect::SpotifyFallback(crate::events::resume_event())),
            MprisEvent::Pause | MprisEvent::Stop => self.with(
                Effect::SpotifyFallback(IoEvent::PausePlayback),
            ),
            MprisEvent::Seek(offset) => {
                let ms = crate::position::seek_target(self.song_progress_ms as int, offset);
                self.fallback_sought(ms).with(Effect::MprisSeeked(ms as u64))
            },
            MprisEvent::SetPosition(position) => {
                let ms = crate::position::position_target(position);
                self.fallback_sought(ms).with(Effect::MprisSeeked(ms as u64))
            },
            MprisEvent::SetShuffle(on) => self.fallback_shuffled(on),
            MprisEvent::SetLoopStatus(status) => self.fallback_looped(status),
            _ => self,
        }
    }

    /// After a device of somebody else's is told to shuffle, or not.
    pub open spec fn fallback_shuffled(self, on: bool) -> AppView {
        let shown = AppView { shuffle_enabled: on, ..self.with(Effect::MprisShuffle(on)) };
        shown.with_context_shuffle(on).with(Effect::SaveShuffle(on)).with(
            Effect::SpotifyFallback(IoEvent::Shuffle(on)),
        )
    }

    /// After a device of somebody else's is told how to loop.
    pub open spec fn fallback_looped(self, status: LoopStatusEvent) -> AppView {
        let state = crate::repeat::state_of_mode(crate::repeat::mode_of_loop(status));
        self.with(Effect::MprisLoopStatus(status)).with_context_repeat(state).with(
            Effect::SpotifyFallback(IoEvent::Repeat(state)),
        )
    }

    /// After an MPRIS request. Nothing happens while media keys are disabled.
    pub open spec fn mpris_handled(self, event: MprisEvent, shared: SharedPlayback) -> AppView {
        if !self.enable_media_keys {
            self
        } else if self.mpris_claimed(event) {
            self.mpris_routed(event)
        } else {
            self.mpris_to_spotify(event, shared)
        }
    }

    /// After the native player said whether it took a shuffle request.
    pub open spec fn mpris_shuffle_answered(self, on: bool, accepted: bool) -> AppView {
        if accepted {
            self.with(Effect::MprisShuffle(on)).native_shuffle_recorded(on)
        } else {
            self
        }
    }

    /// After the native player said whether it took a loop request.
    pub open spec fn mpris_loop_answered(self, status: LoopStatusEvent, accepted: bool) -> AppView {
        if accepted {
            self.with(Effect::MprisLoopStatus(status)).native_repeat_recorded(
                crate::repeat::state_of_mode(crate::repeat::mode_of_loop(status)),
            )
        } else {
            self
        }
    }
}

impl App {
    /// Record a native seek: the position on screen, and the one a recovery
    /// resumes at.
    pub fn commit_native_seek(&mut self, ms: u32)
        ensures
            final(self)@ == old(self)@.seek_committed(ms),
    {
        self.song_progress_ms = ms as u128;
        self.native_recovery.position_ms = Some(ms);
    }

    /// Remember whether the user wants the native player to play.
    pub fn set_native_playback_intent(&mut self, playing: bool)
        ensures
            final(self)@ == old(self)@.with_intent(playing),
    {
        self.native_recovery.playing = Some(playing);
    }

    /// Send the native player to a position.
    pub(crate) fn seek_native(&mut self, ms: u32)
        ensures
            final(self)@ == old(self)@.native_sought(ms),
    {
        self.effect(Effect::PlayerSeek(ms));
        self.effect(Effect::StoreSharedPosition(ms as u64));
        self.effect(Effect::CommitSeek(ms));
    }

    /// Send a device of somebody else's to a position.
    fn seek_fallback(&mut self, ms: u32)
        ensures
            final(self)@ == old(self)@.fallback_sought(ms),
    {
        self.song_progress_ms = ms as u128;
        self.effect(Effect::SpotifyFallback(IoEvent::Seek(ms)));
    }

    /// Tell a device of somebody else's to shuffle, or not.
    fn shuffle_fallback(&mut self, on: bool)
        ensures
            final(self)@ == old(self)@.fallback_shuffled(on),
    {
        self.effect(Effect::MprisShuffle(on));
        self.set_context_shuffle_state(on);
        self.shuffle_enabled = on;
        self.effect(Effect::SaveShuffle(on));
        self.effect(Effect::SpotifyFallback(IoEvent::Shuffle(on)));
    }

    /// Tell a device of somebody else's how to loop.
    fn loop_fallback(&mut self, status: LoopStatusEvent)
        ensures
            final(self)@ == old(self)@.fallback_looped(status),
    {
        let state: RepeatState = repeat_state_from_loop(status);
        self.effect(Effect::MprisLoopStatus(status));
        self.set_context_repeat_state(state);
        self.effect(Effect::SpotifyFallback(IoEvent::Repeat(state)));
    }

    /// Route an MPRIS request to the decoded source that owns playback. Returns
    /// whether the request is dealt with; if not, it concerns Spotify.
    ///
    /// A source that has no shuffle or repeat of its own rejects them, and the
    /// client's property is corrected. A source whose player is not there yet
    /// swallows everything but the volume. The volume is never dealt with here.
    pub fn route_decoded_mpris_event(&mut self, event: &MprisEvent) -> (consumed: bool)
        ensures
            consumed == old(self)@.mpris_claimed(*event),
            final(self)@ == old(self)@.mpris_routed(*event),
            old(self)@.wf() ==> final(self)@.wf(),
    {
        if self.queue_owns_playback() {
            match event {
                MprisEvent::SetShuffle(_) => {
                    self.effect(Effect::MprisShuffle(false));
                    return true;
                },
                MprisEvent::SetLoopStatus(_) => {
                    self.effect(Effect::MprisLoopStatus(LoopStatusEvent::Off));
                    return true;
                },
                _ => {},
            }
        }
        let player: Player = match self.active_decoded_player() {
            Some(player) => player,
            None => {
                let volume: bool = match event {
                    MprisEvent::SetVolume(_) => true,
                    _ => false,
                };
                return !volume && self.active_decoded_source();
            },
        };
        self.serve_mpris_event(event, player)
    }

    /// Answer an MPRIS request with the decoded source whose player is given.
    fn serve_mpris_event(&mut self, event: &MprisEvent, player: Player) -> (consumed: bool)
        ensures
            consumed == !(*event is SetVolume),
            final(self)@ == old(self)@.mpris_served(*event, player),
            old(self)@.wf() ==> final(self)@.wf(),
    {
        match event {
            MprisEvent::PlayPause => {
                if player.paused {
                    self.effect(Effect::Dispatch(IoEvent::StartPlayback(None, None, None)));
                } else {
                    self.effect(Effect::Dispatch(IoEvent::PausePlayback));
                }
                true
            },
            MprisEvent::Play => {
                self.effect(Effect::Dispatch(IoEvent::StartPlayback(None, None, None)));
                true
            },
            MprisEvent::Pause | MprisEvent::Stop => {
                self.effect(Effect::Dispatch(IoEvent::PausePlayback));
                true
            },
            MprisEvent::Next => {
                self.effect(Effect::Dispatch(IoEvent::NextTrack));
                true
            },
            MprisEvent::Previous => {
                self.effect(Effect::Dispatch(IoEvent::PreviousTrack));
                true
            },
            MprisEvent::Seek(offset_micros) => {
                let ms: u32 = seek_target_ms(player.position_ms, *offset_micros);
                self.effect(Effect::Dispatch(IoEvent::Seek(ms)));
                self.effect(Effect::MprisSeeked(ms as u64));
                true
            },
            MprisEvent::SetPosition(position_micros) => {
                let ms: u32 = position_target_ms(*position_micros);
                self.effect(Effect::Dispatch(IoEvent::Seek(ms)));
                self.effect(Effect::MprisSeeked(ms as u64));
                true
            },
            MprisEvent::SetShuffle(on) => {
                if self.set_decoded_shuffle(*on) {
                    self.effect(Effect::MprisShuffle(*on));
                } else {
                    self.effect(Effect::MprisShuffle(false));
                }
                true
            },
            MprisEvent::SetLoopStatus(status) => {
                let mode: RepeatMode = decoded_repeat_from_loop(*status);
                if self.set_decoded_repeat(mode) {
                    self.effect(Effect::MprisLoopStatus(*status));
                } else {
                    self.effect(Effect::MprisLoopStatus(LoopStatusEvent::Off));
                }
                true
            },
            MprisEvent::SetVolume(_) => false,
        }
    }

    /// Hand an MPRIS request to the native player.
    fn player_mpris_event(&mut self, event: &MprisEvent, shared: SharedPlayback)
        ensures
            final(self)@ == old(self)@.mpris_to_player(*event, shared),
    {
        match event {
            MprisEvent::PlayPause => {
                if shared.is_playing {
                    self.effect(Effect::PlayerPause);
                } else {
                    self.effect(Effect::PlayerPlay);
                }
            },
            MprisEvent::Play => {
                self.effect(Effect::PlayerPlay);
                self.set_native_playback_intent(true);
            },
            MprisEvent::Pause | MprisEvent::Stop => {
                self.effect(Effect::PlayerPause);
                self.set_native_playback_intent(false);
            },
            MprisEvent::Seek(offset_micros) => {
                let ms: u32 = seek_target_ms(shared.position_ms as u128, *offset_micros);
                self.seek_native(ms);
                self.effect(Effect::MprisSeeked(ms as u64));
            },
            MprisEvent::SetPosition(position_micros) => {
                let ms: u32 = position_target_ms(*position_micros);
                self.seek_native(ms);
                self.effect(Effect::MprisSeeked(ms as u64));
            },
            MprisEvent::SetShuffle(on) => {
                self.effect(Effect::PlayerSetShuffle(*on));
            },
            MprisEvent::SetLoopStatus(status) => {
                self.effect(Effect::PlayerSetRepeat(repeat_state_from_loop(*status)));
            },
            _ => {},
        }
    }

    /// Send an MPRIS request out to a device of somebody else's.
    fn fallback_mpris_event(&mut self, event: &MprisEvent)
        ensures
            final(self)@ == old(self)@.mpris_to_fallback(*event),
    {
        match event {
            MprisEvent::PlayPause => {
                let playing: bool = match self.native_is_playing {
                    Some(playing) => playing,
                    None => match self.current_playback_context {
                        Some(context) => context.is_playing,
                        None => false,
                    },
                };
                if playing {
                    self.effect(Effect::SpotifyFallback(IoEvent::PausePlayback));
                } else {
                    self.effect(
                        Effect::SpotifyFallback(IoEvent::StartPlayback(None, None, None)),
                    );
                }
            },
            MprisEvent::Play => {
                self.effect(Effect::SpotifyFallback(IoEvent::StartPlayback(None, None, None)));
            },
            MprisEvent::Pause | MprisEvent::Stop => {
                self.effect(Effect::SpotifyFallback(IoEvent::PausePlayback));
            },
            MprisEvent::Seek(offset_micros) => {
                let ms: u32 = seek_target_ms(self.song_progress_ms, *offset_micros);
                self.seek_fallback(ms);
                self.effect(Effect::MprisSeeked(ms as u64));
            },
            MprisEvent::SetPosition(position_micros) => {
                let ms: u32 = position_target_ms(*position_micros);
                self.seek_fallback(ms);
                self.effect(Effect::MprisSeeked(ms as u64));
            },
            MprisEvent::SetShuffle(on) => {
                self.shuffle_fallback(*on);
            },
            MprisEvent::SetLoopStatus(status) => {
                self.loop_fallback(*status);
            },
            _ => {},
        }
    }

    /// Handle one MPRIS request.
    pub fn handle_mpris_event(&mut self, event: &MprisEvent, shared: SharedPlayback)
        ensures
            final(self)@ == old(self)@.mpris_handled(*event, shared),
            old(self)@.wf() ==> final(self)@.wf(),
    {
        if !self.enable_media_keys {
            return;
        }
        if self.route_decoded_mpris_event(event) {
            return;
        }
        match event {
            MprisEvent::Next => {
                self.effect(Effect::NextTrack);
            },
            MprisEvent::Previous => {
                self.effect(Effect::PreviousTrack);
            },
            MprisEvent::SetVolume(percent) => {
                self.effect(Effect::SetVolume(*percent));
            },
            _ => {
                if self.streaming_player {
                    self.player_mpris_event(event, shared);
                } else {
                    self.fallback_mpris_event(event);
                }
            },
        }
    }

    /// Take the native player's answer to a shuffle request from MPRIS.
    pub fn mpris_shuffle_answer(&mut self, on: bool, accepted: bool)
        ensures
            final(self)@ == old(self)@.mpris_shuffle_answered(on, accepted),
    {
        if accepted {
            self.effect(Effect::MprisShuffle(on));
            self.record_native_shuffle(on);
        }
    }

    /// Take the native player's answer to a loop request from MPRIS.
    pub fn mpris_loop_answer(&mut self, status: LoopStatusEvent, accepted: bool)
        ensures
            final(self)@ == old(self)@.mpris_loop_answered(status, accepted),
    {
        if accepted {
            self.effect(Effect::MprisLoopStatus(status));
            self.record_native_repeat(repeat_state_from_loop(status));
        }
    }
}

} // verus!
