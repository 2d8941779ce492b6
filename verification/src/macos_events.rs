//! Control requests from macOS: media keys, Control Center, headphones.

use crate::app::{App, AppView, Player};
use crate::events::{Effect, IoEvent, MacMediaEvent};
use crate::repeat::{decoded_repeat_from_mac, repeat_state_from_mac, MacRepeatMode, RepeatMode};
use vstd::prelude::*;

verus! {

impl AppView {
    /// Does a decoded source answer in the native player's place?
    pub open spec fn decoded_claims(self) -> bool {
        self.decoded_player() is Some || self.decoded_source()
    }

    /// After a decoded source answered the request. One whose player is not
    /// there yet swallows it.
    pub open spec fn macos_routed(self, event: MacMediaEvent) -> AppView {
        if self.decoded_player() is Some {
            self.macos_served(event, self.decoded_player()->0)
        } else {
            self
        }
    }

    /// After a decoded source with a player answered the request.
    pub open spec fn macos_served(self, event: MacMediaEvent, player: Player) -> AppView {
        match event {
            MacMediaEvent::PlayPause => self.with(
                Effect::Dispatch(crate::mpris::toggle_event(!player.paused)),
            ),
            MacMediaEvent::Play => self.with(Effect::Dispatch(crate::events::resume_event())),
            MacMediaEvent::Pause | MacMediaEvent::Stop => self.with(
                Effect::Dispatch(IoEvent::PausePlayback),
            ),
            MacMediaEvent::Next => self.with(Effect::Dispatch(IoEvent::NextTrack)),
            MacMediaEvent::Previous => self.with(Effect::Dispatch(IoEvent::PreviousTrack)),
            MacMediaEvent::Seek(ms) => self.with(Effect::Dispatch(IoEvent::Seek(ms))),
            MacMediaEvent::SetShuffle(on) => self.decoded_shuffle_set(on),
            MacMediaEvent::SetRepeat(mode) => self.decoded_repeat_set(
                crate::repeat::mode_of_mac(mode),
            ),
        }
    }

    /// After the native player got the request. It reports back on shuffle and
    /// repeat before anything else changes.
    pub open spec fn macos_to_player(self, event: MacMediaEvent, is_playing: bool) -> AppView {
        match event {
            MacMediaEvent::PlayPause => self.with(
                if is_playing {
                    Effect::PlayerPause
                } else {
                    Effect::PlayerPlay
                },
            ),
            MacMediaEvent::Play => self.with(Effect::PlayerPlay),
            MacMediaEvent::Pause => self.with(Effect::PlayerPause),
            MacMediaEvent::Next => self.with(Effect::NextTrack),
            MacMediaEvent::Previous => self.with(Effect::PreviousTrack),
            MacMediaEvent::Stop => self.with(Effect::PlayerPause).with_intent(false),
            MacMediaEvent::Seek(ms) => self.native_sought(ms),
            MacMediaEvent::SetShuffle(on) => self.with(Effect::PlayerSetShuffle(on)),
            MacMediaEvent::SetRepeat(mode) => self.with(
                Effect::PlayerSetRepeat(
                    crate::repeat::state_of_mode(crate::repeat::mode_of_mac(mode)),
                ),
            ),
        }
    }

    /// After a macOS request. Nothing happens while media keys are disabled, nor
    /// without a decoded source or an active native player to answer.
    pub open spec fn macos_handled(
        self,
        event: MacMediaEvent,
        player_active: bool,
        is_playing: bool,
    ) -> AppView {
        if !self.enable_media_keys {
            self
        } else if self.decoded_claims() {
            self.macos_routed(event)
        } else if player_active {
            self.macos_to_player(event, is_playing)
        } else {
            self
        }
    }

    /// After the native player said whether it took a shuffle request.
    pub open spec fn macos_shuffle_answered(self, on: bool, accepted: bool) -> AppView {
        if accepted {
            self.native_shuffle_recorded(on).with(Effect::MacShuffle(on))
        } else {
            self
        }
    }

    /// After the native player said whether it took a repeat request.
    pub open spec fn macos_repeat_answered(self, mode: MacRepeatMode, accepted: bool) -> AppView {
        if accepted {
            self.native_repeat_recorded(
                crate::repeat::state_of_mode(crate::repeat::mode_of_mac(mode)),
            ).with(Effect::MacRepeat(mode))
        } else {
            self
        }
    }
}

impl App {
    /// Route a macOS request to the decoded source that owns playback. Returns
    /// whether the request is dealt with. A source that cannot honour shuffle or
    /// repeat drops them, so they never reach a Spotify device that nobody is
    /// listening to.
    pub fn route_decoded_macos_event(&mut self, event: &MacMediaEvent) -> (consumed: bool)
        ensures
            consumed == old(self)@.decoded_claims(),
            final(self)@ == old(self)@.macos_routed(*event),
            old(self)@.wf() ==> final(self)@.wf(),
    {
        let player: Player = match self.active_decoded_player() {
            Some(player) => player,
            None => {
                return self.active_decoded_source();
            },
        };
        match event {
            MacMediaEvent::PlayPause => {
                if player.paused {
                    self.effect(Effect::Dispatch(IoEvent::StartPlayback(None, None, None)));
                } else {
                    self.effect(Effect::Dispatch(IoEvent::PausePlayback));
                }
            },
            MacMediaEvent::Play => {
                self.effect(Effect::Dispatch(IoEvent::StartPlayback(None, None, None)));
            },
            MacMediaEvent::Pause | MacMediaEvent::Stop => {
                self.effect(Effect::Dispatch(IoEvent::PausePlayback));
            },
            MacMediaEvent::Next => {
                self.effect(Effect::Dispatch(IoEvent::NextTrack));
            },
            MacMediaEvent::Previous => {
                self.effect(Effect::Dispatch(IoEvent::PreviousTrack));
            },
            MacMediaEvent::Seek(ms) => {
                self.effect(Effect::Dispatch(IoEvent::Seek(*ms)));
            },
            MacMediaEvent::SetShuffle(on) => {
                self.set_decoded_shuffle(*on);
            },
            MacMediaEvent::SetRepeat(mode) => {
                let repeat: RepeatMode = decoded_repeat_from_mac(*mode);
                self.set_decoded_repeat(repeat);
            },
        }
        true
    }

    /// Hand a macOS request to the native player.
    fn player_macos_event(&mut self, event: &MacMediaEvent, is_playing: bool)
        ensures
            final(self)@ == old(self)@.macos_to_player(*event, is_playing),
    {
        match event {
            MacMediaEvent::PlayPause => {
                if is_playing {
                    self.effect(Effect::PlayerPause);
                } else {
                    self.effect(Effect::PlayerPlay);
                }
            },
            MacMediaEvent::Play => {
                self.effect(Effect::PlayerPlay);
            },
            MacMediaEvent::Pause => {
                self.effect(Effect::PlayerPause);
            },
            MacMediaEvent::Next => {
                self.effect(Effect::NextTrack);
            },
            MacMediaEvent::Previous => {
                self.effect(Effect::PreviousTrack);
            },
            MacMediaEvent::Stop => {
                self.effect(Effect::PlayerPause);
                self.set_native_playback_intent(false);
            },
            MacMediaEvent::Seek(ms) => {
                self.seek_native(*ms);
            },
            MacMediaEvent::SetShuffle(on) => {
                self.effect(Effect::PlayerSetShuffle(*on));
            },
            MacMediaEvent::SetRepeat(mode) => {
                self.effect(Effect::PlayerSetRepeat(repeat_state_from_mac(*mode)));
            },
        }
    }

    /// Handle one macOS request. `player_active` says whether a native player is
    /// active, `is_playing` what it shares of its state.
    pub fn handle_macos_media_event(
        &mut self,
        event: &MacMediaEvent,
        player_active: bool,
        is_playing: bool,
    )
        ensures
            final(self)@ == old(self)@.macos_handled(*event, player_active, is_playing),
            old(self)@.wf() ==> final(self)@.wf(),
    {
        if !self.enable_media_keys {
            return;
        }
        if self.route_decoded_macos_event(event) {
            return;
        }
        if player_active {
            self.player_macos_event(event, is_playing);
        }
    }

    /// Take the native player's answer to a shuffle request from macOS.
    pub fn macos_shuffle_answer(&mut self, on: bool, accepted: bool)
        ensures
            final(self)@ == old(self)@.macos_shuffle_answered(on, accepted),
    {
        if accepted {
            self.record_native_shuffle(on);
            self.effect(Effect::MacShuffle(on));
        }
    }

    /// Take the native player's answer to a repeat request from macOS.
    pub fn macos_repeat_answer(&mut self, mode: MacRepeatMode, accepted: bool)
        ensures
            final(self)@ == old(self)@.macos_repeat_answered(mode, accepted),
    {
        if accepted {
            self.record_native_repeat(repeat_state_from_mac(mode));
            self.effect(Effect::MacRepeat(mode));
        }
    }
}

} // verus!
