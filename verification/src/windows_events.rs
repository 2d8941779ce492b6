//! Control requests from the Windows media transport controls.

use crate::app::{App, AppView};
use crate::events::{Effect, IoEvent, WindowsMediaEvent};
use crate::position::low_u32;
use vstd::prelude::*;

verus! {

impl AppView {
    /// After a decoded source answered the request. One whose player is not
    /// there yet swallows it.
    pub open spec fn windows_routed(self, event: WindowsMediaEvent) -> AppView {
        if self.decoded_player() is None {
            self
        } else {
            match event {
                WindowsMediaEvent::Play => self.with(
                    Effect::Dispatch(crate::events::resume_event()),
                ),
                WindowsMediaEvent::Pause | WindowsMediaEvent::Stop => self.with(
                    Effect::Dispatch(IoEvent::PausePlayback),
                ),
                WindowsMediaEvent::Next => self.with(Effect::Dispatch(IoEvent::NextTrack)),
                WindowsMediaEvent::Previous => self.with(Effect::Dispatch(IoEvent::PreviousTrack)),
                WindowsMediaEvent::SetPosition(ms) => (AppView {
                    song_progress_ms: ms as u128,
                    ..self
                }).with(
                    Effect::Dispatch(IoEvent::Seek(crate::position::wrapped_u32(ms as int))),
                ),
            }
        }
    }

    /// After the request reached Spotify: through the native player if one is
    /// active and has a track, or else out to a device of somebody else's.
    pub open spec fn windows_to_spotify(
        self,
        event: WindowsMediaEvent,
        player_active: bool,
    ) -> AppView {
        let native = player_active && self.native_track_loaded;
        match event {
            WindowsMediaEvent::Play => self.with(
                if native {
                    Effect::PlayerPlay
                } else {
                    Effect::SpotifyFallback(crate::events::resume_event())
                },
            ),
            WindowsMediaEvent::Pause => self.with(
                if native {
                    Effect::PlayerPause
                } else {
                    Effect::SpotifyFallback(IoEvent::PausePlayback)
                },
            ),
            WindowsMediaEvent::Next => self.with(Effect::NextTrack),
            WindowsMediaEvent::Previous => self.with(Effect::PreviousTrack),
            WindowsMediaEvent::Stop => if native {
                self.with(Effect::PlayerPause).with_intent(false)
            } else {
                self.with(Effect::SpotifyFallback(IoEvent::PausePlayback))
            },
            WindowsMediaEvent::SetPosition(ms) => {
                let low = crate::position::wrapped_u32(ms as int);
                if native {
                    self.with(Effect::PlayerSeek(low))
                } else {
                    (AppView { song_progress_ms: ms as u128, ..self }).with(
                        Effect::SpotifyFallback(IoEvent::Seek(low)),
                    )
                }
            },
        }
    }

    /// After a Windows request. Nothing happens while media keys are disabled.
    pub open spec fn windows_handled(
        self,
        event: WindowsMediaEvent,
        player_active: bool,
    ) -> AppView {
        if !self.enable_media_keys {
            self
        } else if self.decoded_claims() {
            self.windows_routed(event)
        } else {
            self.windows_to_spotify(event, player_active)
        }
    }
}

impl App {
    /// Route a Windows request to the decoded source that owns playback. Returns
    /// whether the request is dealt with.
    pub fn route_decoded_windows_event(&mut self, event: &WindowsMediaEvent) -> (consumed: bool)
        ensures
            consumed == old(self)@.decoded_claims(),
            final(self)@ == old(self)@.windows_routed(*event),
            old(self)@.wf() ==> final(self)@.wf(),
    {
        if self.active_decoded_player().is_none() {
            return self.active_decoded_source();
        }
        match event {
            WindowsMediaEvent::Play => {
                self.effect(Effect::Dispatch(IoEvent::StartPlayback(None, None, None)));
            },
            WindowsMediaEvent::Pause | WindowsMediaEvent::Stop => {
                self.effect(Effect::Dispatch(IoEvent::PausePlayback));
            },
            WindowsMediaEvent::Next => {
                self.effect(Effect::Dispatch(IoEvent::NextTrack));
            },
            WindowsMediaEvent::Previous => {
                self.effect(Effect::Dispatch(IoEvent::PreviousTrack));
            },
            WindowsMediaEvent::SetPosition(ms) => {
                self.song_progress_ms = *ms as u128;
                self.effect(Effect::Dispatch(IoEvent::Seek(low_u32(*ms))));
            },
        }
        true
    }

    /// Hand a Windows request to Spotify.
    fn spotify_windows_event(&mut self, event: &WindowsMediaEvent, player_active: bool)
        ensures
            final(self)@ == old(self)@.windows_to_spotify(*event, player_active),
    {
        let native: bool = player_active && self.native_track_loaded;
        match event {
            WindowsMediaEvent::Play => {
                if native {
                    self.effect(Effect::PlayerPlay);
                } else {
                    self.effect(
                        Effect::SpotifyFallback(IoEvent::StartPlayback(None, None, None)),
                    );
                }
            },
            WindowsMediaEvent::Pause => {
                if native {
                    self.effect(Effect::PlayerPause);
                } else {
                    self.effect(Effect::SpotifyFallback(IoEvent::PausePlayback));
                }
            },
            WindowsMediaEvent::Next => {
                self.effect(Effect::NextTrack);
            },
            WindowsMediaEvent::Previous => {
                self.effect(Effect::PreviousTrack);
            },
            WindowsMediaEvent::Stop => {
                if native {
                    self.effect(Effect::PlayerPause);
                    self.set_native_playback_intent(false);
                } else {
                    self.effect(Effect::SpotifyFallback(IoEvent::PausePlayback));
                }
            },
            WindowsMediaEvent::SetPosition(ms) => {
                let low: u32 = low_u32(*ms);
                if native {
                    self.effect(Effect::PlayerSeek(low));
                } else {
                    self.song_progress_ms = *ms as u128;
                    self.effect(Effect::SpotifyFallback(IoEvent::Seek(low)));
                }
            },
        }
    }

    /// Handle one Windows request. `player_active` says whether a native player
    /// is active.
    pub fn handle_windows_media_event(&mut self, event: &WindowsMediaEvent, player_active: bool)
        ensures
            final(self)@ == old(self)@.windows_handled(*event, player_active),
            old(self)@.wf() ==> final(self)@.wf(),
    {
        if !self.enable_media_keys {
            return;
        }
        if self.route_decoded_windows_event(event) {
            return;
        }
        self.spotify_windows_event(event, player_active);
    }
}

} // verus!
