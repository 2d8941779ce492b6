//! The shuffle and repeat toggles.
//!
//! A decoded source with a queue answers for itself. A decoded source without
//! one (radio, the native queue) ignores the toggle, rather than letting it
//! reach a Spotify device that nobody is listening to. Only with no decoded
//! source in the way does a toggle concern Spotify.

use crate::app::{
    App, AppView, LocalPlayback, LocalView, NativeRecovery, RemotePlayback, RemoteView,
};
use crate::events::{Effect, IoEvent};
use crate::repeat::{
    decoded_repeat_from_state, loop_status_from_state, next_repeat_state, RepeatMode,
};
use rspotify::model::enums::RepeatState;
use vstd::prelude::*;

verus! {

/// An optional local session whose queue, if there is one, is settled.
pub open spec fn settled_local(session: Option<LocalView>, on: bool) -> Option<LocalView> {
    match session {
        Some(s) => Some(LocalView { queue: s.queue.settled(on), ..s }),
        None => None,
    }
}

/// An optional remote session whose queue, if there is one, is settled.
pub open spec fn settled_remote(session: Option<RemoteView>, on: bool) -> Option<RemoteView> {
    match session {
        Some(s) => Some(RemoteView { queue: s.queue.settled(on), ..s }),
        None => None,
    }
}

/// The status line that the shuffle toggle shows.
pub open spec fn shuffle_label(on: bool) -> Seq<char> {
    if on {
        "Shuffle: On"@
    } else {
        "Shuffle: Off"@
    }
}

/// The status line that the repeat toggle shows.
pub open spec fn repeat_label(mode: RepeatMode) -> Seq<char> {
    match mode {
        RepeatMode::Off => "Repeat: Off"@,
        RepeatMode::Context => "Repeat: All"@,
        RepeatMode::Track => "Repeat: One"@,
    }
}

impl AppView {
    /// The owning source's queue follows the decoded shuffle flag. A local
    /// session comes before a Subsonic one, and either before the others.
    pub open spec fn order_synced(self) -> AppView {
        let on = self.decoded_shuffle;
        if self.local is Some {
            AppView { local: settled_local(self.local, on), ..self }
        } else if self.subsonic is Some {
            AppView { subsonic: settled_remote(self.subsonic, on), ..self }
        } else {
            AppView {
                youtube: settled_remote(self.youtube, on),
                qobuz: settled_remote(self.qobuz, on),
                ..self
            }
        }
    }

    /// As [`order_synced`](Self::order_synced), but for a suspended context,
    /// which keeps its order until it resumes.
    pub open spec fn reconciled(self) -> AppView {
        if self.queue_owns() {
            self
        } else {
            self.order_synced()
        }
    }

    /// The decoded shuffle flag set to `on`, if a source with a queue owns
    /// playback.
    pub open spec fn decoded_shuffle_set(self, on: bool) -> AppView {
        if self.queueable() && self.decoded_shuffle != on {
            (AppView { decoded_shuffle: on, ..self }).order_synced()
        } else {
            self
        }
    }

    /// The decoded repeat mode set, if a source with a queue owns playback.
    pub open spec fn decoded_repeat_set(self, mode: RepeatMode) -> AppView {
        if self.queueable() {
            AppView { decoded_repeat: mode, ..self }
        } else {
            self
        }
    }

    /// A decoded source or the native queue stands between the toggle keys and
    /// Spotify.
    pub open spec fn spotify_shielded(self) -> bool {
        self.decoded_source() || self.queue_owns()
    }

    /// After native streaming took the shuffle setting `on`: remembered for a
    /// recovery, shown at once, and kept.
    pub open spec fn native_shuffle_recorded(self, on: bool) -> AppView {
        let noted = AppView {
            native_recovery: NativeRecovery { shuffle: Some(on), ..self.native_recovery },
            shuffle_enabled: on,
            ..self
        };
        noted.with_context_shuffle(on).with(Effect::SaveShuffle(on))
    }

    /// After native streaming took the repeat state: remembered for a recovery
    /// and shown at once.
    pub open spec fn native_repeat_recorded(self, state: RepeatState) -> AppView {
        let noted = AppView {
            native_recovery: NativeRecovery { repeat: Some(state), ..self.native_recovery },
            ..self
        };
        noted.with_context_repeat(state)
    }

    /// With one more effect if the MPRIS interface is registered.
    pub open spec fn with_if_mpris(self, effect: Effect) -> AppView {
        if self.mpris_registered {
            self.with(effect)
        } else {
            self
        }
    }

    /// After the shuffle toggle.
    pub open spec fn shuffle_toggled(self) -> AppView {
        if self.queueable() {
            let on = !self.decoded_shuffle;
            self.decoded_shuffle_set(on).with_status(shuffle_label(on), 2)
        } else if self.spotify_shielded() {
            self.with_status("Shuffle does not apply to this source"@, 2)
        } else if self.context is Some {
            let on = !self.context->0.shuffle_state;
            if self.native_streaming_active && self.streaming_player {
                self.with(
                    Effect::Dispatch(IoEvent::ToggleNativeShuffleSession(on)),
                ).native_shuffle_recorded(on).with_if_mpris(Effect::MprisShuffle(on))
            } else {
                self.with(Effect::SpotifyFallback(IoEvent::Shuffle(on)))
            }
        } else {
            self
        }
    }

    /// After the repeat toggle.
    pub open spec fn repeat_toggled(self) -> AppView {
        if self.queueable() {
            let mode = crate::repeat::next_mode(self.decoded_repeat);
            self.decoded_repeat_set(mode).with_status(repeat_label(mode), 2)
        } else if self.spotify_shielded() {
            self.with_status("Repeat does not apply to this source"@, 2)
        } else if self.context is Some {
            let state = self.context->0.repeat_state;
            if self.native_streaming_active && self.streaming_player {
                let next = crate::repeat::next_state(state);
                self.with(Effect::PlayerCycleRepeat(state)).native_repeat_recorded(
                    next,
                ).with_if_mpris(Effect::MprisLoopStatus(crate::repeat::loop_of_state(next)))
            } else {
                self.with(Effect::SpotifyFallback(IoEvent::Repeat(state)))
            }
        } else {
            self
        }
    }
}

/// Settle the queue of a local session, if there is one.
fn settle_local(session: &mut Option<LocalPlayback>, on: bool)
    ensures
        crate::app::local_view(*final(session)) == settled_local(
            crate::app::local_view(*old(session)),
            on,
        ),
        *final(session) matches Some(s) ==> (old(session)->0.queue@.wf() ==> s.queue@.wf()),
{
    if let Some(s) = session.as_mut() {
        s.queue.settle_shuffle(on);
    }
}

/// Settle the queue of a remote session, if there is one.
fn settle_remote(session: &mut Option<RemotePlayback>, on: bool)
    ensures
        crate::app::remote_view(*final(session)) == settled_remote(
            crate::app::remote_view(*old(session)),
            on,
        ),
        *final(session) matches Some(s) ==> (old(session)->0.queue@.wf() ==> s.queue@.wf()),
{
    if let Some(s) = session.as_mut() {
        s.queue.settle_shuffle(on);
    }
}

impl App {
    /// Apply the decoded shuffle flag to whatever source owns playback: reorder
    /// its queue when turning on, restore the order before when turning off. The
    /// current track stays the same. While a track change is in flight the
    /// reordering is left to
    /// [`reconcile_decoded_shuffle`](Self::reconcile_decoded_shuffle).
    pub fn apply_decoded_shuffle(&mut self)
        ensures
            final(self)@ == old(self)@.order_synced(),
            old(self)@.wf() ==> final(self)@.wf(),
    {
        let on: bool = self.decoded_shuffle;
        if self.local_playback.is_some() {
            settle_local(&mut self.local_playback, on);
        } else if self.subsonic_playback.is_some() {
            settle_remote(&mut self.subsonic_playback, on);
        } else {
            settle_remote(&mut self.youtube_playback, on);
            settle_remote(&mut self.qobuz_playback, on);
        }
    }

    /// Bring the owning source's queue in line with the decoded shuffle flag,
    /// once the track change that deferred a toggle has committed. Nothing
    /// happens where the order already matches, so every tick may call it.
    pub fn reconcile_decoded_shuffle(&mut self)
        ensures
            final(self)@ == old(self)@.reconciled(),
            old(self)@.wf() ==> final(self)@.wf(),
    {
        if self.queue_owns_playback() {
            return;
        }
        self.apply_decoded_shuffle();
    }

    /// Store a Spotify repeat state as the decoded repeat mode. Returns whether
    /// it did: not while the native queue owns playback, nor without a source
    /// that has a queue.
    pub fn set_decoded_repeat_from_state(&mut self, state: RepeatState) -> (consumed: bool)
        ensures
            consumed == old(self)@.queueable(),
            final(self)@ == old(self)@.decoded_repeat_set(crate::repeat::mode_of_state(state)),
    {
        if !self.active_queueable_decoded_source() {
            return false;
        }
        self.decoded_repeat = decoded_repeat_from_state(state);
        true
    }

    /// Set decoded shuffle from an external media controller, reordering the
    /// owning source's queue. Returns whether a source with a queue took it; if
    /// not, the caller rejects the request and corrects the controller.
    pub fn set_decoded_shuffle(&mut self, on: bool) -> (consumed: bool)
        ensures
            consumed == old(self)@.queueable(),
            final(self)@ == old(self)@.decoded_shuffle_set(on),
            old(self)@.wf() ==> final(self)@.wf(),
    {
        if !self.active_queueable_decoded_source() {
            return false;
        }
        if self.decoded_shuffle != on {
            self.decoded_shuffle = on;
            self.apply_decoded_shuffle();
        }
        true
    }

    /// Set the decoded repeat mode from an external media controller. Returns
    /// whether a source with a queue took it.
    pub fn set_decoded_repeat(&mut self, mode: RepeatMode) -> (consumed: bool)
        ensures
            consumed == old(self)@.queueable(),
            final(self)@ == old(self)@.decoded_repeat_set(mode),
    {
        if !self.active_queueable_decoded_source() {
            return false;
        }
        self.decoded_repeat = mode;
        true
    }

    /// Record that native streaming took a shuffle setting.
    pub(crate) fn record_native_shuffle(&mut self, on: bool)
        ensures
            final(self)@ == old(self)@.native_shuffle_recorded(on),
    {
        self.native_recovery.shuffle = Some(on);
        self.set_context_shuffle_state(on);
        self.shuffle_enabled = on;
        self.effect(Effect::SaveShuffle(on));
    }

    /// Record that native streaming took a repeat state.
    pub(crate) fn record_native_repeat(&mut self, state: RepeatState)
        ensures
            final(self)@ == old(self)@.native_repeat_recorded(state),
    {
        self.native_recovery.repeat = Some(state);
        self.set_context_repeat_state(state);
    }

    /// Toggle shuffle of whatever owns playback.
    pub fn shuffle(&mut self)
        ensures
            final(self)@ == old(self)@.shuffle_toggled(),
            old(self)@.wf() ==> final(self)@.wf(),
    {
        if self.active_queueable_decoded_source() {
            self.decoded_shuffle = !self.decoded_shuffle;
            self.apply_decoded_shuffle();
            let label: &str = if self.decoded_shuffle {
                "Shuffle: On"
            } else {
                "Shuffle: Off"
            };
            self.set_status_message(label, 2);
            return;
        }
        if self.active_decoded_source() || self.queue_owns_playback() {
            self.set_status_message("Shuffle does not apply to this source", 2);
            return;
        }
        if let Some(context) = self.current_playback_context {
            let on: bool = !context.shuffle_state;
            if self.native_streaming_active && self.streaming_player {
                self.effect(Effect::Dispatch(IoEvent::ToggleNativeShuffleSession(on)));
                self.record_native_shuffle(on);
                if self.mpris_registered {
                    self.effect(Effect::MprisShuffle(on));
                }
                return;
            }
            self.effect(Effect::SpotifyFallback(IoEvent::Shuffle(on)));
        }
    }

    /// Move whatever owns playback on to its next repeat mode.
    pub fn repeat(&mut self)
        ensures
            final(self)@ == old(self)@.repeat_toggled(),
            old(self)@.wf() ==> final(self)@.wf(),
    {
        if self.active_queueable_decoded_source() {
            self.decoded_repeat = self.decoded_repeat.next();
            let label: &str = match self.decoded_repeat {
                RepeatMode::Off => "Repeat: Off",
                RepeatMode::Context => "Repeat: All",
                RepeatMode::Track => "Repeat: One",
            };
            self.set_status_message(label, 2);
            return;
        }
        if self.active_decoded_source() || self.queue_owns_playback() {
            self.set_status_message("Repeat does not apply to this source", 2);
            return;
        }
        if let Some(context) = self.current_playback_context {
            let state: RepeatState = context.repeat_state;
            if self.native_streaming_active && self.streaming_player {
                self.effect(Effect::PlayerCycleRepeat(state));
                let next: RepeatState = next_repeat_state(state);
                self.record_native_repeat(next);
                if self.mpris_registered {
                    self.effect(Effect::MprisLoopStatus(loop_status_from_state(next)));
                }
                return;
            }
            self.effect(Effect::SpotifyFallback(IoEvent::Repeat(state)));
        }
    }
}

} // verus!
