//! The state that decides which source a control request reaches.

use crate::events::{Effect, Source};
use crate::queue::{DecodedQueue, QueueView};
use crate::repeat::RepeatMode;
use rspotify::model::enums::RepeatState;
use vstd::prelude::*;

verus! {

/// What a decoded source's audio player reports.
#[derive(Clone, Copy, Debug, PartialEq, Eq, Structural)]
pub struct Player {
    pub paused: bool,
    pub position_ms: u128,
}

/// A local-file session.
#[derive(Clone, Debug, PartialEq)]
pub struct LocalPlayback {
    pub queue: DecodedQueue,
    pub player: Player,
    pub name: String,
    pub artists: String,
    pub album: String,
    pub duration_ms: u64,
}

/// A session of a remote source with a queue: Subsonic, YouTube or Qobuz. Its
/// player is absent while a start is in flight.
#[derive(Clone, Debug, PartialEq)]
pub struct RemotePlayback {
    pub queue: DecodedQueue,
    pub player: Option<Player>,
}

/// An internet radio session. A live stream has no queue.
#[derive(Clone, Copy, Debug, PartialEq, Eq, Structural)]
pub struct RadioPlayback {
    pub player: Player,
}

/// What the native queue is playing, over whatever context it suspended.
#[derive(Clone, Copy, Debug, PartialEq, Eq, Structural)]
pub enum QueueSlot {
    /// A Spotify track: it has no decoded player.
    Spotify,
    /// A decoded track; its player is absent while a start is in flight.
    Decoded(Option<Player>),
}

/// The Spotify playback context, as last heard.
#[derive(Clone, Copy, Debug, PartialEq)]
pub struct PlaybackContext {
    pub is_playing: bool,
    pub shuffle_state: bool,
    pub repeat_state: RepeatState,
}

/// What to replay on a native streaming session that had to be rebuilt.
#[derive(Clone, Copy, Debug, PartialEq)]
pub struct NativeRecovery {
    pub shuffle: Option<bool>,
    pub repeat: Option<RepeatState>,
    pub position_ms: Option<u32>,
    pub playing: Option<bool>,
}

/// A line for the status bar, and for how many seconds.
#[derive(Clone, Debug, PartialEq, Eq)]
pub struct StatusMessage {
    pub text: String,
    pub ttl_secs: u64,
    pub error: bool,
}

/// A track of the browse table.
#[derive(Clone, Debug, PartialEq, Eq)]
pub struct Track {
    pub uri: Option<String>,
    pub name: String,
}

/// The state of the player.
#[derive(Debug, PartialEq)]
pub struct App {
    /// Shuffle of the decoded sources; belongs to the player as a whole.
    pub decoded_shuffle: bool,
    /// Repeat of the decoded sources; belongs to the player as a whole.
    pub decoded_repeat: RepeatMode,
    pub local_playback: Option<LocalPlayback>,
    pub subsonic_playback: Option<RemotePlayback>,
    pub youtube_playback: Option<RemotePlayback>,
    pub qobuz_playback: Option<RemotePlayback>,
    pub radio_playback: Option<RadioPlayback>,
    /// Present while the native queue owns playback.
    pub queue_slot: Option<QueueSlot>,
    pub current_playback_context: Option<PlaybackContext>,
    /// Is there a native streaming player?
    pub streaming_player: bool,
    /// Is the native streaming player the device that plays?
    pub native_streaming_active: bool,
    /// Has the native streaming player loaded a track?
    pub native_track_loaded: bool,
    /// What the native streaming player last said.
    pub native_is_playing: Option<bool>,
    pub native_recovery: NativeRecovery,
    /// Native streaming is still starting: requests park until it is done.
    pub native_backend_pending: bool,
    /// Is the MPRIS interface registered?
    pub mpris_registered: bool,
    /// The shuffle setting that is kept between launches.
    pub shuffle_enabled: bool,
    pub song_progress_ms: u128,
    /// May media keys control the player?
    pub enable_media_keys: bool,
    /// The source whose library is on screen.
    pub active_source: Source,
    pub track_table: Vec<Track>,
    pub status: Option<StatusMessage>,
    /// What is left for the surrounding program to do, in order.
    pub effects: Vec<Effect>,
}

/// A [`LocalPlayback`] as mathematics.
pub struct LocalView {
    pub queue: QueueView,
    pub player: Player,
    pub name: Seq<char>,
    pub artists: Seq<char>,
    pub album: Seq<char>,
    pub duration_ms: u64,
}

/// A [`RemotePlayback`] as mathematics.
pub struct RemoteView {
    pub queue: QueueView,
    pub player: Option<Player>,
}

/// A [`StatusMessage`] as mathematics.
pub struct StatusView {
    pub text: Seq<char>,
    pub ttl_secs: u64,
    pub error: bool,
}

/// An [`App`] as mathematics.
pub struct AppView {
    pub decoded_shuffle: bool,
    pub decoded_repeat: RepeatMode,
    pub local: Option<LocalView>,
    pub subsonic: Option<RemoteView>,
    pub youtube: Option<RemoteView>,
    pub qobuz: Option<RemoteView>,
    pub radio: Option<RadioPlayback>,
    pub queue_slot: Option<QueueSlot>,
    pub context: Option<PlaybackContext>,
    pub streaming_player: bool,
    pub native_streaming_active: bool,
    pub native_track_loaded: bool,
    pub native_is_playing: Option<bool>,
    pub native_recovery: NativeRecovery,
    pub native_backend_pending: bool,
    pub mpris_registered: bool,
    pub shuffle_enabled: bool,
    pub song_progress_ms: u128,
    pub enable_media_keys: bool,
    pub active_source: Source,
    pub track_table: Seq<Track>,
    pub status: Option<StatusView>,
    pub effects: Seq<Effect>,
}

impl View for LocalPlayback {
    type V = LocalView;

    open spec fn view(&self) -> LocalView {
        LocalView {
            queue: self.queue@,
            player: self.player,
            name: self.name@,
            artists: self.artists@,
            album: self.album@,
            duration_ms: self.duration_ms,
        }
    }
}

impl View for RemotePlayback {
    type V = RemoteView;

    open spec fn view(&self) -> RemoteView {
        RemoteView { queue: self.queue@, player: self.player }
    }
}

impl View for StatusMessage {
    type V = StatusView;

    open spec fn view(&self) -> StatusView {
        StatusView { text: self.text@, ttl_secs: self.ttl_secs, error: self.error }
    }
}

/// The view of an optional local session.
pub open spec fn local_view(p: Option<LocalPlayback>) -> Option<LocalView> {
    match p {
        Some(s) => Some(s@),
        None => None,
    }
}

/// The view of an optional remote session.
pub open spec fn remote_view(p: Option<RemotePlayback>) -> Option<RemoteView> {
    match p {
        Some(s) => Some(s@),
        None => None,
    }
}

/// The view of an optional status line.
pub open spec fn status_view(p: Option<StatusMessage>) -> Option<StatusView> {
    match p {
        Some(s) => Some(s@),
        None => None,
    }
}

impl View for App {
    type V = AppView;

    open spec fn view(&self) -> AppView {
        AppView {
            decoded_shuffle: self.decoded_shuffle,
            decoded_repeat: self.decoded_repeat,
            local: local_view(self.local_playback),
            subsonic: remote_view(self.subsonic_playback),
            youtube: remote_view(self.youtube_playback),
            qobuz: remote_view(self.qobuz_playback),
            radio: self.radio_playback,
            queue_slot: self.queue_slot,
            context: self.current_playback_context,
            streaming_player: self.streaming_player,
            native_streaming_active: self.native_streaming_active,
            native_track_loaded: self.native_track_loaded,
            native_is_playing: self.native_is_playing,
            native_recovery: self.native_recovery,
            native_backend_pending: self.native_backend_pending,
            mpris_registered: self.mpris_registered,
            shuffle_enabled: self.shuffle_enabled,
            song_progress_ms: self.song_progress_ms,
            enable_media_keys: self.enable_media_keys,
            active_source: self.active_source,
            track_table: self.track_table@,
            status: status_view(self.status),
            effects: self.effects@,
        }
    }
}

impl AppView {
    /// Every session's queue has a current track.
    pub open spec fn wf(self) -> bool {
        &&& self.local matches Some(s) ==> s.queue.wf()
        &&& self.subsonic matches Some(s) ==> s.queue.wf()
        &&& self.youtube matches Some(s) ==> s.queue.wf()
        &&& self.qobuz matches Some(s) ==> s.queue.wf()
    }

    /// Nothing plays, and nothing is known of Spotify.
    pub open spec fn idle() -> AppView {
        AppView {
            decoded_shuffle: false,
            decoded_repeat: RepeatMode::Off,
            local: None,
            subsonic: None,
            youtube: None,
            qobuz: None,
            radio: None,
            queue_slot: None,
            context: None,
            streaming_player: false,
            native_streaming_active: false,
            native_track_loaded: false,
            native_is_playing: None,
            native_recovery: NativeRecovery {
                shuffle: None,
                repeat: None,
                position_ms: None,
                playing: None,
            },
            native_backend_pending: false,
            mpris_registered: false,
            shuffle_enabled: false,
            song_progress_ms: 0,
            enable_media_keys: true,
            active_source: Source::Spotify,
            track_table: Seq::empty(),
            status: None,
            effects: Seq::empty(),
        }
    }

    /// The native queue owns playback; any session is a suspended context.
    pub open spec fn queue_owns(self) -> bool {
        self.queue_slot is Some
    }

    /// A decoded source with a queue owns playback.
    pub open spec fn queueable(self) -> bool {
        &&& !self.queue_owns()
        &&& self.local is Some || self.subsonic is Some || self.youtube is Some
            || self.qobuz is Some
    }

    /// A decoded source claims playback, whether or not it has a player yet.
    pub open spec fn decoded_source(self) -> bool {
        match self.queue_slot {
            Some(slot) => slot is Decoded,
            None => self.local is Some || self.subsonic is Some || self.youtube is Some
                || self.qobuz is Some || self.radio is Some,
        }
    }

    /// The player of the decoded source that owns playback.
    pub open spec fn decoded_player(self) -> Option<Player> {
        match self.queue_slot {
            Some(QueueSlot::Decoded(player)) => player,
            Some(QueueSlot::Spotify) => None,
            None => if self.local is Some {
                Some(self.local->0.player)
            } else if self.subsonic is Some {
                self.subsonic->0.player
            } else if self.youtube is Some {
                self.youtube->0.player
            } else if self.qobuz is Some {
                self.qobuz->0.player
            } else if self.radio is Some {
                Some(self.radio->0.player)
            } else {
                None
            },
        }
    }

    /// With one more effect at the end.
    pub open spec fn with(self, effect: Effect) -> AppView {
        AppView { effects: self.effects.push(effect), ..self }
    }

    /// With another status line.
    pub open spec fn with_status(self, text: Seq<char>, ttl_secs: u64) -> AppView {
        AppView { status: Some(StatusView { text, ttl_secs, error: false }), ..self }
    }

    /// With an error on the status line.
    pub open spec fn with_error(self, text: Seq<char>, ttl_secs: u64) -> AppView {
        AppView { status: Some(StatusView { text, ttl_secs, error: true }), ..self }
    }

    /// With the context's shuffle replaced, if there is a context.
    pub open spec fn with_context_shuffle(self, on: bool) -> AppView {
        AppView {
            context: match self.context {
                Some(c) => Some(PlaybackContext { shuffle_state: on, ..c }),
                None => None,
            },
            ..self
        }
    }

    /// With the context's repeat replaced, if there is a context.
    pub open spec fn with_context_repeat(self, state: RepeatState) -> AppView {
        AppView {
            context: match self.context {
                Some(c) => Some(PlaybackContext { repeat_state: state, ..c }),
                None => None,
            },
            ..self
        }
    }
}

impl App {
    /// A player at rest.
    pub fn new() -> (r: App)
        ensures
            r@ == AppView::idle(),
            r@.wf(),
    {
        App {
            decoded_shuffle: false,
            decoded_repeat: RepeatMode::Off,
            local_playback: None,
            subsonic_playback: None,
            youtube_playback: None,
            qobuz_playback: None,
            radio_playback: None,
            queue_slot: None,
            current_playback_context: None,
            streaming_player: false,
            native_streaming_active: false,
            native_track_loaded: false,
            native_is_playing: None,
            native_recovery: NativeRecovery {
                shuffle: None,
                repeat: None,
                position_ms: None,
                playing: None,
            },
            native_backend_pending: false,
            mpris_registered: false,
            shuffle_enabled: false,
            song_progress_ms: 0,
            enable_media_keys: true,
            active_source: Source::Spotify,
            track_table: Vec::new(),
            status: None,
            effects: Vec::new(),
        }
    }

    /// Does the native queue own playback?
    pub fn queue_owns_playback(&self) -> (r: bool)
        ensures
            r == self@.queue_owns(),
    {
        self.queue_slot.is_some()
    }

    /// Does a decoded source with a queue own playback?
    pub fn active_queueable_decoded_source(&self) -> (r: bool)
        ensures
            r == self@.queueable(),
    {
        self.queue_slot.is_none() && (self.local_playback.is_some()
            || self.subsonic_playback.is_some() || self.youtube_playback.is_some()
            || self.qobuz_playback.is_some())
    }

    /// Does a decoded source claim playback?
    pub fn active_decoded_source(&self) -> (r: bool)
        ensures
            r == self@.decoded_source(),
    {
        match self.queue_slot {
            Some(QueueSlot::Decoded(_)) => true,
            Some(QueueSlot::Spotify) => false,
            None => self.local_playback.is_some() || self.subsonic_playback.is_some()
                || self.youtube_playback.is_some() || self.qobuz_playback.is_some()
                || self.radio_playback.is_some(),
        }
    }

    /// The player of the decoded source that owns playback, if it has one.
    pub fn active_decoded_player(&self) -> (r: Option<Player>)
        ensures
            r == self@.decoded_player(),
    {
        match self.queue_slot {
            Some(QueueSlot::Decoded(player)) => return player,
            Some(QueueSlot::Spotify) => return None,
            None => {},
        }
        if let Some(s) = &self.local_playback {
            return Some(s.player);
        }
        if let Some(s) = &self.subsonic_playback {
            return s.player;
        }
        if let Some(s) = &self.youtube_playback {
            return s.player;
        }
        if let Some(s) = &self.qobuz_playback {
            return s.player;
        }
        if let Some(s) = &self.radio_playback {
            return Some(s.player);
        }
        None
    }

    /// Ask one more thing of the surrounding program.
    pub fn effect(&mut self, effect: Effect)
        ensures
            final(self)@ == old(self)@.with(effect),
    {
        self.effects.push(effect);
    }

    /// Hand over what is to be done, in order.
    pub fn take_effects(&mut self) -> (r: Vec<Effect>)
        ensures
            r@ == old(self)@.effects,
            final(self)@ == (AppView { effects: Seq::empty(), ..old(self)@ }),
    {
        let mut r: Vec<Effect> = Vec::new();
        std::mem::swap(&mut r, &mut self.effects);
        r
    }

    /// Show a line on the status bar.
    pub fn set_status_message(&mut self, text: &str, ttl_secs: u64)
        ensures
            final(self)@ == old(self)@.with_status(text@, ttl_secs),
    {
        self.status = Some(StatusMessage { text: text.to_owned(), ttl_secs, error: false });
    }

    /// Show an error on the status bar.
    pub fn set_error_status_message(&mut self, text: &str, ttl_secs: u64)
        ensures
            final(self)@ == old(self)@.with_error(text@, ttl_secs),
    {
        self.status = Some(StatusMessage { text: text.to_owned(), ttl_secs, error: true });
    }

    /// Record shuffle in the Spotify context, if there is one.
    pub fn set_context_shuffle_state(&mut self, on: bool)
        ensures
            final(self)@ == old(self)@.with_context_shuffle(on),
    {
        if let Some(context) = self.current_playback_context.as_mut() {
            context.shuffle_state = on;
        }
    }

    /// Record repeat in the Spotify context, if there is one.
    pub fn set_context_repeat_state(&mut self, state: RepeatState)
        ensures
            final(self)@ == old(self)@.with_context_repeat(state),
    {
        if let Some(context) = self.current_playback_context.as_mut() {
            context.repeat_state = state;
        }
    }
}

} // verus!
