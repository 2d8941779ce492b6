//! Laws of ownership: which source is heard, and who answers for it.

use crate::app::{App, AppView, PlaybackContext, Player, QueueSlot};
use crate::events::{Effect, MprisEvent};
use rspotify::model::enums::RepeatState;
use vstd::prelude::*;

verus! {

/// The decoded source that is heard, told by its player, which may not be there
/// yet. A queued track comes before every session; among the sessions, local
/// files come first, then Subsonic, YouTube, Qobuz and radio.
pub open spec fn heard(app: AppView) -> Option<Option<Player>> {
    if app.queue_slot is Some {
        match app.queue_slot->0 {
            QueueSlot::Decoded(player) => Some(player),
            QueueSlot::Spotify => None,
        }
    } else if app.local is Some {
        Some(Some(app.local->0.player))
    } else if app.subsonic is Some {
        Some(app.subsonic->0.player)
    } else if app.youtube is Some {
        Some(app.youtube->0.player)
    } else if app.qobuz is Some {
        Some(app.qobuz->0.player)
    } else if app.radio is Some {
        Some(Some(app.radio->0.player))
    } else {
        None
    }
}

/// A source with a queue is heard: there is no queued track, and there is a
/// session other than radio.
pub open spec fn has_queue(app: AppView) -> bool {
    app.queue_slot is None && !(app.local is None && app.subsonic is None && app.youtube is None
        && app.qobuz is None)
}

/// From `before` to `after`, exactly these effects were added at the end, and
/// nothing else changed.
pub open spec fn only_did(before: AppView, after: AppView, added: Seq<Effect>) -> bool {
    &&& after.effects =~= before.effects + added
    &&& after == (AppView { effects: after.effects, ..before })
}

/// The source that is heard claims playback; it is served by its own player; and
/// it has a queue where it is a session other than radio.
pub proof fn the_heard_source_owns_playback(app: AppView)
    ensures
        app.queue_owns() <==> app.queue_slot is Some,
        app.decoded_source() <==> heard(app) is Some,
        app.decoded_claims() <==> heard(app) is Some,
        heard(app) is Some ==> app.decoded_player() == heard(app)->0,
        heard(app) is None ==> app.decoded_player() is None,
        app.queueable() <==> has_queue(app),
        app.spotify_shielded() <==> heard(app) is Some || app.queue_slot is Some,
{
}

/// An MPRIS request is kept from Spotify where a decoded source is heard, or the
/// native queue plays and the request is for a mode; but never one for the
/// volume.
pub proof fn mpris_requests_are_claimed(app: AppView, event: MprisEvent)
    ensures
        event is SetVolume ==> !app.mpris_claimed(event),
        !(event is SetVolume) && heard(app) is Some ==> app.mpris_claimed(event),
        (event is SetShuffle || event is SetLoopStatus) && app.queue_slot is Some
            ==> app.mpris_claimed(event),
        app.mpris_claimed(event) ==> heard(app) is Some || app.queue_slot is Some,
        app.mpris_claimed(event) && heard(app) is None ==> event is SetShuffle
            || event is SetLoopStatus,
        !app.mpris_claimed(event) ==> app.mpris_routed(event) == app,
{
}

/// The state is valid if and only if every session's place is one of its queue.
pub proof fn valid_sessions_have_a_current_track(app: AppView)
    ensures
        app.wf() <==> {
            &&& app.local is Some ==> app.local->0.queue.index < app.local->0.queue.uris.len()
            &&& app.subsonic is Some ==> app.subsonic->0.queue.index
                < app.subsonic->0.queue.uris.len()
            &&& app.youtube is Some ==> app.youtube->0.queue.index < app.youtube->0.queue.uris.len()
            &&& app.qobuz is Some ==> app.qobuz->0.queue.index < app.qobuz->0.queue.uris.len()
        },
{
}

/// What the mathematics speak of is what the state holds.
pub proof fn the_view_is_the_state(app: App)
    ensures
        app@.decoded_shuffle == app.decoded_shuffle,
        app@.decoded_repeat == app.decoded_repeat,
        app@.radio == app.radio_playback,
        app@.queue_slot == app.queue_slot,
        app@.context == app.current_playback_context,
        app@.streaming_player == app.streaming_player,
        app@.native_streaming_active == app.native_streaming_active,
        app@.native_track_loaded == app.native_track_loaded,
        app@.native_is_playing == app.native_is_playing,
        app@.native_recovery == app.native_recovery,
        app@.native_backend_pending == app.native_backend_pending,
        app@.mpris_registered == app.mpris_registered,
        app@.shuffle_enabled == app.shuffle_enabled,
        app@.song_progress_ms == app.song_progress_ms,
        app@.enable_media_keys == app.enable_media_keys,
        app@.active_source == app.active_source,
        app@.track_table == app.track_table@,
        app@.effects == app.effects@,
        app@.local is Some <==> app.local_playback is Some,
        app@.subsonic is Some <==> app.subsonic_playback is Some,
        app@.youtube is Some <==> app.youtube_playback is Some,
        app@.qobuz is Some <==> app.qobuz_playback is Some,
        app@.status is Some <==> app.status is Some,
        app.local_playback matches Some(s) ==> {
            &&& app@.local->0.player == s.player
            &&& app@.local->0.name == s.name@
            &&& app@.local->0.artists == s.artists@
            &&& app@.local->0.album == s.album@
            &&& app@.local->0.duration_ms == s.duration_ms
            &&& app@.local->0.queue.uris == s.queue.uris@
            &&& app@.local->0.queue.index == s.queue.index
            &&& app@.local->0.queue.advancing == s.queue.advancing
            &&& app@.local->0.queue.draws == s.queue.draws@
            &&& app@.local->0.queue.backup is Some <==> s.queue.shuffle_backup is Some
            &&& s.queue.shuffle_backup matches Some(b) ==> {
                &&& app@.local->0.queue.backup->0.uris == b.uris@
                &&& app@.local->0.queue.backup->0.places == b.places@
            }
        },
        app.subsonic_playback matches Some(s) ==> app@.subsonic->0.player == s.player
            && app@.subsonic->0.queue == s.queue@,
        app.youtube_playback matches Some(s) ==> app@.youtube->0.player == s.player
            && app@.youtube->0.queue == s.queue@,
        app.qobuz_playback matches Some(s) ==> app@.qobuz->0.player == s.player
            && app@.qobuz->0.queue == s.queue@,
        app.status matches Some(s) ==> {
            &&& app@.status->0.text == s.text@
            &&& app@.status->0.ttl_secs == s.ttl_secs
            &&& app@.status->0.error == s.error
        },
{
}

/// To ask one more thing, to show a line, or to record a mode in the Spotify
/// context changes just that.
pub proof fn small_steps_change_one_thing(
    app: AppView,
    effect: Effect,
    text: Seq<char>,
    ttl_secs: u64,
    on: bool,
    state: RepeatState,
    ms: u32,
)
    ensures
        only_did(app, app.with(effect), seq![effect]),
        ({
            let said = app.with_status(text, ttl_secs);
            &&& said == (AppView { status: said.status, ..app })
            &&& said.status is Some
            &&& said.status->0.text == text
            &&& said.status->0.ttl_secs == ttl_secs
            &&& !said.status->0.error
            &&& app.with_error(text, ttl_secs) == (AppView {
                status: app.with_error(text, ttl_secs).status,
                ..app
            })
            &&& app.with_error(text, ttl_secs).status is Some
            &&& app.with_error(text, ttl_secs).status->0.text == text
            &&& app.with_error(text, ttl_secs).status->0.ttl_secs == ttl_secs
            &&& app.with_error(text, ttl_secs).status->0.error
        }),
        app.context is None ==> app.with_context_shuffle(on) == app && app.with_context_repeat(
            state,
        ) == app,
        app.context matches Some(c) ==> {
            &&& app.with_context_shuffle(on) == (AppView {
                context: Some(PlaybackContext { shuffle_state: on, ..c }),
                ..app
            })
            &&& app.with_context_repeat(state) == (AppView {
                context: Some(PlaybackContext { repeat_state: state, ..c }),
                ..app
            })
        },
        ({
            let sought = app.seek_committed(ms);
            &&& sought.song_progress_ms == ms
            &&& sought.native_recovery.position_ms == Some(ms)
            &&& sought.native_recovery.playing == app.native_recovery.playing
            &&& sought.native_recovery.shuffle == app.native_recovery.shuffle
            &&& sought.native_recovery.repeat == app.native_recovery.repeat
            &&& sought == (AppView {
                song_progress_ms: sought.song_progress_ms,
                native_recovery: sought.native_recovery,
                ..app
            })
        }),
        ({
            let wished = app.with_intent(on);
            &&& wished.native_recovery.playing == Some(on)
            &&& wished.native_recovery.position_ms == app.native_recovery.position_ms
            &&& wished.native_recovery.shuffle == app.native_recovery.shuffle
            &&& wished.native_recovery.repeat == app.native_recovery.repeat
            &&& wished == (AppView { native_recovery: wished.native_recovery, ..app })
        }),
{
}

/// At rest nothing is heard, nothing is known of Spotify, nothing waits to be
/// done, and media keys are allowed.
pub proof fn at_rest_nothing_is_heard()
    ensures
        ({
            let app = AppView::idle();
            &&& heard(app) is None
            &&& app.queue_slot is None
            &&& app.context is None
            &&& !app.streaming_player
            &&& !app.native_streaming_active
            &&& !app.native_track_loaded
            &&& !app.native_backend_pending
            &&& app.native_is_playing is None
            &&& app.native_recovery.shuffle is None
            &&& app.native_recovery.repeat is None
            &&& app.native_recovery.position_ms is None
            &&& app.native_recovery.playing is None
            &&& !app.decoded_shuffle
            &&& app.decoded_repeat == crate::repeat::RepeatMode::Off
            &&& app.enable_media_keys
            &&& app.status is None
            &&& app.effects.len() == 0
            &&& app.track_table.len() == 0
            &&& app.song_progress_ms == 0
        }),
{
}

} // verus!
