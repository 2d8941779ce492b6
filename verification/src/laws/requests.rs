//! Laws of the control requests, one by one: what each asks of whom.
//!
//! Each law says of one request what a decoded source does with it, what the
//! native player, and what a Spotify device of somebody else's.

use crate::app::{AppView, NativeRecovery, PlaybackContext};
use crate::events::{Effect, IoEvent, MacMediaEvent, MprisEvent, WindowsMediaEvent};
use crate::mpris::SharedPlayback;
use crate::repeat::{LoopStatusEvent, MacRepeatMode, RepeatMode};
use rspotify::model::enums::RepeatState;
use vstd::prelude::*;

verus! {

/// A decoded source is heard, and its player is there.
pub open spec fn decoded_answers(app: AppView) -> bool {
    crate::laws::owners::heard(app) matches Some(player) && player is Some
}

/// With the wish to play, or not, remembered.
pub open spec fn wishing(app: AppView, playing: bool) -> AppView {
    AppView {
        native_recovery: NativeRecovery { playing: Some(playing), ..app.native_recovery },
        ..app
    }
}

/// To play resumes whoever is heard.
pub proof fn mpris_play_resumes(app: AppView, shared: SharedPlayback)
    requires
        app.enable_media_keys,
    ensures
        ({
            let after = app.mpris_handled(MprisEvent::Play, shared);
            let resume = IoEvent::StartPlayback(None, None, None);
            let decoded = crate::laws::owners::heard(app) is Some;
            &&& decoded_answers(app) ==> crate::laws::owners::only_did(
                app,
                after,
                seq![Effect::Dispatch(resume)],
            )
            &&& !decoded && app.streaming_player ==> crate::laws::owners::only_did(
                wishing(app, true),
                after,
                seq![Effect::PlayerPlay],
            )
            &&& !decoded && !app.streaming_player ==> crate::laws::owners::only_did(
                app,
                after,
                seq![Effect::SpotifyFallback(resume)],
            )
        }),
{
}

/// To pause, or to stop, pauses whoever is heard.
pub proof fn mpris_pause_pauses(app: AppView, event: MprisEvent, shared: SharedPlayback)
    requires
        app.enable_media_keys,
        event is Pause || event is Stop,
    ensures
        ({
            let after = app.mpris_handled(event, shared);
            let decoded = crate::laws::owners::heard(app) is Some;
            &&& decoded_answers(app) ==> crate::laws::owners::only_did(
                app,
                after,
                seq![Effect::Dispatch(IoEvent::PausePlayback)],
            )
            &&& !decoded && app.streaming_player ==> crate::laws::owners::only_did(
                wishing(app, false),
                after,
                seq![Effect::PlayerPause],
            )
            &&& !decoded && !app.streaming_player ==> crate::laws::owners::only_did(
                app,
                after,
                seq![Effect::SpotifyFallback(IoEvent::PausePlayback)],
            )
        }),
{
}

/// To toggle pauses whoever is heard and plays, and resumes whoever is heard and
/// does not. Whether a decoded source plays, its player says; whether the native
/// player does, what it shares; and of another device, the native player's last
/// word, or else the context.
pub proof fn mpris_toggle_inverts_playing(app: AppView, shared: SharedPlayback)
    requires
        app.enable_media_keys,
    ensures
        ({
            let after = app.mpris_handled(MprisEvent::PlayPause, shared);
            let resume = IoEvent::StartPlayback(None, None, None);
            let decoded = crate::laws::owners::heard(app) is Some;
            let device_plays = app.native_is_playing == Some(true) || (app.native_is_playing is None
                && app.context is Some && app.context->0.is_playing);
            &&& decoded_answers(app) && crate::laws::owners::heard(app)->0->0.paused
                ==> crate::laws::owners::only_did(app, after, seq![Effect::Dispatch(resume)])
            &&& decoded_answers(app) && !crate::laws::owners::heard(app)->0->0.paused
                ==> crate::laws::owners::only_did(
                app,
                after,
                seq![Effect::Dispatch(IoEvent::PausePlayback)],
            )
            &&& !decoded && app.streaming_player && shared.is_playing
                ==> crate::laws::owners::only_did(app, after, seq![Effect::PlayerPause])
            &&& !decoded && app.streaming_player && !shared.is_playing
                ==> crate::laws::owners::only_did(app, after, seq![Effect::PlayerPlay])
            &&& !decoded && !app.streaming_player && device_plays ==> crate::laws::owners::only_did(
                app,
                after,
                seq![Effect::SpotifyFallback(IoEvent::PausePlayback)],
            )
            &&& !decoded && !app.streaming_player && !device_plays
                ==> crate::laws::owners::only_did(
                app,
                after,
                seq![Effect::SpotifyFallback(resume)],
            )
        }),
{
}

/// To skip skips in whoever is heard.
pub proof fn mpris_skips(app: AppView, shared: SharedPlayback)
    requires
        app.enable_media_keys,
    ensures
        ({
            let next = app.mpris_handled(MprisEvent::Next, shared);
            let previous = app.mpris_handled(MprisEvent::Previous, shared);
            &&& decoded_answers(app) ==> crate::laws::owners::only_did(
                app,
                next,
                seq![Effect::Dispatch(IoEvent::NextTrack)],
            ) && crate::laws::owners::only_did(
                app,
                previous,
                seq![Effect::Dispatch(IoEvent::PreviousTrack)],
            )
            &&& crate::laws::owners::heard(app) is None ==> crate::laws::owners::only_did(
                app,
                next,
                seq![Effect::NextTrack],
            ) && crate::laws::owners::only_did(app, previous, seq![Effect::PreviousTrack])
        }),
{
}

/// From `before` to `after`, whoever is heard was sent to the millisecond `ms`,
/// and MPRIS clients were told of that same millisecond.
pub open spec fn sent_to(before: AppView, after: AppView, ms: u32) -> bool {
    let decoded = crate::laws::owners::heard(before) is Some;
    &&& decoded_answers(before) ==> crate::laws::owners::only_did(
        before,
        after,
        seq![Effect::Dispatch(IoEvent::Seek(ms)), Effect::MprisSeeked(ms as u64)],
    )
    &&& !decoded && before.streaming_player ==> crate::laws::owners::only_did(
        before,
        after,
        seq![
            Effect::PlayerSeek(ms),
            Effect::StoreSharedPosition(ms as u64),
            Effect::CommitSeek(ms),
            Effect::MprisSeeked(ms as u64),
        ],
    )
    &&& !decoded && !before.streaming_player ==> crate::laws::owners::only_did(
        AppView { song_progress_ms: ms as u128, ..before },
        after,
        seq![Effect::SpotifyFallback(IoEvent::Seek(ms)), Effect::MprisSeeked(ms as u64)],
    )
}

/// A request for an absolute position of a whole number of milliseconds is met
/// exactly, whoever answers it.
pub proof fn mpris_positions_are_met(app: AppView, shared: SharedPlayback, ms: u32)
    requires
        app.enable_media_keys,
    ensures
        sent_to(app, app.mpris_handled(MprisEvent::SetPosition((ms * 1000) as i64), shared), ms),
{
    crate::laws::control::positions_are_reached(ms);
}

/// A request for any absolute position leads to its whole milliseconds, and one
/// before the start to the start.
pub proof fn mpris_positions_lead_to_whole_milliseconds(
    app: AppView,
    shared: SharedPlayback,
    micros: i64,
)
    requires
        app.enable_media_keys,
    ensures
        sent_to(
            app,
            app.mpris_handled(MprisEvent::SetPosition(micros), shared),
            crate::laws::positions::landing(crate::laws::positions::offset_ms(micros)) as u32,
        ),
{
    crate::laws::positions::an_absolute_position_lands_where_it_says(micros);
}

/// A relative seek starts from where whoever answers it is: the decoded player's
/// own position, the one that the native player shares, or the one on screen.
pub proof fn mpris_seeks_start_from_the_answerer(
    app: AppView,
    shared: SharedPlayback,
    offset: i64,
    position_ms: int,
)
    requires
        app.enable_media_keys,
        decoded_answers(app) ==> position_ms == crate::laws::owners::heard(app)->0->0.position_ms,
        crate::laws::owners::heard(app) is None && app.streaming_player ==> position_ms
            == shared.position_ms,
        crate::laws::owners::heard(app) is None && !app.streaming_player ==> position_ms
            == app.song_progress_ms,
        0 <= position_ms <= i64::MAX,
        position_ms + crate::laws::positions::offset_ms(offset) <= i64::MAX,
    ensures
        sent_to(
            app,
            app.mpris_handled(MprisEvent::Seek(offset), shared),
            crate::laws::positions::landing(
                position_ms + crate::laws::positions::offset_ms(offset),
            ) as u32,
        ),
{
    crate::laws::positions::a_seek_lands_by_its_offset(position_ms, offset);
}

/// However large the position, two answerers that are at the same one are sent
/// to the same millisecond by the same seek.
pub proof fn mpris_seeks_depend_on_the_position_alone(
    app: AppView,
    shared: SharedPlayback,
    offset: i64,
    position_ms: int,
)
    requires
        app.enable_media_keys,
        decoded_answers(app) ==> position_ms == crate::laws::owners::heard(app)->0->0.position_ms,
        crate::laws::owners::heard(app) is None && app.streaming_player ==> position_ms
            == shared.position_ms,
        crate::laws::owners::heard(app) is None && !app.streaming_player ==> position_ms
            == app.song_progress_ms,
    ensures
        sent_to(
            app,
            app.mpris_handled(MprisEvent::Seek(offset), shared),
            crate::position::seek_target(position_ms, offset),
        ),
{
}

/// A shuffle request becomes the shuffle of a decoded source with a queue; is
/// put to the native player, which answers; or goes to the device, and is shown
/// and kept at once.
pub proof fn mpris_shuffle_is_put_to_the_heard(app: AppView, shared: SharedPlayback, on: bool)
    requires
        app.enable_media_keys,
        app.queue_slot is None,
    ensures
        ({
            let after = app.mpris_handled(MprisEvent::SetShuffle(on), shared);
            let decoded = crate::laws::owners::heard(app) is Some;
            &&& decoded_answers(app) && crate::laws::owners::has_queue(app)
                ==> after.decoded_shuffle == on && after.effects =~= app.effects + seq![
                Effect::MprisShuffle(on),
            ] && after == (AppView { effects: after.effects, ..app.decoded_shuffle_set(on) })
            &&& decoded_answers(app) && !crate::laws::owners::has_queue(app)
                ==> crate::laws::owners::only_did(app, after, seq![Effect::MprisShuffle(false)])
            &&& !decoded && app.streaming_player ==> crate::laws::owners::only_did(
                app,
                after,
                seq![Effect::PlayerSetShuffle(on)],
            )
            &&& !decoded && !app.streaming_player ==> crate::laws::owners::only_did(
                AppView {
                    shuffle_enabled: on,
                    context: if app.context is Some {
                        Some(PlaybackContext { shuffle_state: on, ..app.context->0 })
                    } else {
                        None
                    },
                    ..app
                },
                after,
                seq![
                    Effect::MprisShuffle(on),
                    Effect::SaveShuffle(on),
                    Effect::SpotifyFallback(IoEvent::Shuffle(on)),
                ],
            )
        }),
{
}

/// The decoded mode and the Spotify state mean what the loop status does.
pub open spec fn same_loop(status: LoopStatusEvent, mode: RepeatMode, state: RepeatState) -> bool {
    &&& status == LoopStatusEvent::Off <==> mode == RepeatMode::Off
    &&& status == LoopStatusEvent::Track <==> mode == RepeatMode::Track
    &&& status == LoopStatusEvent::Playlist <==> mode == RepeatMode::Context
    &&& status == LoopStatusEvent::Off <==> state == RepeatState::Off
    &&& status == LoopStatusEvent::Track <==> state == RepeatState::Track
    &&& status == LoopStatusEvent::Playlist <==> state == RepeatState::Context
}

/// A loop request becomes the repeat of a decoded source with a queue; is put to
/// the native player, which answers; or goes to the device, and is shown at
/// once.
pub proof fn mpris_loop_is_put_to_the_heard(
    app: AppView,
    shared: SharedPlayback,
    status: LoopStatusEvent,
    mode: RepeatMode,
    state: RepeatState,
)
    requires
        app.enable_media_keys,
        app.queue_slot is None,
        same_loop(status, mode, state),
    ensures
        ({
            let after = app.mpris_handled(MprisEvent::SetLoopStatus(status), shared);
            let decoded = crate::laws::owners::heard(app) is Some;
            &&& decoded_answers(app) && crate::laws::owners::has_queue(app)
                ==> crate::laws::owners::only_did(
                AppView { decoded_repeat: mode, ..app },
                after,
                seq![Effect::MprisLoopStatus(status)],
            )
            &&& decoded_answers(app) && !crate::laws::owners::has_queue(app)
                ==> crate::laws::owners::only_did(
                app,
                after,
                seq![Effect::MprisLoopStatus(LoopStatusEvent::Off)],
            )
            &&& !decoded && app.streaming_player ==> crate::laws::owners::only_did(
                app,
                after,
                seq![Effect::PlayerSetRepeat(state)],
            )
            &&& !decoded && !app.streaming_player ==> crate::laws::owners::only_did(
                AppView {
                    context: if app.context is Some {
                        Some(PlaybackContext { repeat_state: state, ..app.context->0 })
                    } else {
                        None
                    },
                    ..app
                },
                after,
                seq![
                    Effect::MprisLoopStatus(status),
                    Effect::SpotifyFallback(IoEvent::Repeat(state)),
                ],
            )
        }),
{
}

/// Over the native queue a request for a mode is answered with off, and a
/// request for the volume sets the volume; nothing else changes.
pub proof fn mpris_modes_over_the_queue_are_off(
    app: AppView,
    shared: SharedPlayback,
    on: bool,
    status: LoopStatusEvent,
    percent: u8,
)
    requires
        app.enable_media_keys,
    ensures
        app.queue_slot is Some ==> crate::laws::owners::only_did(
            app,
            app.mpris_handled(MprisEvent::SetShuffle(on), shared),
            seq![Effect::MprisShuffle(false)],
        ) && crate::laws::owners::only_did(
            app,
            app.mpris_handled(MprisEvent::SetLoopStatus(status), shared),
            seq![Effect::MprisLoopStatus(LoopStatusEvent::Off)],
        ),
        crate::laws::owners::only_did(
            app,
            app.mpris_handled(MprisEvent::SetVolume(percent), shared),
            seq![Effect::SetVolume(percent)],
        ),
{
}

/// A decoded source that is heard but has no player yet swallows requests. (Over
/// the native queue, a request for a mode is answered all the same.)
pub proof fn requests_to_a_missing_player_are_swallowed(
    app: AppView,
    mpris: MprisEvent,
    shared: SharedPlayback,
    mac: MacMediaEvent,
    windows: WindowsMediaEvent,
    player_active: bool,
)
    requires
        crate::laws::owners::heard(app) == Some(None::<crate::app::Player>),
        !(mpris is SetVolume),
        app.queue_slot is None || !(mpris is SetShuffle || mpris is SetLoopStatus),
    ensures
        app.mpris_handled(mpris, shared) == app,
        app.macos_handled(mac, player_active, shared.is_playing) == app,
        app.windows_handled(windows, player_active) == app,
{
}

/// After the native player took a shuffle request, the setting is shown, kept
/// and remembered, and whoever asked is told; nothing else changes.
pub proof fn taken_shuffle_is_recorded(app: AppView, on: bool)
    ensures
        ({
            let recorded = AppView {
                native_recovery: NativeRecovery { shuffle: Some(on), ..app.native_recovery },
                shuffle_enabled: on,
                context: if app.context is Some {
                    Some(PlaybackContext { shuffle_state: on, ..app.context->0 })
                } else {
                    None
                },
                ..app
            };
            &&& crate::laws::owners::only_did(
                recorded,
                app.mpris_shuffle_answered(on, true),
                seq![Effect::MprisShuffle(on), Effect::SaveShuffle(on)],
            )
            &&& crate::laws::owners::only_did(
                recorded,
                app.macos_shuffle_answered(on, true),
                seq![Effect::SaveShuffle(on), Effect::MacShuffle(on)],
            )
        }),
{
}

/// The Now Playing mode and the Spotify state mean what the decoded mode does.
pub open spec fn same_repeat(mac: MacRepeatMode, mode: RepeatMode, state: RepeatState) -> bool {
    &&& mac == MacRepeatMode::Off <==> mode == RepeatMode::Off
    &&& mac == MacRepeatMode::One <==> mode == RepeatMode::Track
    &&& mac == MacRepeatMode::All <==> mode == RepeatMode::Context
    &&& mac == MacRepeatMode::Off <==> state == RepeatState::Off
    &&& mac == MacRepeatMode::One <==> state == RepeatState::Track
    &&& mac == MacRepeatMode::All <==> state == RepeatState::Context
}

/// After the native player took a repeat request, the state is shown and
/// remembered, and whoever asked is told; nothing else changes.
pub proof fn taken_repeat_is_recorded(
    app: AppView,
    status: LoopStatusEvent,
    mac: MacRepeatMode,
    mode: RepeatMode,
    state: RepeatState,
)
    requires
        same_loop(status, mode, state),
        same_repeat(mac, mode, state),
    ensures
        ({
            let recorded = AppView {
                native_recovery: NativeRecovery { repeat: Some(state), ..app.native_recovery },
                context: if app.context is Some {
                    Some(PlaybackContext { repeat_state: state, ..app.context->0 })
                } else {
                    None
                },
                ..app
            };
            &&& crate::laws::owners::only_did(
                recorded,
                app.mpris_loop_answered(status, true),
                seq![Effect::MprisLoopStatus(status)],
            )
            &&& crate::laws::owners::only_did(
                recorded,
                app.macos_repeat_answered(mac, true),
                seq![Effect::MacRepeat(mac)],
            )
        }),
{
}

/// What macOS asks of a decoded source, an MPRIS client could have asked: the
/// source does the same.
pub proof fn macos_asks_decoded_sources_as_mpris_does(
    app: AppView,
    shared: SharedPlayback,
    player_active: bool,
    is_playing: bool,
)
    requires
        app.enable_media_keys,
        crate::laws::owners::heard(app) is Some,
    ensures
        app.macos_handled(MacMediaEvent::Play, player_active, is_playing) == app.mpris_handled(
            MprisEvent::Play,
            shared,
        ),
        app.macos_handled(MacMediaEvent::Pause, player_active, is_playing) == app.mpris_handled(
            MprisEvent::Pause,
            shared,
        ),
        app.macos_handled(MacMediaEvent::Stop, player_active, is_playing) == app.mpris_handled(
            MprisEvent::Stop,
            shared,
        ),
        app.macos_handled(MacMediaEvent::PlayPause, player_active, is_playing)
            == app.mpris_handled(MprisEvent::PlayPause, shared),
        app.macos_handled(MacMediaEvent::Next, player_active, is_playing) == app.mpris_handled(
            MprisEvent::Next,
            shared,
        ),
        app.macos_handled(MacMediaEvent::Previous, player_active, is_playing)
            == app.mpris_handled(MprisEvent::Previous, shared),
{
}

/// A scrubber's target reaches whoever is heard as it is.
pub proof fn macos_seeks_are_met(app: AppView, ms: u32, player_active: bool, is_playing: bool)
    requires
        app.enable_media_keys,
    ensures
        ({
            let after = app.macos_handled(MacMediaEvent::Seek(ms), player_active, is_playing);
            &&& decoded_answers(app) ==> crate::laws::owners::only_did(
                app,
                after,
                seq![Effect::Dispatch(IoEvent::Seek(ms))],
            )
            &&& crate::laws::owners::heard(app) is None && player_active
                ==> crate::laws::owners::only_did(
                app,
                after,
                seq![
                    Effect::PlayerSeek(ms),
                    Effect::StoreSharedPosition(ms as u64),
                    Effect::CommitSeek(ms),
                ],
            )
        }),
{
}

/// macOS modes become those of a decoded source with a queue, are dropped by one
/// without, and are put to the native player.
pub proof fn macos_modes_are_put_to_the_heard(
    app: AppView,
    on: bool,
    mac: MacRepeatMode,
    mode: RepeatMode,
    state: RepeatState,
    player_active: bool,
    is_playing: bool,
)
    requires
        app.enable_media_keys,
        same_repeat(mac, mode, state),
    ensures
        ({
            let shuffled = app.macos_handled(
                MacMediaEvent::SetShuffle(on),
                player_active,
                is_playing,
            );
            let repeated = app.macos_handled(
                MacMediaEvent::SetRepeat(mac),
                player_active,
                is_playing,
            );
            let heard = crate::laws::owners::heard(app);
            &&& decoded_answers(app) && crate::laws::owners::has_queue(app)
                ==> shuffled.decoded_shuffle == on && shuffled == app.decoded_shuffle_set(on)
                && repeated == (AppView { decoded_repeat: mode, ..app })
            &&& decoded_answers(app) && !crate::laws::owners::has_queue(app) ==> shuffled == app
                && repeated == app
            &&& heard is None && player_active ==> crate::laws::owners::only_did(
                app,
                shuffled,
                seq![Effect::PlayerSetShuffle(on)],
            ) && crate::laws::owners::only_did(
                app,
                repeated,
                seq![Effect::PlayerSetRepeat(state)],
            )
        }),
{
}

/// The native player does what macOS asks. Only a stop is remembered as a wish.
pub proof fn the_native_player_obeys_macos(app: AppView, is_playing: bool)
    requires
        app.enable_media_keys,
        crate::laws::owners::heard(app) is None,
    ensures
        crate::laws::owners::only_did(
            app,
            app.macos_handled(MacMediaEvent::Play, true, is_playing),
            seq![Effect::PlayerPlay],
        ),
        crate::laws::owners::only_did(
            app,
            app.macos_handled(MacMediaEvent::Pause, true, is_playing),
            seq![Effect::PlayerPause],
        ),
        crate::laws::owners::only_did(
            app,
            app.macos_handled(MacMediaEvent::PlayPause, true, true),
            seq![Effect::PlayerPause],
        ),
        crate::laws::owners::only_did(
            app,
            app.macos_handled(MacMediaEvent::PlayPause, true, false),
            seq![Effect::PlayerPlay],
        ),
        crate::laws::owners::only_did(
            wishing(app, false),
            app.macos_handled(MacMediaEvent::Stop, true, is_playing),
            seq![Effect::PlayerPause],
        ),
        crate::laws::owners::only_did(
            app,
            app.macos_handled(MacMediaEvent::Next, true, is_playing),
            seq![Effect::NextTrack],
        ),
        crate::laws::owners::only_did(
            app,
            app.macos_handled(MacMediaEvent::Previous, true, is_playing),
            seq![Effect::PreviousTrack],
        ),
{
}

/// With neither a decoded source nor an active native player, macOS requests do
/// nothing.
pub proof fn macos_requests_to_nobody_do_nothing(
    app: AppView,
    event: MacMediaEvent,
    is_playing: bool,
)
    requires
        crate::laws::owners::heard(app) is None,
    ensures
        app.macos_handled(event, false, is_playing) == app,
{
}

/// What Windows asks of a decoded source, an MPRIS client could have asked: the
/// source does the same.
pub proof fn windows_asks_decoded_sources_as_mpris_does(
    app: AppView,
    shared: SharedPlayback,
    player_active: bool,
)
    requires
        app.enable_media_keys,
        crate::laws::owners::heard(app) is Some,
    ensures
        app.windows_handled(WindowsMediaEvent::Play, player_active) == app.mpris_handled(
            MprisEvent::Play,
            shared,
        ),
        app.windows_handled(WindowsMediaEvent::Pause, player_active) == app.mpris_handled(
            MprisEvent::Pause,
            shared,
        ),
        app.windows_handled(WindowsMediaEvent::Stop, player_active) == app.mpris_handled(
            MprisEvent::Stop,
            shared,
        ),
        app.windows_handled(WindowsMediaEvent::Next, player_active) == app.mpris_handled(
            MprisEvent::Next,
            shared,
        ),
        app.windows_handled(WindowsMediaEvent::Previous, player_active) == app.mpris_handled(
            MprisEvent::Previous,
            shared,
        ),
{
}

/// With no decoded source heard, Windows plays, pauses and stops the native
/// player where it is active and has a track, and another device where not; and
/// it skips in whoever is heard.
pub proof fn windows_controls_spotify(app: AppView, player_active: bool)
    requires
        app.enable_media_keys,
        crate::laws::owners::heard(app) is None,
    ensures
        ({
            let play = app.windows_handled(WindowsMediaEvent::Play, player_active);
            let pause = app.windows_handled(WindowsMediaEvent::Pause, player_active);
            let stop = app.windows_handled(WindowsMediaEvent::Stop, player_active);
            let native = player_active && app.native_track_loaded;
            &&& native ==> crate::laws::owners::only_did(app, play, seq![Effect::PlayerPlay])
            &&& native ==> crate::laws::owners::only_did(app, pause, seq![Effect::PlayerPause])
            &&& native ==> crate::laws::owners::only_did(
                wishing(app, false),
                stop,
                seq![Effect::PlayerPause],
            )
            &&& !native ==> crate::laws::owners::only_did(
                app,
                play,
                seq![Effect::SpotifyFallback(IoEvent::StartPlayback(None, None, None))],
            )
            &&& !native ==> crate::laws::owners::only_did(
                app,
                pause,
                seq![Effect::SpotifyFallback(IoEvent::PausePlayback)],
            )
            &&& !native ==> stop == pause
        }),
        crate::laws::owners::only_did(
            app,
            app.windows_handled(WindowsMediaEvent::Next, player_active),
            seq![Effect::NextTrack],
        ),
        crate::laws::owners::only_did(
            app,
            app.windows_handled(WindowsMediaEvent::Previous, player_active),
            seq![Effect::PreviousTrack],
        ),
{
}

/// A position from Windows is met exactly where it fits a player's 32 bits, and
/// in its low bits where not. It is shown at once, but for the native player,
/// which reports its own.
pub proof fn windows_positions_are_met(app: AppView, position: u64, player_active: bool)
    requires
        app.enable_media_keys,
    ensures
        ({
            let after = app.windows_handled(
                WindowsMediaEvent::SetPosition(position),
                player_active,
            );
            let ms = (position as int % 0x1_0000_0000) as u32;
            let shown = AppView { song_progress_ms: position as u128, ..app };
            let heard = crate::laws::owners::heard(app);
            let native = player_active && app.native_track_loaded;
            &&& position <= u32::MAX ==> ms == position
            &&& decoded_answers(app) ==> crate::laws::owners::only_did(
                shown,
                after,
                seq![Effect::Dispatch(IoEvent::Seek(ms))],
            )
            &&& heard is None && native ==> crate::laws::owners::only_did(
                app,
                after,
                seq![Effect::PlayerSeek(ms)],
            )
            &&& heard is None && !native ==> crate::laws::owners::only_did(
                shown,
                after,
                seq![Effect::SpotifyFallback(IoEvent::Seek(ms))],
            )
        }),
{
}

} // verus!
