//! Laws of the shuffle and repeat keys.

use crate::app::{AppView, LocalView, RemoteView};
use crate::events::{Effect, IoEvent, Source};
use crate::repeat::{LoopStatusEvent, RepeatMode};
use rspotify::model::enums::RepeatState;
use vstd::prelude::*;

verus! {

/// The Spotify context is what the keys act on: no decoded source is heard, no
/// queued track plays, and there is a context.
pub open spec fn spotify_is_heard(app: AppView) -> bool {
    &&& crate::laws::owners::heard(app) is None
    &&& app.queue_slot is None
    &&& app.context is Some
}

/// Under native streaming the shuffle key asks for the opposite of the context's
/// shuffle, and that is what is shown, kept and remembered for a recovery.
/// Nothing else changes.
pub proof fn the_shuffle_key_negates_native_shuffle(app: AppView)
    requires
        spotify_is_heard(app),
        app.native_streaming_active,
        app.streaming_player,
    ensures
        ({
            let before = app.context->0.shuffle_state;
            let after = app.shuffle_toggled();
            &&& after.context is Some
            &&& after.context->0.shuffle_state == !before
            &&& after.shuffle_enabled == !before
            &&& after.native_recovery.shuffle == Some(!before)
            &&& after.context->0.repeat_state == app.context->0.repeat_state
            &&& after.context->0.is_playing == app.context->0.is_playing
            &&& after.native_recovery.repeat == app.native_recovery.repeat
            &&& after.native_recovery.position_ms == app.native_recovery.position_ms
            &&& after.native_recovery.playing == app.native_recovery.playing
            &&& after.effects =~= app.effects + seq![
                Effect::Dispatch(IoEvent::ToggleNativeShuffleSession(!before)),
                Effect::SaveShuffle(!before),
            ] + if app.mpris_registered {
                seq![Effect::MprisShuffle(!before)]
            } else {
                seq![]
            }
            &&& after == (AppView {
                context: after.context,
                shuffle_enabled: after.shuffle_enabled,
                native_recovery: after.native_recovery,
                effects: after.effects,
                ..app
            })
        }),
{
}

/// Under native streaming, pressing the shuffle key twice gives the first
/// setting back.
pub proof fn the_shuffle_key_undoes_itself(app: AppView)
    requires
        spotify_is_heard(app),
        app.native_streaming_active,
        app.streaming_player,
    ensures
        ({
            let twice = app.shuffle_toggled().shuffle_toggled();
            &&& twice.context == app.context
            &&& twice.shuffle_enabled == app.context->0.shuffle_state
            &&& twice.native_recovery.shuffle == Some(app.context->0.shuffle_state)
        }),
{
}

/// Without a native player that plays, the shuffle key asks the device for the
/// opposite of the context's shuffle, and waits to hear of it: nothing else
/// changes.
pub proof fn the_shuffle_key_asks_another_device(app: AppView)
    requires
        spotify_is_heard(app),
        !(app.native_streaming_active && app.streaming_player),
    ensures
        crate::laws::owners::only_did(
            app,
            app.shuffle_toggled(),
            seq![Effect::SpotifyFallback(IoEvent::Shuffle(!app.context->0.shuffle_state))],
        ),
{
}

/// With a source that has a queue, the shuffle key negates the decoded shuffle
/// and says so. Spotify is left alone, and so is everything that is not a queue.
pub proof fn the_shuffle_key_negates_decoded_shuffle(app: AppView)
    requires
        crate::laws::owners::has_queue(app),
    ensures
        ({
            let after = app.shuffle_toggled();
            &&& after.decoded_shuffle == !app.decoded_shuffle
            &&& after.status is Some
            &&& after.status->0.text == if app.decoded_shuffle {
                "Shuffle: Off"@
            } else {
                "Shuffle: On"@
            }
            &&& after.status->0.ttl_secs == 2
            &&& !after.status->0.error
            &&& after == (AppView {
                decoded_shuffle: after.decoded_shuffle,
                status: after.status,
                local: after.local,
                subsonic: after.subsonic,
                youtube: after.youtube,
                qobuz: after.qobuz,
                ..app
            })
        }),
{
}

/// A local session differs in nothing but the order of its queue.
pub open spec fn local_but_for_order(before: Option<LocalView>, after: Option<LocalView>) -> bool {
    match (before, after) {
        (Some(b), Some(a)) => a == (LocalView { queue: a.queue, ..b }) && a.queue.advancing
            == b.queue.advancing && a.queue.draws == b.queue.draws,
        (None, None) => true,
        _ => false,
    }
}

/// A remote session differs in nothing but the order of its queue.
pub open spec fn remote_but_for_order(
    before: Option<RemoteView>,
    after: Option<RemoteView>,
) -> bool {
    match (before, after) {
        (Some(b), Some(a)) => a.player == b.player && a.queue.advancing == b.queue.advancing
            && a.queue.draws == b.queue.draws,
        (None, None) => true,
        _ => false,
    }
}

/// The sessions differ in nothing but the order of their queues.
pub open spec fn sessions_but_for_order(before: AppView, after: AppView) -> bool {
    &&& local_but_for_order(before.local, after.local)
    &&& remote_but_for_order(before.subsonic, after.subsonic)
    &&& remote_but_for_order(before.youtube, after.youtube)
    &&& remote_but_for_order(before.qobuz, after.qobuz)
}

/// However the decoded shuffle comes to change, by the key, by a controller or
/// by the tick, of the sessions only the order of queues changes.
pub proof fn shuffling_changes_only_orders(app: AppView, on: bool)
    ensures
        sessions_but_for_order(app, app.shuffle_toggled()),
        sessions_but_for_order(app, app.decoded_shuffle_set(on)),
        sessions_but_for_order(app, app.reconciled()),
{
}

/// From `before` to `after`, the queues that follow the flag came into the order
/// that `on` says, unless a track change is in flight; the others are untouched.
pub open spec fn queues_brought_in_line(
    before: AppView,
    after: AppView,
    on: bool,
    source: Source,
) -> bool {
    let q = crate::laws::order::queue_of(before, source)->0;
    let r = crate::laws::order::queue_of(after, source)->0;
    &&& crate::laws::order::queue_of(after, source) is Some
    &&& !crate::laws::order::follows(before, source) || q.advancing ==> r == q
    &&& crate::laws::order::follows(before, source) && !q.advancing ==> (r.backup is Some <==> on)
}

/// After the shuffle key, the queues are in line with the negated flag.
pub proof fn the_shuffle_key_reorders(app: AppView, source: Source)
    requires
        app.wf(),
        crate::laws::owners::has_queue(app),
        crate::laws::order::queue_of(app, source) is Some,
    ensures
        queues_brought_in_line(app, app.shuffle_toggled(), !app.decoded_shuffle, source),
{
    match source {
        Source::Local => {},
        Source::Subsonic => {},
        _ => {},
    }
}

/// After a controller's request that changes the flag, the queues are in line
/// with what it asked for.
pub proof fn requested_shuffle_reorders(app: AppView, on: bool, source: Source)
    requires
        app.wf(),
        crate::laws::owners::has_queue(app),
        on != app.decoded_shuffle,
        crate::laws::order::queue_of(app, source) is Some,
    ensures
        queues_brought_in_line(app, app.decoded_shuffle_set(on), on, source),
{
    match source {
        Source::Local => {},
        Source::Subsonic => {},
        _ => {},
    }
}

/// After the tick, the queues are in line with the flag, unless the native queue
/// suspended them.
pub proof fn the_tick_reorders(app: AppView, source: Source)
    requires
        app.wf(),
        app.queue_slot is None,
        crate::laws::order::queue_of(app, source) is Some,
    ensures
        queues_brought_in_line(app, app.reconciled(), app.decoded_shuffle, source),
{
    match source {
        Source::Local => {},
        Source::Subsonic => {},
        _ => {},
    }
}

/// A controller's request for a mode is taken by a source with a queue, whose
/// mode is then the one asked for; without such a source nothing changes.
pub proof fn requested_modes_are_taken(app: AppView, on: bool, mode: RepeatMode)
    ensures
        crate::laws::owners::has_queue(app) ==> app.decoded_shuffle_set(on).decoded_shuffle == on,
        crate::laws::owners::has_queue(app) ==> app.decoded_repeat_set(mode) == (AppView {
            decoded_repeat: mode,
            ..app
        }),
        on == app.decoded_shuffle ==> app.decoded_shuffle_set(on) == app,
        !crate::laws::owners::has_queue(app) ==> app.decoded_shuffle_set(on) == app
            && app.decoded_repeat_set(mode) == app,
        ({
            let set = app.decoded_shuffle_set(on);
            set == (AppView {
                decoded_shuffle: set.decoded_shuffle,
                local: set.local,
                subsonic: set.subsonic,
                youtube: set.youtube,
                qobuz: set.qobuz,
                ..app
            })
        }),
{
}

/// The tick changes nothing but the sessions' queues.
pub proof fn the_tick_changes_only_queues(app: AppView)
    ensures
        ({
            let tick = app.reconciled();
            tick == (AppView {
                local: tick.local,
                subsonic: tick.subsonic,
                youtube: tick.youtube,
                qobuz: tick.qobuz,
                ..app
            })
        }),
        app.queue_slot is Some ==> app.reconciled() == app,
{
}

/// Where the shuffle or repeat of the source that is heard means nothing, the
/// keys say so, and change nothing else.
pub proof fn keys_without_meaning_only_say_so(app: AppView)
    requires
        crate::laws::owners::heard(app) is Some || app.queue_slot is Some,
        !crate::laws::owners::has_queue(app),
    ensures
        ({
            let shuffled = app.shuffle_toggled();
            let repeated = app.repeat_toggled();
            &&& shuffled == (AppView { status: shuffled.status, ..app })
            &&& shuffled.status is Some
            &&& shuffled.status->0.text == "Shuffle does not apply to this source"@
            &&& shuffled.status->0.ttl_secs == 2
            &&& !shuffled.status->0.error
            &&& repeated == (AppView { status: repeated.status, ..app })
            &&& repeated.status is Some
            &&& repeated.status->0.text == "Repeat does not apply to this source"@
            &&& repeated.status->0.ttl_secs == 2
            &&& !repeated.status->0.error
        }),
{
}

/// With nothing heard and no Spotify context, the keys do nothing.
pub proof fn keys_without_playback_do_nothing(app: AppView)
    requires
        crate::laws::owners::heard(app) is None,
        app.queue_slot is None,
        app.context is None,
    ensures
        app.shuffle_toggled() == app,
        app.repeat_toggled() == app,
{
}

/// With a source that has a queue, the repeat key goes from off to the whole
/// queue, from there to the one track, and from there to off. It says which, and
/// changes nothing else.
pub proof fn the_repeat_key_moves_decoded_repeat(app: AppView)
    requires
        crate::laws::owners::has_queue(app),
    ensures
        ({
            let after = app.repeat_toggled();
            &&& app.decoded_repeat == RepeatMode::Off ==> after.decoded_repeat
                == RepeatMode::Context
            &&& app.decoded_repeat == RepeatMode::Context ==> after.decoded_repeat
                == RepeatMode::Track
            &&& app.decoded_repeat == RepeatMode::Track ==> after.decoded_repeat == RepeatMode::Off
            &&& after == (AppView {
                decoded_repeat: after.decoded_repeat,
                status: after.status,
                ..app
            })
            &&& after.status is Some
            &&& after.decoded_repeat == RepeatMode::Off ==> after.status->0.text == "Repeat: Off"@
            &&& after.decoded_repeat == RepeatMode::Context ==> after.status->0.text
                == "Repeat: All"@
            &&& after.decoded_repeat == RepeatMode::Track ==> after.status->0.text
                == "Repeat: One"@
            &&& after.status->0.ttl_secs == 2
            &&& !after.status->0.error
        }),
{
}

/// Under native streaming the repeat key hands the player the state to move on
/// from, and shows and remembers the state after it: off, context, track, off.
/// MPRIS clients, where there are any, are told the same. Nothing else changes.
pub proof fn the_repeat_key_moves_native_repeat(app: AppView)
    requires
        spotify_is_heard(app),
        app.native_streaming_active,
        app.streaming_player,
    ensures
        ({
            let before = app.context->0.repeat_state;
            let after = app.repeat_toggled();
            let next = after.context->0.repeat_state;
            &&& after.context is Some
            &&& before == RepeatState::Off ==> next == RepeatState::Context
            &&& before == RepeatState::Context ==> next == RepeatState::Track
            &&& before == RepeatState::Track ==> next == RepeatState::Off
            &&& after.native_recovery.repeat == Some(next)
            &&& after.context->0.shuffle_state == app.context->0.shuffle_state
            &&& after.context->0.is_playing == app.context->0.is_playing
            &&& after.native_recovery.shuffle == app.native_recovery.shuffle
            &&& after.native_recovery.position_ms == app.native_recovery.position_ms
            &&& after.native_recovery.playing == app.native_recovery.playing
            &&& !app.mpris_registered ==> after.effects =~= app.effects + seq![
                Effect::PlayerCycleRepeat(before),
            ]
            &&& app.mpris_registered ==> after.effects =~= app.effects + seq![
                Effect::PlayerCycleRepeat(before),
                Effect::MprisLoopStatus(
                    if next == RepeatState::Off {
                        LoopStatusEvent::Off
                    } else if next == RepeatState::Track {
                        LoopStatusEvent::Track
                    } else {
                        LoopStatusEvent::Playlist
                    },
                ),
            ]
            &&& after == (AppView {
                context: after.context,
                native_recovery: after.native_recovery,
                effects: after.effects,
                ..app
            })
        }),
{
}

/// Under native streaming, pressing the repeat key three times gives the first
/// state back, and fewer presses do not.
pub proof fn the_repeat_key_goes_round(app: AppView)
    requires
        spotify_is_heard(app),
        app.native_streaming_active,
        app.streaming_player,
    ensures
        ({
            let once = app.repeat_toggled();
            let twice = once.repeat_toggled();
            let thrice = twice.repeat_toggled();
            &&& once.context != app.context
            &&& twice.context != app.context
            &&& thrice.context == app.context
        }),
{
}

/// Without a native player that plays, the repeat key hands the device the state
/// to move on from, and nothing else changes.
pub proof fn the_repeat_key_asks_another_device(app: AppView)
    requires
        spotify_is_heard(app),
        !(app.native_streaming_active && app.streaming_player),
    ensures
        crate::laws::owners::only_did(
            app,
            app.repeat_toggled(),
            seq![Effect::SpotifyFallback(IoEvent::Repeat(app.context->0.repeat_state))],
        ),
{
}

} // verus!
