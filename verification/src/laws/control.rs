//! Laws of the control requests: whom they reach, and whom they never reach.

use crate::app::{AppView, Player};
use crate::events::{Effect, MacMediaEvent, MprisEvent, WindowsMediaEvent};
use crate::mpris::SharedPlayback;
use crate::repeat::{LoopStatusEvent, MacRepeatMode, RepeatMode};
use rspotify::model::enums::RepeatState;
use vstd::prelude::*;

verus! {

/// Does the effect act on Spotify: on the native player, on a device of
/// somebody else's, or on what is kept of Spotify's settings?
pub open spec fn reaches_spotify(effect: Effect) -> bool {
    match effect {
        Effect::SpotifyFallback(_)
        | Effect::PlayerPlay
        | Effect::PlayerPause
        | Effect::PlayerSeek(_)
        | Effect::PlayerCycleRepeat(_)
        | Effect::PlayerSetShuffle(_)
        | Effect::PlayerSetRepeat(_)
        | Effect::StoreSharedPosition(_)
        | Effect::CommitSeek(_)
        | Effect::SaveShuffle(_) => true,
        Effect::Dispatch(event) => event is ToggleNativeShuffleSession,
        _ => false,
    }
}

/// From `before` to `after`, effects were only added.
pub open spec fn only_adds(before: AppView, after: AppView) -> bool {
    before.effects.is_prefix_of(after.effects)
}

/// From `before` to `after`, nothing was done to Spotify, nor to what is known
/// of it.
pub open spec fn spares_spotify(before: AppView, after: AppView) -> bool {
    &&& only_adds(before, after)
    &&& forall|i: int|
        before.effects.len() <= i < after.effects.len() ==> !reaches_spotify(
            #[trigger] after.effects[i],
        )
    &&& after.context == before.context
    &&& after.native_recovery == before.native_recovery
    &&& after.shuffle_enabled == before.shuffle_enabled
}

/// While media keys are disabled, no request from outside does anything.
pub proof fn disabled_media_keys_do_nothing(
    app: AppView,
    mpris: MprisEvent,
    shared: SharedPlayback,
    mac: MacMediaEvent,
    windows: WindowsMediaEvent,
    player_active: bool,
)
    requires
        !app.enable_media_keys,
    ensures
        app.mpris_handled(mpris, shared) == app,
        app.macos_handled(mac, player_active, shared.is_playing) == app,
        app.windows_handled(windows, player_active) == app,
{
}

/// While a decoded source owns playback, an MPRIS request other than for the
/// volume never reaches Spotify.
pub proof fn mpris_follows_the_audible_source(
    app: AppView,
    event: MprisEvent,
    shared: SharedPlayback,
)
    requires
        app.decoded_source(),
        !(event is SetVolume),
    ensures
        spares_spotify(app, app.mpris_handled(event, shared)),
{
}

/// While a decoded source owns playback, no macOS request reaches Spotify.
pub proof fn macos_follows_the_audible_source(
    app: AppView,
    event: MacMediaEvent,
    player_active: bool,
    is_playing: bool,
)
    requires
        app.decoded_source(),
    ensures
        spares_spotify(app, app.macos_handled(event, player_active, is_playing)),
{
}

/// While a decoded source owns playback, no Windows request reaches Spotify.
pub proof fn windows_follows_the_audible_source(
    app: AppView,
    event: WindowsMediaEvent,
    player_active: bool,
)
    requires
        app.decoded_source(),
    ensures
        spares_spotify(app, app.windows_handled(event, player_active)),
{
}

/// While a decoded source or the native queue owns playback, the shuffle and
/// repeat keys never reach Spotify; and nothing at all is sent out.
pub proof fn toggle_keys_follow_the_audible_source(app: AppView)
    requires
        app.spotify_shielded(),
    ensures
        spares_spotify(app, app.shuffle_toggled()),
        spares_spotify(app, app.repeat_toggled()),
        app.shuffle_toggled().effects == app.effects,
        app.repeat_toggled().effects == app.effects,
{
}

/// A decoded source whose player is not there yet swallows every request but
/// that for the volume: nothing can serve it, and Spotify must not.
pub proof fn a_start_in_flight_swallows_requests(
    app: AppView,
    mpris: MprisEvent,
    shared: SharedPlayback,
    mac: MacMediaEvent,
    windows: WindowsMediaEvent,
    player_active: bool,
)
    requires
        app.decoded_source(),
        app.decoded_player() is None,
        !app.queue_owns(),
        !(mpris is SetVolume),
    ensures
        app.mpris_handled(mpris, shared) == app,
        app.macos_handled(mac, player_active, shared.is_playing) == app,
        app.windows_handled(windows, player_active) == app,
{
}

/// Over the native queue, shuffle and repeat mean nothing: the keys and MPRIS
/// agree on that, whatever the queue plays and whatever it suspended. The keys
/// only say so, and an MPRIS client's property is corrected.
pub proof fn keys_and_mpris_agree_over_the_queue(
    app: AppView,
    on: bool,
    status: LoopStatusEvent,
    shared: SharedPlayback,
)
    requires
        app.queue_owns(),
        app.enable_media_keys,
    ensures
        app.shuffle_toggled() == app.with_status("Shuffle does not apply to this source"@, 2),
        app.repeat_toggled() == app.with_status("Repeat does not apply to this source"@, 2),
        app.mpris_handled(MprisEvent::SetShuffle(on), shared) == app.with(
            Effect::MprisShuffle(false),
        ),
        app.mpris_handled(MprisEvent::SetLoopStatus(status), shared) == app.with(
            Effect::MprisLoopStatus(LoopStatusEvent::Off),
        ),
{
}

/// Radio has no queue to shuffle and nothing to repeat: every way of asking
/// leaves both modes as they are.
pub proof fn radio_has_no_modes(
    app: AppView,
    on: bool,
    status: LoopStatusEvent,
    mode: MacRepeatMode,
    shared: SharedPlayback,
    player_active: bool,
)
    requires
        app.enable_media_keys,
        app.radio is Some,
        app.decoded_source(),
        !app.queueable(),
        !app.queue_owns(),
    ensures
        app.mpris_handled(MprisEvent::SetShuffle(on), shared) == app.with(
            Effect::MprisShuffle(false),
        ),
        app.mpris_handled(MprisEvent::SetLoopStatus(status), shared) == app.with(
            Effect::MprisLoopStatus(LoopStatusEvent::Off),
        ),
        app.macos_handled(MacMediaEvent::SetShuffle(on), player_active, shared.is_playing) == app,
        app.macos_handled(MacMediaEvent::SetRepeat(mode), player_active, shared.is_playing) == app,
        app.shuffle_toggled() == app.with_status("Shuffle does not apply to this source"@, 2),
        app.repeat_toggled() == app.with_status("Repeat does not apply to this source"@, 2),
{
}

/// Whatever an MPRIS client asks for, the shuffle that it is shown afterwards is
/// the one in force: that of the source that owns playback, or off where that
/// source has none.
pub proof fn mpris_clients_see_the_shuffle_in_force(
    app: AppView,
    on: bool,
    shared: SharedPlayback,
)
    requires
        app.enable_media_keys,
        app.queue_owns() || app.decoded_player() is Some,
    ensures
        ({
            let after = app.mpris_handled(MprisEvent::SetShuffle(on), shared);
            &&& after.effects == app.effects.push(
                Effect::MprisShuffle(after.queueable() && after.decoded_shuffle),
            )
        }),
{
}

/// Likewise for the loop status.
pub proof fn mpris_clients_see_the_loop_in_force(
    app: AppView,
    status: LoopStatusEvent,
    shared: SharedPlayback,
)
    requires
        app.enable_media_keys,
        app.queue_owns() || app.decoded_player() is Some,
    ensures
        ({
            let after = app.mpris_handled(MprisEvent::SetLoopStatus(status), shared);
            let shown = if after.queueable() {
                status
            } else {
                LoopStatusEvent::Off
            };
            &&& after.effects == app.effects.push(Effect::MprisLoopStatus(shown))
            &&& after.queueable() ==> after.decoded_repeat == crate::repeat::mode_of_loop(shown)
        }),
{
}

/// The native player's answer counts: a shuffle that it took is what is
/// remembered, shown and kept, and one that it refused changes nothing.
pub proof fn native_shuffle_answers_count(app: AppView, on: bool)
    ensures
        app.mpris_shuffle_answered(on, false) == app,
        app.macos_shuffle_answered(on, false) == app,
        ({
            let mpris = app.mpris_shuffle_answered(on, true);
            let mac = app.macos_shuffle_answered(on, true);
            &&& mpris.native_recovery.shuffle == Some(on)
            &&& mpris.shuffle_enabled == on
            &&& mpris.context matches Some(c) ==> c.shuffle_state == on
            &&& mac.native_recovery.shuffle == Some(on)
            &&& mac.shuffle_enabled == on
            &&& mac.context matches Some(c) ==> c.shuffle_state == on
        }),
{
}

/// Likewise for repeat.
pub proof fn native_repeat_answers_count(
    app: AppView,
    status: LoopStatusEvent,
    mode: MacRepeatMode,
)
    ensures
        app.mpris_loop_answered(status, false) == app,
        app.macos_repeat_answered(mode, false) == app,
        ({
            let mpris = app.mpris_loop_answered(status, true);
            let asked = crate::repeat::state_of_mode(crate::repeat::mode_of_loop(status));
            &&& mpris.native_recovery.repeat == Some(asked)
            &&& mpris.context matches Some(c) ==> c.repeat_state == asked
        }),
        ({
            let mac = app.macos_repeat_answered(mode, true);
            let asked = crate::repeat::state_of_mode(crate::repeat::mode_of_mac(mode));
            &&& mac.native_recovery.repeat == Some(asked)
            &&& mac.context matches Some(c) ==> c.repeat_state == asked
        }),
{
}

/// A request for the volume goes to whoever owns playback, decoded or not.
pub proof fn volume_requests_always_arrive(app: AppView, percent: u8, shared: SharedPlayback)
    requires
        app.enable_media_keys,
    ensures
        app.mpris_handled(MprisEvent::SetVolume(percent), shared) == app.with(
            Effect::SetVolume(percent),
        ),
{
}

/// Effects that wait to be carried out are never lost or reordered: an MPRIS
/// request only adds to them.
pub proof fn mpris_requests_only_add_effects(
    app: AppView,
    event: MprisEvent,
    shared: SharedPlayback,
)
    ensures
        only_adds(app, app.mpris_handled(event, shared)),
{
}

/// Likewise for a macOS or a Windows request.
pub proof fn system_requests_only_add_effects(
    app: AppView,
    mac: MacMediaEvent,
    windows: WindowsMediaEvent,
    player_active: bool,
    is_playing: bool,
)
    ensures
        only_adds(app, app.macos_handled(mac, player_active, is_playing)),
        only_adds(app, app.windows_handled(windows, player_active)),
{
}

/// Likewise for the keys and the tick.
pub proof fn keys_only_add_effects(app: AppView)
    ensures
        only_adds(app, app.shuffle_toggled()),
        only_adds(app, app.repeat_toggled()),
        only_adds(app, app.reconciled()),
{
}

/// From `before` to `after`, the sessions did not change, or a source took the
/// shuffle flag `on`.
spec fn sessions_kept_or_shuffled(before: AppView, after: AppView, on: bool) -> bool {
    let set = before.decoded_shuffle_set(on);
    ||| after.local == before.local && after.subsonic == before.subsonic && after.youtube
        == before.youtube && after.qobuz == before.qobuz
    ||| after.local == set.local && after.subsonic == set.subsonic && after.youtube == set.youtube
        && after.qobuz == set.qobuz
}

/// What keeps the sessions, or shuffles them, keeps them valid.
proof fn lemma_kept_wf(before: AppView, after: AppView, on: bool)
    requires
        before.wf(),
        crate::laws::order::fits(before),
        sessions_kept_or_shuffled(before, after, on),
    ensures
        after.wf(),
{
    let flipped = AppView { decoded_shuffle: on, ..before };
    crate::laws::order::lemma_same_queues(before, flipped);
    crate::laws::order::lemma_synced_wf(flipped);
}

/// Every session keeps a current track, whatever an MPRIS client requests.
pub proof fn mpris_requests_keep_sessions_valid(
    app: AppView,
    event: MprisEvent,
    shared: SharedPlayback,
)
    requires
        app.wf(),
        crate::laws::order::fits(app),
    ensures
        app.mpris_handled(event, shared).wf(),
{
    let on = event is SetShuffle && event->SetShuffle_0;
    assert(sessions_kept_or_shuffled(app, app.mpris_handled(event, shared), on));
    lemma_kept_wf(app, app.mpris_handled(event, shared), on);
}

/// Every session keeps a current track, whatever macOS or Windows requests.
pub proof fn system_requests_keep_sessions_valid(
    app: AppView,
    mac: MacMediaEvent,
    windows: WindowsMediaEvent,
    player_active: bool,
    is_playing: bool,
)
    requires
        app.wf(),
        crate::laws::order::fits(app),
    ensures
        app.macos_handled(mac, player_active, is_playing).wf(),
        app.windows_handled(windows, player_active).wf(),
{
    let on = mac is SetShuffle && mac->SetShuffle_0;
    let after = app.macos_handled(mac, player_active, is_playing);
    assert(sessions_kept_or_shuffled(app, after, on));
    lemma_kept_wf(app, after, on);
    let after = app.windows_handled(windows, player_active);
    assert(sessions_kept_or_shuffled(app, after, on));
    lemma_kept_wf(app, after, on);
}

/// Every session keeps a current track, whatever key is pressed and however
/// often the order is reconciled.
pub proof fn keys_keep_sessions_valid(app: AppView)
    requires
        app.wf(),
        crate::laws::order::fits(app),
    ensures
        app.shuffle_toggled().wf(),
        app.repeat_toggled().wf(),
        app.reconciled().wf(),
{
    let on = !app.decoded_shuffle;
    lemma_kept_wf(app, app.shuffle_toggled(), on);
    lemma_kept_wf(app, app.repeat_toggled(), on);
    crate::laws::order::lemma_synced_wf(app);
}

/// An absolute position does not depend on where playback is.
pub proof fn absolute_positions_are_absolute(
    app: AppView,
    other: Player,
    player: Player,
    micros: i64,
)
    ensures
        app.mpris_served(MprisEvent::SetPosition(micros), player) == app.mpris_served(
            MprisEvent::SetPosition(micros),
            other,
        ),
{
}

/// A whole number of milliseconds that a player can seek to is reached exactly.
pub proof fn positions_are_reached(ms: u32)
    ensures
        crate::position::position_target((ms * 1000) as i64) == ms,
{
}

/// Within the range of a player, a seek leads to the position plus the offset in
/// whole milliseconds, but never to before the start.
pub proof fn seeks_add_the_offset(position_ms: u32, offset_micros: i64)
    requires
        position_ms + crate::position::whole_ms(offset_micros as int) <= u32::MAX,
    ensures
        ({
            let target = position_ms + crate::position::whole_ms(offset_micros as int);
            crate::position::seek_target(position_ms as int, offset_micros) == if target < 0 {
                0
            } else {
                target
            }
        }),
{
}

/// A seek forwards and as far back ends where it began.
pub proof fn seeking_back_undoes_seeking_forwards(position_ms: u32, offset_micros: i64)
    requires
        0 <= offset_micros,
        position_ms + offset_micros / 1000 <= u32::MAX,
    ensures
        crate::position::seek_target(
            crate::position::seek_target(position_ms as int, offset_micros) as int,
            (-offset_micros) as i64,
        ) == position_ms,
{
}

/// The repeat key goes through all three modes and back to the first.
pub proof fn repeat_cycles(app: AppView)
    requires
        app.queueable(),
    ensures
        ({
            let first = app.decoded_repeat;
            let second = app.repeat_toggled().decoded_repeat;
            let third = app.repeat_toggled().repeat_toggled().decoded_repeat;
            &&& first != second
            &&& second != third
            &&& third != first
            &&& app.repeat_toggled().repeat_toggled().repeat_toggled().decoded_repeat == first
        }),
{
}

/// Spotify's repeat goes round as the decoded one does.
pub proof fn repeat_cycles_alike(state: RepeatState)
    ensures
        crate::repeat::mode_of_state(crate::repeat::next_state(state)) == crate::repeat::next_mode(
            crate::repeat::mode_of_state(state),
        ),
{
}

/// A repeat mode keeps its meaning through each vocabulary and back.
pub proof fn repeat_keeps_its_meaning(
    mode: RepeatMode,
    mac: MacRepeatMode,
    status: LoopStatusEvent,
    state: RepeatState,
)
    ensures
        crate::repeat::mode_of_mac(crate::repeat::mac_of_mode(mode)) == mode,
        crate::repeat::mac_of_mode(crate::repeat::mode_of_mac(mac)) == mac,
        crate::repeat::mode_of_state(crate::repeat::state_of_mode(mode)) == mode,
        crate::repeat::state_of_mode(crate::repeat::mode_of_state(state)) == state,
        crate::repeat::loop_of_state(
            crate::repeat::state_of_mode(crate::repeat::mode_of_loop(status)),
        ) == status,
        crate::repeat::mode_of_loop(crate::repeat::loop_of_state(state))
            == crate::repeat::mode_of_state(state),
{
}

} // verus!
