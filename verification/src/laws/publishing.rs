//! Laws of what each update publishes.

use crate::app::AppView;
use crate::events::MacMediaEvent;
use crate::laws::display::Centre;
use crate::macos_media::{MacCommandView, MacMediaCommand, MetadataView};
use crate::metadata::{
    MacosMetadata, MacosModes, MediaMetadata, PlaybackSnapshot, WindowsCommandView,
    WindowsMediaCommand, WindowsMetadata,
};
use crate::now_playing::{
    NowPlayingUpdate, PlaybackState, RemoteCommand, RepeatType, ShuffleType, UpdateView,
};
use crate::repeat::{MacRepeatMode, RepeatMode};
use rspotify::model::enums::RepeatState;
use vstd::prelude::*;

verus! {

/// A local session is heard, and no queued track.
pub open spec fn local_is_heard(app: AppView) -> bool {
    app.local is Some && app.queue_slot is None
}

/// `m` describes the track of a snapshot.
pub open spec fn describes(m: MetadataView, track: MediaMetadata) -> bool {
    &&& m.title == track.title@
    &&& m.album == track.album@
    &&& m.duration_ms == track.duration_ms
    &&& m.artists.len() == track.artists@.len()
    &&& forall|i: int| 0 <= i < m.artists.len() ==> #[trigger] m.artists[i] == track.artists@[i]@
    &&& track.image_url is None ==> m.art_url is None
    &&& track.image_url matches Some(url) ==> m.art_url == Some(url@)
}

/// While a local session is heard, every update publishes exactly one play state
/// and one position: it plays if and only if its player is not paused, and the
/// position is the player's.
pub proof fn local_play_state_is_shown(
    last_metadata: Option<MetadataView>,
    last_modes: Option<MacosModes>,
    app: AppView,
    snapshot: Option<PlaybackSnapshot>,
)
    requires
        local_is_heard(app),
    ensures
        ({
            let commands = crate::metadata::macos_tick_commands(
                last_metadata,
                last_modes,
                app,
                snapshot,
            );
            let player = app.local->0.player;
            exists|k: int|
                {
                    &&& 0 <= k < commands.len() - 1
                    &&& #[trigger] commands[k] == MacCommandView::SetPlaybackStatus(!player.paused)
                    &&& commands[k + 1] == MacCommandView::SetPosition(
                        (player.position_ms as int % 0x1_0000_0000_0000_0000) as u64,
                    )
                    &&& forall|i: int|
                        0 <= i < commands.len() && i != k ==> !(#[trigger] commands[i]
                            is SetPlaybackStatus)
                    &&& forall|i: int|
                        0 <= i < commands.len() && i != k + 1 ==> !(#[trigger] commands[i]
                            is SetPosition)
                }
        }),
{
    let commands = crate::metadata::macos_tick_commands(last_metadata, last_modes, app, snapshot);
    let s = crate::metadata::shown(app, snapshot);
    let k = crate::metadata::metadata_commands(last_metadata, s.metadata).len() as int;
    assert(commands[k] == MacCommandView::SetPlaybackStatus(!app.local->0.player.paused));
}

/// While a local session is heard, an update publishes its name, its artists as
/// one, its album and its length, without artwork, if that is not what was
/// published last; the modes of the decoded sources, if those are not; and
/// between the two the play state and the position.
pub proof fn local_sessions_are_published(
    last_metadata: Option<MetadataView>,
    last_modes: Option<MacosModes>,
    app: AppView,
    snapshot: Option<PlaybackSnapshot>,
    m: MetadataView,
    modes: MacosModes,
)
    requires
        local_is_heard(app),
        m.title == app.local->0.name,
        m.artists == seq![app.local->0.artists],
        m.album == app.local->0.album,
        m.duration_ms == app.local->0.duration_ms as int % 0x1_0000_0000,
        m.art_url is None,
        modes.shuffle == app.decoded_shuffle,
        modes.repeat == MacRepeatMode::Off <==> app.decoded_repeat == RepeatMode::Off,
        modes.repeat == MacRepeatMode::One <==> app.decoded_repeat == RepeatMode::Track,
        modes.repeat == MacRepeatMode::All <==> app.decoded_repeat == RepeatMode::Context,
    ensures
        crate::metadata::shown(app, snapshot).metadata == Some(m),
        crate::metadata::shown(app, snapshot).modes == modes,
        ({
            let commands = crate::metadata::macos_tick_commands(
                last_metadata,
                last_modes,
                app,
                snapshot,
            );
            let first = if last_metadata == Some(m) {
                0int
            } else {
                1
            };
            &&& first == 1 ==> commands[0] == MacCommandView::SetMetadata(m)
            &&& last_modes == Some(modes) ==> commands.len() == first + 2
            &&& last_modes != Some(modes) ==> {
                &&& commands.len() == first + 4
                &&& commands[first + 2] == MacCommandView::SetShuffle(modes.shuffle)
                &&& commands[first + 3] == MacCommandView::SetRepeat(modes.repeat)
            }
        }),
{
    assert(crate::metadata::shown(app, snapshot).metadata->0 =~= m);
}

/// Without a local session that is heard, an update publishes the snapshot's
/// track if that is not what was published last, and the snapshot's modes if
/// those are not; and neither a play state nor a position.
pub proof fn snapshots_are_published(
    last_metadata: Option<MetadataView>,
    last_modes: Option<MacosModes>,
    app: AppView,
    snapshot: PlaybackSnapshot,
    m: MetadataView,
    modes: MacosModes,
)
    requires
        !local_is_heard(app),
        describes(m, snapshot.metadata),
        modes.shuffle == snapshot.shuffle,
        modes.repeat == MacRepeatMode::One <==> snapshot.repeat == Some(RepeatState::Track),
        modes.repeat == MacRepeatMode::All <==> snapshot.repeat == Some(RepeatState::Context),
    ensures
        crate::metadata::shown(app, Some(snapshot)).metadata == Some(m),
        crate::metadata::shown(app, Some(snapshot)).modes == modes,
        ({
            let commands = crate::metadata::macos_tick_commands(
                last_metadata,
                last_modes,
                app,
                Some(snapshot),
            );
            let first = if last_metadata == Some(m) {
                0int
            } else {
                1
            };
            &&& first == 1 ==> commands[0] == MacCommandView::SetMetadata(m)
            &&& last_modes == Some(modes) ==> commands.len() == first
            &&& last_modes != Some(modes) ==> {
                &&& commands.len() == first + 2
                &&& commands[first] == MacCommandView::SetShuffle(modes.shuffle)
                &&& commands[first + 1] == MacCommandView::SetRepeat(modes.repeat)
            }
        }),
{
    assert(snapshot.metadata@.artists =~= m.artists);
    assert(snapshot.metadata@ =~= m);
}

/// When nothing plays, an update publishes that both modes are off, if that is
/// not what was published last, and nothing else; and no track is remembered.
pub proof fn silence_is_published(
    last_metadata: Option<MetadataView>,
    last_modes: Option<MacosModes>,
    app: AppView,
)
    requires
        !local_is_heard(app),
    ensures
        ({
            let commands = crate::metadata::macos_tick_commands(
                last_metadata,
                last_modes,
                app,
                None,
            );
            let off = MacosModes { shuffle: false, repeat: MacRepeatMode::Off };
            &&& crate::metadata::shown(app, None).metadata is None
            &&& crate::metadata::shown(app, None).modes == off
            &&& last_modes == Some(off) ==> commands.len() == 0
            &&& last_modes != Some(off) ==> commands =~= seq![
                MacCommandView::SetShuffle(false),
                MacCommandView::SetRepeat(MacRepeatMode::Off),
            ]
        }),
{
}

/// Modes are published, shuffle before repeat, exactly where they changed.
pub proof fn changed_modes_are_published(last: Option<MacosModes>, modes: MacosModes)
    ensures
        last == Some(modes) ==> crate::metadata::mode_commands(last, modes).len() == 0,
        last != Some(modes) ==> crate::metadata::mode_commands(last, modes) =~= seq![
            MacCommandView::SetShuffle(modes.shuffle),
            MacCommandView::SetRepeat(modes.repeat),
        ],
{
}

/// The Windows tick publishes the snapshot's track exactly where it changed, and
/// remembers it; the play state exactly where it changed and nobody else
/// publishes it; and the position wherever nobody else does.
pub proof fn the_windows_tick_publishes_changes(
    last_metadata: Option<MetadataView>,
    last_playing: Option<bool>,
    app: AppView,
    snapshot: Option<PlaybackSnapshot>,
    playing: bool,
    position: int,
)
    requires
        snapshot matches Some(s) ==> playing == s.is_playing && position == s.progress_ms,
        snapshot is None ==> !playing && position == app.song_progress_ms,
    ensures
        ({
            let commands = crate::metadata::windows_tick_commands(
                last_metadata,
                last_playing,
                app,
                snapshot,
            );
            let track = crate::metadata::snapshot_metadata(snapshot);
            let polls = !app.native_track_loaded || crate::laws::owners::heard(app) is Some;
            let new_track = track is Some && track != last_metadata;
            let new_state = polls && last_playing != Some(playing);
            &&& track is Some <==> snapshot is Some
            &&& snapshot matches Some(s) ==> describes(track->0, s.metadata)
            &&& crate::metadata::windows_polls(app) <==> polls
            &&& crate::metadata::polled_state(app, snapshot).0 == playing
            &&& crate::metadata::polled_state(app, snapshot).1 == position
                % 0x1_0000_0000_0000_0000
            &&& commands =~= (if new_track {
                seq![WindowsCommandView::SetMetadata(track->0)]
            } else {
                seq![]
            }) + (if new_state {
                seq![WindowsCommandView::SetPlaybackStatus(playing)]
            } else {
                seq![]
            }) + (if polls {
                seq![
                    WindowsCommandView::SetPosition(
                        (position % 0x1_0000_0000_0000_0000) as u64,
                    ),
                ]
            } else {
                seq![]
            })
        }),
{
}

/// The state of a snapshot is whether it plays, and where.
pub proof fn snapshots_tell_their_state(s: PlaybackSnapshot)
    ensures
        crate::metadata::snapshot_state(None) is None,
        crate::metadata::snapshot_metadata(None) is None,
        ({
            let state = crate::metadata::snapshot_state(Some(s));
            let (playing, position) = state->0;
            &&& state is Some
            &&& playing == s.is_playing
            &&& position == s.progress_ms as int % 0x1_0000_0000_0000_0000
        }),
{
}

/// What the mathematics speak of is what a description of a track holds.
pub proof fn descriptions_are_faithful(
    media: MediaMetadata,
    mac: MacosMetadata,
    windows: WindowsMetadata,
)
    ensures
        describes(media@, media),
        mac@.title == mac.title@,
        mac@.album == mac.album@,
        mac@.duration_ms == mac.duration_ms,
        mac@.artists == crate::macos_media::texts(mac.artists@),
        mac@.art_url == crate::macos_media::opt_text(mac.art_url),
        windows@.title == windows.title@,
        windows@.album == windows.album@,
        windows@.duration_ms == windows.duration,
        windows@.artists == crate::macos_media::texts(windows.artists@),
        windows@.art_url == crate::macos_media::opt_text(windows.art_url),
        crate::metadata::macos_metadata_view(Some(mac)) == Some(mac@),
        crate::metadata::macos_metadata_view(None) is None,
        crate::metadata::windows_metadata_view(Some(windows)) == Some(windows@),
        crate::metadata::windows_metadata_view(None) is None,
{
}

/// What the mathematics speak of is what an instruction says.
pub proof fn instructions_are_faithful(
    on: bool,
    ms: u64,
    percent: u8,
    mode: MacRepeatMode,
    windows: WindowsMetadata,
    command: MacMediaCommand,
)
    ensures
        MacMediaCommand::SetPlaybackStatus(on)@ == MacCommandView::SetPlaybackStatus(on),
        MacMediaCommand::SetPosition(ms)@ == MacCommandView::SetPosition(ms),
        MacMediaCommand::SetVolume(percent)@ == MacCommandView::SetVolume(percent),
        MacMediaCommand::SetStopped@ == MacCommandView::SetStopped,
        MacMediaCommand::SetShuffle(on)@ == MacCommandView::SetShuffle(on),
        MacMediaCommand::SetRepeat(mode)@ == MacCommandView::SetRepeat(mode),
        command matches MacMediaCommand::SetMetadata {
            title,
            artists,
            album,
            duration_ms,
            art_url,
        } ==> command@ is SetMetadata && ({
            let m = command@->SetMetadata_0;
            &&& m.title == title@
            &&& m.album == album@
            &&& m.duration_ms == duration_ms
            &&& m.artists.len() == artists@.len()
            &&& forall|i: int|
                0 <= i < m.artists.len() ==> #[trigger] m.artists[i] == artists@[i]@
            &&& art_url is None ==> m.art_url is None
            &&& art_url matches Some(url) ==> m.art_url == Some(url@)
        }),
        WindowsMediaCommand::SetPlaybackStatus(on)@ == WindowsCommandView::SetPlaybackStatus(on),
        WindowsMediaCommand::SetPosition(ms)@ == WindowsCommandView::SetPosition(ms),
        WindowsMediaCommand::SetMetadata(windows)@ == WindowsCommandView::SetMetadata(windows@),
{
}

/// What the mathematics speak of is what a change at the Now Playing centre is.
pub proof fn changes_are_faithful(
    update: NowPlayingUpdate,
    state: PlaybackState,
    running: bool,
    ms: u64,
    shuffle: ShuffleType,
    repeat: RepeatType,
)
    ensures
        NowPlayingUpdate::SetState(state)@ == UpdateView::SetState(state),
        NowPlayingUpdate::SetRunning(running)@ == UpdateView::SetRunning(running),
        NowPlayingUpdate::SetElapsed(ms)@ == UpdateView::SetElapsed(ms),
        NowPlayingUpdate::SetShuffle(shuffle)@ == UpdateView::SetShuffle(shuffle),
        NowPlayingUpdate::SetRepeat(repeat)@ == UpdateView::SetRepeat(repeat),
        NowPlayingUpdate::ClearInfo@ == UpdateView::ClearInfo,
        update matches NowPlayingUpdate::SetInfo(info) ==> update@ is SetInfo && ({
            let shown = update@->SetInfo_0;
            &&& shown.title == info.title@
            &&& shown.artist == info.artist@
            &&& shown.album == info.album@
            &&& shown.duration_ms == info.duration_ms
            &&& shown.artwork == info.artwork
        }),
{
}

/// New metadata replaces what is shown of the track, and sets its clock running;
/// the play state and the modes stay.
pub proof fn metadata_replaces_the_track(centre: Centre, m: MetadataView, artwork: bool)
    ensures
        ({
            let after = centre.instructed(MacCommandView::SetMetadata(m), artwork);
            &&& after.info is Some
            &&& after.info->0.title == m.title
            &&& after.info->0.artist == crate::now_playing::joined(m.artists, ", "@)
            &&& after.info->0.album == m.album
            &&& after.info->0.duration_ms == m.duration_ms
            &&& after.info->0.artwork == artwork
            &&& after.running
            &&& after.elapsed_ms is None
            &&& after.state == centre.state
            &&& after.shuffle == centre.shuffle
            &&& after.repeat == centre.repeat
        }),
{
    reveal_with_fuel(Centre::changed_by, 2);
}

/// A position sets the elapsed time of the track that is shown, and nothing
/// else.
pub proof fn a_position_sets_the_clock(centre: Centre, ms: u64, artwork: bool)
    requires
        centre.info is Some,
    ensures
        centre.instructed(MacCommandView::SetPosition(ms), artwork) == (Centre {
            elapsed_ms: Some(ms),
            ..centre
        }),
{
    reveal_with_fuel(Centre::changed_by, 2);
}

/// A play state changes nothing of the track that is shown but whether its clock
/// runs.
pub proof fn a_play_state_keeps_the_track(centre: Centre, playing: bool, artwork: bool)
    requires
        centre.info is Some,
    ensures
        ({
            let after = centre.instructed(MacCommandView::SetPlaybackStatus(playing), artwork);
            after == (Centre { running: after.running, state: after.state, ..centre })
        }),
{
    reveal_with_fuel(Centre::changed_by, 3);
    let updates = crate::now_playing::updates_for(
        MacCommandView::SetPlaybackStatus(playing),
        true,
        artwork,
    );
    assert(updates.drop_last().drop_last() == Seq::<UpdateView>::empty());
}

/// Shuffle is shown as that of single tracks, or as off; a repeat mode as the
/// kind of the same name; and nothing else changes.
pub proof fn modes_are_shown_as_they_are(
    centre: Centre,
    on: bool,
    mode: MacRepeatMode,
    artwork: bool,
)
    ensures
        ({
            let shuffled = centre.instructed(MacCommandView::SetShuffle(on), artwork);
            let repeated = centre.instructed(MacCommandView::SetRepeat(mode), artwork);
            &&& shuffled == (Centre { shuffle: shuffled.shuffle, ..centre })
            &&& on ==> shuffled.shuffle == ShuffleType::Items
            &&& !on ==> shuffled.shuffle == ShuffleType::Off
            &&& repeated == (Centre { repeat: repeated.repeat, ..centre })
            &&& mode == MacRepeatMode::Off ==> repeated.repeat == RepeatType::Off
            &&& mode == MacRepeatMode::One ==> repeated.repeat == RepeatType::One
            &&& mode == MacRepeatMode::All ==> repeated.repeat == RepeatType::All
        }),
{
    reveal_with_fuel(Centre::changed_by, 2);
}

/// Each remote command asks for what it is named after: a position as it is, any
/// shuffle but off as on, and a repeat that is not known as none.
pub proof fn remote_commands_ask_for_what_they_say(
    ms: u32,
    shuffle: ShuffleType,
    repeat: RepeatType,
)
    ensures
        crate::now_playing::remote_request(RemoteCommand::Play) == Some(MacMediaEvent::Play),
        crate::now_playing::remote_request(RemoteCommand::Pause) == Some(MacMediaEvent::Pause),
        crate::now_playing::remote_request(RemoteCommand::TogglePlayPause) == Some(
            MacMediaEvent::PlayPause,
        ),
        crate::now_playing::remote_request(RemoteCommand::NextTrack) == Some(MacMediaEvent::Next),
        crate::now_playing::remote_request(RemoteCommand::PreviousTrack) == Some(
            MacMediaEvent::Previous,
        ),
        crate::now_playing::remote_request(RemoteCommand::Stop) == Some(MacMediaEvent::Stop),
        crate::now_playing::remote_request(RemoteCommand::ChangePosition(Some(ms))) == Some(
            MacMediaEvent::Seek(ms),
        ),
        crate::now_playing::remote_request(RemoteCommand::ChangePosition(None)) is None,
        crate::now_playing::remote_request(RemoteCommand::ChangeShuffle(shuffle)) == Some(
            MacMediaEvent::SetShuffle(!(shuffle is Off)),
        ),
        ({
            let asked = crate::now_playing::remote_request(RemoteCommand::ChangeRepeat(repeat));
            &&& repeat is One ==> asked == Some(MacMediaEvent::SetRepeat(MacRepeatMode::One))
            &&& repeat is All ==> asked == Some(MacMediaEvent::SetRepeat(MacRepeatMode::All))
            &&& repeat is Off || repeat is Unknown ==> asked == Some(
                MacMediaEvent::SetRepeat(MacRepeatMode::Off),
            )
        }),
{
}

} // verus!
