//! Keeping the system's media display in step with what plays.
//!
//! Each tick publishes only what changed since the last one: a track's metadata
//! costs an artwork fetch, and a mode a round trip to the media thread.

use crate::app::{App, AppView};
use crate::macos_media::{copy_strings, MacCommandView, MacMediaManager, MetadataView};
use crate::position::{low_u32, low_u64};
use crate::repeat::{decoded_repeat_to_mac, mac_repeat_from_snapshot, MacRepeatMode};
use rspotify::model::enums::RepeatState;
use vstd::prelude::*;

verus! {

/// What a source says of the track it plays.
#[derive(Clone, Debug, PartialEq, Eq)]
pub struct MediaMetadata {
    pub title: String,
    pub artists: Vec<String>,
    pub album: String,
    pub duration_ms: u32,
    pub image_url: Option<String>,
}

/// What plays, whichever source it comes from.
#[derive(Debug, PartialEq)]
pub struct PlaybackSnapshot {
    pub metadata: MediaMetadata,
    pub is_playing: bool,
    pub progress_ms: u128,
    pub shuffle: bool,
    /// Absent where the source has no repeat control of its own.
    pub repeat: Option<RepeatState>,
}

/// The metadata last published to Now Playing.
#[derive(Clone, Debug, PartialEq, Eq)]
pub struct MacosMetadata {
    pub title: String,
    pub artists: Vec<String>,
    pub album: String,
    pub duration_ms: u32,
    pub art_url: Option<String>,
}

/// The shuffle and repeat modes last published to Now Playing. They change
/// independently of the track.
#[derive(Clone, Copy, Debug, PartialEq, Eq, Structural)]
pub struct MacosModes {
    pub shuffle: bool,
    pub repeat: MacRepeatMode,
}

/// The metadata last published to the Windows transport controls.
#[derive(Clone, Debug, PartialEq, Eq)]
pub struct WindowsMetadata {
    pub title: String,
    pub artists: Vec<String>,
    pub album: String,
    pub duration: u64,
    pub art_url: Option<String>,
}

/// An instruction to the Windows transport controls.
#[derive(Clone, Debug, PartialEq, Eq)]
pub enum WindowsMediaCommand {
    SetMetadata(WindowsMetadata),
    SetPlaybackStatus(bool),
    /// Position in milliseconds.
    SetPosition(u64),
}

/// What the Windows tick remembers of the tick before.
#[derive(Clone, Debug, PartialEq, Eq)]
pub struct WindowsPoll {
    pub last_metadata: Option<WindowsMetadata>,
    pub last_playing: Option<bool>,
}

impl View for MediaMetadata {
    type V = MetadataView;

    open spec fn view(&self) -> MetadataView {
        MetadataView {
            title: self.title@,
            artists: crate::macos_media::texts(self.artists@),
            album: self.album@,
            duration_ms: self.duration_ms as int,
            art_url: crate::macos_media::opt_text(self.image_url),
        }
    }
}

impl View for MacosMetadata {
    type V = MetadataView;

    open spec fn view(&self) -> MetadataView {
        MetadataView {
            title: self.title@,
            artists: crate::macos_media::texts(self.artists@),
            album: self.album@,
            duration_ms: self.duration_ms as int,
            art_url: crate::macos_media::opt_text(self.art_url),
        }
    }
}

impl View for WindowsMetadata {
    type V = MetadataView;

    open spec fn view(&self) -> MetadataView {
        MetadataView {
            title: self.title@,
            artists: crate::macos_media::texts(self.artists@),
            album: self.album@,
            duration_ms: self.duration as int,
            art_url: crate::macos_media::opt_text(self.art_url),
        }
    }
}

/// The view of optional metadata for Now Playing.
pub open spec fn macos_metadata_view(m: Option<MacosMetadata>) -> Option<MetadataView> {
    match m {
        Some(m) => Some(m@),
        None => None,
    }
}

/// The view of optional metadata for Windows.
pub open spec fn windows_metadata_view(m: Option<WindowsMetadata>) -> Option<MetadataView> {
    match m {
        Some(m) => Some(m@),
        None => None,
    }
}

/// What Now Playing is to show.
#[verifier::ext_equal]
pub struct Shown {
    /// The track, if one plays.
    pub metadata: Option<MetadataView>,
    /// What is published every time, changed or not.
    pub always: Seq<MacCommandView>,
    pub modes: MacosModes,
}

/// A local session speaks for itself, unless the native queue suspended it.
/// Otherwise the snapshot counts, and without one nothing plays.
pub open spec fn shown(app: AppView, snapshot: Option<PlaybackSnapshot>) -> Shown {
    if app.local is Some && !app.queue_owns() {
        let local = app.local->0;
        Shown {
            metadata: Some(
                MetadataView {
                    title: local.name,
                    artists: seq![local.artists],
                    album: local.album,
                    duration_ms: crate::position::wrapped_u32(local.duration_ms as int) as int,
                    art_url: None,
                },
            ),
            always: seq![
                MacCommandView::SetPlaybackStatus(!local.player.paused),
                MacCommandView::SetPosition(
                    crate::position::wrapped_u64(local.player.position_ms as int),
                ),
            ],
            modes: MacosModes {
                shuffle: app.decoded_shuffle,
                repeat: crate::repeat::mac_of_mode(app.decoded_repeat),
            },
        }
    } else if snapshot is Some {
        Shown {
            metadata: Some(snapshot->0.metadata@),
            always: seq![],
            modes: MacosModes {
                shuffle: snapshot->0.shuffle,
                repeat: crate::repeat::mac_of_snapshot(snapshot->0.repeat),
            },
        }
    } else {
        Shown {
            metadata: None,
            always: seq![],
            modes: MacosModes { shuffle: false, repeat: MacRepeatMode::Off },
        }
    }
}

/// The metadata to publish: that of the track shown, if it is not what was
/// published last.
pub open spec fn metadata_commands(
    last: Option<MetadataView>,
    metadata: Option<MetadataView>,
) -> Seq<MacCommandView> {
    if metadata is Some && last != metadata {
        seq![MacCommandView::SetMetadata(metadata->0)]
    } else {
        seq![]
    }
}

/// The modes to publish, if they are not what was published last.
pub open spec fn mode_commands(last: Option<MacosModes>, modes: MacosModes) -> Seq<
    MacCommandView,
> {
    if last == Some(modes) {
        seq![]
    } else {
        seq![MacCommandView::SetShuffle(modes.shuffle), MacCommandView::SetRepeat(modes.repeat)]
    }
}

/// What an update publishes to Now Playing.
pub open spec fn macos_tick_commands(
    last_metadata: Option<MetadataView>,
    last_modes: Option<MacosModes>,
    app: AppView,
    snapshot: Option<PlaybackSnapshot>,
) -> Seq<MacCommandView> {
    let s = shown(app, snapshot);
    metadata_commands(last_metadata, s.metadata) + s.always + mode_commands(last_modes, s.modes)
}

/// Do two lists of strings hold the same texts?
fn strings_equal(a: &Vec<String>, b: &Vec<String>) -> (r: bool)
    ensures
        r == (crate::macos_media::texts(a@) == crate::macos_media::texts(b@)),
{
    let ghost ta = crate::macos_media::texts(a@);
    let ghost tb = crate::macos_media::texts(b@);
    if a.len() != b.len() {
        assert(ta.len() != tb.len());
        return false;
    }
    let mut k: usize = 0;
    while k < a.len()
        invariant
            k <= a@.len(),
            a@.len() == b@.len(),
            ta == crate::macos_media::texts(a@),
            tb == crate::macos_media::texts(b@),
            forall|i: int| 0 <= i < k ==> ta[i] == tb[i],
        decreases a@.len() - k,
    {
        if a[k] != b[k] {
            assert(ta[k as int] != tb[k as int]);
            return false;
        }
        k += 1;
    }
    assert(ta == tb);
    true
}

/// Do two optional strings hold the same text?
fn opt_strings_equal(a: &Option<String>, b: &Option<String>) -> (r: bool)
    ensures
        r == (crate::macos_media::opt_text(*a) == crate::macos_media::opt_text(*b)),
{
    match (a, b) {
        (Some(a), Some(b)) => *a == *b,
        (None, None) => true,
        _ => false,
    }
}

/// A copy of an optional string.
fn copy_opt_string(s: &Option<String>) -> (r: Option<String>)
    ensures
        r == *s,
{
    match s {
        Some(s) => Some(s.clone()),
        None => None,
    }
}

impl MacosMetadata {
    /// Do both describe the same track?
    pub fn same(&self, other: &MacosMetadata) -> (r: bool)
        ensures
            r == (self@ == other@),
    {
        self.title == other.title && strings_equal(&self.artists, &other.artists) && self.album
            == other.album && self.duration_ms == other.duration_ms && opt_strings_equal(
            &self.art_url,
            &other.art_url,
        )
    }

    /// The metadata of a snapshot.
    fn from_media(m: &MediaMetadata) -> (r: MacosMetadata)
        ensures
            r@ == m@,
    {
        MacosMetadata {
            title: m.title.clone(),
            artists: copy_strings(m.artists.as_slice()),
            album: m.album.clone(),
            duration_ms: m.duration_ms,
            art_url: copy_opt_string(&m.image_url),
        }
    }
}

impl WindowsMetadata {
    /// Do both describe the same track?
    pub fn same(&self, other: &WindowsMetadata) -> (r: bool)
        ensures
            r == (self@ == other@),
    {
        self.title == other.title && strings_equal(&self.artists, &other.artists) && self.album
            == other.album && self.duration == other.duration && opt_strings_equal(
            &self.art_url,
            &other.art_url,
        )
    }

    /// The metadata of a snapshot.
    fn from_media(m: &MediaMetadata) -> (r: WindowsMetadata)
        ensures
            r@ == m@,
    {
        WindowsMetadata {
            title: m.title.clone(),
            artists: copy_strings(m.artists.as_slice()),
            album: m.album.clone(),
            duration: m.duration_ms as u64,
            art_url: copy_opt_string(&m.image_url),
        }
    }

    /// A copy.
    fn copy(&self) -> (r: WindowsMetadata)
        ensures
            r@ == self@,
    {
        WindowsMetadata {
            title: self.title.clone(),
            artists: copy_strings(self.artists.as_slice()),
            album: self.album.clone(),
            duration: self.duration,
            art_url: copy_opt_string(&self.art_url),
        }
    }
}

/// Publish the modes to Now Playing, if they changed.
pub fn publish_modes(
    manager: &mut MacMediaManager,
    last_modes: &mut Option<MacosModes>,
    modes: MacosModes,
)
    ensures
        final(manager).handed() == old(manager).handed() + mode_commands(*old(last_modes), modes),
        final(manager).receiver() == old(manager).receiver(),
        final(manager).same_channel(&*old(manager)),
        *final(last_modes) == Some(modes),
{
    if let Some(last) = *last_modes {
        if last == modes {
            return;
        }
    }
    manager.set_shuffle(modes.shuffle);
    manager.set_repeat(modes.repeat);
    *last_modes = Some(modes);
}

/// Publish metadata to Now Playing, if it changed.
fn publish_metadata(
    manager: &mut MacMediaManager,
    last_metadata: &mut Option<MacosMetadata>,
    metadata: MacosMetadata,
)
    ensures
        final(manager).handed() == old(manager).handed() + metadata_commands(
            macos_metadata_view(*old(last_metadata)),
            Some(metadata@),
        ),
        final(manager).receiver() == old(manager).receiver(),
        final(manager).same_channel(&*old(manager)),
        macos_metadata_view(*final(last_metadata)) == Some(metadata@),
{
    let unchanged: bool = match &*last_metadata {
        Some(last) => last.same(&metadata),
        None => false,
    };
    if !unchanged {
        manager.set_metadata(
            metadata.title.as_str(),
            metadata.artists.as_slice(),
            metadata.album.as_str(),
            metadata.duration_ms,
            copy_opt_string(&metadata.art_url),
        );
        *last_metadata = Some(metadata);
    }
}

/// Bring Now Playing up to date with what plays.
pub fn update_macos_metadata(
    manager: &mut MacMediaManager,
    last_metadata: &mut Option<MacosMetadata>,
    last_modes: &mut Option<MacosModes>,
    app: &App,
    snapshot: &Option<PlaybackSnapshot>,
)
    ensures
        ({
            let s = shown(app@, *snapshot);
            &&& final(manager).handed() == old(manager).handed() + macos_tick_commands(
                macos_metadata_view(*old(last_metadata)),
                *old(last_modes),
                app@,
                *snapshot,
            )
            &&& final(manager).receiver() == old(manager).receiver()
            &&& final(manager).same_channel(&*old(manager))
            &&& macos_metadata_view(*final(last_metadata)) == s.metadata
            &&& *final(last_modes) == Some(s.modes)
        }),
{
    let ghost s = shown(app@, *snapshot);
    if !app.queue_owns_playback() {
        if let Some(local) = &app.local_playback {
            let mut artists: Vec<String> = Vec::new();
            artists.push(local.artists.clone());
            let metadata: MacosMetadata = MacosMetadata {
                title: local.name.clone(),
                artists,
                album: local.album.clone(),
                duration_ms: low_u32(local.duration_ms),
                art_url: None,
            };
            assert(metadata@.artists == seq![local.artists@]);
            assert(metadata@ == s.metadata->0);
            publish_metadata(manager, last_metadata, metadata);
            manager.set_playback_status(!local.player.paused);
            manager.set_position(low_u64(local.player.position_ms));
            publish_modes(
                manager,
                last_modes,
                MacosModes {
                    shuffle: app.decoded_shuffle,
                    repeat: decoded_repeat_to_mac(app.decoded_repeat),
                },
            );
            return;
        }
    }
    match snapshot {
        Some(snapshot) => {
            publish_metadata(
                manager,
                last_metadata,
                MacosMetadata::from_media(&snapshot.metadata),
            );
            publish_modes(
                manager,
                last_modes,
                MacosModes {
                    shuffle: snapshot.shuffle,
                    repeat: mac_repeat_from_snapshot(snapshot.repeat),
                },
            );
        },
        None => {
            *last_metadata = None;
            publish_modes(
                manager,
                last_modes,
                MacosModes { shuffle: false, repeat: MacRepeatMode::Off },
            );
        },
    }
}

/// The metadata of an optional snapshot.
pub open spec fn snapshot_metadata(snapshot: Option<PlaybackSnapshot>) -> Option<MetadataView> {
    match snapshot {
        Some(s) => Some(s.metadata@),
        None => None,
    }
}

/// The play state and position of an optional snapshot.
pub open spec fn snapshot_state(snapshot: Option<PlaybackSnapshot>) -> Option<(bool, u64)> {
    match snapshot {
        Some(s) => Some((s.is_playing, crate::position::wrapped_u64(s.progress_ms as int))),
        None => None,
    }
}

/// Take note of a snapshot for the Windows transport controls. Returns the
/// metadata to publish, if it changed, and the snapshot's play state and
/// position, `None` with no snapshot.
pub fn update_windows_metadata(
    last_metadata: &mut Option<WindowsMetadata>,
    snapshot: &Option<PlaybackSnapshot>,
) -> (r: (Option<WindowsMetadata>, Option<(bool, u64)>))
    ensures
        windows_metadata_view(r.0) == if windows_metadata_view(*old(last_metadata))
            == snapshot_metadata(*snapshot) {
            None
        } else {
            snapshot_metadata(*snapshot)
        },
        r.1 == snapshot_state(*snapshot),
        windows_metadata_view(*final(last_metadata)) == snapshot_metadata(*snapshot),
{
    match snapshot {
        Some(snapshot) => {
            let metadata: WindowsMetadata = WindowsMetadata::from_media(&snapshot.metadata);
            let unchanged: bool = match &*last_metadata {
                Some(last) => last.same(&metadata),
                None => false,
            };
            let state: Option<(bool, u64)> = Some(
                (snapshot.is_playing, low_u64(snapshot.progress_ms)),
            );
            if unchanged {
                (None, state)
            } else {
                let publish: WindowsMetadata = metadata.copy();
                *last_metadata = Some(metadata);
                (Some(publish), state)
            }
        },
        None => {
            *last_metadata = None;
            (None, None)
        },
    }
}

/// A [`WindowsMediaCommand`] as mathematics.
#[verifier::ext_equal]
pub enum WindowsCommandView {
    SetMetadata(MetadataView),
    SetPlaybackStatus(bool),
    SetPosition(u64),
}

impl View for WindowsMediaCommand {
    type V = WindowsCommandView;

    open spec fn view(&self) -> WindowsCommandView {
        match *self {
            WindowsMediaCommand::SetMetadata(m) => WindowsCommandView::SetMetadata(m@),
            WindowsMediaCommand::SetPlaybackStatus(p) => WindowsCommandView::SetPlaybackStatus(p),
            WindowsMediaCommand::SetPosition(ms) => WindowsCommandView::SetPosition(ms),
        }
    }
}

/// The views of a list of instructions.
pub open spec fn windows_commands_view(commands: Seq<WindowsMediaCommand>) -> Seq<
    WindowsCommandView,
> {
    Seq::new(commands.len(), |i: int| commands[i]@)
}

/// Does the tick, rather than the native player, publish the play state? It does
/// for a device of somebody else's, and for a decoded source.
pub open spec fn windows_polls(app: AppView) -> bool {
    !app.native_track_loaded || app.decoded_source()
}

/// The play state and position that the tick publishes. With nothing to go by,
/// playback stands where it last was on screen.
pub open spec fn polled_state(app: AppView, snapshot: Option<PlaybackSnapshot>) -> (bool, u64) {
    match snapshot_state(snapshot) {
        Some(state) => state,
        None => (false, crate::position::wrapped_u64(app.song_progress_ms as int)),
    }
}

/// What the Windows tick publishes.
pub open spec fn windows_tick_commands(
    last_metadata: Option<MetadataView>,
    last_playing: Option<bool>,
    app: AppView,
    snapshot: Option<PlaybackSnapshot>,
) -> Seq<WindowsCommandView> {
    let metadata = snapshot_metadata(snapshot);
    let state = polled_state(app, snapshot);
    (if metadata is Some && last_metadata != metadata {
        seq![WindowsCommandView::SetMetadata(metadata->0)]
    } else {
        seq![]
    }) + (if windows_polls(app) && last_playing != Some(state.0) {
        seq![WindowsCommandView::SetPlaybackStatus(state.0)]
    } else {
        seq![]
    }) + (if windows_polls(app) {
        seq![WindowsCommandView::SetPosition(state.1)]
    } else {
        seq![]
    })
}

/// Bring the Windows transport controls up to date with what plays.
pub fn windows_media_tick(
    poll: &mut WindowsPoll,
    app: &App,
    snapshot: &Option<PlaybackSnapshot>,
) -> (r: Vec<WindowsMediaCommand>)
    ensures
        windows_commands_view(r@) == windows_tick_commands(
            windows_metadata_view(old(poll).last_metadata),
            old(poll).last_playing,
            app@,
            *snapshot,
        ),
        windows_metadata_view(final(poll).last_metadata) == snapshot_metadata(*snapshot),
        final(poll).last_playing == Some(
            if windows_polls(app@) {
                polled_state(app@, *snapshot).0
            } else {
                app@.native_is_playing == Some(true)
            },
        ),
{
    let mut r: Vec<WindowsMediaCommand> = Vec::new();
    let (publish, state) = update_windows_metadata(&mut poll.last_metadata, snapshot);
    if let Some(metadata) = publish {
        r.push(WindowsMediaCommand::SetMetadata(metadata));
    }
    if !app.native_track_loaded || app.active_decoded_source() {
        let (is_playing, position_ms): (bool, u64) = match state {
            Some(state) => state,
            None => (false, low_u64(app.song_progress_ms)),
        };
        let changed: bool = match poll.last_playing {
            Some(last) => last != is_playing,
            None => true,
        };
        if changed {
            r.push(WindowsMediaCommand::SetPlaybackStatus(is_playing));
            poll.last_playing = Some(is_playing);
        }
        r.push(WindowsMediaCommand::SetPosition(position_ms));
    } else {
        poll.last_playing = Some(
            match app.native_is_playing {
                Some(playing) => playing,
                None => false,
            },
        );
    }
    assert(windows_commands_view(r@) == windows_tick_commands(
        windows_metadata_view(old(poll).last_metadata),
        old(poll).last_playing,
        app@,
        *snapshot,
    ));
    r
}

} // verus!
