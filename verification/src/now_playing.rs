//! What remote commands mean, and what each instruction changes at the Now
//! Playing centre.

use crate::events::MacMediaEvent;
use crate::macos_media::{MacCommandView, MacMediaCommand};
use crate::repeat::MacRepeatMode;
use vstd::prelude::*;

verus! {

/// The shuffle of a Now Playing command. A system to come may know more kinds.
#[derive(Clone, Copy, Debug, PartialEq, Eq, Structural)]
pub enum ShuffleType {
    Off,
    /// Single tracks.
    Items,
    /// Groups of tracks.
    Collections,
    Unknown,
}

/// The repeat of a Now Playing command. A system to come may know more kinds.
#[derive(Clone, Copy, Debug, PartialEq, Eq, Structural)]
pub enum RepeatType {
    Off,
    One,
    All,
    Unknown,
}

/// A command that macOS hands to one of our targets.
#[derive(Clone, Copy, Debug, PartialEq, Eq, Structural)]
pub enum RemoteCommand {
    Play,
    Pause,
    TogglePlayPause,
    NextTrack,
    PreviousTrack,
    Stop,
    /// The target in milliseconds; absent where the reported time is negative or
    /// no finite number.
    ChangePosition(Option<u32>),
    ChangeShuffle(ShuffleType),
    ChangeRepeat(RepeatType),
}

/// The request that a remote command makes. `None` where it makes none and the
/// command fails.
pub open spec fn remote_request(command: RemoteCommand) -> Option<MacMediaEvent> {
    match command {
        RemoteCommand::Play => Some(MacMediaEvent::Play),
        RemoteCommand::Pause => Some(MacMediaEvent::Pause),
        RemoteCommand::TogglePlayPause => Some(MacMediaEvent::PlayPause),
        RemoteCommand::NextTrack => Some(MacMediaEvent::Next),
        RemoteCommand::PreviousTrack => Some(MacMediaEvent::Previous),
        RemoteCommand::Stop => Some(MacMediaEvent::Stop),
        RemoteCommand::ChangePosition(None) => None,
        RemoteCommand::ChangePosition(Some(ms)) => Some(MacMediaEvent::Seek(ms)),
        RemoteCommand::ChangeShuffle(kind) => Some(
            MacMediaEvent::SetShuffle(kind != ShuffleType::Off),
        ),
        RemoteCommand::ChangeRepeat(kind) => Some(
            MacMediaEvent::SetRepeat(
                match kind {
                    RepeatType::One => MacRepeatMode::One,
                    RepeatType::All => MacRepeatMode::All,
                    RepeatType::Off | RepeatType::Unknown => MacRepeatMode::Off,
                },
            ),
        ),
    }
}

/// Read a remote command. There is one shuffle, so any kind but off turns it on;
/// an unknown repeat is read as none. `None` fails the command.
pub fn remote_command_event(command: RemoteCommand) -> (r: Option<MacMediaEvent>)
    ensures
        r == remote_request(command),
{
    match command {
        RemoteCommand::Play => Some(MacMediaEvent::Play),
        RemoteCommand::Pause => Some(MacMediaEvent::Pause),
        RemoteCommand::TogglePlayPause => Some(MacMediaEvent::PlayPause),
        RemoteCommand::NextTrack => Some(MacMediaEvent::Next),
        RemoteCommand::PreviousTrack => Some(MacMediaEvent::Previous),
        RemoteCommand::Stop => Some(MacMediaEvent::Stop),
        RemoteCommand::ChangePosition(target) => match target {
            Some(ms) => Some(MacMediaEvent::Seek(ms)),
            None => None,
        },
        RemoteCommand::ChangeShuffle(kind) => Some(
            MacMediaEvent::SetShuffle(kind != ShuffleType::Off),
        ),
        RemoteCommand::ChangeRepeat(kind) => {
            let mode: MacRepeatMode = match kind {
                RepeatType::One => MacRepeatMode::One,
                RepeatType::All => MacRepeatMode::All,
                _ => MacRepeatMode::Off,
            };
            Some(MacMediaEvent::SetRepeat(mode))
        },
    }
}

/// Whether the Now Playing centre shows playback as running.
#[derive(Clone, Copy, Debug, PartialEq, Eq, Structural)]
pub enum PlaybackState {
    Playing,
    Paused,
    Stopped,
}

/// What the Now Playing centre is to show of a track.
#[derive(Clone, Debug, PartialEq, Eq)]
pub struct NowPlayingInfo {
    pub title: String,
    pub artist: String,
    pub album: String,
    pub duration_ms: u32,
    /// Show the artwork that was fetched.
    pub artwork: bool,
}

/// One change at the Now Playing centre.
#[derive(Clone, Debug, PartialEq, Eq)]
pub enum NowPlayingUpdate {
    /// Replace what is shown of the track; the elapsed time runs.
    SetInfo(NowPlayingInfo),
    SetState(PlaybackState),
    /// Let the elapsed time of what is shown run, or stand.
    SetRunning(bool),
    /// The elapsed time of what is shown, in milliseconds.
    SetElapsed(u64),
    SetShuffle(ShuffleType),
    SetRepeat(RepeatType),
    /// Show no track.
    ClearInfo,
}

/// What is shown of a track.
#[verifier::ext_equal]
pub struct InfoView {
    pub title: Seq<char>,
    pub artist: Seq<char>,
    pub album: Seq<char>,
    pub duration_ms: int,
    pub artwork: bool,
}

/// A [`NowPlayingUpdate`] as mathematics.
#[verifier::ext_equal]
pub enum UpdateView {
    SetInfo(InfoView),
    SetState(PlaybackState),
    SetRunning(bool),
    SetElapsed(u64),
    SetShuffle(ShuffleType),
    SetRepeat(RepeatType),
    ClearInfo,
}

impl View for NowPlayingUpdate {
    type V = UpdateView;

    open spec fn view(&self) -> UpdateView {
        match *self {
            NowPlayingUpdate::SetInfo(info) => UpdateView::SetInfo(
                InfoView {
                    title: info.title@,
                    artist: info.artist@,
                    album: info.album@,
                    duration_ms: info.duration_ms as int,
                    artwork: info.artwork,
                },
            ),
            NowPlayingUpdate::SetState(state) => UpdateView::SetState(state),
            NowPlayingUpdate::SetRunning(running) => UpdateView::SetRunning(running),
            NowPlayingUpdate::SetElapsed(ms) => UpdateView::SetElapsed(ms),
            NowPlayingUpdate::SetShuffle(kind) => UpdateView::SetShuffle(kind),
            NowPlayingUpdate::SetRepeat(kind) => UpdateView::SetRepeat(kind),
            NowPlayingUpdate::ClearInfo => UpdateView::ClearInfo,
        }
    }
}

/// The views of a list of updates.
pub open spec fn updates_view(updates: Seq<NowPlayingUpdate>) -> Seq<UpdateView> {
    Seq::new(updates.len(), |i: int| updates[i]@)
}

/// The texts of `list` with `sep` between them.
pub open spec fn joined(list: Seq<Seq<char>>, sep: Seq<char>) -> Seq<char>
    decreases list.len(),
{
    if list.len() == 0 {
        Seq::empty()
    } else if list.len() == 1 {
        list[0]
    } else {
        joined(list.drop_last(), sep) + sep + list.last()
    }
}

/// The changes that an instruction makes, where `has_info` says whether a track
/// is shown, and `artwork` whether the artwork could be fetched.
pub open spec fn updates_for(
    command: MacCommandView,
    has_info: bool,
    artwork: bool,
) -> Seq<UpdateView> {
    match command {
        MacCommandView::SetMetadata(m) => seq![
            UpdateView::SetInfo(
                InfoView {
                    title: m.title,
                    artist: joined(m.artists, ", "@),
                    album: m.album,
                    duration_ms: m.duration_ms,
                    artwork,
                },
            ),
        ],
        MacCommandView::SetPlaybackStatus(playing) => {
            let state = UpdateView::SetState(
                if playing {
                    PlaybackState::Playing
                } else {
                    PlaybackState::Paused
                },
            );
            if has_info {
                seq![state, UpdateView::SetRunning(playing)]
            } else {
                seq![state]
            }
        },
        MacCommandView::SetPosition(ms) => if has_info {
            seq![UpdateView::SetElapsed(ms)]
        } else {
            seq![]
        },
        MacCommandView::SetVolume(_) => seq![],
        MacCommandView::SetShuffle(on) => seq![
            UpdateView::SetShuffle(
                if on {
                    ShuffleType::Items
                } else {
                    ShuffleType::Off
                },
            ),
        ],
        MacCommandView::SetRepeat(mode) => seq![
            UpdateView::SetRepeat(
                match mode {
                    MacRepeatMode::Off => RepeatType::Off,
                    MacRepeatMode::One => RepeatType::One,
                    MacRepeatMode::All => RepeatType::All,
                },
            ),
        ],
        MacCommandView::SetStopped => seq![
            UpdateView::SetState(PlaybackState::Stopped),
            UpdateView::ClearInfo,
        ],
    }
}

/// Join texts with a separator.
pub fn join_strings(list: &[String], sep: &str) -> (r: String)
    ensures
        r@ == joined(crate::macos_media::texts(list@), sep@),
{
    let ghost all = crate::macos_media::texts(list@);
    let mut r: String = String::new();
    let mut k: usize = 0;
    while k < list.len()
        invariant
            k <= list@.len(),
            all == crate::macos_media::texts(list@),
            r@ == joined(all.take(k as int), sep@),
        decreases list@.len() - k,
    {
        if k > 0 {
            r.append(sep);
        }
        r.append(list[k].as_str());
        k += 1;
        assert(all.take(k as int).drop_last() == all.take(k - 1));
        assert(all.take(k as int).last() == list@[k - 1]@);
    }
    assert(all.take(k as int) == all);
    r
}

/// The artwork to fetch before an instruction is carried out.
pub fn artwork_wanted(command: &MacMediaCommand) -> (r: Option<String>)
    ensures
        crate::macos_media::opt_text(r) == match command@ {
            MacCommandView::SetMetadata(m) => m.art_url,
            _ => None,
        },
{
    match command {
        MacMediaCommand::SetMetadata { art_url, .. } => match art_url {
            Some(url) => Some(url.clone()),
            None => None,
        },
        _ => None,
    }
}

/// Does the status of a response announce a body worth reading?
pub fn artwork_status_ok(status: u16) -> (r: bool)
    ensures
        r == (200 <= status < 300),
{
    200 <= status && status < 300
}

/// The artwork in the body of a response; an empty body holds none.
pub fn artwork_from_body(body: Vec<u8>) -> (r: Option<Vec<u8>>)
    ensures
        r is Some <==> body@.len() > 0,
        r matches Some(bytes) ==> bytes@ == body@,
{
    if body.len() == 0 {
        None
    } else {
        Some(body)
    }
}

/// Turn an instruction into changes at the Now Playing centre. What there is to
/// say of a track that is not shown is left unsaid, and so is the volume.
pub fn handle_now_playing_command(
    command: &MacMediaCommand,
    has_info: bool,
    artwork: bool,
) -> (r: Vec<NowPlayingUpdate>)
    ensures
        updates_view(r@) == updates_for(command@, has_info, artwork),
{
    let mut r: Vec<NowPlayingUpdate> = Vec::new();
    match command {
        MacMediaCommand::SetMetadata { title, artists, album, duration_ms, art_url: _ } => {
            r.push(
                NowPlayingUpdate::SetInfo(
                    NowPlayingInfo {
                        title: title.clone(),
                        artist: join_strings(artists.as_slice(), ", "),
                        album: album.clone(),
                        duration_ms: *duration_ms,
                        artwork,
                    },
                ),
            );
        },
        MacMediaCommand::SetPlaybackStatus(is_playing) => {
            let state: PlaybackState = if *is_playing {
                PlaybackState::Playing
            } else {
                PlaybackState::Paused
            };
            r.push(NowPlayingUpdate::SetState(state));
            if has_info {
                r.push(NowPlayingUpdate::SetRunning(*is_playing));
            }
        },
        MacMediaCommand::SetPosition(position_ms) => {
            if has_info {
                r.push(NowPlayingUpdate::SetElapsed(*position_ms));
            }
        },
        MacMediaCommand::SetVolume(_) => {},
        MacMediaCommand::SetShuffle(enabled) => {
            let kind: ShuffleType = if *enabled {
                ShuffleType::Items
            } else {
                ShuffleType::Off
            };
            r.push(NowPlayingUpdate::SetShuffle(kind));
        },
        MacMediaCommand::SetRepeat(mode) => {
            let kind: RepeatType = match mode {
                MacRepeatMode::Off => RepeatType::Off,
                MacRepeatMode::One => RepeatType::One,
                MacRepeatMode::All => RepeatType::All,
            };
            r.push(NowPlayingUpdate::SetRepeat(kind));
        },
        MacMediaCommand::SetStopped => {
            r.push(NowPlayingUpdate::SetState(PlaybackState::Stopped));
            r.push(NowPlayingUpdate::ClearInfo);
        },
    }
    r
}

} // verus!
