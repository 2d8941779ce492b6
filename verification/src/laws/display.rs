//! Laws of what the system's media display shows.

use crate::app::AppView;
use crate::events::MacMediaEvent;
use crate::macos_media::{MacCommandView, MetadataView};
use crate::metadata::{PlaybackSnapshot, WindowsCommandView};
use crate::now_playing::{
    InfoView, PlaybackState, RemoteCommand, RepeatType, ShuffleType, UpdateView,
};
use crate::repeat::MacRepeatMode;
use vstd::prelude::*;

verus! {

/// While nothing changes, a tick publishes neither metadata nor modes again: no
/// artwork is fetched twice.
pub proof fn unchanged_displays_are_not_republished(
    app: AppView,
    snapshot: Option<PlaybackSnapshot>,
)
    ensures
        ({
            let s = crate::metadata::shown(app, snapshot);
            &&& crate::metadata::metadata_commands(s.metadata, s.metadata).len() == 0
            &&& crate::metadata::mode_commands(Some(s.modes), s.modes).len() == 0
        }),
{
}

/// The shuffle and repeat keys do not change the metadata shown, so that they
/// cause no artwork to be fetched.
pub proof fn toggles_keep_the_metadata(app: AppView, snapshot: Option<PlaybackSnapshot>)
    ensures
        crate::metadata::shown(app.shuffle_toggled(), snapshot).metadata
            == crate::metadata::shown(app, snapshot).metadata,
        crate::metadata::shown(app.repeat_toggled(), snapshot).metadata == crate::metadata::shown(
            app,
            snapshot,
        ).metadata,
{
}

/// A local session that the native queue suspended is not shown.
pub proof fn suspended_sessions_are_not_shown(
    app: AppView,
    other: AppView,
    snapshot: Option<PlaybackSnapshot>,
)
    requires
        app.queue_owns(),
        other.queue_owns(),
    ensures
        crate::metadata::shown(app, snapshot) == crate::metadata::shown(other, snapshot),
{
}

/// When nothing plays, both toggles are shown as off, whatever was shown before.
pub proof fn silence_clears_the_toggles(app: AppView)
    requires
        app.local is None || app.queue_owns(),
    ensures
        crate::metadata::shown(app, None).metadata is None,
        !crate::metadata::shown(app, None).modes.shuffle,
        crate::metadata::shown(app, None).modes.repeat == MacRepeatMode::Off,
{
}

/// While nothing changes, a Windows tick publishes at most the position.
pub proof fn unchanged_windows_displays_are_not_republished(
    app: AppView,
    snapshot: Option<PlaybackSnapshot>,
)
    ensures
        ({
            let state = crate::metadata::polled_state(app, snapshot);
            let commands = crate::metadata::windows_tick_commands(
                crate::metadata::snapshot_metadata(snapshot),
                Some(state.0),
                app,
                snapshot,
            );
            commands == if crate::metadata::windows_polls(app) {
                seq![WindowsCommandView::SetPosition(state.1)]
            } else {
                seq![]
            }
        }),
{
}

/// What the native player loaded and plays, it publishes itself: the Windows
/// tick then says nothing of the play state or the position.
pub proof fn native_playback_publishes_itself(
    last_metadata: Option<MetadataView>,
    last_playing: Option<bool>,
    app: AppView,
    snapshot: Option<PlaybackSnapshot>,
    i: int,
)
    requires
        app.native_track_loaded,
        !app.decoded_source(),
        0 <= i < crate::metadata::windows_tick_commands(
            last_metadata,
            last_playing,
            app,
            snapshot,
        ).len(),
    ensures
        crate::metadata::windows_tick_commands(
            last_metadata,
            last_playing,
            app,
            snapshot,
        )[i] is SetMetadata,
{
}

/// The Now Playing centre.
#[verifier::ext_equal]
pub struct Centre {
    pub info: Option<InfoView>,
    /// Does the elapsed time run?
    pub running: bool,
    pub elapsed_ms: Option<u64>,
    pub state: PlaybackState,
    pub shuffle: ShuffleType,
    pub repeat: RepeatType,
}

impl Centre {
    /// After one change.
    pub open spec fn changed(self, update: UpdateView) -> Centre {
        match update {
            UpdateView::SetInfo(info) => Centre {
                info: Some(info),
                running: true,
                elapsed_ms: None,
                ..self
            },
            UpdateView::SetState(state) => Centre { state, ..self },
            UpdateView::SetRunning(running) => Centre { running, ..self },
            UpdateView::SetElapsed(ms) => Centre { elapsed_ms: Some(ms), ..self },
            UpdateView::SetShuffle(shuffle) => Centre { shuffle, ..self },
            UpdateView::SetRepeat(repeat) => Centre { repeat, ..self },
            UpdateView::ClearInfo => Centre {
                info: None,
                running: false,
                elapsed_ms: None,
                ..self
            },
        }
    }

    /// After a list of changes, in order.
    pub open spec fn changed_by(self, updates: Seq<UpdateView>) -> Centre
        decreases updates.len(),
    {
        if updates.len() == 0 {
            self
        } else {
            self.changed_by(updates.drop_last()).changed(updates.last())
        }
    }

    /// After an instruction; `artwork` says whether its artwork could be fetched.
    pub open spec fn instructed(self, command: MacCommandView, artwork: bool) -> Centre {
        self.changed_by(crate::now_playing::updates_for(command, self.info is Some, artwork))
    }
}

/// A stop leaves nothing on show.
pub proof fn stopping_clears_the_display(centre: Centre, artwork: bool)
    ensures
        centre.instructed(MacCommandView::SetStopped, artwork) == (Centre {
            info: None,
            running: false,
            elapsed_ms: None,
            state: PlaybackState::Stopped,
            ..centre
        }),
{
    reveal_with_fuel(Centre::changed_by, 3);
    let updates = crate::now_playing::updates_for(
        MacCommandView::SetStopped,
        centre.info is Some,
        artwork,
    );
    assert(updates.drop_last().drop_last() == Seq::<UpdateView>::empty());
}

/// Now Playing has no volume: an instruction to set it changes nothing.
pub proof fn volume_changes_nothing(centre: Centre, percent: u8, artwork: bool)
    ensures
        centre.instructed(MacCommandView::SetVolume(percent), artwork) == centre,
{
}

/// A position or a play state never makes up a track: where none is shown, none
/// is shown afterwards, and there is no elapsed time either.
pub proof fn tracks_are_not_made_up(centre: Centre, ms: u64, playing: bool, artwork: bool)
    requires
        centre.info is None,
    ensures
        centre.instructed(MacCommandView::SetPosition(ms), artwork) == centre,
        centre.instructed(MacCommandView::SetPlaybackStatus(playing), artwork) == (Centre {
            state: if playing {
                PlaybackState::Playing
            } else {
                PlaybackState::Paused
            },
            ..centre
        }),
{
    reveal_with_fuel(Centre::changed_by, 2);
}

/// Where a track is shown, its elapsed time runs exactly while playback does.
pub proof fn the_clock_runs_with_playback(centre: Centre, playing: bool, artwork: bool)
    requires
        centre.info is Some,
    ensures
        ({
            let after = centre.instructed(MacCommandView::SetPlaybackStatus(playing), artwork);
            &&& after.info == centre.info
            &&& after.running == playing
            &&& after.state == if playing {
                PlaybackState::Playing
            } else {
                PlaybackState::Paused
            }
        }),
{
    reveal_with_fuel(Centre::changed_by, 3);
    let updates = crate::now_playing::updates_for(
        MacCommandView::SetPlaybackStatus(playing),
        true,
        artwork,
    );
    assert(updates.drop_last().drop_last() == Seq::<UpdateView>::empty());
}

/// A controller that hands back the shuffle it is shown asks for the shuffle
/// that was published.
pub proof fn published_shuffle_reads_back(centre: Centre, on: bool, artwork: bool)
    ensures
        crate::now_playing::remote_request(
            RemoteCommand::ChangeShuffle(
                centre.instructed(MacCommandView::SetShuffle(on), artwork).shuffle,
            ),
        ) == Some(MacMediaEvent::SetShuffle(on)),
{
    reveal_with_fuel(Centre::changed_by, 2);
}

/// A controller that hands back the repeat mode it is shown asks for the mode
/// that was published.
pub proof fn published_repeat_reads_back(centre: Centre, mode: MacRepeatMode, artwork: bool)
    ensures
        crate::now_playing::remote_request(
            RemoteCommand::ChangeRepeat(
                centre.instructed(MacCommandView::SetRepeat(mode), artwork).repeat,
            ),
        ) == Some(MacMediaEvent::SetRepeat(mode)),
{
    reveal_with_fuel(Centre::changed_by, 2);
}

/// Every remote command makes a request, but for a seek to a time that is no
/// position.
pub proof fn remote_commands_are_heard(command: RemoteCommand)
    ensures
        crate::now_playing::remote_request(command) is None <==> command
            == RemoteCommand::ChangePosition(None),
{
}

} // verus!
