//! Resuming, at launch, the session of a decoded source that was saved at exit.
//!
//! A restore has two halves. The first seeds the browse table and says how to
//! start the source; the second, once the source has been told to start, adopts
//! the saved modes. A start that failed leaves no session behind, and the second
//! half then finds nothing to do.

use crate::app::{App, AppView, LocalPlayback, LocalView, RemotePlayback, RemoteView, Track};
use crate::events::{Effect, IoEvent, Source};
use crate::queue::{BackupView, QueueView, ShuffleBackup};
use crate::repeat::RepeatMode;
use vstd::prelude::*;

verus! {

/// What to do with playback at launch.
#[derive(Clone, Copy, Debug, PartialEq, Eq, Structural)]
pub enum StartupBehavior {
    /// Leave it as it was.
    Continue,
    Play,
    Pause,
}

/// The state of a session with a queue when it was saved.
#[derive(Clone, Debug, PartialEq, Eq)]
pub struct SavedSession {
    pub index: usize,
    pub position_ms: u64,
    pub paused: bool,
    pub repeat: RepeatMode,
    /// What the user had asked for.
    pub shuffle_on: bool,
    /// The order before the shuffle, if the queue was shuffled. The two can
    /// disagree where a toggle was still deferred at exit.
    pub shuffle: Option<ShuffleBackup>,
}

/// A session that was saved at exit.
#[derive(Clone, Debug, PartialEq, Eq)]
pub enum PersistedPlayback {
    Local { queue: Vec<String>, saved: SavedSession },
    Subsonic { tracks: Vec<Track>, saved: SavedSession },
    Qobuz { tracks: Vec<Track>, saved: SavedSession },
    YouTube { tracks: Vec<Track>, saved: SavedSession },
    Radio { station: Track, paused: bool },
}

/// How to start the source.
#[derive(Debug, PartialEq)]
pub enum StartRequest {
    /// Hand this to the source's own router.
    Route(IoEvent),
    /// Start the Qobuz queue. The seek and the pause apply once the download
    /// plays.
    Qobuz { uris: Vec<String>, index: usize, position_ms: u64, paused: bool },
}

/// What the session adopts once its source has started.
#[derive(Clone, Debug, PartialEq, Eq)]
pub enum Resume {
    Queue {
        source: Source,
        position_ms: u64,
        paused: bool,
        repeat: RepeatMode,
        shuffle_on: bool,
        shuffle: Option<ShuffleBackup>,
    },
    /// A live stream has neither a position nor modes.
    Radio { paused: bool },
}

/// The first half of a restore.
#[derive(Debug, PartialEq)]
pub struct RestoreStart {
    pub source: Source,
    pub request: StartRequest,
    pub resume: Resume,
}

/// Does the restored track end up paused?
pub open spec fn ends_paused(behavior: StartupBehavior, saved_paused: bool) -> bool {
    match behavior {
        StartupBehavior::Play => false,
        StartupBehavior::Pause => true,
        StartupBehavior::Continue => saved_paused,
    }
}

/// The links of the tracks that have one, in order.
pub open spec fn links(tracks: Seq<Track>) -> Seq<String>
    decreases tracks.len(),
{
    if tracks.len() == 0 {
        Seq::empty()
    } else {
        let before = links(tracks.drop_last());
        match tracks.last().uri {
            Some(uri) => before.push(uri),
            None => before,
        }
    }
}

/// A [`StartRequest`] as mathematics.
#[verifier::ext_equal]
pub enum RequestView {
    /// Route a start of these tracks at this place.
    Tracks(Seq<String>, usize),
    /// Route a start of this station.
    Station(String),
    Qobuz { uris: Seq<String>, index: usize, position_ms: u64, paused: bool },
    /// Route something else.
    Other(IoEvent),
}

impl View for StartRequest {
    type V = RequestView;

    open spec fn view(&self) -> RequestView {
        match *self {
            StartRequest::Route(IoEvent::StartPlayback(None, Some(uris), Some(index))) =>
                RequestView::Tracks(uris@, index),
            StartRequest::Route(IoEvent::StartPlayback(Some(uri), None, None)) =>
                RequestView::Station(uri),
            StartRequest::Route(event) => RequestView::Other(event),
            StartRequest::Qobuz { uris, index, position_ms, paused } => RequestView::Qobuz {
                uris: uris@,
                index,
                position_ms,
                paused,
            },
        }
    }
}

/// A [`RestoreStart`] as mathematics.
#[verifier::ext_equal]
pub struct StartView {
    pub source: Source,
    pub request: RequestView,
    pub resume: Resume,
}

/// The view of an optional start.
pub open spec fn start_view(start: Option<RestoreStart>) -> Option<StartView> {
    match start {
        Some(s) => Some(
            StartView { source: s.source, request: s.request@, resume: s.resume },
        ),
        None => None,
    }
}

/// What a session with a queue adopts.
pub open spec fn queue_resume(
    source: Source,
    saved: SavedSession,
    behavior: StartupBehavior,
) -> Resume {
    Resume::Queue {
        source,
        position_ms: saved.position_ms,
        paused: ends_paused(behavior, saved.paused),
        repeat: saved.repeat,
        shuffle_on: saved.shuffle_on,
        shuffle: saved.shuffle,
    }
}

/// The start of a remote source that plays the tracks that have a link.
pub open spec fn remote_start(
    source: Source,
    tracks: Seq<Track>,
    saved: SavedSession,
    behavior: StartupBehavior,
) -> Option<StartView> {
    if links(tracks).len() == 0 {
        None
    } else {
        Some(
            StartView {
                source,
                request: if source == Source::Qobuz {
                    RequestView::Qobuz {
                        uris: links(tracks),
                        index: saved.index,
                        position_ms: saved.position_ms,
                        paused: ends_paused(behavior, saved.paused),
                    }
                } else {
                    RequestView::Tracks(links(tracks), saved.index)
                },
                resume: queue_resume(source, saved, behavior),
            },
        )
    }
}

/// How a saved session starts. One with nothing to play does not.
pub open spec fn restore_start(
    session: PersistedPlayback,
    behavior: StartupBehavior,
) -> Option<StartView> {
    match session {
        PersistedPlayback::Local { queue, saved } => if queue@.len() == 0 {
            None
        } else {
            Some(
                StartView {
                    source: Source::Local,
                    request: RequestView::Tracks(queue@, saved.index),
                    resume: queue_resume(Source::Local, saved, behavior),
                },
            )
        },
        PersistedPlayback::Subsonic { tracks, saved } => remote_start(
            Source::Subsonic,
            tracks@,
            saved,
            behavior,
        ),
        PersistedPlayback::Qobuz { tracks, saved } => remote_start(
            Source::Qobuz,
            tracks@,
            saved,
            behavior,
        ),
        PersistedPlayback::YouTube { tracks, saved } => remote_start(
            Source::YouTube,
            tracks@,
            saved,
            behavior,
        ),
        PersistedPlayback::Radio { station, paused } => match station.uri {
            Some(uri) => Some(
                StartView {
                    source: Source::Radio,
                    request: RequestView::Station(uri),
                    resume: Resume::Radio { paused: ends_paused(behavior, paused) },
                },
            ),
            None => None,
        },
    }
}

impl AppView {
    /// With the browse table that the source's start looks its tracks up in. A
    /// local source reads the files themselves, and a session that does not
    /// start leaves the table alone.
    pub open spec fn table_seeded(self, session: PersistedPlayback) -> AppView {
        match session {
            PersistedPlayback::Local { .. } => self,
            PersistedPlayback::Subsonic { tracks, .. }
            | PersistedPlayback::Qobuz { tracks, .. }
            | PersistedPlayback::YouTube { tracks, .. } => if links(tracks@).len() == 0 {
                self
            } else {
                AppView { track_table: tracks@, ..self }
            },
            PersistedPlayback::Radio { station, .. } => if station.uri is None {
                self
            } else {
                AppView { track_table: seq![station], ..self }
            },
        }
    }

    /// Is there a session of this source?
    pub open spec fn has_session(self, source: Source) -> bool {
        match source {
            Source::Spotify => false,
            Source::Local => self.local is Some,
            Source::Subsonic => self.subsonic is Some,
            Source::YouTube => self.youtube is Some,
            Source::Qobuz => self.qobuz is Some,
            Source::Radio => self.radio is Some,
        }
    }

    /// With the order before the shuffle put back into the source's queue.
    pub open spec fn with_backup(self, source: Source, backup: Option<BackupView>) -> AppView {
        match source {
            Source::Local => AppView { local: backed_up_local(self.local, backup), ..self },
            Source::Subsonic => AppView {
                subsonic: backed_up_remote(self.subsonic, backup),
                ..self
            },
            Source::YouTube => AppView { youtube: backed_up_remote(self.youtube, backup), ..self },
            Source::Qobuz => AppView { qobuz: backed_up_remote(self.qobuz, backup), ..self },
            _ => self,
        }
    }

    /// With the decoded modes replaced.
    pub open spec fn with_modes(self, repeat: RepeatMode, shuffle_on: bool) -> AppView {
        AppView { decoded_repeat: repeat, decoded_shuffle: shuffle_on, ..self }
    }

    /// After the source's player is sent to a position, unless that is the
    /// start, and paused if need be. Qobuz sees to both itself.
    pub open spec fn repositioned(self, source: Source, position_ms: u64, paused: bool) -> AppView {
        let sought = if source != Source::Qobuz && position_ms > 0 {
            self.with(Effect::DecodedSeek(source, position_ms))
        } else {
            self
        };
        if source != Source::Qobuz && paused {
            sought.with(Effect::DecodedPause(source))
        } else {
            sought
        }
    }

    /// After the session adopted what was saved. Without a session nothing
    /// changes.
    pub open spec fn resumed(self, resume: Resume) -> AppView {
        match resume {
            Resume::Queue { source, position_ms, paused, repeat, shuffle_on, shuffle } => {
                if source == Source::Radio || !self.has_session(source) {
                    self
                } else {
                    self.with_backup(source, crate::queue::backup_view(shuffle)).with_modes(
                        repeat,
                        shuffle_on,
                    ).repositioned(source, position_ms, paused)
                }
            },
            Resume::Radio { paused } => if self.radio is Some && paused {
                self.with(Effect::DecodedPause(Source::Radio))
            } else {
                self
            },
        }
    }
}

/// A local session with another backup.
pub open spec fn backed_up_local(
    session: Option<LocalView>,
    backup: Option<BackupView>,
) -> Option<LocalView> {
    match session {
        Some(s) => Some(LocalView { queue: QueueView { backup, ..s.queue }, ..s }),
        None => None,
    }
}

/// A remote session with another backup.
pub open spec fn backed_up_remote(
    session: Option<RemoteView>,
    backup: Option<BackupView>,
) -> Option<RemoteView> {
    match session {
        Some(s) => Some(RemoteView { queue: QueueView { backup, ..s.queue }, ..s }),
        None => None,
    }
}

/// Decide whether the restored track ends up paused: `Play` and `Pause` force
/// it, `Continue` restores what was saved.
pub fn resolve_paused(behavior: StartupBehavior, saved_paused: bool) -> (r: bool)
    ensures
        r == ends_paused(behavior, saved_paused),
{
    match behavior {
        StartupBehavior::Play => false,
        StartupBehavior::Pause => true,
        StartupBehavior::Continue => saved_paused,
    }
}

/// The links of the tracks that have one, in order.
pub fn track_links(tracks: &Vec<Track>) -> (r: Vec<String>)
    ensures
        r@ == links(tracks@),
{
    let mut r: Vec<String> = Vec::new();
    let mut k: usize = 0;
    while k < tracks.len()
        invariant
            k <= tracks@.len(),
            r@ == links(tracks@.take(k as int)),
        decreases tracks@.len() - k,
    {
        if let Some(uri) = &tracks[k].uri {
            r.push(uri.clone());
        }
        k += 1;
        assert(tracks@.take(k as int).drop_last() == tracks@.take(k - 1));
    }
    assert(tracks@.take(k as int) == tracks@);
    r
}

/// Put a backup into a local session. Returns whether there is one.
fn back_up_local(session: &mut Option<LocalPlayback>, backup: Option<ShuffleBackup>) -> (r: bool)
    ensures
        r == (*old(session) is Some),
        crate::app::local_view(*final(session)) == backed_up_local(
            crate::app::local_view(*old(session)),
            crate::queue::backup_view(backup),
        ),
{
    match session.as_mut() {
        Some(s) => {
            s.queue.shuffle_backup = backup;
            true
        },
        None => false,
    }
}

/// Put a backup into a remote session. Returns whether there is one.
fn back_up_remote(session: &mut Option<RemotePlayback>, backup: Option<ShuffleBackup>) -> (r: bool)
    ensures
        r == (*old(session) is Some),
        crate::app::remote_view(*final(session)) == backed_up_remote(
            crate::app::remote_view(*old(session)),
            crate::queue::backup_view(backup),
        ),
{
    match session.as_mut() {
        Some(s) => {
            s.queue.shuffle_backup = backup;
            true
        },
        None => false,
    }
}

/// What a session with a queue adopts.
fn resume_of(source: Source, saved: SavedSession, behavior: StartupBehavior) -> (r: Resume)
    ensures
        r == queue_resume(source, saved, behavior),
{
    Resume::Queue {
        source,
        position_ms: saved.position_ms,
        paused: resolve_paused(behavior, saved.paused),
        repeat: saved.repeat,
        shuffle_on: saved.shuffle_on,
        shuffle: saved.shuffle,
    }
}

impl App {
    /// Seed the browse table for a remote source, and say how to start it.
    fn restore_remote(
        &mut self,
        source: Source,
        tracks: Vec<Track>,
        saved: SavedSession,
        behavior: StartupBehavior,
    ) -> (r: Option<RestoreStart>)
        ensures
            start_view(r) == remote_start(source, tracks@, saved, behavior),
            final(self)@ == if links(tracks@).len() == 0 {
                old(self)@
            } else {
                AppView { track_table: tracks@, ..old(self)@ }
            },
    {
        let uris: Vec<String> = track_links(&tracks);
        if uris.len() == 0 {
            return None;
        }
        self.track_table = tracks;
        let index: usize = saved.index;
        let request: StartRequest = if source == Source::Qobuz {
            StartRequest::Qobuz {
                uris,
                index,
                position_ms: saved.position_ms,
                paused: resolve_paused(behavior, saved.paused),
            }
        } else {
            StartRequest::Route(IoEvent::StartPlayback(None, Some(uris), Some(index)))
        };
        Some(RestoreStart { source, request, resume: resume_of(source, saved, behavior) })
    }

    /// Begin to resume a saved session: seed the browse table, and say how to
    /// start the source. `None` where there is nothing to play.
    pub fn restore_playback_session(
        &mut self,
        session: PersistedPlayback,
        behavior: StartupBehavior,
    ) -> (r: Option<RestoreStart>)
        ensures
            start_view(r) == restore_start(session, behavior),
            final(self)@ == old(self)@.table_seeded(session),
            old(self)@.wf() ==> final(self)@.wf(),
    {
        match session {
            PersistedPlayback::Local { queue, saved } => {
                if queue.len() == 0 {
                    return None;
                }
                let index: usize = saved.index;
                Some(
                    RestoreStart {
                        source: Source::Local,
                        request: StartRequest::Route(
                            IoEvent::StartPlayback(None, Some(queue), Some(index)),
                        ),
                        resume: resume_of(Source::Local, saved, behavior),
                    },
                )
            },
            PersistedPlayback::Subsonic { tracks, saved } => self.restore_remote(
                Source::Subsonic,
                tracks,
                saved,
                behavior,
            ),
            PersistedPlayback::Qobuz { tracks, saved } => self.restore_remote(
                Source::Qobuz,
                tracks,
                saved,
                behavior,
            ),
            PersistedPlayback::YouTube { tracks, saved } => self.restore_remote(
                Source::YouTube,
                tracks,
                saved,
                behavior,
            ),
            PersistedPlayback::Radio { station, paused } => {
                let uri: String = match &station.uri {
                    Some(uri) => uri.clone(),
                    None => {
                        return None;
                    },
                };
                let mut table: Vec<Track> = Vec::new();
                table.push(station);
                assert(table@ == seq![station]);
                self.track_table = table;
                Some(
                    RestoreStart {
                        source: Source::Radio,
                        request: StartRequest::Route(
                            IoEvent::StartPlayback(Some(uri), None, None),
                        ),
                        resume: Resume::Radio { paused: resolve_paused(behavior, paused) },
                    },
                )
            },
        }
    }

    /// Put a backup into the queue of this source's session. Returns whether
    /// there is such a queue.
    fn put_backup(&mut self, source: Source, backup: Option<ShuffleBackup>) -> (r: bool)
        ensures
            r == (source != Source::Radio && old(self)@.has_session(source)),
            final(self)@ == old(self)@.with_backup(source, crate::queue::backup_view(backup)),
            !r ==> final(self)@ == old(self)@,
    {
        match source {
            Source::Local => back_up_local(&mut self.local_playback, backup),
            Source::Subsonic => back_up_remote(&mut self.subsonic_playback, backup),
            Source::YouTube => back_up_remote(&mut self.youtube_playback, backup),
            Source::Qobuz => back_up_remote(&mut self.qobuz_playback, backup),
            Source::Spotify | Source::Radio => false,
        }
    }

    /// Replace the decoded modes.
    fn adopt_modes(&mut self, repeat: RepeatMode, shuffle_on: bool)
        ensures
            final(self)@ == old(self)@.with_modes(repeat, shuffle_on),
    {
        self.decoded_repeat = repeat;
        self.decoded_shuffle = shuffle_on;
    }

    /// Send the source's player to a position, and pause it if need be.
    fn reposition(&mut self, source: Source, position_ms: u64, paused: bool)
        ensures
            final(self)@ == old(self)@.repositioned(source, position_ms, paused),
    {
        if source != Source::Qobuz {
            if position_ms > 0 {
                self.effect(Effect::DecodedSeek(source, position_ms));
            }
            if paused {
                self.effect(Effect::DecodedPause(source));
            }
        }
    }

    /// Finish resuming a session, once its source has been told to start: adopt
    /// the saved modes, go to the saved position, and pause if that was decided.
    /// The saved shuffle flag is taken at its word; where the order disagrees,
    /// the next tick brings it in line.
    pub fn resume_restored_session(&mut self, resume: Resume)
        ensures
            final(self)@ == old(self)@.resumed(resume),
            old(self)@.wf() ==> final(self)@.wf(),
    {
        match resume {
            Resume::Queue { source, position_ms, paused, repeat, shuffle_on, shuffle } => {
                if !self.put_backup(source, shuffle) {
                    return;
                }
                self.adopt_modes(repeat, shuffle_on);
                self.reposition(source, position_ms, paused);
            },
            Resume::Radio { paused } => {
                if self.radio_playback.is_some() && paused {
                    self.effect(Effect::DecodedPause(Source::Radio));
                }
            },
        }
    }
}

} // verus!
