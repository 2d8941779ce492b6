//! Laws of the restore: what is started, and what the session adopts.

use crate::app::{AppView, LocalView, RemoteView, Track};
use crate::events::{Effect, IoEvent, Source};
use crate::queue::{BackupView, QueueView, ShuffleBackup};
use crate::restore::{
    PersistedPlayback, RequestView, Resume, SavedSession, StartRequest, StartView, StartupBehavior,
};
use vstd::prelude::*;

verus! {

/// The session of a source with a queue, other than Qobuz, that is handed its
/// position and its pause.
pub open spec fn is_handed_its_position(source: Source) -> bool {
    source is Local || source is Subsonic || source is YouTube
}

/// Finishing a restore sends the source's player to the saved position, unless
/// that is the start, and pauses it exactly where the track is to end up paused,
/// whichever of local files, Subsonic and YouTube it is. Qobuz is asked for
/// neither: it saw to both when it started.
pub proof fn restored_players_end_up_as_decided(app: AppView, resume: Resume)
    requires
        resume is Queue,
        resume->source is Local ==> app.local is Some,
        resume->source is Subsonic ==> app.subsonic is Some,
        resume->source is YouTube ==> app.youtube is Some,
        resume->source is Qobuz ==> app.qobuz is Some,
    ensures
        ({
            let after = app.resumed(resume);
            let source = resume->source;
            let seek = seq![Effect::DecodedSeek(source, resume->position_ms)];
            let pause = seq![Effect::DecodedPause(source)];
            let start = resume->position_ms == 0;
            let paused = resume->Queue_paused;
            &&& is_handed_its_position(source) && !start && paused ==> after.effects =~= app.effects
                + seek + pause
            &&& is_handed_its_position(source) && !start && !paused ==> after.effects
                =~= app.effects + seek
            &&& is_handed_its_position(source) && start && paused ==> after.effects =~= app.effects
                + pause
            &&& is_handed_its_position(source) && start && !paused ==> after.effects == app.effects
            &&& !is_handed_its_position(source) ==> after.effects == app.effects
        }),
{
}

/// `after` is `before` with the saved backup in its queue.
pub open spec fn local_adopted(
    before: Option<LocalView>,
    after: Option<LocalView>,
    shuffle: Option<ShuffleBackup>,
) -> bool {
    &&& before is Some && after is Some
    &&& queue_adopted(before->0.queue, after->0.queue, shuffle)
    &&& after->0 == (LocalView { queue: after->0.queue, ..before->0 })
}

/// `after` is `before` with the saved backup in its queue.
pub open spec fn remote_adopted(
    before: Option<RemoteView>,
    after: Option<RemoteView>,
    shuffle: Option<ShuffleBackup>,
) -> bool {
    &&& before is Some && after is Some
    &&& queue_adopted(before->0.queue, after->0.queue, shuffle)
    &&& after->0.player == before->0.player
}

/// `after` is `before` with the saved backup, as it was saved.
pub open spec fn queue_adopted(
    before: QueueView,
    after: QueueView,
    shuffle: Option<ShuffleBackup>,
) -> bool {
    &&& after == (QueueView { backup: after.backup, ..before })
    &&& after.backup is Some <==> shuffle is Some
    &&& shuffle matches Some(b) ==> after.backup == Some(
        BackupView { uris: b.uris@, places: b.places@ },
    )
}

/// Finishing a restore gives the player the saved modes, and the source's queue
/// the saved order to go back to. The other sessions, and the rest of the state,
/// stay as they are.
pub proof fn restored_sessions_adopt_their_modes(app: AppView, resume: Resume)
    requires
        resume is Queue,
    ensures
        ({
            let after = app.resumed(resume);
            let source = resume->source;
            let shuffle = resume->shuffle;
            let adopted = AppView {
                decoded_repeat: resume->repeat,
                decoded_shuffle: resume->shuffle_on,
                effects: after.effects,
                ..app
            };
            &&& source is Local && app.local is Some ==> local_adopted(
                app.local,
                after.local,
                shuffle,
            ) && after == (AppView { local: after.local, ..adopted })
            &&& source is Subsonic && app.subsonic is Some ==> remote_adopted(
                app.subsonic,
                after.subsonic,
                shuffle,
            ) && after == (AppView { subsonic: after.subsonic, ..adopted })
            &&& source is YouTube && app.youtube is Some ==> remote_adopted(
                app.youtube,
                after.youtube,
                shuffle,
            ) && after == (AppView { youtube: after.youtube, ..adopted })
            &&& source is Qobuz && app.qobuz is Some ==> remote_adopted(
                app.qobuz,
                after.qobuz,
                shuffle,
            ) && after == (AppView { qobuz: after.qobuz, ..adopted })
        }),
{
}

/// Without a session of the source, finishing a restore changes nothing, for
/// each source.
pub proof fn restores_without_a_session_change_nothing(app: AppView, resume: Resume)
    ensures
        resume is Queue && resume->source is Local && app.local is None ==> app.resumed(resume)
            == app,
        resume is Queue && resume->source is Subsonic && app.subsonic is None ==> app.resumed(
            resume,
        ) == app,
        resume is Queue && resume->source is YouTube && app.youtube is None ==> app.resumed(resume)
            == app,
        resume is Queue && resume->source is Qobuz && app.qobuz is None ==> app.resumed(resume)
            == app,
        resume is Queue && (resume->source is Spotify || resume->source is Radio) ==> app.resumed(
            resume,
        ) == app,
        resume is Radio && app.radio is None ==> app.resumed(resume) == app,
{
}

/// A restored station is paused exactly where that was decided, and has nothing
/// else to adopt.
pub proof fn restored_stations_are_paused_as_decided(app: AppView, paused: bool)
    requires
        app.radio is Some,
    ensures
        crate::laws::owners::only_did(
            app,
            app.resumed(Resume::Radio { paused }),
            if paused {
                seq![Effect::DecodedPause(Source::Radio)]
            } else {
                seq![]
            },
        ),
{
}

/// The restored track ends up paused if the user chose to pause, or chose to
/// continue and it was saved so.
pub open spec fn is_to_pause(behavior: StartupBehavior, saved_paused: bool) -> bool {
    behavior is Pause || (behavior is Continue && saved_paused)
}

/// What is adopted is what was saved, but for the pause, which is decided.
pub open spec fn adopts(
    resume: Resume,
    source: Source,
    saved: SavedSession,
    behavior: StartupBehavior,
) -> bool {
    &&& resume is Queue
    &&& resume->source == source
    &&& resume->position_ms == saved.position_ms
    &&& resume->Queue_paused == is_to_pause(behavior, saved.paused)
    &&& resume->repeat == saved.repeat
    &&& resume->shuffle_on == saved.shuffle_on
    &&& resume->shuffle == saved.shuffle
}

/// A saved local session starts its own tracks at the saved place, unless it has
/// none. The browse table is left alone.
pub proof fn saved_local_sessions_start(
    app: AppView,
    queue: Vec<String>,
    saved: SavedSession,
    behavior: StartupBehavior,
)
    ensures
        ({
            let session = PersistedPlayback::Local { queue, saved };
            let start = crate::restore::restore_start(session, behavior);
            &&& start is Some <==> queue@.len() > 0
            &&& start is Some ==> start->0.source == Source::Local
            &&& start is Some ==> start->0.request == RequestView::Tracks(queue@, saved.index)
            &&& start is Some ==> adopts(start->0.resume, Source::Local, saved, behavior)
            &&& app.table_seeded(session) == app
        }),
{
}

/// A start of a remote source plays the tracks that have a link, at the saved
/// place, and does not come about where none has. Qobuz is handed the position
/// and the pause with it.
pub open spec fn starts_its_links(
    start: Option<StartView>,
    source: Source,
    tracks: Seq<Track>,
    saved: SavedSession,
    behavior: StartupBehavior,
) -> bool {
    let uris = crate::restore::links(tracks);
    &&& start is Some <==> uris.len() > 0
    &&& start is Some ==> start->0.source == source
    &&& start is Some ==> adopts(start->0.resume, source, saved, behavior)
    &&& start is Some && !(source is Qobuz) ==> start->0.request == RequestView::Tracks(
        uris,
        saved.index,
    )
    &&& start is Some && source is Qobuz ==> start->0.request == (RequestView::Qobuz {
        uris,
        index: saved.index,
        position_ms: saved.position_ms,
        paused: is_to_pause(behavior, saved.paused),
    })
}

/// A saved Subsonic, YouTube or Qobuz session starts the tracks that have a
/// link, and puts all its tracks on the browse table, where there is one to
/// play; where not, the table is left alone.
pub proof fn saved_remote_sessions_start(
    app: AppView,
    tracks: Vec<Track>,
    saved: SavedSession,
    behavior: StartupBehavior,
)
    ensures
        ({
            let subsonic = PersistedPlayback::Subsonic { tracks, saved };
            let youtube = PersistedPlayback::YouTube { tracks, saved };
            let qobuz = PersistedPlayback::Qobuz { tracks, saved };
            let seeded = if crate::restore::links(tracks@).len() > 0 {
                AppView { track_table: tracks@, ..app }
            } else {
                app
            };
            &&& starts_its_links(
                crate::restore::restore_start(subsonic, behavior),
                Source::Subsonic,
                tracks@,
                saved,
                behavior,
            )
            &&& starts_its_links(
                crate::restore::restore_start(youtube, behavior),
                Source::YouTube,
                tracks@,
                saved,
                behavior,
            )
            &&& starts_its_links(
                crate::restore::restore_start(qobuz, behavior),
                Source::Qobuz,
                tracks@,
                saved,
                behavior,
            )
            &&& app.table_seeded(subsonic) == seeded
            &&& app.table_seeded(youtube) == seeded
            &&& app.table_seeded(qobuz) == seeded
        }),
{
}

/// A saved station that has a link is started by it, and is then all that is on
/// the browse table; one without is not started, and the table is left alone.
pub proof fn saved_stations_start(
    app: AppView,
    station: Track,
    paused: bool,
    behavior: StartupBehavior,
)
    ensures
        ({
            let session = PersistedPlayback::Radio { station, paused };
            let start = crate::restore::restore_start(session, behavior);
            let seeded = app.table_seeded(session);
            &&& start is Some <==> station.uri is Some
            &&& station.uri is None ==> seeded == app
            &&& station.uri matches Some(uri) ==> {
                &&& start->0.source == Source::Radio
                &&& start->0.request == RequestView::Station(uri)
                &&& start->0.resume == (Resume::Radio { paused: is_to_pause(behavior, paused) })
                &&& seeded.track_table =~= seq![station]
                &&& seeded == (AppView { track_table: seeded.track_table, ..app })
            }
        }),
{
}

/// From a saved session to the restored player: a remote session that was saved
/// at some position ends up paused exactly where the user's choice and what was
/// saved say so.
pub proof fn saved_pauses_reach_the_player(
    app: AppView,
    tracks: Vec<Track>,
    saved: SavedSession,
    behavior: StartupBehavior,
)
    requires
        crate::restore::links(tracks@).len() > 0,
        app.subsonic is Some,
        app.youtube is Some,
    ensures
        ({
            let subsonic = crate::restore::restore_start(
                PersistedPlayback::Subsonic { tracks, saved },
                behavior,
            )->0;
            let youtube = crate::restore::restore_start(
                PersistedPlayback::YouTube { tracks, saved },
                behavior,
            )->0;
            let paused = is_to_pause(behavior, saved.paused);
            let n = app.effects.len() as int;
            let in_subsonic = app.resumed(subsonic.resume).effects;
            let in_youtube = app.resumed(youtube.resume).effects;
            &&& paused <==> in_subsonic.len() > n && in_subsonic.last() == Effect::DecodedPause(
                Source::Subsonic,
            )
            &&& paused <==> in_youtube.len() > n && in_youtube.last() == Effect::DecodedPause(
                Source::YouTube,
            )
        }),
{
}

/// What the mathematics speak of is what a start asks for.
pub proof fn starts_are_faithful(
    uris: Vec<String>,
    uri: String,
    index: usize,
    position_ms: u64,
    paused: bool,
)
    ensures
        StartRequest::Route(IoEvent::StartPlayback(None, Some(uris), Some(index)))@
            == RequestView::Tracks(uris@, index),
        StartRequest::Route(IoEvent::StartPlayback(Some(uri), None, None))@
            == RequestView::Station(uri),
        (StartRequest::Qobuz { uris, index, position_ms, paused })@ == (RequestView::Qobuz {
            uris: uris@,
            index,
            position_ms,
            paused,
        }),
{
}

} // verus!
