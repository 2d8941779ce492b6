//! Laws of the launch and of the restore.

use crate::app::AppView;
use crate::events::IoEvent;
use crate::launch::{Launch, LaunchAction, LaunchFacts, LaunchStage, NetworkStep};
use crate::restore::{PersistedPlayback, Resume, StartupBehavior};
use vstd::prelude::*;

verus! {

/// A launch that has been told, step by step, how the step before went.
pub open spec fn after(launch: Launch, reports: Seq<bool>) -> Launch
    decreases reports.len(),
{
    if reports.len() == 0 {
        launch
    } else {
        after(launch, reports.drop_last()).stepped(reports.last())
    }
}

/// How far along a stage is.
pub open spec fn rank(stage: LaunchStage) -> int {
    match stage {
        LaunchStage::Credentials => 0,
        LaunchStage::Notice => 1,
        LaunchStage::History => 2,
        LaunchStage::PlaylistSync => 3,
        LaunchStage::ControlSocket => 4,
        LaunchStage::RecoverySender => 5,
        LaunchStage::MediaControls => 6,
        LaunchStage::Discord => 7,
        LaunchStage::MediaEvents => 8,
        LaunchStage::MediaMetadata => 9,
        LaunchStage::Streaming => 10,
        LaunchStage::Network => 11,
        LaunchStage::Interface => 12,
        LaunchStage::Handshake => 13,
        LaunchStage::Flush => 14,
        LaunchStage::Done => 15,
    }
}

/// Every launch comes to its end, whatever fails on the way: each step brings it
/// one stage further. It remembers how the registration with the media controls
/// went, and how the user interface ended.
pub proof fn launches_end(launch: Launch, reports: Seq<bool>)
    requires
        launch.stage == LaunchStage::Credentials,
    ensures
        ({
            let end = after(launch, reports);
            let n = reports.len();
            &&& end.facts == launch.facts
            &&& rank(end.stage) == if n < 15 {
                n as int
            } else {
                15
            }
            &&& end.media_registered == if n > 7 {
                reports[7]
            } else {
                launch.media_registered
            }
            &&& end.interface_ok == if n > 13 {
                reports[13]
            } else {
                launch.interface_ok
            }
        }),
    decreases reports.len(),
{
    if reports.len() > 0 {
        launches_end(launch, reports.drop_last());
    }
}

/// The launch reports what the user interface reported. On the way out the
/// control socket is unpublished either way, and unsaved state is flushed
/// exactly where the user interface failed.
pub proof fn launches_report_the_interface(launch: Launch, reports: Seq<bool>, ok: bool)
    requires
        launch.stage == LaunchStage::Credentials,
        reports.len() == 13,
    ensures
        ({
            let ended = after(launch, reports);
            let cleared = ended.stepped(ok);
            let flushed = cleared.stepped(true);
            &&& crate::launch::stage_action(ended.told(ok)) == LaunchAction::ClearHandshake
            &&& crate::launch::stage_action(cleared.told(true)) == if ok {
                LaunchAction::Nothing
            } else {
                LaunchAction::FlushState
            }
            &&& crate::launch::stage_action(flushed.told(true)) == LaunchAction::Finish(ok)
        }),
{
    launches_end(launch, reports);
}

/// At most one place gets to decide whether music plays at launch: a saved
/// session, or streaming once its device is selected, or the network. With a
/// saved session or a Spotify session one of them does; with neither, none.
pub proof fn one_place_decides_about_playback(facts: LaunchFacts)
    ensures
        ({
            let streaming = facts.streams() && facts.streaming_playback() is Some;
            let network = facts.network_decides();
            &&& !(facts.saved_session && streaming)
            &&& !(facts.saved_session && network)
            &&& !(streaming && network)
            &&& (facts.saved_session || streaming || network) == (facts.saved_session
                || facts.spotify_session)
        }),
{
}

/// Whichever of the two plays Spotify at launch, it is told the shuffle setting
/// that was kept: streaming with its start, and the network before it resumes.
pub proof fn playback_starts_with_the_kept_shuffle(launch: Launch)
    requires
        launch.facts.spotify_session,
        !launch.facts.saved_session,
        launch.facts.startup_behavior == StartupBehavior::Play,
        launch.stage == LaunchStage::Streaming,
    ensures
        launch.facts.streams() ==> crate::launch::stage_action(launch)
            == (LaunchAction::StartStreaming {
            device: StartupBehavior::Play,
            playback: Some(StartupBehavior::Play),
            shuffle: launch.facts.initial_shuffle,
        }),
        !launch.facts.streams() ==> ({
            let plan = crate::launch::network_plan(launch.facts);
            let i = if launch.facts.saved_queue {
                1int
            } else {
                0
            };
            &&& plan.len() == i + 3
            &&& plan[i] == NetworkStep::Handle(IoEvent::Shuffle(launch.facts.initial_shuffle))
            &&& plan[i + 1] == NetworkStep::Handle(crate::events::resume_event())
        }),
{
}

/// A saved session is not made to fight a Spotify device for the output:
/// streaming leaves both the device and playback alone.
pub proof fn saved_sessions_keep_the_output(facts: LaunchFacts)
    requires
        facts.saved_session,
    ensures
        facts.device_behavior() == StartupBehavior::Continue,
        facts.streaming_playback() is None,
        !facts.network_decides(),
{
}

/// To continue is passive: the network task sends no event of its own, so no
/// device is activated and no shuffle changed.
pub proof fn continuing_is_passive(facts: LaunchFacts, i: int)
    requires
        facts.startup_behavior == StartupBehavior::Continue,
        0 <= i < crate::launch::network_plan(facts).len(),
    ensures
        !(crate::launch::network_plan(facts)[i] is Handle),
{
}

/// Without a Spotify session the network task sends no event of its own.
pub proof fn free_sources_send_nothing_to_spotify(facts: LaunchFacts, i: int)
    requires
        !facts.spotify_session,
        0 <= i < crate::launch::network_plan(facts).len(),
    ensures
        !(crate::launch::network_plan(facts)[i] is Handle),
{
}

/// The network task puts the saved queue back before anything else, and pumps
/// events last.
pub proof fn the_pump_runs_last(facts: LaunchFacts)
    ensures
        crate::launch::network_plan(facts).last() == NetworkStep::RunPump,
        facts.saved_queue ==> crate::launch::network_plan(facts)[0] == NetworkStep::RestoreQueue,
{
}

/// Media keys are registered and served with or without a Spotify session, so
/// decoded sources have them too.
pub proof fn media_keys_need_no_spotify(launch: Launch, session: bool)
    requires
        launch.stage == LaunchStage::MediaControls || launch.stage == LaunchStage::MediaEvents
            || launch.stage == LaunchStage::MediaMetadata,
    ensures
        crate::launch::stage_action(
            Launch { facts: LaunchFacts { spotify_session: session, ..launch.facts }, ..launch },
        ) == crate::launch::stage_action(launch),
{
}

/// Recovery requests can be sent exactly where streaming starts, and with it
/// what reads them.
pub proof fn recovery_requests_are_read(early: Launch, late: Launch)
    requires
        early.facts == late.facts,
        early.stage == LaunchStage::RecoverySender,
        late.stage == LaunchStage::Streaming,
    ensures
        crate::launch::stage_action(early) is InstallRecoverySender
            <==> crate::launch::stage_action(late) is StartStreaming,
{
}

/// Nothing listens unless the user asked for it.
pub proof fn the_control_socket_is_opt_in(launch: Launch)
    requires
        !launch.facts.mcp_enabled,
    ensures
        !(crate::launch::stage_action(launch) is StartControlSocket),
{
}

/// Neither the startup notice nor the word of the control socket displaces a
/// message that is already there.
pub proof fn notices_displace_nothing(
    app: AppView,
    notice: Option<Seq<char>>,
    session: bool,
    text: Seq<char>,
    port: u16,
)
    requires
        app.status is Some,
    ensures
        app.noticed(notice, session, text) == app,
        app.socket_announced(port) == app,
{
}

/// A start that failed leaves no session, and the restore then changes nothing.
pub proof fn failed_starts_change_nothing(app: AppView, resume: Resume)
    requires
        resume matches Resume::Queue { source, .. } ==> !app.has_session(source),
        resume is Radio ==> app.radio is None,
    ensures
        app.resumed(resume) == app,
{
}

/// The user's choice decides whether the restored track plays: `Play` and
/// `Pause` force it, and `Continue` keeps what was saved.
pub proof fn the_choice_decides_about_pausing(saved_paused: bool)
    ensures
        !crate::restore::ends_paused(StartupBehavior::Play, saved_paused),
        crate::restore::ends_paused(StartupBehavior::Pause, saved_paused),
        crate::restore::ends_paused(StartupBehavior::Continue, saved_paused) == saved_paused,
{
}

/// Whatever was saved, the restore only ever acts on the restored source's own
/// player, and Spotify is left alone.
pub proof fn restores_spare_spotify(app: AppView, resume: Resume)
    ensures
        crate::laws::control::spares_spotify(app, app.resumed(resume)),
{
}

/// A session with nothing to play neither starts nor touches the browse table.
pub proof fn empty_sessions_do_not_start(
    app: AppView,
    session: PersistedPlayback,
    behavior: StartupBehavior,
)
    requires
        crate::restore::restore_start(session, behavior) is None,
    ensures
        app.table_seeded(session) == app,
{
}

/// The restore keeps every session valid.
pub proof fn restores_keep_sessions_valid(
    app: AppView,
    session: PersistedPlayback,
    resume: Resume,
)
    requires
        app.wf(),
    ensures
        app.table_seeded(session).wf(),
        app.resumed(resume).wf(),
{
}

} // verus!
