//! Laws of the launch, step by step.

use crate::app::AppView;
use crate::events::{IoEvent, Source};
use crate::launch::{Launch, LaunchAction, LaunchFacts, NetworkStep};
use crate::restore::StartupBehavior;
use vstd::prelude::*;

verus! {

/// Where streaming is attempted and no session was saved, streaming is handed
/// the user's own choice, for the device as for playback. In particular to
/// continue never starts or pauses anything.
pub proof fn streaming_is_handed_the_choice(launch: Launch)
    requires
        launch.stage is Streaming,
        launch.facts.enable_streaming,
        launch.facts.spotify_session,
        !launch.facts.saved_session,
    ensures
        ({
            let action = crate::launch::stage_action(launch);
            &&& action is StartStreaming
            &&& action->device == launch.facts.startup_behavior
            &&& action->playback == Some(launch.facts.startup_behavior)
            &&& action->shuffle == launch.facts.initial_shuffle
        }),
{
}

/// Where a session was saved, streaming leaves the device and playback alone;
/// and where streaming is not enabled, or there is no Spotify session, it does
/// not start.
pub proof fn streaming_gives_way(launch: Launch)
    requires
        launch.stage is Streaming,
    ensures
        ({
            let action = crate::launch::stage_action(launch);
            let attempted = launch.facts.enable_streaming && launch.facts.spotify_session;
            &&& !attempted ==> action is Nothing
            &&& attempted && launch.facts.saved_session ==> action
                == (LaunchAction::StartStreaming {
                device: StartupBehavior::Continue,
                playback: None,
                shuffle: launch.facts.initial_shuffle,
            })
            &&& launch.facts.streams() <==> attempted
        }),
{
}

/// The steps that do not depend on anything are taken in every launch, each at
/// its stage.
pub proof fn every_launch_takes_its_steps(launch: Launch)
    ensures
        launch.stage is Credentials ==> crate::launch::stage_action(launch)
            is CacheStreamingCredentials,
        launch.stage is Notice ==> crate::launch::stage_action(launch) is ShowNotice,
        launch.stage is History ==> crate::launch::stage_action(launch) is SpawnHistoryCollector,
        launch.stage is PlaylistSync ==> crate::launch::stage_action(launch)
            == LaunchAction::Dispatch(IoEvent::RunPlaylistSync { retry_unmatched: false }),
        launch.stage is MediaControls ==> crate::launch::stage_action(launch)
            == LaunchAction::RegisterMediaControls(launch.facts.platform),
        launch.stage is Network ==> crate::launch::stage_action(launch) is SpawnNetwork,
        launch.stage is Interface ==> crate::launch::stage_action(launch) is RunInterface,
        launch.stage is Handshake ==> crate::launch::stage_action(launch) is ClearHandshake,
        launch.stage is Done ==> crate::launch::stage_action(launch) == LaunchAction::Finish(
            launch.interface_ok,
        ),
{
}

/// The other steps are taken exactly where they apply.
pub proof fn steps_are_taken_where_they_apply(launch: Launch)
    ensures
        ({
            let action = crate::launch::stage_action(launch);
            let facts = launch.facts;
            &&& launch.stage is ControlSocket && !facts.mcp_enabled ==> action is Nothing
            &&& launch.stage is ControlSocket && facts.mcp_enabled && facts.io_sender ==> action
                is StartControlSocket
            &&& launch.stage is ControlSocket && facts.mcp_enabled && !facts.io_sender ==> action
                is WarnNoSender
            &&& launch.stage is RecoverySender && facts.enable_streaming && facts.spotify_session
                ==> action is InstallRecoverySender
            &&& launch.stage is RecoverySender && !(facts.enable_streaming
                && facts.spotify_session) ==> action is Nothing
            &&& launch.stage is Discord && facts.discord_enabled ==> action is ConnectDiscord
            &&& launch.stage is Discord && !facts.discord_enabled ==> action is Nothing
            &&& launch.stage is MediaEvents && launch.media_registered ==> action
                == LaunchAction::SpawnMediaEvents(facts.platform)
            &&& launch.stage is MediaEvents && !launch.media_registered ==> action is Nothing
            &&& launch.stage is MediaMetadata && launch.media_registered && !(facts.platform
                is Linux) ==> action == LaunchAction::SpawnMediaMetadata(facts.platform)
            &&& launch.stage is MediaMetadata && (!launch.media_registered || facts.platform
                is Linux) ==> action is Nothing
            &&& launch.stage is Flush && launch.interface_ok ==> action is Nothing
            &&& launch.stage is Flush && !launch.interface_ok ==> action is FlushState
        }),
{
}

/// A step brings the launch one stage on, and keeps the facts. Only the report
/// of the registration and that of the user interface are taken down, and each
/// as it is.
pub proof fn a_step_goes_one_stage_on(launch: Launch, ok: bool)
    ensures
        ({
            let told = launch.told(ok);
            let next = launch.stepped(ok);
            &&& told.stage == launch.stage
            &&& told.facts == launch.facts
            &&& launch.stage is Discord ==> told.media_registered == ok
            &&& !(launch.stage is Discord) ==> told.media_registered == launch.media_registered
            &&& launch.stage is Handshake ==> told.interface_ok == ok
            &&& !(launch.stage is Handshake) ==> told.interface_ok == launch.interface_ok
            &&& next == (Launch { stage: next.stage, ..told })
            &&& launch.stage is Done ==> next.stage is Done
            &&& !(launch.stage is Done) ==> crate::laws::launching::rank(next.stage)
                == crate::laws::launching::rank(launch.stage) + 1
        }),
{
}

/// With a Spotify session, without streaming and without a saved session, the
/// network task carries out the user's choice: to play it sets the kept shuffle
/// and resumes, to pause it pauses, and to continue it does nothing.
pub proof fn the_network_carries_out_the_choice(facts: LaunchFacts)
    requires
        facts.spotify_session,
        !facts.enable_streaming,
        !facts.saved_session,
        !facts.saved_queue,
    ensures
        ({
            let plan = crate::launch::network_plan(facts);
            &&& facts.startup_behavior is Play ==> plan =~= seq![
                NetworkStep::Handle(IoEvent::Shuffle(facts.initial_shuffle)),
                NetworkStep::Handle(IoEvent::StartPlayback(None, None, None)),
                NetworkStep::RunPump,
            ]
            &&& facts.startup_behavior is Pause ==> plan =~= seq![
                NetworkStep::Handle(IoEvent::PausePlayback),
                NetworkStep::RunPump,
            ]
            &&& facts.startup_behavior is Continue ==> plan =~= seq![NetworkStep::RunPump]
        }),
{
}

/// A saved session is restored by the network task with the user's choice, and
/// then nothing else is done about playback, streaming or not.
pub proof fn the_network_restores_a_saved_session(facts: LaunchFacts)
    requires
        facts.saved_session,
        !facts.saved_queue,
    ensures
        crate::launch::network_plan(facts) =~= seq![
            NetworkStep::RestoreSession(facts.startup_behavior),
            NetworkStep::RunPump,
        ],
{
}

/// Where streaming is attempted, or there is no Spotify session, and no session
/// was saved, the network task only pumps.
pub proof fn the_network_leaves_playback_to_streaming(facts: LaunchFacts)
    requires
        !facts.saved_session,
        !facts.saved_queue,
        facts.enable_streaming || !facts.spotify_session,
    ensures
        crate::launch::network_plan(facts) =~= seq![NetworkStep::RunPump],
{
}

/// A saved queue is put back first, and changes nothing of what comes after.
pub proof fn a_saved_queue_comes_first(facts: LaunchFacts)
    requires
        facts.saved_queue,
    ensures
        crate::launch::network_plan(facts) =~= seq![NetworkStep::RestoreQueue]
            + crate::launch::network_plan(LaunchFacts { saved_queue: false, ..facts }),
{
}

/// On an empty status line, the caller's notice is shown for a quarter of a
/// minute; without one, a hint that Spotify is not connected, where its library
/// is on screen and there is no session; and otherwise nothing.
pub proof fn the_first_notice_is_the_callers(
    app: AppView,
    notice: Option<Seq<char>>,
    session: bool,
    hint: Seq<char>,
)
    requires
        app.status is None,
    ensures
        ({
            let after = app.noticed(notice, session, hint);
            let hinted = notice is None && !session && app.active_source == Source::Spotify;
            &&& after == (AppView { status: after.status, ..app })
            &&& notice is Some ==> after.status is Some && after.status->0.text == notice->0
                && after.status->0.ttl_secs == 15 && !after.status->0.error
            &&& hinted ==> after.status is Some && after.status->0.text == hint
                && after.status->0.ttl_secs == 8 && !after.status->0.error
            &&& notice is None && !hinted ==> after.status is None
        }),
{
}

/// On an empty status line, the control socket is announced with its port in
/// decimal.
pub proof fn the_socket_is_announced_with_its_port(app: AppView, port: u16)
    requires
        app.status is None,
    ensures
        ({
            let after = app.socket_announced(port);
            let words = "MCP server listening on 127.0.0.1:"@;
            let text = after.status->0.text;
            &&& after == (AppView { status: after.status, ..app })
            &&& after.status is Some
            &&& text.len() > words.len()
            &&& text.take(words.len() as int) =~= words
            &&& crate::laws::vocabulary::number(text.skip(words.len() as int)) == port
            &&& after.status->0.ttl_secs == 6
            &&& !after.status->0.error
        }),
{
    let words = "MCP server listening on 127.0.0.1:"@;
    let text = app.socket_announced(port).status->0.text;
    crate::laws::vocabulary::decimals_read_back(port as int);
    assert(text.skip(words.len() as int) == crate::launch::decimal(port as int));
}

} // verus!
