use spotatui::app::{App, LocalPlayback, Player, RadioPlayback, RemotePlayback, Track};
use spotatui::discord::{is_blank, resolve_discord_app_id, DEFAULT_DISCORD_CLIENT_ID};
use spotatui::events::{Effect, IoEvent, Source};
use spotatui::launch::{
    network_steps, streaming_attempted, Launch, LaunchAction, LaunchFacts, NetworkStep, Platform,
};
use spotatui::queue::{DecodedQueue, ShuffleBackup};
use spotatui::repeat::RepeatMode;
use spotatui::restore::{
    resolve_paused, track_links, PersistedPlayback, Resume, SavedSession, StartRequest,
    StartupBehavior,
};

fn facts() -> LaunchFacts {
    LaunchFacts {
        platform: Platform::Linux,
        spotify_session: true,
        enable_streaming: true,
        mcp_enabled: false,
        io_sender: true,
        discord_enabled: false,
        saved_session: false,
        saved_queue: false,
        startup_behavior: StartupBehavior::Play,
        initial_shuffle: true,
    }
}

fn all_actions(facts: LaunchFacts, media_ok: bool, interface_ok: bool) -> Vec<LaunchAction> {
    let mut launch = Launch::new(facts);
    let mut ok = true;
    let mut all = Vec::new();
    loop {
        let action = launch.advance(ok);
        ok = match action {
            LaunchAction::RegisterMediaControls(_) => media_ok,
            LaunchAction::RunInterface => interface_ok,
            _ => true,
        };
        let done = matches!(action, LaunchAction::Finish(_));
        if action != LaunchAction::Nothing {
            all.push(action);
        }
        if done {
            return all;
        }
    }
}

#[test]
fn full_launch_on_macos() {
    let facts = LaunchFacts {
        platform: Platform::Macos,
        mcp_enabled: true,
        discord_enabled: true,
        ..facts()
    };
    assert_eq!(
        all_actions(facts, true, true),
        vec![
            LaunchAction::CacheStreamingCredentials,
            LaunchAction::ShowNotice,
            LaunchAction::SpawnHistoryCollector,
            LaunchAction::Dispatch(IoEvent::RunPlaylistSync { retry_unmatched: false }),
            LaunchAction::StartControlSocket,
            LaunchAction::InstallRecoverySender,
            LaunchAction::RegisterMediaControls(Platform::Macos),
            LaunchAction::ConnectDiscord,
            LaunchAction::SpawnMediaEvents(Platform::Macos),
            LaunchAction::SpawnMediaMetadata(Platform::Macos),
            LaunchAction::StartStreaming {
                device: StartupBehavior::Play,
                playback: Some(StartupBehavior::Play),
                shuffle: true,
            },
            LaunchAction::SpawnNetwork,
            LaunchAction::RunInterface,
            LaunchAction::ClearHandshake,
            LaunchAction::Finish(true),
        ]
    );
}

#[test]
fn bare_launch_that_fails() {
    let facts = LaunchFacts { spotify_session: false, ..facts() };
    assert_eq!(
        all_actions(facts, false, false),
        vec![
            LaunchAction::CacheStreamingCredentials,
            LaunchAction::ShowNotice,
            LaunchAction::SpawnHistoryCollector,
            LaunchAction::Dispatch(IoEvent::RunPlaylistSync { retry_unmatched: false }),
            LaunchAction::RegisterMediaControls(Platform::Linux),
            LaunchAction::SpawnNetwork,
            LaunchAction::RunInterface,
            LaunchAction::ClearHandshake,
            LaunchAction::FlushState,
            LaunchAction::Finish(false),
        ]
    );
}

#[test]
fn linux_publishes_metadata_from_the_interface() {
    let all = all_actions(facts(), true, true);
    assert!(all.contains(&LaunchAction::SpawnMediaEvents(Platform::Linux)));
    assert!(!all.contains(&LaunchAction::SpawnMediaMetadata(Platform::Linux)));
    let windows = LaunchFacts { platform: Platform::Windows, ..facts() };
    let all = all_actions(windows, true, true);
    assert!(all.contains(&LaunchAction::SpawnMediaMetadata(Platform::Windows)));
}

#[test]
fn control_socket_without_a_sender_is_a_warning() {
    let facts = LaunchFacts { mcp_enabled: true, io_sender: false, ..facts() };
    let all = all_actions(facts, true, true);
    assert!(all.contains(&LaunchAction::WarnNoSender));
    assert!(!all.contains(&LaunchAction::StartControlSocket));
}

#[test]
fn saved_session_keeps_streaming_passive() {
    let facts = LaunchFacts { saved_session: true, saved_queue: true, ..facts() };
    assert!(all_actions(facts, true, true).contains(&LaunchAction::StartStreaming {
        device: StartupBehavior::Continue,
        playback: None,
        shuffle: true,
    }));
    assert_eq!(
        network_steps(&facts),
        vec![
            NetworkStep::RestoreQueue,
            NetworkStep::RestoreSession(StartupBehavior::Play),
            NetworkStep::RunPump,
        ]
    );
}

#[test]
fn streaming_is_told_the_kept_shuffle() {
    let facts = LaunchFacts {
        initial_shuffle: false,
        startup_behavior: StartupBehavior::Pause,
        ..facts()
    };
    assert!(all_actions(facts, true, true).contains(&LaunchAction::StartStreaming {
        device: StartupBehavior::Pause,
        playback: Some(StartupBehavior::Pause),
        shuffle: false,
    }));
}

#[test]
fn network_decides_only_without_streaming() {
    assert!(streaming_attempted(&facts()));
    assert_eq!(network_steps(&facts()), vec![NetworkStep::RunPump]);
    let quiet = LaunchFacts { enable_streaming: false, ..facts() };
    assert!(!streaming_attempted(&quiet));
    assert_eq!(
        network_steps(&quiet),
        vec![
            NetworkStep::Handle(IoEvent::Shuffle(true)),
            NetworkStep::Handle(IoEvent::StartPlayback(None, None, None)),
            NetworkStep::RunPump,
        ]
    );
    let pause = LaunchFacts { startup_behavior: StartupBehavior::Pause, ..quiet };
    assert_eq!(
        network_steps(&pause),
        vec![NetworkStep::Handle(IoEvent::PausePlayback), NetworkStep::RunPump]
    );
    let passive = LaunchFacts { startup_behavior: StartupBehavior::Continue, ..quiet };
    assert_eq!(network_steps(&passive), vec![NetworkStep::RunPump]);
    let free = LaunchFacts { spotify_session: false, ..quiet };
    assert_eq!(network_steps(&free), vec![NetworkStep::RunPump]);
}

fn status(app: &App) -> (&str, u64, bool) {
    let s = app.status.as_ref().unwrap();
    (s.text.as_str(), s.ttl_secs, s.error)
}

#[test]
fn startup_notice_comes_before_the_hint() {
    let mut app = App::new();
    app.show_startup_notice(&Some("Notice".to_string()), false, "Not connected");
    assert_eq!(status(&app), ("Notice", 15, false));
    app.show_startup_notice(&Some("Later".to_string()), false, "Not connected");
    assert_eq!(status(&app), ("Notice", 15, false));
    let mut app = App::new();
    app.show_startup_notice(&None, false, "Not connected");
    assert_eq!(status(&app), ("Not connected", 8, false));
    let mut app = App::new();
    app.show_startup_notice(&None, true, "Not connected");
    assert!(app.status.is_none());
    app.active_source = Source::Local;
    app.show_startup_notice(&None, false, "Not connected");
    assert!(app.status.is_none());
}

#[test]
fn control_socket_is_announced_on_an_empty_line() {
    let mut app = App::new();
    app.announce_control_socket(50_210);
    assert_eq!(status(&app), ("MCP server listening on 127.0.0.1:50210", 6, false));
    app.announce_control_socket(7);
    assert_eq!(status(&app), ("MCP server listening on 127.0.0.1:50210", 6, false));
    let mut app = App::new();
    app.announce_control_socket(0);
    assert_eq!(status(&app), ("MCP server listening on 127.0.0.1:0", 6, false));
}

#[test]
fn control_socket_failure_is_an_error() {
    let mut app = App::new();
    app.announce_control_socket(1);
    app.report_control_socket_failure("in use");
    assert_eq!(status(&app), ("MCP server failed to start: in use", 8, true));
}

#[test]
fn streaming_start_parks_requests() {
    let mut app = App::new();
    app.begin_native_streaming();
    assert!(app.native_backend_pending);
}

#[test]
fn discord_id_comes_from_the_environment_first() {
    let some = |s: &str| Some(s.to_string());
    assert_eq!(resolve_discord_app_id(some("1"), some("2")), some("1"));
    assert_eq!(resolve_discord_app_id(some(" \t"), some("2")), some("2"));
    assert_eq!(resolve_discord_app_id(some(""), None), some(DEFAULT_DISCORD_CLIENT_ID));
    assert_eq!(resolve_discord_app_id(None, None), some("1464235043462447166"));
    assert_eq!(resolve_discord_app_id(some(" 1 "), None), some(" 1 "));
    assert_eq!(resolve_discord_app_id(None, some("")), some(""));
}

#[test]
fn blank_agrees_with_trim() {
    for n in 0..0x11_0000u32 {
        if let Some(c) = char::from_u32(n) {
            if n < 0x4000 || n % 4096 == 0 {
                let text = c.to_string();
                assert_eq!(is_blank(&text), text.trim().is_empty(), "{n:x}");
            }
        }
    }
    assert!(is_blank(""));
    assert!(!is_blank("  x "));
}

fn track(uri: Option<&str>) -> Track {
    Track { uri: uri.map(|s| s.to_string()), name: "Name".to_string() }
}

fn saved() -> SavedSession {
    SavedSession {
        index: 1,
        position_ms: 5_000,
        paused: true,
        repeat: RepeatMode::Track,
        shuffle_on: true,
        shuffle: Some(ShuffleBackup {
            uris: vec!["b".to_string(), "a".to_string()],
            places: vec![1, 0],
        }),
    }
}

fn queue() -> DecodedQueue {
    DecodedQueue::new(vec!["a".to_string(), "b".to_string()], 1).unwrap()
}

fn player() -> Player {
    Player { paused: false, position_ms: 0 }
}

fn with_local(app: &mut App) {
    app.local_playback = Some(LocalPlayback {
        queue: queue(),
        player: player(),
        name: String::new(),
        artists: String::new(),
        album: String::new(),
        duration_ms: 0,
    });
}

#[test]
fn choice_decides_about_pausing() {
    for was in [false, true] {
        assert!(!resolve_paused(StartupBehavior::Play, was));
        assert!(resolve_paused(StartupBehavior::Pause, was));
        assert_eq!(resolve_paused(StartupBehavior::Continue, was), was);
    }
}

#[test]
fn local_session_restores() {
    let mut app = App::new();
    let queue = vec!["a".to_string(), "b".to_string()];
    let session = PersistedPlayback::Local { queue: queue.clone(), saved: saved() };
    let start = app.restore_playback_session(session, StartupBehavior::Continue).unwrap();
    assert_eq!(start.source, Source::Local);
    assert_eq!(
        start.request,
        StartRequest::Route(IoEvent::StartPlayback(None, Some(queue), Some(1)))
    );
    assert!(app.track_table.is_empty());
    with_local(&mut app);
    app.resume_restored_session(start.resume);
    assert_eq!(app.decoded_repeat, RepeatMode::Track);
    assert!(app.decoded_shuffle);
    assert_eq!(app.local_playback.as_ref().unwrap().queue.shuffle_backup, saved().shuffle);
    assert_eq!(
        app.effects,
        vec![Effect::DecodedSeek(Source::Local, 5_000), Effect::DecodedPause(Source::Local)]
    );
}

#[test]
fn failed_start_changes_nothing() {
    let mut app = App::new();
    let session = PersistedPlayback::Local { queue: vec!["a".to_string()], saved: saved() };
    let start = app.restore_playback_session(session, StartupBehavior::Play).unwrap();
    app.resume_restored_session(start.resume);
    assert_eq!(app, App::new());
}

#[test]
fn restored_order_is_brought_in_line() {
    let mut app = App::new();
    with_local(&mut app);
    app.resume_restored_session(Resume::Queue {
        source: Source::Local,
        position_ms: 0,
        paused: false,
        repeat: RepeatMode::Off,
        shuffle_on: true,
        shuffle: None,
    });
    assert!(app.effects.is_empty());
    assert!(app.decoded_shuffle);
    app.reconcile_decoded_shuffle();
    let q = &app.local_playback.as_ref().unwrap().queue;
    assert!(q.shuffle_backup.is_some());
    assert_eq!(q.uris[q.index], "b");
}

#[test]
fn remote_sessions_restore_their_links() {
    let tracks = vec![track(Some("a")), track(None), track(Some("b"))];
    assert_eq!(track_links(&tracks), vec!["a", "b"]);
    for source in [Source::Subsonic, Source::YouTube] {
        let mut app = App::new();
        let session = match source {
            Source::Subsonic => {
                PersistedPlayback::Subsonic { tracks: tracks.clone(), saved: saved() }
            }
            _ => PersistedPlayback::YouTube { tracks: tracks.clone(), saved: saved() },
        };
        let start = app.restore_playback_session(session, StartupBehavior::Play).unwrap();
        assert_eq!(start.source, source);
        assert_eq!(app.track_table, tracks);
        assert_eq!(
            start.request,
            StartRequest::Route(IoEvent::StartPlayback(
                None,
                Some(vec!["a".to_string(), "b".to_string()]),
                Some(1)
            ))
        );
        let session = Some(RemotePlayback { queue: queue(), player: Some(player()) });
        if source == Source::Subsonic {
            app.subsonic_playback = session;
        } else {
            app.youtube_playback = session;
        }
        app.resume_restored_session(start.resume);
        assert_eq!(app.effects, vec![Effect::DecodedSeek(source, 5_000)]);
        assert!(app.decoded_shuffle);
    }
}

#[test]
fn qobuz_sees_to_its_position_itself() {
    let mut app = App::new();
    let session = PersistedPlayback::Qobuz { tracks: vec![track(Some("a"))], saved: saved() };
    let start = app.restore_playback_session(session, StartupBehavior::Pause).unwrap();
    assert_eq!(
        start.request,
        StartRequest::Qobuz {
            uris: vec!["a".to_string()],
            index: 1,
            position_ms: 5_000,
            paused: true,
        }
    );
    app.qobuz_playback = Some(RemotePlayback { queue: queue(), player: None });
    app.resume_restored_session(start.resume);
    assert!(app.effects.is_empty());
    assert_eq!(app.qobuz_playback.as_ref().unwrap().queue.shuffle_backup, saved().shuffle);
    assert_eq!(app.decoded_repeat, RepeatMode::Track);
}

#[test]
fn radio_restores_its_pause_only() {
    let mut app = App::new();
    let station = track(Some("http://station"));
    let session = PersistedPlayback::Radio { station: station.clone(), paused: true };
    let start = app.restore_playback_session(session, StartupBehavior::Continue).unwrap();
    assert_eq!(
        start.request,
        StartRequest::Route(IoEvent::StartPlayback(
            Some("http://station".to_string()),
            None,
            None
        ))
    );
    assert_eq!(app.track_table, vec![station]);
    app.radio_playback = Some(RadioPlayback { player: player() });
    app.resume_restored_session(start.resume);
    assert_eq!(app.effects, vec![Effect::DecodedPause(Source::Radio)]);
}

#[test]
fn empty_sessions_do_not_start() {
    let mut app = App::new();
    let empty = [
        PersistedPlayback::Local { queue: Vec::new(), saved: saved() },
        PersistedPlayback::Subsonic { tracks: vec![track(None)], saved: saved() },
        PersistedPlayback::Qobuz { tracks: Vec::new(), saved: saved() },
        PersistedPlayback::YouTube { tracks: vec![track(None)], saved: saved() },
        PersistedPlayback::Radio { station: track(None), paused: false },
    ];
    for session in empty {
        assert!(app.restore_playback_session(session, StartupBehavior::Play).is_none());
    }
    assert_eq!(app, App::new());
}
