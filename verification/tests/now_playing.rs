use spotatui::app::{App, LocalPlayback, Player, QueueSlot};
use spotatui::events::MacMediaEvent;
use spotatui::macos_media::{MacMediaCommand, MacMediaManager};
use spotatui::metadata::{
    publish_modes, update_macos_metadata, update_windows_metadata, windows_media_tick,
    MacosMetadata, MacosModes, MediaMetadata, PlaybackSnapshot, WindowsMediaCommand,
    WindowsMetadata, WindowsPoll,
};
use spotatui::now_playing::{
    artwork_from_body, artwork_status_ok, artwork_wanted, handle_now_playing_command,
    join_strings, remote_command_event, NowPlayingInfo, NowPlayingUpdate, PlaybackState,
    RemoteCommand, RepeatType, ShuffleType,
};
use spotatui::queue::DecodedQueue;
use spotatui::repeat::{MacRepeatMode, RepeatMode};
use rspotify::model::enums::RepeatState;
use tokio::sync::mpsc::UnboundedReceiver;

fn received(rx: &mut UnboundedReceiver<MacMediaCommand>) -> Vec<MacMediaCommand> {
    let mut all = Vec::new();
    while let Ok(command) = rx.try_recv() {
        all.push(command);
    }
    all
}

fn local() -> App {
    let mut app = App::new();
    app.local_playback = Some(LocalPlayback {
        queue: DecodedQueue::new(vec!["a".to_string()], 0).unwrap(),
        player: Player { paused: true, position_ms: 4_321 },
        name: "Song".to_string(),
        artists: "Band".to_string(),
        album: "Album".to_string(),
        duration_ms: 4_294_967_296 + 180_000,
    });
    app.decoded_repeat = RepeatMode::Context;
    app
}

fn media(title: &str) -> MediaMetadata {
    MediaMetadata {
        title: title.to_string(),
        artists: vec!["One".to_string(), "Two".to_string()],
        album: "Record".to_string(),
        duration_ms: 200_000,
        image_url: Some("https://example.org/art.jpg".to_string()),
    }
}

fn snapshot(title: &str) -> PlaybackSnapshot {
    PlaybackSnapshot {
        metadata: media(title),
        is_playing: true,
        progress_ms: 1_000,
        shuffle: true,
        repeat: Some(RepeatState::Track),
    }
}

fn metadata_command(title: &str) -> MacMediaCommand {
    MacMediaCommand::SetMetadata {
        title: title.to_string(),
        artists: vec!["One".to_string(), "Two".to_string()],
        album: "Record".to_string(),
        duration_ms: 200_000,
        art_url: Some("https://example.org/art.jpg".to_string()),
    }
}

#[test]
fn manager_sends_in_order() {
    let (mut manager, _event_tx, mut rx) = MacMediaManager::new();
    manager.set_metadata("T", &["A".to_string()], "L", 5, None);
    manager.set_playback_status(true);
    manager.set_position(77);
    manager.set_volume(50);
    manager.set_shuffle(true);
    manager.set_repeat(MacRepeatMode::One);
    manager.set_stopped();
    assert_eq!(
        received(&mut rx),
        vec![
            MacMediaCommand::SetMetadata {
                title: "T".to_string(),
                artists: vec!["A".to_string()],
                album: "L".to_string(),
                duration_ms: 5,
                art_url: None,
            },
            MacMediaCommand::SetPlaybackStatus(true),
            MacMediaCommand::SetPosition(77),
            MacMediaCommand::SetVolume(50),
            MacMediaCommand::SetShuffle(true),
            MacMediaCommand::SetRepeat(MacRepeatMode::One),
            MacMediaCommand::SetStopped,
        ]
    );
}

#[test]
fn manager_survives_a_lost_media_thread() {
    let (mut manager, _event_tx, rx) = MacMediaManager::new();
    drop(rx);
    manager.set_stopped();
}

#[test]
fn event_receiver_is_taken_once() {
    let (mut manager, event_tx, _rx) = MacMediaManager::new();
    event_tx.send(MacMediaEvent::Next).unwrap();
    let mut event_rx = manager.take_event_rx().unwrap();
    assert_eq!(event_rx.try_recv().unwrap(), MacMediaEvent::Next);
    assert!(manager.take_event_rx().is_none());
}

#[test]
fn local_session_is_published_once_and_its_state_always() {
    let (mut manager, _event_tx, mut rx) = MacMediaManager::new();
    let (mut last, mut modes) = (None, None);
    let app = local();
    update_macos_metadata(&mut manager, &mut last, &mut modes, &app, &Some(snapshot("Other")));
    let always =
        vec![MacMediaCommand::SetPlaybackStatus(false), MacMediaCommand::SetPosition(4_321)];
    let mut first = vec![MacMediaCommand::SetMetadata {
        title: "Song".to_string(),
        artists: vec!["Band".to_string()],
        album: "Album".to_string(),
        duration_ms: 180_000,
        art_url: None,
    }];
    first.extend(always.clone());
    first.push(MacMediaCommand::SetShuffle(false));
    first.push(MacMediaCommand::SetRepeat(MacRepeatMode::All));
    assert_eq!(received(&mut rx), first);
    update_macos_metadata(&mut manager, &mut last, &mut modes, &app, &None);
    assert_eq!(received(&mut rx), always);
}

#[test]
fn toggles_do_not_republish_the_track() {
    let (mut manager, _event_tx, mut rx) = MacMediaManager::new();
    let (mut last, mut modes) = (None, None);
    let mut app = local();
    update_macos_metadata(&mut manager, &mut last, &mut modes, &app, &None);
    received(&mut rx);
    app.shuffle();
    update_macos_metadata(&mut manager, &mut last, &mut modes, &app, &None);
    assert_eq!(
        received(&mut rx)[2..],
        [MacMediaCommand::SetShuffle(true), MacMediaCommand::SetRepeat(MacRepeatMode::All)]
    );
}

#[test]
fn suspended_local_session_gives_way_to_the_snapshot() {
    let (mut manager, _event_tx, mut rx) = MacMediaManager::new();
    let (mut last, mut modes) = (None, None);
    let mut app = local();
    app.queue_slot = Some(QueueSlot::Spotify);
    update_macos_metadata(&mut manager, &mut last, &mut modes, &app, &Some(snapshot("Queued")));
    assert_eq!(
        received(&mut rx),
        vec![
            metadata_command("Queued"),
            MacMediaCommand::SetShuffle(true),
            MacMediaCommand::SetRepeat(MacRepeatMode::One),
        ]
    );
    update_macos_metadata(&mut manager, &mut last, &mut modes, &app, &Some(snapshot("Next")));
    assert_eq!(received(&mut rx), vec![metadata_command("Next")]);
}

#[test]
fn silence_clears_the_toggles_and_forgets_the_track() {
    let (mut manager, _event_tx, mut rx) = MacMediaManager::new();
    let (mut last, mut modes) = (None, None);
    let app = App::new();
    update_macos_metadata(&mut manager, &mut last, &mut modes, &app, &Some(snapshot("Song")));
    received(&mut rx);
    update_macos_metadata(&mut manager, &mut last, &mut modes, &app, &None);
    assert_eq!(
        received(&mut rx),
        vec![MacMediaCommand::SetShuffle(false), MacMediaCommand::SetRepeat(MacRepeatMode::Off)]
    );
    assert!(last.is_none());
    update_macos_metadata(&mut manager, &mut last, &mut modes, &app, &Some(snapshot("Song")));
    assert_eq!(received(&mut rx)[0], metadata_command("Song"));
}

#[test]
fn modes_are_published_on_a_change_only() {
    let (mut manager, _event_tx, mut rx) = MacMediaManager::new();
    let modes = MacosModes { shuffle: true, repeat: MacRepeatMode::Off };
    let mut last = None;
    publish_modes(&mut manager, &mut last, modes);
    assert_eq!(received(&mut rx).len(), 2);
    publish_modes(&mut manager, &mut last, modes);
    assert!(received(&mut rx).is_empty());
    assert_eq!(last, Some(modes));
}

#[test]
fn metadata_is_the_same_by_content() {
    let one = MacosMetadata {
        title: "T".to_string(),
        artists: vec!["A".to_string(), "B".to_string()],
        album: "L".to_string(),
        duration_ms: 1,
        art_url: None,
    };
    let mut two = one.clone();
    assert!(one.same(&two));
    two.artists.pop();
    assert!(!one.same(&two));
    let mut two = one.clone();
    two.artists[1] = "C".to_string();
    assert!(!one.same(&two));
    let mut two = one.clone();
    two.art_url = Some(String::new());
    assert!(!one.same(&two));
}

fn windows_metadata(title: &str) -> WindowsMetadata {
    WindowsMetadata {
        title: title.to_string(),
        artists: vec!["One".to_string(), "Two".to_string()],
        album: "Record".to_string(),
        duration: 200_000,
        art_url: Some("https://example.org/art.jpg".to_string()),
    }
}

#[test]
fn windows_metadata_is_published_on_a_change_only() {
    let mut last = None;
    let (publish, state) = update_windows_metadata(&mut last, &Some(snapshot("Song")));
    assert_eq!(publish, Some(windows_metadata("Song")));
    assert_eq!(state, Some((true, 1_000)));
    assert!(last.as_ref().unwrap().same(&windows_metadata("Song")));
    let (publish, state) = update_windows_metadata(&mut last, &Some(snapshot("Song")));
    assert_eq!(publish, None);
    assert_eq!(state, Some((true, 1_000)));
    assert_eq!(update_windows_metadata(&mut last, &None), (None, None));
    assert_eq!(last, None);
}

#[test]
fn windows_tick_polls_other_devices() {
    let mut poll = WindowsPoll { last_metadata: None, last_playing: None };
    let mut app = App::new();
    assert_eq!(
        windows_media_tick(&mut poll, &app, &Some(snapshot("Song"))),
        vec![
            WindowsMediaCommand::SetMetadata(windows_metadata("Song")),
            WindowsMediaCommand::SetPlaybackStatus(true),
            WindowsMediaCommand::SetPosition(1_000),
        ]
    );
    assert_eq!(
        windows_media_tick(&mut poll, &app, &Some(snapshot("Song"))),
        vec![WindowsMediaCommand::SetPosition(1_000)]
    );
    app.song_progress_ms = 9_000;
    assert_eq!(
        windows_media_tick(&mut poll, &app, &None),
        vec![
            WindowsMediaCommand::SetPlaybackStatus(false),
            WindowsMediaCommand::SetPosition(9_000),
        ]
    );
}

#[test]
fn windows_tick_leaves_native_playback_to_itself() {
    let mut poll = WindowsPoll { last_metadata: None, last_playing: None };
    let mut app = App::new();
    app.native_track_loaded = true;
    app.native_is_playing = Some(true);
    assert_eq!(
        windows_media_tick(&mut poll, &app, &Some(snapshot("Song"))),
        vec![WindowsMediaCommand::SetMetadata(windows_metadata("Song"))]
    );
    assert_eq!(poll.last_playing, Some(true));
    let mut app = local();
    app.native_track_loaded = true;
    assert_eq!(windows_media_tick(&mut poll, &app, &Some(snapshot("Song"))).len(), 1);
}

#[test]
fn remote_commands_become_requests() {
    assert_eq!(remote_command_event(RemoteCommand::Play), Some(MacMediaEvent::Play));
    assert_eq!(remote_command_event(RemoteCommand::Pause), Some(MacMediaEvent::Pause));
    assert_eq!(
        remote_command_event(RemoteCommand::TogglePlayPause),
        Some(MacMediaEvent::PlayPause)
    );
    assert_eq!(remote_command_event(RemoteCommand::NextTrack), Some(MacMediaEvent::Next));
    assert_eq!(remote_command_event(RemoteCommand::PreviousTrack), Some(MacMediaEvent::Previous));
    assert_eq!(remote_command_event(RemoteCommand::Stop), Some(MacMediaEvent::Stop));
    assert_eq!(
        remote_command_event(RemoteCommand::ChangePosition(Some(5))),
        Some(MacMediaEvent::Seek(5))
    );
    assert_eq!(remote_command_event(RemoteCommand::ChangePosition(None)), None);
}

#[test]
fn any_shuffle_but_off_turns_it_on() {
    let asked = |kind| remote_command_event(RemoteCommand::ChangeShuffle(kind)).unwrap();
    assert_eq!(asked(ShuffleType::Off), MacMediaEvent::SetShuffle(false));
    assert_eq!(asked(ShuffleType::Items), MacMediaEvent::SetShuffle(true));
    assert_eq!(asked(ShuffleType::Collections), MacMediaEvent::SetShuffle(true));
    assert_eq!(asked(ShuffleType::Unknown), MacMediaEvent::SetShuffle(true));
}

#[test]
fn unknown_repeat_is_none() {
    let asked = |kind| remote_command_event(RemoteCommand::ChangeRepeat(kind)).unwrap();
    assert_eq!(asked(RepeatType::Off), MacMediaEvent::SetRepeat(MacRepeatMode::Off));
    assert_eq!(asked(RepeatType::One), MacMediaEvent::SetRepeat(MacRepeatMode::One));
    assert_eq!(asked(RepeatType::All), MacMediaEvent::SetRepeat(MacRepeatMode::All));
    assert_eq!(asked(RepeatType::Unknown), MacMediaEvent::SetRepeat(MacRepeatMode::Off));
}

#[test]
fn metadata_becomes_now_playing_info() {
    let command = metadata_command("Song");
    assert_eq!(artwork_wanted(&command), Some("https://example.org/art.jpg".to_string()));
    assert_eq!(
        handle_now_playing_command(&command, false, true),
        vec![NowPlayingUpdate::SetInfo(NowPlayingInfo {
            title: "Song".to_string(),
            artist: "One, Two".to_string(),
            album: "Record".to_string(),
            duration_ms: 200_000,
            artwork: true,
        })]
    );
    assert_eq!(artwork_wanted(&MacMediaCommand::SetStopped), None);
}

#[test]
fn status_and_position_need_a_track_on_show() {
    let status = MacMediaCommand::SetPlaybackStatus(false);
    assert_eq!(
        handle_now_playing_command(&status, true, false),
        vec![
            NowPlayingUpdate::SetState(PlaybackState::Paused),
            NowPlayingUpdate::SetRunning(false),
        ]
    );
    assert_eq!(
        handle_now_playing_command(&MacMediaCommand::SetPlaybackStatus(true), false, false),
        vec![NowPlayingUpdate::SetState(PlaybackState::Playing)]
    );
    let position = MacMediaCommand::SetPosition(3);
    assert_eq!(
        handle_now_playing_command(&position, true, false),
        vec![NowPlayingUpdate::SetElapsed(3)]
    );
    assert!(handle_now_playing_command(&position, false, false).is_empty());
}

#[test]
fn stop_clears_and_volume_is_ignored() {
    assert_eq!(
        handle_now_playing_command(&MacMediaCommand::SetStopped, true, false),
        vec![NowPlayingUpdate::SetState(PlaybackState::Stopped), NowPlayingUpdate::ClearInfo]
    );
    assert!(handle_now_playing_command(&MacMediaCommand::SetVolume(5), true, false).is_empty());
}

#[test]
fn published_modes_read_back() {
    for on in [false, true] {
        let updates = handle_now_playing_command(&MacMediaCommand::SetShuffle(on), true, false);
        match updates[0] {
            NowPlayingUpdate::SetShuffle(kind) => assert_eq!(
                remote_command_event(RemoteCommand::ChangeShuffle(kind)),
                Some(MacMediaEvent::SetShuffle(on))
            ),
            _ => panic!("no shuffle"),
        }
    }
    for mode in [MacRepeatMode::Off, MacRepeatMode::One, MacRepeatMode::All] {
        let updates = handle_now_playing_command(&MacMediaCommand::SetRepeat(mode), true, false);
        match updates[0] {
            NowPlayingUpdate::SetRepeat(kind) => assert_eq!(
                remote_command_event(RemoteCommand::ChangeRepeat(kind)),
                Some(MacMediaEvent::SetRepeat(mode))
            ),
            _ => panic!("no repeat"),
        }
    }
}

#[test]
fn artists_are_joined_with_commas() {
    assert_eq!(join_strings(&[], ", "), "");
    assert_eq!(join_strings(&["A".to_string()], ", "), "A");
    let three = ["A".to_string(), String::new(), "C".to_string()];
    assert_eq!(join_strings(&three, ", "), "A, , C");
}

#[test]
fn artwork_needs_success_and_a_body() {
    assert!(artwork_status_ok(200));
    assert!(artwork_status_ok(299));
    assert!(!artwork_status_ok(199));
    assert!(!artwork_status_ok(300));
    assert!(!artwork_status_ok(404));
    assert_eq!(artwork_from_body(Vec::new()), None);
    assert_eq!(artwork_from_body(vec![1, 2]), Some(vec![1, 2]));
}
