use rspotify::model::enums::RepeatState;
use spotatui::app::{
    App, LocalPlayback, PlaybackContext, Player, QueueSlot, RadioPlayback, RemotePlayback,
};
use spotatui::events::{Effect, IoEvent};
use spotatui::queue::DecodedQueue;
use spotatui::repeat::{LoopStatusEvent, RepeatMode};

fn queue() -> DecodedQueue {
    let uris = ["a", "b", "c"].iter().map(|s| s.to_string()).collect();
    DecodedQueue::new(uris, 1).unwrap()
}

fn player() -> Player {
    Player { paused: false, position_ms: 1000 }
}

fn local() -> App {
    let mut app = App::new();
    app.local_playback = Some(LocalPlayback {
        queue: queue(),
        player: player(),
        name: "Song".to_string(),
        artists: "Band".to_string(),
        album: "Album".to_string(),
        duration_ms: 180000,
    });
    app
}

fn remote() -> RemotePlayback {
    RemotePlayback { queue: queue(), player: Some(player()) }
}

fn context(shuffle_state: bool, repeat_state: RepeatState) -> App {
    let mut app = App::new();
    app.current_playback_context = Some(PlaybackContext {
        is_playing: true,
        shuffle_state,
        repeat_state,
    });
    app
}

fn status(app: &App) -> (&str, u64, bool) {
    let s = app.status.as_ref().unwrap();
    (s.text.as_str(), s.ttl_secs, s.error)
}

#[test]
fn shuffle_key_reorders_the_local_queue_and_back() {
    let mut app = local();
    app.shuffle();
    assert!(app.decoded_shuffle);
    assert_eq!(status(&app), ("Shuffle: On", 2, false));
    let q = &app.local_playback.as_ref().unwrap().queue;
    assert_eq!(q.uris, vec!["b", "c", "a"]);
    assert_eq!(q.index, 0);
    app.shuffle();
    assert!(!app.decoded_shuffle);
    assert_eq!(status(&app), ("Shuffle: Off", 2, false));
    assert_eq!(app.local_playback.as_ref().unwrap().queue, queue());
    assert!(app.effects.is_empty());
}

#[test]
fn local_session_comes_before_subsonic() {
    let mut app = local();
    app.subsonic_playback = Some(remote());
    app.shuffle();
    assert!(app.local_playback.as_ref().unwrap().queue.shuffle_backup.is_some());
    assert!(app.subsonic_playback.as_ref().unwrap().queue.shuffle_backup.is_none());
}

#[test]
fn subsonic_comes_before_youtube_and_qobuz() {
    let mut app = App::new();
    app.subsonic_playback = Some(remote());
    app.youtube_playback = Some(remote());
    app.shuffle();
    assert!(app.subsonic_playback.as_ref().unwrap().queue.shuffle_backup.is_some());
    assert!(app.youtube_playback.as_ref().unwrap().queue.shuffle_backup.is_none());
    let mut app = App::new();
    app.youtube_playback = Some(remote());
    app.qobuz_playback = Some(remote());
    app.shuffle();
    assert!(app.youtube_playback.as_ref().unwrap().queue.shuffle_backup.is_some());
    assert!(app.qobuz_playback.as_ref().unwrap().queue.shuffle_backup.is_some());
}

#[test]
fn shuffle_waits_for_a_track_change_and_then_lands() {
    let mut app = local();
    app.local_playback.as_mut().unwrap().queue.advancing = true;
    app.shuffle();
    assert!(app.decoded_shuffle);
    assert_eq!(app.local_playback.as_ref().unwrap().queue.uris, queue().uris);
    app.reconcile_decoded_shuffle();
    assert_eq!(app.local_playback.as_ref().unwrap().queue.uris, queue().uris);
    let q = &mut app.local_playback.as_mut().unwrap().queue;
    q.advancing = false;
    q.index = 2;
    app.reconcile_decoded_shuffle();
    let q = app.local_playback.as_ref().unwrap().queue.clone();
    assert_eq!(q.uris, vec!["c", "b", "a"]);
    app.reconcile_decoded_shuffle();
    assert_eq!(app.local_playback.as_ref().unwrap().queue, q);
}

#[test]
fn suspended_context_is_not_reconciled() {
    let mut app = local();
    app.decoded_shuffle = true;
    app.queue_slot = Some(QueueSlot::Spotify);
    app.reconcile_decoded_shuffle();
    assert!(app.local_playback.as_ref().unwrap().queue.shuffle_backup.is_none());
    app.queue_slot = None;
    app.reconcile_decoded_shuffle();
    assert!(app.local_playback.as_ref().unwrap().queue.shuffle_backup.is_some());
}

#[test]
fn shuffle_and_repeat_do_not_apply_to_radio() {
    let mut app = context(false, RepeatState::Off);
    app.radio_playback = Some(RadioPlayback { player: player() });
    app.shuffle();
    assert_eq!(status(&app), ("Shuffle does not apply to this source", 2, false));
    app.repeat();
    assert_eq!(status(&app), ("Repeat does not apply to this source", 2, false));
    assert!(!app.decoded_shuffle);
    assert_eq!(app.decoded_repeat, RepeatMode::Off);
    assert!(app.effects.is_empty());
}

#[test]
fn shuffle_and_repeat_do_not_apply_to_the_queue() {
    for slot in [QueueSlot::Spotify, QueueSlot::Decoded(Some(player()))] {
        let mut app = local();
        app.queue_slot = Some(slot);
        app.shuffle();
        assert_eq!(status(&app), ("Shuffle does not apply to this source", 2, false));
        app.repeat();
        assert_eq!(status(&app), ("Repeat does not apply to this source", 2, false));
        assert!(!app.decoded_shuffle);
        assert!(app.effects.is_empty());
    }
}

#[test]
fn shuffle_key_on_native_streaming() {
    let mut app = context(false, RepeatState::Off);
    app.native_streaming_active = true;
    app.streaming_player = true;
    app.mpris_registered = true;
    app.shuffle();
    assert_eq!(app.native_recovery.shuffle, Some(true));
    assert!(app.current_playback_context.unwrap().shuffle_state);
    assert!(app.shuffle_enabled);
    assert_eq!(
        app.effects,
        vec![
            Effect::Dispatch(IoEvent::ToggleNativeShuffleSession(true)),
            Effect::SaveShuffle(true),
            Effect::MprisShuffle(true),
        ]
    );
}

#[test]
fn shuffle_key_on_another_device() {
    let mut app = context(true, RepeatState::Off);
    app.native_streaming_active = true;
    app.shuffle();
    assert_eq!(app.effects, vec![Effect::SpotifyFallback(IoEvent::Shuffle(false))]);
    assert!(app.current_playback_context.unwrap().shuffle_state);
}

#[test]
fn toggles_without_anything_do_nothing() {
    let mut app = App::new();
    app.shuffle();
    app.repeat();
    assert_eq!(app, App::new());
}

#[test]
fn repeat_key_cycles_the_decoded_mode() {
    let mut app = local();
    app.repeat();
    assert_eq!(app.decoded_repeat, RepeatMode::Context);
    assert_eq!(status(&app), ("Repeat: All", 2, false));
    app.repeat();
    assert_eq!(app.decoded_repeat, RepeatMode::Track);
    assert_eq!(status(&app), ("Repeat: One", 2, false));
    app.repeat();
    assert_eq!(app.decoded_repeat, RepeatMode::Off);
    assert_eq!(status(&app), ("Repeat: Off", 2, false));
}

#[test]
fn repeat_key_on_native_streaming() {
    let mut app = context(false, RepeatState::Context);
    app.native_streaming_active = true;
    app.streaming_player = true;
    app.mpris_registered = true;
    app.repeat();
    assert_eq!(app.native_recovery.repeat, Some(RepeatState::Track));
    assert_eq!(app.current_playback_context.unwrap().repeat_state, RepeatState::Track);
    assert_eq!(
        app.effects,
        vec![
            Effect::PlayerCycleRepeat(RepeatState::Context),
            Effect::MprisLoopStatus(LoopStatusEvent::Track),
        ]
    );
}

#[test]
fn repeat_key_on_another_device_hands_over_the_current_state() {
    let mut app = context(false, RepeatState::Context);
    app.repeat();
    assert_eq!(app.effects, vec![Effect::SpotifyFallback(IoEvent::Repeat(RepeatState::Context))]);
    assert_eq!(app.current_playback_context.unwrap().repeat_state, RepeatState::Context);
}

#[test]
fn explicit_repeat_is_taken_by_a_queueable_source_only() {
    let mut app = local();
    assert!(app.set_decoded_repeat_from_state(RepeatState::Track));
    assert_eq!(app.decoded_repeat, RepeatMode::Track);
    app.queue_slot = Some(QueueSlot::Spotify);
    assert!(!app.set_decoded_repeat_from_state(RepeatState::Off));
    assert_eq!(app.decoded_repeat, RepeatMode::Track);
    assert!(!App::new().set_decoded_repeat_from_state(RepeatState::Off));
}

#[test]
fn explicit_shuffle_is_taken_by_a_queueable_source_only() {
    let mut app = local();
    assert!(app.set_decoded_shuffle(true));
    assert!(app.local_playback.as_ref().unwrap().queue.shuffle_backup.is_some());
    let on = app.local_playback.clone();
    assert!(app.set_decoded_shuffle(true));
    assert_eq!(app.local_playback, on);
    let mut radio = App::new();
    radio.radio_playback = Some(RadioPlayback { player: player() });
    assert!(!radio.set_decoded_shuffle(true));
    assert!(!radio.set_decoded_repeat(RepeatMode::Track));
    assert_eq!(radio.decoded_repeat, RepeatMode::Off);
}

#[test]
fn effects_are_handed_over_once() {
    let mut app = context(true, RepeatState::Off);
    app.shuffle();
    assert_eq!(app.take_effects().len(), 1);
    assert!(app.take_effects().is_empty());
}

#[test]
fn session_without_a_current_track_takes_the_flag_and_keeps_its_order() {
    let mut app = local();
    app.local_playback.as_mut().unwrap().queue.index = 3;
    app.shuffle();
    assert!(app.decoded_shuffle);
    assert_eq!(status(&app), ("Shuffle: On", 2, false));
    let q = &app.local_playback.as_ref().unwrap().queue;
    assert_eq!(q.uris, queue().uris);
    assert!(q.shuffle_backup.is_none());
}

#[test]
fn queue_slot_decides_who_claims_playback() {
    let mut app = local();
    assert!(app.active_queueable_decoded_source());
    assert_eq!(app.active_decoded_player(), Some(player()));
    app.queue_slot = Some(QueueSlot::Spotify);
    assert!(!app.active_queueable_decoded_source());
    assert!(!app.active_decoded_source());
    assert_eq!(app.active_decoded_player(), None);
    let queued = Player { paused: true, position_ms: 7 };
    app.queue_slot = Some(QueueSlot::Decoded(Some(queued)));
    assert!(app.active_decoded_source());
    assert_eq!(app.active_decoded_player(), Some(queued));
}
