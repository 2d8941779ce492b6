use rspotify::model::enums::RepeatState;
use spotatui::app::{App, PlaybackContext, Player, QueueSlot, RadioPlayback, RemotePlayback};
use spotatui::events::{Effect, IoEvent, MprisEvent};
use spotatui::mpris::SharedPlayback;
use spotatui::position::{position_target_ms, seek_target_ms};
use spotatui::queue::DecodedQueue;
use spotatui::repeat::{LoopStatusEvent, RepeatMode};

fn resume() -> IoEvent {
    IoEvent::StartPlayback(None, None, None)
}

fn shared(is_playing: bool, position_ms: u64) -> SharedPlayback {
    SharedPlayback { is_playing, position_ms }
}

fn subsonic(paused: bool) -> App {
    let mut app = App::new();
    let uris = ["a", "b", "c"].iter().map(|s| s.to_string()).collect();
    app.subsonic_playback = Some(RemotePlayback {
        queue: DecodedQueue::new(uris, 0).unwrap(),
        player: Some(Player { paused, position_ms: 10_000 }),
    });
    // Librespot stays initialized while a decoded source plays.
    app.streaming_player = true;
    app
}

fn native() -> App {
    let mut app = App::new();
    app.streaming_player = true;
    app.current_playback_context = Some(PlaybackContext {
        is_playing: false,
        shuffle_state: false,
        repeat_state: RepeatState::Off,
    });
    app
}

fn device() -> App {
    let mut app = native();
    app.streaming_player = false;
    app
}

fn handled(mut app: App, event: MprisEvent) -> App {
    app.handle_mpris_event(&event, shared(true, 5_000));
    app
}

#[test]
fn disabled_media_keys_ignore_mpris() {
    let mut app = native();
    app.enable_media_keys = false;
    app.handle_mpris_event(&MprisEvent::Play, shared(false, 0));
    app.handle_mpris_event(&MprisEvent::SetVolume(10), shared(false, 0));
    assert!(app.effects.is_empty());
}

#[test]
fn decoded_source_gets_mpris_transport() {
    let dispatched = |event: MprisEvent, paused: bool| handled(subsonic(paused), event).effects;
    assert_eq!(dispatched(MprisEvent::PlayPause, true), vec![Effect::Dispatch(resume())]);
    assert_eq!(
        dispatched(MprisEvent::PlayPause, false),
        vec![Effect::Dispatch(IoEvent::PausePlayback)]
    );
    assert_eq!(dispatched(MprisEvent::Play, false), vec![Effect::Dispatch(resume())]);
    assert_eq!(
        dispatched(MprisEvent::Pause, false),
        vec![Effect::Dispatch(IoEvent::PausePlayback)]
    );
    assert_eq!(
        dispatched(MprisEvent::Stop, false),
        vec![Effect::Dispatch(IoEvent::PausePlayback)]
    );
    assert_eq!(dispatched(MprisEvent::Next, false), vec![Effect::Dispatch(IoEvent::NextTrack)]);
    assert_eq!(
        dispatched(MprisEvent::Previous, false),
        vec![Effect::Dispatch(IoEvent::PreviousTrack)]
    );
    assert_eq!(
        dispatched(MprisEvent::Seek(2_500_000), false),
        vec![Effect::Dispatch(IoEvent::Seek(12_500)), Effect::MprisSeeked(12_500)]
    );
    assert_eq!(
        dispatched(MprisEvent::Seek(-60_000_000), false),
        vec![Effect::Dispatch(IoEvent::Seek(0)), Effect::MprisSeeked(0)]
    );
    assert_eq!(
        dispatched(MprisEvent::SetPosition(42_000_999), false),
        vec![Effect::Dispatch(IoEvent::Seek(42_000)), Effect::MprisSeeked(42_000)]
    );
}

#[test]
fn session_without_a_current_track_still_gets_transport() {
    let mut app = subsonic(false);
    app.subsonic_playback.as_mut().unwrap().queue.index = 9;
    app.handle_mpris_event(&MprisEvent::Pause, shared(true, 0));
    app.handle_mpris_event(&MprisEvent::SetShuffle(true), shared(true, 0));
    assert!(app.decoded_shuffle);
    assert_eq!(
        app.effects,
        vec![Effect::Dispatch(IoEvent::PausePlayback), Effect::MprisShuffle(true)]
    );
}

#[test]
fn decoded_source_takes_mpris_modes() {
    let app = handled(subsonic(false), MprisEvent::SetShuffle(true));
    assert!(app.decoded_shuffle);
    assert!(app.subsonic_playback.as_ref().unwrap().queue.shuffle_backup.is_some());
    assert_eq!(app.effects, vec![Effect::MprisShuffle(true)]);
    let app = handled(subsonic(false), MprisEvent::SetLoopStatus(LoopStatusEvent::Playlist));
    assert_eq!(app.decoded_repeat, RepeatMode::Context);
    assert_eq!(app.effects, vec![Effect::MprisLoopStatus(LoopStatusEvent::Playlist)]);
}

#[test]
fn volume_is_never_routed() {
    let mut app = subsonic(false);
    assert!(!app.route_decoded_mpris_event(&MprisEvent::SetVolume(30)));
    assert!(app.effects.is_empty());
    assert_eq!(handled(app, MprisEvent::SetVolume(30)).effects, vec![Effect::SetVolume(30)]);
}

#[test]
fn radio_rejects_modes_and_corrects_the_client() {
    let radio = || {
        let mut app = native();
        app.radio_playback =
            Some(RadioPlayback { player: Player { paused: false, position_ms: 0 } });
        app
    };
    let app = handled(radio(), MprisEvent::SetShuffle(true));
    assert_eq!(app.effects, vec![Effect::MprisShuffle(false)]);
    assert!(!app.decoded_shuffle);
    let app = handled(radio(), MprisEvent::SetLoopStatus(LoopStatusEvent::Track));
    assert_eq!(app.effects, vec![Effect::MprisLoopStatus(LoopStatusEvent::Off)]);
    assert_eq!(app.decoded_repeat, RepeatMode::Off);
}

#[test]
fn queued_spotify_track_rejects_modes_and_passes_transport() {
    let queued = || {
        let mut app = native();
        app.queue_slot = Some(QueueSlot::Spotify);
        app
    };
    let app = handled(queued(), MprisEvent::SetShuffle(true));
    assert_eq!(app.effects, vec![Effect::MprisShuffle(false)]);
    assert!(!app.current_playback_context.unwrap().shuffle_state);
    let app = handled(queued(), MprisEvent::SetLoopStatus(LoopStatusEvent::Playlist));
    assert_eq!(app.effects, vec![Effect::MprisLoopStatus(LoopStatusEvent::Off)]);
    let app = handled(queued(), MprisEvent::Pause);
    assert_eq!(app.effects, vec![Effect::PlayerPause]);
}

#[test]
fn start_in_flight_swallows_mpris_but_not_volume() {
    let starting = || {
        let mut app = subsonic(false);
        app.subsonic_playback.as_mut().unwrap().player = None;
        app
    };
    for event in [
        MprisEvent::PlayPause,
        MprisEvent::Next,
        MprisEvent::Seek(1),
        MprisEvent::SetShuffle(true),
        MprisEvent::SetLoopStatus(LoopStatusEvent::Track),
    ] {
        assert_eq!(handled(starting(), event), starting());
    }
    assert_eq!(handled(starting(), MprisEvent::SetVolume(9)).effects, vec![Effect::SetVolume(9)]);
}

#[test]
fn native_player_gets_mpris_transport() {
    assert_eq!(handled(native(), MprisEvent::PlayPause).effects, vec![Effect::PlayerPause]);
    let mut app = native();
    app.handle_mpris_event(&MprisEvent::PlayPause, shared(false, 0));
    assert_eq!(app.effects, vec![Effect::PlayerPlay]);
    assert_eq!(app.native_recovery.playing, None);
    let app = handled(native(), MprisEvent::Play);
    assert_eq!(app.effects, vec![Effect::PlayerPlay]);
    assert_eq!(app.native_recovery.playing, Some(true));
    for event in [MprisEvent::Pause, MprisEvent::Stop] {
        let app = handled(native(), event);
        assert_eq!(app.effects, vec![Effect::PlayerPause]);
        assert_eq!(app.native_recovery.playing, Some(false));
    }
    assert_eq!(handled(native(), MprisEvent::Next).effects, vec![Effect::NextTrack]);
    assert_eq!(handled(native(), MprisEvent::Previous).effects, vec![Effect::PreviousTrack]);
}

#[test]
fn native_player_seeks_from_the_shared_position() {
    let mut app = handled(native(), MprisEvent::Seek(-1_500_000));
    assert_eq!(
        app.take_effects(),
        vec![
            Effect::PlayerSeek(3_500),
            Effect::StoreSharedPosition(3_500),
            Effect::CommitSeek(3_500),
            Effect::MprisSeeked(3_500),
        ]
    );
    app.commit_native_seek(3_500);
    assert_eq!(app.song_progress_ms, 3_500);
    assert_eq!(app.native_recovery.position_ms, Some(3_500));
    let app = handled(native(), MprisEvent::SetPosition(-1));
    assert_eq!(app.effects[0], Effect::PlayerSeek(0));
}

#[test]
fn native_player_answers_for_shuffle() {
    let mut app = handled(native(), MprisEvent::SetShuffle(true));
    assert_eq!(app.take_effects(), vec![Effect::PlayerSetShuffle(true)]);
    let before = format!("{:?}", app);
    app.mpris_shuffle_answer(true, false);
    assert_eq!(format!("{:?}", app), before);
    app.mpris_shuffle_answer(true, true);
    assert_eq!(app.effects, vec![Effect::MprisShuffle(true), Effect::SaveShuffle(true)]);
    assert_eq!(app.native_recovery.shuffle, Some(true));
    assert!(app.current_playback_context.unwrap().shuffle_state);
    assert!(app.shuffle_enabled);
}

#[test]
fn native_player_answers_for_repeat() {
    let status = LoopStatusEvent::Playlist;
    let mut app = handled(native(), MprisEvent::SetLoopStatus(status));
    assert_eq!(app.take_effects(), vec![Effect::PlayerSetRepeat(RepeatState::Context)]);
    app.mpris_loop_answer(status, false);
    assert_eq!(app, native());
    app.mpris_loop_answer(status, true);
    assert_eq!(app.effects, vec![Effect::MprisLoopStatus(status)]);
    assert_eq!(app.native_recovery.repeat, Some(RepeatState::Context));
    assert_eq!(app.current_playback_context.unwrap().repeat_state, RepeatState::Context);
}

#[test]
fn another_device_gets_mpris_transport() {
    let sent = |event| Effect::SpotifyFallback(event);
    assert_eq!(handled(device(), MprisEvent::PlayPause).effects, vec![sent(resume())]);
    let mut app = device();
    app.native_is_playing = Some(true);
    assert_eq!(handled(app, MprisEvent::PlayPause).effects, vec![sent(IoEvent::PausePlayback)]);
    let mut app = device();
    app.current_playback_context.as_mut().unwrap().is_playing = true;
    assert_eq!(handled(app, MprisEvent::PlayPause).effects, vec![sent(IoEvent::PausePlayback)]);
    assert_eq!(handled(device(), MprisEvent::Play).effects, vec![sent(resume())]);
    assert_eq!(handled(device(), MprisEvent::Stop).effects, vec![sent(IoEvent::PausePlayback)]);
}

#[test]
fn another_device_seeks_from_the_position_on_screen() {
    let mut app = device();
    app.song_progress_ms = 20_000;
    let app = handled(app, MprisEvent::Seek(1_000_000));
    assert_eq!(app.song_progress_ms, 21_000);
    assert_eq!(
        app.effects,
        vec![Effect::SpotifyFallback(IoEvent::Seek(21_000)), Effect::MprisSeeked(21_000)]
    );
    let app = handled(device(), MprisEvent::SetPosition(7_000_000));
    assert_eq!(app.song_progress_ms, 7_000);
    assert_eq!(
        app.effects,
        vec![Effect::SpotifyFallback(IoEvent::Seek(7_000)), Effect::MprisSeeked(7_000)]
    );
}

#[test]
fn another_device_gets_mpris_modes() {
    let app = handled(device(), MprisEvent::SetShuffle(true));
    assert!(app.shuffle_enabled);
    assert!(app.current_playback_context.unwrap().shuffle_state);
    assert_eq!(
        app.effects,
        vec![
            Effect::MprisShuffle(true),
            Effect::SaveShuffle(true),
            Effect::SpotifyFallback(IoEvent::Shuffle(true)),
        ]
    );
    let app = handled(device(), MprisEvent::SetLoopStatus(LoopStatusEvent::Track));
    assert_eq!(app.current_playback_context.unwrap().repeat_state, RepeatState::Track);
    assert_eq!(
        app.effects,
        vec![
            Effect::MprisLoopStatus(LoopStatusEvent::Track),
            Effect::SpotifyFallback(IoEvent::Repeat(RepeatState::Track)),
        ]
    );
}

#[test]
fn positions_round_towards_zero_and_stay_in_range() {
    assert_eq!(seek_target_ms(1_000, 999), 1_000);
    assert_eq!(seek_target_ms(1_000, -999), 1_000);
    assert_eq!(seek_target_ms(1_000, -1_000), 999);
    assert_eq!(seek_target_ms(0, i64::MIN), 0);
    assert_eq!(position_target_ms(1_999), 1);
    assert_eq!(position_target_ms(-1_999), 0);
    assert_eq!(position_target_ms(i64::MIN), 0);
    assert_eq!(position_target_ms(5_000_000_000_000), 705_032_704);
}

#[test]
fn positions_wrap_like_machine_words() {
    assert_eq!(seek_target_ms(i64::MAX as u128, 1_000), 0);
    assert_eq!(seek_target_ms(u64::MAX as u128, 0), 0);
    assert_eq!(seek_target_ms((1u128 << 64) + 5, 0), 5);
}

#[test]
fn seek_forwards_and_back_ends_where_it_began() {
    let there = seek_target_ms(33_333, 12_345_678);
    assert_eq!(there, 45_678);
    assert_eq!(seek_target_ms(there as u128, -12_345_678), 33_333);
}
