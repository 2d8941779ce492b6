use rspotify::model::enums::RepeatState;
use spotatui::app::{App, LocalPlayback, PlaybackContext, Player, QueueSlot, RadioPlayback};
use spotatui::events::{Effect, IoEvent, MacMediaEvent, WindowsMediaEvent};
use spotatui::position::{low_u32, low_u64};
use spotatui::queue::DecodedQueue;
use spotatui::repeat::{MacRepeatMode, RepeatMode};

fn resume() -> IoEvent {
    IoEvent::StartPlayback(None, None, None)
}

fn local(paused: bool) -> App {
    let mut app = App::new();
    app.local_playback = Some(LocalPlayback {
        queue: DecodedQueue::new(vec!["a".to_string(), "b".to_string()], 1).unwrap(),
        player: Player { paused, position_ms: 0 },
        name: String::new(),
        artists: String::new(),
        album: String::new(),
        duration_ms: 0,
    });
    app
}

fn starting() -> App {
    let mut app = App::new();
    app.queue_slot = Some(QueueSlot::Decoded(None));
    app
}

fn native() -> App {
    let mut app = App::new();
    app.current_playback_context = Some(PlaybackContext {
        is_playing: false,
        shuffle_state: false,
        repeat_state: RepeatState::Off,
    });
    app
}

fn mac(mut app: App, event: MacMediaEvent) -> App {
    app.handle_macos_media_event(&event, true, true);
    app
}

fn windows(mut app: App, event: WindowsMediaEvent) -> App {
    app.handle_windows_media_event(&event, true);
    app
}

#[test]
fn decoded_source_gets_macos_transport() {
    assert_eq!(
        mac(local(true), MacMediaEvent::PlayPause).effects,
        vec![Effect::Dispatch(resume())]
    );
    assert_eq!(
        mac(local(false), MacMediaEvent::PlayPause).effects,
        vec![Effect::Dispatch(IoEvent::PausePlayback)]
    );
    assert_eq!(mac(local(false), MacMediaEvent::Play).effects, vec![Effect::Dispatch(resume())]);
    for event in [MacMediaEvent::Pause, MacMediaEvent::Stop] {
        assert_eq!(
            mac(local(false), event).effects,
            vec![Effect::Dispatch(IoEvent::PausePlayback)]
        );
    }
    assert_eq!(
        mac(local(false), MacMediaEvent::Next).effects,
        vec![Effect::Dispatch(IoEvent::NextTrack)]
    );
    assert_eq!(
        mac(local(false), MacMediaEvent::Previous).effects,
        vec![Effect::Dispatch(IoEvent::PreviousTrack)]
    );
    assert_eq!(
        mac(local(false), MacMediaEvent::Seek(1234)).effects,
        vec![Effect::Dispatch(IoEvent::Seek(1234))]
    );
}

#[test]
fn decoded_source_takes_macos_modes() {
    let app = mac(local(false), MacMediaEvent::SetShuffle(true));
    assert!(app.decoded_shuffle);
    assert_eq!(app.local_playback.as_ref().unwrap().queue.uris, vec!["b", "a"]);
    assert!(app.effects.is_empty());
    let app = mac(local(false), MacMediaEvent::SetRepeat(MacRepeatMode::One));
    assert_eq!(app.decoded_repeat, RepeatMode::Track);
}

#[test]
fn radio_drops_macos_modes() {
    let mut app = native();
    app.radio_playback = Some(RadioPlayback { player: Player { paused: false, position_ms: 0 } });
    assert!(app.route_decoded_macos_event(&MacMediaEvent::SetShuffle(true)));
    assert!(app.route_decoded_macos_event(&MacMediaEvent::SetRepeat(MacRepeatMode::All)));
    assert!(!app.decoded_shuffle);
    assert_eq!(app.decoded_repeat, RepeatMode::Off);
    assert!(app.effects.is_empty());
}

#[test]
fn start_in_flight_swallows_system_requests() {
    assert_eq!(mac(starting(), MacMediaEvent::Play), starting());
    assert_eq!(mac(starting(), MacMediaEvent::SetShuffle(true)), starting());
    assert_eq!(windows(starting(), WindowsMediaEvent::Pause), starting());
    assert_eq!(windows(starting(), WindowsMediaEvent::SetPosition(5)), starting());
}

#[test]
fn disabled_media_keys_ignore_the_system() {
    let mut app = local(false);
    app.enable_media_keys = false;
    app.handle_macos_media_event(&MacMediaEvent::Play, true, false);
    app.handle_windows_media_event(&WindowsMediaEvent::Play, true);
    assert!(app.effects.is_empty());
}

#[test]
fn macos_without_a_player_does_nothing() {
    let mut app = native();
    app.handle_macos_media_event(&MacMediaEvent::Next, false, false);
    assert_eq!(app, native());
}

#[test]
fn native_player_gets_macos_requests() {
    assert_eq!(mac(native(), MacMediaEvent::PlayPause).effects, vec![Effect::PlayerPause]);
    let mut app = native();
    app.handle_macos_media_event(&MacMediaEvent::PlayPause, true, false);
    assert_eq!(app.effects, vec![Effect::PlayerPlay]);
    assert_eq!(mac(native(), MacMediaEvent::Play).effects, vec![Effect::PlayerPlay]);
    let app = mac(native(), MacMediaEvent::Pause);
    assert_eq!(app.effects, vec![Effect::PlayerPause]);
    assert_eq!(app.native_recovery.playing, None);
    let app = mac(native(), MacMediaEvent::Stop);
    assert_eq!(app.effects, vec![Effect::PlayerPause]);
    assert_eq!(app.native_recovery.playing, Some(false));
    assert_eq!(mac(native(), MacMediaEvent::Next).effects, vec![Effect::NextTrack]);
    assert_eq!(mac(native(), MacMediaEvent::Previous).effects, vec![Effect::PreviousTrack]);
    assert_eq!(
        mac(native(), MacMediaEvent::Seek(99)).effects,
        vec![Effect::PlayerSeek(99), Effect::StoreSharedPosition(99), Effect::CommitSeek(99)]
    );
}

#[test]
fn native_player_answers_macos() {
    let mut app = mac(native(), MacMediaEvent::SetShuffle(true));
    assert_eq!(app.take_effects(), vec![Effect::PlayerSetShuffle(true)]);
    app.macos_shuffle_answer(true, false);
    assert_eq!(app, native());
    app.macos_shuffle_answer(true, true);
    assert_eq!(app.effects, vec![Effect::SaveShuffle(true), Effect::MacShuffle(true)]);
    assert!(app.shuffle_enabled);
    let mut app = mac(native(), MacMediaEvent::SetRepeat(MacRepeatMode::All));
    assert_eq!(app.take_effects(), vec![Effect::PlayerSetRepeat(RepeatState::Context)]);
    app.macos_repeat_answer(MacRepeatMode::All, false);
    assert_eq!(app, native());
    app.macos_repeat_answer(MacRepeatMode::All, true);
    assert_eq!(app.effects, vec![Effect::MacRepeat(MacRepeatMode::All)]);
    assert_eq!(app.native_recovery.repeat, Some(RepeatState::Context));
    assert_eq!(app.current_playback_context.unwrap().repeat_state, RepeatState::Context);
}

#[test]
fn decoded_source_gets_windows_transport() {
    let sent = |event| windows(local(false), event).effects;
    assert_eq!(sent(WindowsMediaEvent::Play), vec![Effect::Dispatch(resume())]);
    assert_eq!(sent(WindowsMediaEvent::Pause), vec![Effect::Dispatch(IoEvent::PausePlayback)]);
    assert_eq!(sent(WindowsMediaEvent::Stop), vec![Effect::Dispatch(IoEvent::PausePlayback)]);
    assert_eq!(sent(WindowsMediaEvent::Next), vec![Effect::Dispatch(IoEvent::NextTrack)]);
    assert_eq!(sent(WindowsMediaEvent::Previous), vec![Effect::Dispatch(IoEvent::PreviousTrack)]);
    let app = windows(local(false), WindowsMediaEvent::SetPosition(4_294_967_300));
    assert_eq!(app.song_progress_ms, 4_294_967_300);
    assert_eq!(app.effects, vec![Effect::Dispatch(IoEvent::Seek(4))]);
}

#[test]
fn native_player_needs_a_track_for_windows_requests() {
    let mut loaded = native();
    loaded.native_track_loaded = true;
    assert_eq!(windows(loaded, WindowsMediaEvent::Play).effects, vec![Effect::PlayerPlay]);
    let mut loaded = native();
    loaded.native_track_loaded = true;
    let app = windows(loaded, WindowsMediaEvent::Stop);
    assert_eq!(app.effects, vec![Effect::PlayerPause]);
    assert_eq!(app.native_recovery.playing, Some(false));
    let mut loaded = native();
    loaded.native_track_loaded = true;
    let app = windows(loaded, WindowsMediaEvent::SetPosition(7));
    assert_eq!(app.effects, vec![Effect::PlayerSeek(7)]);
    assert_eq!(app.song_progress_ms, 0);
    let sent = |event| windows(native(), event);
    assert_eq!(sent(WindowsMediaEvent::Play).effects, vec![Effect::SpotifyFallback(resume())]);
    assert_eq!(
        sent(WindowsMediaEvent::Pause).effects,
        vec![Effect::SpotifyFallback(IoEvent::PausePlayback)]
    );
    assert_eq!(
        sent(WindowsMediaEvent::Stop).effects,
        vec![Effect::SpotifyFallback(IoEvent::PausePlayback)]
    );
    let app = sent(WindowsMediaEvent::SetPosition(8));
    assert_eq!(app.effects, vec![Effect::SpotifyFallback(IoEvent::Seek(8))]);
    assert_eq!(app.song_progress_ms, 8);
    assert_eq!(sent(WindowsMediaEvent::Next).effects, vec![Effect::NextTrack]);
    assert_eq!(sent(WindowsMediaEvent::Previous).effects, vec![Effect::PreviousTrack]);
}

#[test]
fn positions_are_cut_to_their_low_bits() {
    assert_eq!(low_u32(0x1_0000_0007), 7);
    assert_eq!(low_u64((1u128 << 64) + 9), 9);
}

#[test]
fn waiting_effects_are_kept_in_order() {
    let mut app = local(false);
    app.handle_macos_media_event(&MacMediaEvent::Next, true, true);
    app.handle_windows_media_event(&WindowsMediaEvent::Pause, true);
    app.shuffle();
    assert_eq!(
        app.take_effects(),
        vec![Effect::Dispatch(IoEvent::NextTrack), Effect::Dispatch(IoEvent::PausePlayback)]
    );
}
