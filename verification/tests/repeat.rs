use rspotify::model::enums::RepeatState;
use spotatui::repeat::{
    decoded_repeat_from_loop, decoded_repeat_from_mac, decoded_repeat_from_state,
    decoded_repeat_to_mac, loop_status_from_state, mac_repeat_from_snapshot, next_repeat_state,
    repeat_state_from_loop, repeat_state_from_mac, LoopStatusEvent, MacRepeatMode, RepeatMode,
};

#[test]
fn repeat_mode_cycles_through_all_three() {
    assert_eq!(RepeatMode::Off.next(), RepeatMode::Context);
    assert_eq!(RepeatMode::Context.next(), RepeatMode::Track);
    assert_eq!(RepeatMode::Track.next(), RepeatMode::Off);
}

#[test]
fn spotify_repeat_cycles_alike() {
    assert_eq!(next_repeat_state(RepeatState::Off), RepeatState::Context);
    assert_eq!(next_repeat_state(RepeatState::Context), RepeatState::Track);
    assert_eq!(next_repeat_state(RepeatState::Track), RepeatState::Off);
}

#[test]
fn spotify_states_read_as_decoded_modes() {
    assert_eq!(decoded_repeat_from_state(RepeatState::Off), RepeatMode::Off);
    assert_eq!(decoded_repeat_from_state(RepeatState::Context), RepeatMode::Context);
    assert_eq!(decoded_repeat_from_state(RepeatState::Track), RepeatMode::Track);
}

#[test]
fn decoded_modes_survive_now_playing() {
    assert_eq!(decoded_repeat_to_mac(RepeatMode::Off), MacRepeatMode::Off);
    assert_eq!(decoded_repeat_to_mac(RepeatMode::Track), MacRepeatMode::One);
    assert_eq!(decoded_repeat_to_mac(RepeatMode::Context), MacRepeatMode::All);
    for mode in [RepeatMode::Off, RepeatMode::Track, RepeatMode::Context] {
        assert_eq!(decoded_repeat_from_mac(decoded_repeat_to_mac(mode)), mode);
    }
}

#[test]
fn loop_statuses_survive_spotify() {
    assert_eq!(repeat_state_from_loop(LoopStatusEvent::Off), RepeatState::Off);
    assert_eq!(repeat_state_from_loop(LoopStatusEvent::Track), RepeatState::Track);
    assert_eq!(repeat_state_from_loop(LoopStatusEvent::Playlist), RepeatState::Context);
    for status in [LoopStatusEvent::Off, LoopStatusEvent::Track, LoopStatusEvent::Playlist] {
        assert_eq!(loop_status_from_state(repeat_state_from_loop(status)), status);
    }
}

#[test]
fn loop_statuses_read_as_decoded_modes() {
    assert_eq!(decoded_repeat_from_loop(LoopStatusEvent::Off), RepeatMode::Off);
    assert_eq!(decoded_repeat_from_loop(LoopStatusEvent::Track), RepeatMode::Track);
    assert_eq!(decoded_repeat_from_loop(LoopStatusEvent::Playlist), RepeatMode::Context);
}

#[test]
fn now_playing_modes_read_as_spotify_states() {
    assert_eq!(repeat_state_from_mac(MacRepeatMode::Off), RepeatState::Off);
    assert_eq!(repeat_state_from_mac(MacRepeatMode::One), RepeatState::Track);
    assert_eq!(repeat_state_from_mac(MacRepeatMode::All), RepeatState::Context);
}

#[test]
fn snapshot_without_repeat_shows_as_off() {
    assert_eq!(mac_repeat_from_snapshot(None), MacRepeatMode::Off);
    assert_eq!(mac_repeat_from_snapshot(Some(RepeatState::Off)), MacRepeatMode::Off);
    assert_eq!(mac_repeat_from_snapshot(Some(RepeatState::Track)), MacRepeatMode::One);
    assert_eq!(mac_repeat_from_snapshot(Some(RepeatState::Context)), MacRepeatMode::All);
}
