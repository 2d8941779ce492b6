//! Laws of words: repeat modes, lists of names, numbers, and blanks.

use crate::app::Track;
use crate::repeat::{LoopStatusEvent, MacRepeatMode, RepeatMode};
use rspotify::model::enums::RepeatState;
use vstd::prelude::*;

verus! {

/// Each vocabulary has one word for not repeating, one for repeating the track
/// and one for repeating the whole; the words for one thing go together.
pub proof fn repeat_words_go_together(
    state: RepeatState,
    mac: MacRepeatMode,
    status: LoopStatusEvent,
    mode: RepeatMode,
)
    ensures
        crate::repeat::mode_of_state(state) == RepeatMode::Off <==> state == RepeatState::Off,
        crate::repeat::mode_of_state(state) == RepeatMode::Track <==> state == RepeatState::Track,
        crate::repeat::mode_of_mac(mac) == RepeatMode::Off <==> mac == MacRepeatMode::Off,
        crate::repeat::mode_of_mac(mac) == RepeatMode::Track <==> mac == MacRepeatMode::One,
        crate::repeat::mode_of_loop(status) == RepeatMode::Off <==> status == LoopStatusEvent::Off,
        crate::repeat::mode_of_loop(status) == RepeatMode::Track <==> status
            == LoopStatusEvent::Track,
        crate::repeat::mac_of_mode(mode) == MacRepeatMode::Off <==> mode == RepeatMode::Off,
        crate::repeat::mac_of_mode(mode) == MacRepeatMode::One <==> mode == RepeatMode::Track,
        crate::repeat::state_of_mode(mode) == RepeatState::Off <==> mode == RepeatMode::Off,
        crate::repeat::state_of_mode(mode) == RepeatState::Track <==> mode == RepeatMode::Track,
        crate::repeat::loop_of_state(state) == LoopStatusEvent::Off <==> state == RepeatState::Off,
        crate::repeat::loop_of_state(state) == LoopStatusEvent::Track <==> state
            == RepeatState::Track,
{
}

/// A snapshot's repeat shows as the mode of the same meaning, and as off where
/// the source has none.
pub proof fn snapshots_show_their_repeat(state: Option<RepeatState>)
    ensures
        crate::repeat::mac_of_snapshot(state) == MacRepeatMode::One <==> state == Some(
            RepeatState::Track,
        ),
        crate::repeat::mac_of_snapshot(state) == MacRepeatMode::All <==> state == Some(
            RepeatState::Context,
        ),
{
}

/// Off is followed by repeating the whole, that by repeating the track, and that
/// by off.
pub proof fn repeat_moves_from_the_whole_to_the_track(mode: RepeatMode, state: RepeatState)
    ensures
        crate::repeat::next_mode(mode) == RepeatMode::Context <==> mode == RepeatMode::Off,
        crate::repeat::next_mode(mode) == RepeatMode::Track <==> mode == RepeatMode::Context,
        crate::repeat::next_state(state) == RepeatState::Context <==> state == RepeatState::Off,
        crate::repeat::next_state(state) == RepeatState::Track <==> state == RepeatState::Context,
{
}

/// Joining puts the separator between every two names, and nowhere else.
pub proof fn names_are_joined_with_separators(
    list: Seq<Seq<char>>,
    name: Seq<char>,
    sep: Seq<char>,
)
    ensures
        crate::now_playing::joined(Seq::<Seq<char>>::empty(), sep) == Seq::<char>::empty(),
        crate::now_playing::joined(seq![name], sep) == name,
        list.len() > 0 ==> crate::now_playing::joined(list.push(name), sep)
            == crate::now_playing::joined(list, sep) + sep + name,
{
    assert(list.push(name).drop_last() == list);
}

/// The texts of a list of strings are those of its strings, one by one.
pub proof fn texts_are_those_of_the_strings(list: Seq<String>, i: int)
    requires
        0 <= i < list.len(),
    ensures
        crate::macos_media::texts(list).len() == list.len(),
        crate::macos_media::texts(list)[i] == list[i]@,
        crate::macos_media::opt_text(Some(list[i])) == Some(list[i]@),
        crate::macos_media::opt_text(None) is None,
{
}

/// The links of two lists of tracks, one after the other, are the links of the
/// one and then those of the other: none is lost, added or moved.
pub proof fn links_keep_their_order(a: Seq<Track>, b: Seq<Track>)
    ensures
        crate::restore::links(a + b) == crate::restore::links(a) + crate::restore::links(b),
    decreases b.len(),
{
    if b.len() == 0 {
        assert(a + b == a);
    } else {
        assert((a + b).drop_last() == a + b.drop_last());
        links_keep_their_order(a, b.drop_last());
    }
}

/// A track has the link that it has, or none.
pub proof fn a_track_has_its_own_link(track: Track)
    ensures
        track.uri is None ==> crate::restore::links(seq![track]).len() == 0,
        track.uri matches Some(uri) ==> crate::restore::links(seq![track]) == seq![uri],
        crate::restore::links(Seq::<Track>::empty()).len() == 0,
{
    reveal_with_fuel(crate::restore::links, 2);
    assert(seq![track].drop_last() == Seq::<Track>::empty());
}

/// The number that decimal digits stand for.
pub open spec fn number(text: Seq<char>) -> int
    decreases text.len(),
{
    if text.len() == 0 {
        0
    } else {
        number(text.drop_last()) * 10 + (text.last() as int - '0' as int)
    }
}

/// A number in decimal reads back as that number. It is made of digits, and has
/// no more of them than it needs.
pub proof fn decimals_read_back(n: int)
    requires
        n >= 0,
    ensures
        number(crate::launch::decimal(n)) == n,
        crate::launch::decimal(n).len() > 0,
        forall|i: int|
            0 <= i < crate::launch::decimal(n).len() ==> '0' <= #[trigger] crate::launch::decimal(
                n,
            )[i] <= '9',
        n > 0 ==> crate::launch::decimal(n)[0] != '0',
    decreases n,
{
    let text = crate::launch::decimal(n);
    reveal_with_fuel(number, 2);
    if n >= 10 {
        decimals_read_back(n / 10);
        assert(text.drop_last() == crate::launch::decimal(n / 10));
    } else {
        assert(text.drop_last() == Seq::<char>::empty());
    }
}

/// A text is blank if and only if its parts are, and the empty text is.
pub proof fn blank_texts_have_blank_parts(a: Seq<char>, b: Seq<char>)
    ensures
        crate::discord::blank(Seq::<char>::empty()),
        crate::discord::blank(a + b) <==> crate::discord::blank(a) && crate::discord::blank(b),
{
    if crate::discord::blank(a + b) {
        assert forall|i: int| 0 <= i < a.len() implies crate::discord::is_space(
            #[trigger] a[i],
        ) by {
            assert((a + b)[i] == a[i]);
        }
        assert forall|i: int| 0 <= i < b.len() implies crate::discord::is_space(
            #[trigger] b[i],
        ) by {
            assert((a + b)[a.len() + i] == b[i]);
        }
    }
}

/// A text with a visible ASCII character anywhere is not blank, and one of
/// nothing but ASCII spaces, tabs and line ends is.
pub proof fn visible_characters_are_not_blank(text: Seq<char>)
    ensures
        (exists|i: int| 0 <= i < text.len() && '!' <= #[trigger] text[i] <= '~')
            ==> !crate::discord::blank(text),
        (forall|i: int|
            0 <= i < text.len() ==> #[trigger] text[i] == ' ' || text[i] == '\t' || text[i] == '\n'
                || text[i] == '\r') ==> crate::discord::blank(text),
{
}

/// The environment's word for the Discord application counts whatever is
/// configured, unless it is blank, and then it counts as not given. What is
/// configured counts before the default.
pub proof fn the_environment_names_the_discord_application(
    env_value: Seq<char>,
    configured: Option<Seq<char>>,
    other: Option<Seq<char>>,
)
    ensures
        !crate::discord::blank(env_value) ==> crate::discord::app_id(Some(env_value), configured)
            == env_value,
        !crate::discord::blank(env_value) ==> crate::discord::app_id(Some(env_value), configured)
            == crate::discord::app_id(Some(env_value), other),
        crate::discord::blank(env_value) ==> crate::discord::app_id(Some(env_value), configured)
            == crate::discord::app_id(None, configured),
        configured matches Some(id) ==> crate::discord::app_id(None, configured) == id,
        crate::discord::app_id(None, None) == "1464235043462447166"@,
{
}

} // verus!
