//! The macOS Now Playing integration: what remote commands mean, and what the
//! Now Playing centre is told.

use crate::events::MacMediaEvent;
use crate::repeat::MacRepeatMode;
use tokio::sync::mpsc::{UnboundedReceiver, UnboundedSender};
use vstd::prelude::*;

verus! {

/// Declares tokio's `UnboundedSender`. A value of it is only carried and sent
/// through.
#[verifier::external_type_specification]
#[verifier::external_body]
#[verifier::reject_recursive_types(T)]
pub struct ExUnboundedSender<T>(tokio::sync::mpsc::UnboundedSender<T>);

/// Declares tokio's `UnboundedReceiver`. A value of it is only carried.
#[verifier::external_type_specification]
#[verifier::external_body]
#[verifier::reject_recursive_types(T)]
pub struct ExUnboundedReceiver<T>(tokio::sync::mpsc::UnboundedReceiver<T>);

/// An instruction to the Now Playing centre.
#[derive(Clone, Debug, PartialEq, Eq)]
pub enum MacMediaCommand {
    SetMetadata {
        title: String,
        artists: Vec<String>,
        album: String,
        duration_ms: u32,
        art_url: Option<String>,
    },
    /// Playing, or paused.
    SetPlaybackStatus(bool),
    /// Position in milliseconds.
    SetPosition(u64),
    /// Per cent. Now Playing has no volume.
    SetVolume(u8),
    SetStopped,
    /// Now Playing reads shuffle and repeat off the command objects, so a client
    /// sees them only once they are published.
    SetShuffle(bool),
    SetRepeat(MacRepeatMode),
}

/// What a track says of itself.
#[verifier::ext_equal]
pub struct MetadataView {
    pub title: Seq<char>,
    pub artists: Seq<Seq<char>>,
    pub album: Seq<char>,
    pub duration_ms: int,
    pub art_url: Option<Seq<char>>,
}

/// A [`MacMediaCommand`] as mathematics.
#[verifier::ext_equal]
pub enum MacCommandView {
    SetMetadata(MetadataView),
    SetPlaybackStatus(bool),
    SetPosition(u64),
    SetVolume(u8),
    SetStopped,
    SetShuffle(bool),
    SetRepeat(MacRepeatMode),
}

/// The texts of a list of strings.
pub open spec fn texts(list: Seq<String>) -> Seq<Seq<char>> {
    Seq::new(list.len(), |i: int| list[i]@)
}

/// The text of an optional string.
pub open spec fn opt_text(s: Option<String>) -> Option<Seq<char>> {
    match s {
        Some(s) => Some(s@),
        None => None,
    }
}

impl View for MacMediaCommand {
    type V = MacCommandView;

    open spec fn view(&self) -> MacCommandView {
        match *self {
            MacMediaCommand::SetMetadata { title, artists, album, duration_ms, art_url } =>
                MacCommandView::SetMetadata(
                MetadataView {
                    title: title@,
                    artists: texts(artists@),
                    album: album@,
                    duration_ms: duration_ms as int,
                    art_url: opt_text(art_url),
                },
            ),
            MacMediaCommand::SetPlaybackStatus(playing) => MacCommandView::SetPlaybackStatus(
                playing,
            ),
            MacMediaCommand::SetPosition(ms) => MacCommandView::SetPosition(ms),
            MacMediaCommand::SetVolume(percent) => MacCommandView::SetVolume(percent),
            MacMediaCommand::SetStopped => MacCommandView::SetStopped,
            MacMediaCommand::SetShuffle(on) => MacCommandView::SetShuffle(on),
            MacMediaCommand::SetRepeat(mode) => MacCommandView::SetRepeat(mode),
        }
    }
}

/// The commands that were handed to `send` through this sender, in order,
/// whether or not a receiver was left to take them.
pub uninterp spec fn commands_handed(tx: UnboundedSender<MacMediaCommand>) -> Seq<MacCommandView>;

/// The events sent through `tx` are those that `rx` receives.
pub uninterp spec fn events_linked(
    tx: UnboundedSender<MacMediaEvent>,
    rx: UnboundedReceiver<MacMediaEvent>,
) -> bool;

/// The commands sent through `tx` are those that `rx` receives.
pub uninterp spec fn commands_linked(
    tx: UnboundedSender<MacMediaCommand>,
    rx: UnboundedReceiver<MacMediaCommand>,
) -> bool;

/// Opens two channels with tokio's `unbounded_channel`, one for events and one
/// for commands. The two ends of each belong together, and nothing has been sent
/// through a sender that was just made.
#[verifier::external_body]
fn open_channels() -> (r: (
    (UnboundedSender<MacMediaEvent>, UnboundedReceiver<MacMediaEvent>),
    (UnboundedSender<MacMediaCommand>, UnboundedReceiver<MacMediaCommand>),
))
    ensures
        events_linked(r.0.0, r.0.1),
        commands_linked(r.1.0, r.1.1),
        commands_handed(r.1.0) == Seq::<MacCommandView>::empty(),
{
    (tokio::sync::mpsc::unbounded_channel(), tokio::sync::mpsc::unbounded_channel())
}

/// Hands a command to tokio's `UnboundedSender::send`, which does not wait. The
/// call fails where the receiver is gone, which is no concern of the caller's;
/// which of the two happens depends on another thread, and is not claimed. The
/// sender stays at its end of the channel.
#[verifier::external_body]
fn send_command(tx: &mut UnboundedSender<MacMediaCommand>, command: MacMediaCommand)
    ensures
        commands_handed(*final(tx)) == commands_handed(*old(tx)).push(command@),
        forall|rx: UnboundedReceiver<MacMediaCommand>| #[trigger]
            commands_linked(*final(tx), rx) == commands_linked(*old(tx), rx),
{
    let _ = tx.send(command);
}

/// A copy of a list of strings.
pub(crate) fn copy_strings(list: &[String]) -> (r: Vec<String>)
    ensures
        r@ == list@,
{
    let mut r: Vec<String> = Vec::new();
    let mut k: usize = 0;
    while k < list.len()
        invariant
            k <= list@.len(),
            r@ == list@.take(k as int),
        decreases list@.len() - k,
    {
        r.push(list[k].clone());
        k += 1;
    }
    r
}

/// Manager of the Now Playing integration: the application's ends of the
/// channels to the thread that talks to macOS.
pub struct MacMediaManager {
    event_rx: Option<UnboundedReceiver<MacMediaEvent>>,
    command_tx: UnboundedSender<MacMediaCommand>,
}

impl MacMediaManager {
    /// The event receiver, until it is taken.
    pub closed spec fn receiver(&self) -> Option<UnboundedReceiver<MacMediaEvent>> {
        self.event_rx
    }

    /// The commands handed to the media thread so far, in order.
    pub closed spec fn handed(&self) -> Seq<MacCommandView> {
        commands_handed(self.command_tx)
    }

    /// What this manager publishes is what `rx` receives.
    pub closed spec fn publishes_to(&self, rx: UnboundedReceiver<MacMediaCommand>) -> bool {
        commands_linked(self.command_tx, rx)
    }

    /// This manager publishes to whatever `other` publishes to.
    pub open spec fn same_channel(&self, other: &MacMediaManager) -> bool {
        forall|rx: UnboundedReceiver<MacMediaCommand>| #[trigger]
            self.publishes_to(rx) == other.publishes_to(rx)
    }

    /// Open the channels. The other ends are for the media thread: it sends the
    /// events and receives the commands.
    pub fn new() -> (r: (
        MacMediaManager,
        UnboundedSender<MacMediaEvent>,
        UnboundedReceiver<MacMediaCommand>,
    ))
        ensures
            r.0.receiver() matches Some(event_rx) && events_linked(r.1, event_rx),
            r.0.publishes_to(r.2),
            r.0.handed() == Seq::<MacCommandView>::empty(),
    {
        let ((event_tx, event_rx), (command_tx, command_rx)) = open_channels();
        (MacMediaManager { event_rx: Some(event_rx), command_tx }, event_tx, command_rx)
    }

    /// Take the event receiver. This can be done once; later calls return
    /// `None`.
    pub fn take_event_rx(&mut self) -> (r: Option<UnboundedReceiver<MacMediaEvent>>)
        ensures
            r == old(self).receiver(),
            final(self).receiver() is None,
            final(self).handed() == old(self).handed(),
            final(self).same_channel(&*old(self)),
    {
        self.event_rx.take()
    }

    /// Publish track metadata.
    pub fn set_metadata(
        &mut self,
        title: &str,
        artists: &[String],
        album: &str,
        duration_ms: u32,
        art_url: Option<String>,
    )
        ensures
            final(self).handed() == old(self).handed().push(
                MacCommandView::SetMetadata(
                    MetadataView {
                        title: title@,
                        artists: texts(artists@),
                        album: album@,
                        duration_ms: duration_ms as int,
                        art_url: opt_text(art_url),
                    },
                ),
            ),
            final(self).receiver() == old(self).receiver(),
            final(self).same_channel(&*old(self)),
    {
        let command: MacMediaCommand = MacMediaCommand::SetMetadata {
            title: title.to_owned(),
            artists: copy_strings(artists),
            album: album.to_owned(),
            duration_ms,
            art_url,
        };
        send_command(&mut self.command_tx, command);
    }

    /// Publish whether playback runs.
    pub fn set_playback_status(&mut self, is_playing: bool)
        ensures
            final(self).handed() == old(self).handed().push(
                MacCommandView::SetPlaybackStatus(is_playing),
            ),
            final(self).receiver() == old(self).receiver(),
            final(self).same_channel(&*old(self)),
    {
        send_command(&mut self.command_tx, MacMediaCommand::SetPlaybackStatus(is_playing));
    }

    /// Publish the playback position.
    pub fn set_position(&mut self, position_ms: u64)
        ensures
            final(self).handed() == old(self).handed().push(
                MacCommandView::SetPosition(position_ms),
            ),
            final(self).receiver() == old(self).receiver(),
            final(self).same_channel(&*old(self)),
    {
        send_command(&mut self.command_tx, MacMediaCommand::SetPosition(position_ms));
    }

    /// Publish the volume in per cent, for controllers that have one.
    pub fn set_volume(&mut self, volume_percent: u8)
        ensures
            final(self).handed() == old(self).handed().push(
                MacCommandView::SetVolume(volume_percent),
            ),
            final(self).receiver() == old(self).receiver(),
            final(self).same_channel(&*old(self)),
    {
        send_command(&mut self.command_tx, MacMediaCommand::SetVolume(volume_percent));
    }

    /// Publish that playback stopped.
    pub fn set_stopped(&mut self)
        ensures
            final(self).handed() == old(self).handed().push(MacCommandView::SetStopped),
            final(self).receiver() == old(self).receiver(),
            final(self).same_channel(&*old(self)),
    {
        send_command(&mut self.command_tx, MacMediaCommand::SetStopped);
    }

    /// Publish shuffle, so that external controllers draw it correctly.
    pub fn set_shuffle(&mut self, enabled: bool)
        ensures
            final(self).handed() == old(self).handed().push(MacCommandView::SetShuffle(enabled)),
            final(self).receiver() == old(self).receiver(),
            final(self).same_channel(&*old(self)),
    {
        send_command(&mut self.command_tx, MacMediaCommand::SetShuffle(enabled));
    }

    /// Publish the repeat mode, so that external controllers draw it correctly.
    pub fn set_repeat(&mut self, mode: MacRepeatMode)
        ensures
            final(self).handed() == old(self).handed().push(MacCommandView::SetRepeat(mode)),
            final(self).receiver() == old(self).receiver(),
            final(self).same_channel(&*old(self)),
    {
        send_command(&mut self.command_tx, MacMediaCommand::SetRepeat(mode));
    }
}

} // verus!
