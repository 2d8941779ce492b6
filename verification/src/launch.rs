//! Launching the player: what happens in which order, and which part of it gets
//! to decide whether music plays.

use crate::app::{App, AppView};
use crate::events::{IoEvent, Source};
use crate::restore::StartupBehavior;
use vstd::prelude::*;

verus! {

/// The system whose media controls are to be registered.
#[derive(Clone, Copy, Debug, PartialEq, Eq, Structural)]
pub enum Platform {
    Linux,
    Macos,
    Windows,
}

/// What is known when the launch begins.
#[derive(Clone, Copy, Debug, PartialEq, Eq, Structural)]
pub struct LaunchFacts {
    pub platform: Platform,
    /// Is the user logged in to Spotify?
    pub spotify_session: bool,
    /// Did the user enable native streaming?
    pub enable_streaming: bool,
    /// Did the user ask for the control socket?
    pub mcp_enabled: bool,
    /// Is there a sender for the control socket to dispatch through?
    pub io_sender: bool,
    /// Did the user enable the Discord presence?
    pub discord_enabled: bool,
    /// Was the session of a decoded source saved?
    pub saved_session: bool,
    /// Were tracks left in the native queue?
    pub saved_queue: bool,
    pub startup_behavior: StartupBehavior,
    pub initial_shuffle: bool,
}

/// How far a launch has come: the step that is next.
#[derive(Clone, Copy, Debug, PartialEq, Eq, Structural)]
pub enum LaunchStage {
    Credentials,
    Notice,
    History,
    PlaylistSync,
    ControlSocket,
    RecoverySender,
    MediaControls,
    Discord,
    MediaEvents,
    MediaMetadata,
    Streaming,
    Network,
    Interface,
    Handshake,
    Flush,
    Done,
}

/// One step of a launch.
#[derive(Debug, PartialEq)]
pub enum LaunchAction {
    /// This step does not apply.
    Nothing,
    /// Cache the streaming credentials. This may wait for a browser.
    CacheStreamingCredentials,
    /// Show the startup notice.
    ShowNotice,
    SpawnHistoryCollector,
    Dispatch(IoEvent),
    /// Start to listen on the control socket.
    StartControlSocket,
    /// Log that the control socket has no sender to dispatch through.
    WarnNoSender,
    /// Install the sender of streaming recovery requests.
    InstallRecoverySender,
    /// Register with the system's media controls, and report whether that
    /// worked.
    RegisterMediaControls(Platform),
    ConnectDiscord,
    /// Handle control requests in the background.
    SpawnMediaEvents(Platform),
    /// Publish metadata in the background, every second.
    SpawnMediaMetadata(Platform),
    /// Start native streaming in the background, with what it does about the
    /// device, what about playback once the device is selected, and the shuffle
    /// that playback starts with.
    StartStreaming { device: StartupBehavior, playback: Option<StartupBehavior>, shuffle: bool },
    /// Carry out the network's own steps in the background.
    SpawnNetwork,
    /// Run the user interface until it ends, and report whether it ended well.
    RunInterface,
    /// Unpublish the control socket.
    ClearHandshake,
    /// Save the state that is still unsaved.
    FlushState,
    /// The launch is over; it went as the user interface did.
    Finish(bool),
}

/// One step of the network's background task.
#[derive(Debug, PartialEq)]
pub enum NetworkStep {
    /// Put the saved tracks back into the native queue.
    RestoreQueue,
    /// Resume the saved session, in a task of its own.
    RestoreSession(StartupBehavior),
    /// Handle this event before any other.
    Handle(IoEvent),
    /// Handle events until the end.
    RunPump,
}

/// A launch under way.
#[derive(Clone, Copy, Debug, PartialEq, Eq, Structural)]
pub struct Launch {
    pub facts: LaunchFacts,
    pub stage: LaunchStage,
    /// Were the media controls registered?
    pub media_registered: bool,
    /// Did the user interface end well?
    pub interface_ok: bool,
}

impl LaunchFacts {
    /// Native streaming is attempted where it is enabled and there is a session
    /// to stream with.
    pub open spec fn streams(self) -> bool {
        self.enable_streaming && self.spotify_session
    }

    /// What streaming does about the device. A saved session must not have to
    /// fight a transferred device for the audio output.
    pub open spec fn device_behavior(self) -> StartupBehavior {
        if self.saved_session {
            StartupBehavior::Continue
        } else {
            self.startup_behavior
        }
    }

    /// What streaming does about playback. A saved session decides that itself.
    pub open spec fn streaming_playback(self) -> Option<StartupBehavior> {
        if self.saved_session {
            None
        } else {
            Some(self.startup_behavior)
        }
    }

    /// Does the network task carry out the startup behavior? Not where a saved
    /// session does, nor without Spotify, nor where streaming does once its
    /// device is selected.
    pub open spec fn network_decides(self) -> bool {
        !self.saved_session && self.spotify_session && !self.streams()
    }
}

/// The events that carry out a startup behavior. `Continue` is passive.
pub open spec fn startup_events(behavior: StartupBehavior, shuffle: bool) -> Seq<NetworkStep> {
    match behavior {
        StartupBehavior::Continue => seq![],
        StartupBehavior::Play => seq![
            NetworkStep::Handle(IoEvent::Shuffle(shuffle)),
            NetworkStep::Handle(crate::events::resume_event()),
        ],
        StartupBehavior::Pause => seq![NetworkStep::Handle(IoEvent::PausePlayback)],
    }
}

/// The steps of the network's background task.
pub open spec fn network_plan(facts: LaunchFacts) -> Seq<NetworkStep> {
    (if facts.saved_queue {
        seq![NetworkStep::RestoreQueue]
    } else {
        seq![]
    }) + (if facts.saved_session {
        seq![NetworkStep::RestoreSession(facts.startup_behavior)]
    } else if facts.network_decides() {
        startup_events(facts.startup_behavior, facts.initial_shuffle)
    } else {
        seq![]
    }) + seq![NetworkStep::RunPump]
}

/// The stage after a stage.
pub open spec fn stage_after(stage: LaunchStage) -> LaunchStage {
    match stage {
        LaunchStage::Credentials => LaunchStage::Notice,
        LaunchStage::Notice => LaunchStage::History,
        LaunchStage::History => LaunchStage::PlaylistSync,
        LaunchStage::PlaylistSync => LaunchStage::ControlSocket,
        LaunchStage::ControlSocket => LaunchStage::RecoverySender,
        LaunchStage::RecoverySender => LaunchStage::MediaControls,
        LaunchStage::MediaControls => LaunchStage::Discord,
        LaunchStage::Discord => LaunchStage::MediaEvents,
        LaunchStage::MediaEvents => LaunchStage::MediaMetadata,
        LaunchStage::MediaMetadata => LaunchStage::Streaming,
        LaunchStage::Streaming => LaunchStage::Network,
        LaunchStage::Network => LaunchStage::Interface,
        LaunchStage::Interface => LaunchStage::Handshake,
        LaunchStage::Handshake => LaunchStage::Flush,
        LaunchStage::Flush => LaunchStage::Done,
        LaunchStage::Done => LaunchStage::Done,
    }
}

/// What a launch does at the stage it is at. On Linux the user interface itself
/// keeps the metadata published.
pub open spec fn stage_action(launch: Launch) -> LaunchAction {
    let facts = launch.facts;
    match launch.stage {
        LaunchStage::Credentials => LaunchAction::CacheStreamingCredentials,
        LaunchStage::Notice => LaunchAction::ShowNotice,
        LaunchStage::History => LaunchAction::SpawnHistoryCollector,
        LaunchStage::PlaylistSync => LaunchAction::Dispatch(
            IoEvent::RunPlaylistSync { retry_unmatched: false },
        ),
        LaunchStage::ControlSocket => if !facts.mcp_enabled {
            LaunchAction::Nothing
        } else if facts.io_sender {
            LaunchAction::StartControlSocket
        } else {
            LaunchAction::WarnNoSender
        },
        LaunchStage::RecoverySender => if facts.streams() {
            LaunchAction::InstallRecoverySender
        } else {
            LaunchAction::Nothing
        },
        LaunchStage::MediaControls => LaunchAction::RegisterMediaControls(facts.platform),
        LaunchStage::Discord => if facts.discord_enabled {
            LaunchAction::ConnectDiscord
        } else {
            LaunchAction::Nothing
        },
        LaunchStage::MediaEvents => if launch.media_registered {
            LaunchAction::SpawnMediaEvents(facts.platform)
        } else {
            LaunchAction::Nothing
        },
        LaunchStage::MediaMetadata => if launch.media_registered && facts.platform
            != Platform::Linux {
            LaunchAction::SpawnMediaMetadata(facts.platform)
        } else {
            LaunchAction::Nothing
        },
        LaunchStage::Streaming => if facts.streams() {
            LaunchAction::StartStreaming {
                device: facts.device_behavior(),
                playback: facts.streaming_playback(),
                shuffle: facts.initial_shuffle,
            }
        } else {
            LaunchAction::Nothing
        },
        LaunchStage::Network => LaunchAction::SpawnNetwork,
        LaunchStage::Interface => LaunchAction::RunInterface,
        LaunchStage::Handshake => LaunchAction::ClearHandshake,
        LaunchStage::Flush => if launch.interface_ok {
            LaunchAction::Nothing
        } else {
            LaunchAction::FlushState
        },
        LaunchStage::Done => LaunchAction::Finish(launch.interface_ok),
    }
}

impl Launch {
    /// The launch after it learnt how its last step went. Only two reports
    /// matter: that of the registration and that of the user interface.
    pub open spec fn told(self, ok: bool) -> Launch {
        Launch {
            media_registered: if self.stage == LaunchStage::Discord {
                ok
            } else {
                self.media_registered
            },
            interface_ok: if self.stage == LaunchStage::Handshake {
                ok
            } else {
                self.interface_ok
            },
            ..self
        }
    }

    /// The launch one step on.
    pub open spec fn stepped(self, ok: bool) -> Launch {
        Launch { stage: stage_after(self.stage), ..self.told(ok) }
    }

    /// A launch that is about to begin.
    pub fn new(facts: LaunchFacts) -> (r: Launch)
        ensures
            r.facts == facts,
            r.stage == LaunchStage::Credentials,
            !r.media_registered,
            r.interface_ok,
    {
        Launch {
            facts,
            stage: LaunchStage::Credentials,
            media_registered: false,
            interface_ok: true,
        }
    }

    /// The next step, given how the last one went.
    pub fn advance(&mut self, ok: bool) -> (action: LaunchAction)
        ensures
            *final(self) == old(self).stepped(ok),
            action == stage_action(old(self).told(ok)),
    {
        let facts: LaunchFacts = self.facts;
        match self.stage {
            LaunchStage::Credentials => {
                self.stage = LaunchStage::Notice;
                LaunchAction::CacheStreamingCredentials
            },
            LaunchStage::Notice => {
                self.stage = LaunchStage::History;
                LaunchAction::ShowNotice
            },
            LaunchStage::History => {
                self.stage = LaunchStage::PlaylistSync;
                LaunchAction::SpawnHistoryCollector
            },
            LaunchStage::PlaylistSync => {
                self.stage = LaunchStage::ControlSocket;
                LaunchAction::Dispatch(IoEvent::RunPlaylistSync { retry_unmatched: false })
            },
            LaunchStage::ControlSocket => {
                self.stage = LaunchStage::RecoverySender;
                if !facts.mcp_enabled {
                    LaunchAction::Nothing
                } else if facts.io_sender {
                    LaunchAction::StartControlSocket
                } else {
                    LaunchAction::WarnNoSender
                }
            },
            LaunchStage::RecoverySender => {
                self.stage = LaunchStage::MediaControls;
                if streaming_attempted(&facts) {
                    LaunchAction::InstallRecoverySender
                } else {
                    LaunchAction::Nothing
                }
            },
            LaunchStage::MediaControls => {
                self.stage = LaunchStage::Discord;
                LaunchAction::RegisterMediaControls(facts.platform)
            },
            LaunchStage::Discord => {
                self.media_registered = ok;
                self.stage = LaunchStage::MediaEvents;
                if facts.discord_enabled {
                    LaunchAction::ConnectDiscord
                } else {
                    LaunchAction::Nothing
                }
            },
            LaunchStage::MediaEvents => {
                self.stage = LaunchStage::MediaMetadata;
                if self.media_registered {
                    LaunchAction::SpawnMediaEvents(facts.platform)
                } else {
                    LaunchAction::Nothing
                }
            },
            LaunchStage::MediaMetadata => {
                self.stage = LaunchStage::Streaming;
                if self.media_registered && facts.platform != Platform::Linux {
                    LaunchAction::SpawnMediaMetadata(facts.platform)
                } else {
                    LaunchAction::Nothing
                }
            },
            LaunchStage::Streaming => {
                self.stage = LaunchStage::Network;
                if streaming_attempted(&facts) {
                    if facts.saved_session {
                        LaunchAction::StartStreaming {
                            device: StartupBehavior::Continue,
                            playback: None,
                            shuffle: facts.initial_shuffle,
                        }
                    } else {
                        LaunchAction::StartStreaming {
                            device: facts.startup_behavior,
                            playback: Some(facts.startup_behavior),
                            shuffle: facts.initial_shuffle,
                        }
                    }
                } else {
                    LaunchAction::Nothing
                }
            },
            LaunchStage::Network => {
                self.stage = LaunchStage::Interface;
                LaunchAction::SpawnNetwork
            },
            LaunchStage::Interface => {
                self.stage = LaunchStage::Handshake;
                LaunchAction::RunInterface
            },
            LaunchStage::Handshake => {
                self.interface_ok = ok;
                self.stage = LaunchStage::Flush;
                LaunchAction::ClearHandshake
            },
            LaunchStage::Flush => {
                self.stage = LaunchStage::Done;
                if self.interface_ok {
                    LaunchAction::Nothing
                } else {
                    LaunchAction::FlushState
                }
            },
            LaunchStage::Done => LaunchAction::Finish(self.interface_ok),
        }
    }
}

/// Is native streaming attempted?
pub fn streaming_attempted(facts: &LaunchFacts) -> (r: bool)
    ensures
        r == facts.streams(),
{
    facts.enable_streaming && facts.spotify_session
}

/// The steps of the network's background task.
pub fn network_steps(facts: &LaunchFacts) -> (r: Vec<NetworkStep>)
    ensures
        r@ == network_plan(*facts),
{
    let mut r: Vec<NetworkStep> = Vec::new();
    if facts.saved_queue {
        r.push(NetworkStep::RestoreQueue);
    }
    if facts.saved_session {
        r.push(NetworkStep::RestoreSession(facts.startup_behavior));
    } else if facts.spotify_session && !streaming_attempted(facts) {
        match facts.startup_behavior {
            StartupBehavior::Continue => {},
            StartupBehavior::Play => {
                r.push(NetworkStep::Handle(IoEvent::Shuffle(facts.initial_shuffle)));
                r.push(NetworkStep::Handle(IoEvent::StartPlayback(None, None, None)));
            },
            StartupBehavior::Pause => {
                r.push(NetworkStep::Handle(IoEvent::PausePlayback));
            },
        }
    }
    r.push(NetworkStep::RunPump);
    assert(r@ == network_plan(*facts));
    r
}

/// The decimal digit `d`.
pub open spec fn digit(d: int) -> char {
    ('0' as u32 + d) as char
}

/// A number in decimal.
pub open spec fn decimal(n: int) -> Seq<char>
    decreases n,
{
    if n < 10 {
        seq![digit(n)]
    } else {
        decimal(n / 10).push(digit(n % 10))
    }
}

/// The decimal digit `d`, as text.
fn digit_text(d: u16) -> (r: &'static str)
    requires
        d < 10,
    ensures
        r@ == seq![digit(d as int)],
{
    proof {
        reveal_strlit("0");
        reveal_strlit("1");
        reveal_strlit("2");
        reveal_strlit("3");
        reveal_strlit("4");
        reveal_strlit("5");
        reveal_strlit("6");
        reveal_strlit("7");
        reveal_strlit("8");
        reveal_strlit("9");
    }
    let r: &'static str = match d {
        0 => "0",
        1 => "1",
        2 => "2",
        3 => "3",
        4 => "4",
        5 => "5",
        6 => "6",
        7 => "7",
        8 => "8",
        _ => "9",
    };
    assert(r@ == seq![digit(d as int)]);
    r
}

/// Append a number in decimal.
fn append_decimal(text: &mut String, n: u16)
    ensures
        final(text)@ == old(text)@ + decimal(n as int),
    decreases n,
{
    if n >= 10 {
        append_decimal(text, n / 10);
    }
    text.append(digit_text(n % 10));
    assert(text@ == old(text)@ + decimal(n as int));
}

impl AppView {
    /// After the startup notice: it never displaces another message. The
    /// caller's own notice comes before the hint that Spotify is not connected.
    pub open spec fn noticed(
        self,
        notice: Option<Seq<char>>,
        spotify_session: bool,
        not_connected: Seq<char>,
    ) -> AppView {
        if self.status is Some {
            self
        } else if notice is Some {
            self.with_status(notice->0, 15)
        } else if !spotify_session && self.active_source == Source::Spotify {
            self.with_status(not_connected, 8)
        } else {
            self
        }
    }

    /// After the control socket listens on a port: said where nothing else is.
    pub open spec fn socket_announced(self, port: u16) -> AppView {
        if self.status is Some {
            self
        } else {
            self.with_status("MCP server listening on 127.0.0.1:"@ + decimal(port as int), 6)
        }
    }
}

impl App {
    /// Show the notice that waited for the first frame.
    pub fn show_startup_notice(
        &mut self,
        notice: &Option<String>,
        spotify_session: bool,
        not_connected: &str,
    )
        ensures
            final(self)@ == old(self)@.noticed(
                crate::macos_media::opt_text(*notice),
                spotify_session,
                not_connected@,
            ),
    {
        if self.status.is_some() {
            return;
        }
        if let Some(message) = notice {
            self.set_status_message(message.as_str(), 15);
        } else if !spotify_session && self.active_source == Source::Spotify {
            self.set_status_message(not_connected, 8);
        }
    }

    /// Say that the control socket listens.
    pub fn announce_control_socket(&mut self, port: u16)
        ensures
            final(self)@ == old(self)@.socket_announced(port),
    {
        if self.status.is_none() {
            let mut text: String = "MCP server listening on 127.0.0.1:".to_owned();
            append_decimal(&mut text, port);
            self.set_status_message(text.as_str(), 6);
        }
    }

    /// Say that the control socket could not be opened.
    pub fn report_control_socket_failure(&mut self, error: &str)
        ensures
            final(self)@ == old(self)@.with_error("MCP server failed to start: "@ + error@, 8),
    {
        let mut text: String = "MCP server failed to start: ".to_owned();
        text.append(error);
        self.set_error_status_message(text.as_str(), 8);
    }

    /// Native streaming is about to start: until it has, requests that find no
    /// device park instead of failing.
    pub fn begin_native_streaming(&mut self)
        ensures
            final(self)@ == (AppView { native_backend_pending: true, ..old(self)@ }),
    {
        self.native_backend_pending = true;
    }
}

} // verus!
