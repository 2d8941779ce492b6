//! Media control for a terminal music player: which source a media key, a Now
//! Playing widget or a keyboard toggle reaches, and what it does there.
//!
//! Every decision is a verified function on plain values. What the decisions
//! ask of the outside (a player, a bus, the network) is returned as a list of
//! effects, in order, for the surrounding program to carry out.

pub mod app;
pub mod discord;
pub mod events;
pub mod launch;
pub mod laws;
pub mod macos_events;
pub mod macos_media;
pub mod metadata;
pub mod mpris;
pub mod now_playing;
pub mod position;
pub mod queue;
pub mod repeat;
pub mod restore;
pub mod shuffle_repeat;
pub mod windows_events;
