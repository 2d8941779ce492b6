//! What holds of the player as a whole.
//!
//! Each proof function states one law over the transitions that the contracts
//! of the executable functions name.

pub mod control;
pub mod display;
pub mod launching;
pub mod order;
pub mod owners;
pub mod positions;
pub mod publishing;
pub mod requests;
pub mod resuming;
pub mod starting;
pub mod toggles;
pub mod vocabulary;
