//! Mirrors what a media player is playing into the rich presence of a chat
//! client.
//!
//! The library holds the rules and performs no input or output of its own:
//! how a player's report becomes a snapshot ([`media`], [`media_control`]),
//! when a snapshot is worth publishing ([`change`]), how the cover of an
//! album is resolved ([`cover`]), what the published presence looks like
//! ([`payload`]), and how the session with player and chat client proceeds
//! ([`session`]). The caller polls, fetches, sleeps and sends.

pub mod cache;
pub mod change;
pub mod cover;
pub mod escape;
pub mod json;
pub mod media;
pub mod media_control;
pub mod payload;
pub mod player;
pub mod prefs;
pub mod session;
pub mod settings;
pub mod text;
