//! Verified core of the Simeis space-trading game: the per-player event
//! queue, the resource and equipment catalogues, crew management, the
//! galaxy coordinate index, and the parsing of the player key out of a
//! request's query string.

pub mod auth;
pub mod bot;
pub mod client;
pub mod crew;
pub mod errors;
pub mod galaxy;
pub mod game;
pub mod industry;
pub mod json;
pub mod player;
pub mod ship;
pub mod syslog;
pub mod text;
