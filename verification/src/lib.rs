//! JustinRPG's game rules, shared by the client and the server.
//!
//! Both sides must agree on these values and rules exactly, otherwise
//! movement desyncs and snapshots fail to decode. The library holds
//! everything that does not need floating-point world coordinates: the
//! gameplay tables, the rules for crafting, farming, gathering, fighting and
//! healing, and the text the game shows.

pub mod combat;
pub mod config;
pub mod hud;
pub mod laws;
pub mod messages;
pub mod player;
pub mod protocol;
pub mod rng;
pub mod text;
