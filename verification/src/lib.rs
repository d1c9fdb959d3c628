//! A ballot engine for a game-server moderation bot: players nominate a
//! change of map or mode, vote on it, and the engine decides the outcome by
//! quorum or by plain majority. Around the engine stand the reading of the
//! server's log and chat, and the packets of its remote console.

pub mod ballot;
pub mod catalog;
pub mod chat;
pub mod clock;
pub mod console;
pub mod cooldown;
pub mod invariants;
pub mod laws;
pub mod pattern;
pub mod ratio;
pub mod registry;
pub mod scanner;
pub mod state;
pub mod system;
pub mod tally;
