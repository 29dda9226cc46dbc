//! Decision logic of a chat bot that catches Pokémon in a Twitch channel.

pub mod config;
pub mod context;
pub mod laws;
pub mod message;
pub mod pokemon;
pub mod text;
pub mod token;
