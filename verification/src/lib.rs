//! Client-side chat and state-inspection logic for a multiplayer game client.

pub mod chat;
pub mod debug;
pub mod keys;
pub mod render;
pub mod steam;
pub mod text;
