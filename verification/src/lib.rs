//! Verified core of a team-introduction bot: pairing members of a channel,
//! tracking the status of each meeting, and deciding what to answer to the
//! messages and button presses that the chat service delivers.

pub mod status;
pub mod text;
pub mod json;
pub mod slack;
pub mod blocks;
pub mod partition;
pub mod api_error;
pub mod interaction;
pub mod launcher;
pub mod profile;
pub mod pairing;
pub mod sheets;
pub mod cli;
pub mod introduction;
