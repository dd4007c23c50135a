//! Talky: the logic of a Discord bot that connects text channels of different
//! servers into calls, moderates members, purges messages and keeps a log.
//!
//! Everything here is plain computation over plain values; the bot binary in
//! `app/` talks to Discord, the file system and the terminal.

pub mod text;
pub mod error;
pub mod calling;
pub mod misc;
pub mod moderation;
pub mod logger;
pub mod config;
