//! Moderation commands: what each decides, given the command's arguments.

pub mod ban;
pub mod kick;
pub mod purge;
pub mod unban;
