//! Errors: the bot's error, and why a call command was refused.

use vstd::prelude::*;

verus! {

/// Why a call command was refused.
#[derive(Debug, Clone, Copy, PartialEq, Eq, Structural)]
pub enum CallError {
    /// The channel already waits in the queue or is already in a call.
    ChannelInQueue,
    /// The channel neither waits in the queue nor is in a call.
    ChannelNotInQueue,
}

#[verifier::external_type_specification]
#[verifier::external_body]
pub struct ExSerenityError(poise::serenity_prelude::Error);

/// An error of a command: a failed request to Discord.
#[derive(Debug)]
pub enum BotError {
    SerenityError(poise::serenity_prelude::Error),
}

impl From<poise::serenity_prelude::Error> for BotError {
    fn from(error: poise::serenity_prelude::Error) -> (bot_error: BotError) {
        BotError::SerenityError(error)
    }
}

impl vstd::std_specs::convert::FromSpecImpl<poise::serenity_prelude::Error> for BotError {
    open spec fn obeys_from_spec() -> bool {
        true
    }

    open spec fn from_spec(v: poise::serenity_prelude::Error) -> BotError {
        BotError::SerenityError(v)
    }
}

} // verus!
