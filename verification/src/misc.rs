//! Miscellaneous commands.

use vstd::prelude::*;

use crate::text::{decimal, push_decimal};

verus! {

/// The answer to `/ping`: the gateway heartbeat latency in milliseconds
/// (0 right after the bot started).
pub fn ping(latency_ms: u128) -> (reply: String)
    ensures
        reply@ == "Heartbeat Latency: "@ + decimal(latency_ms as nat) + "ms"@,
{
    let mut reply = String::from_str("Heartbeat Latency: ");
    push_decimal(&mut reply, latency_ms);
    reply.append("ms");
    reply
}

/// The answer of the prefix-and-slash `ping` variant: "Pong!" with the
/// heartbeat latency in milliseconds.
pub fn pong(latency_ms: u128) -> (reply: String)
    ensures
        reply@ == "Pong! Current latency: "@ + decimal(latency_ms as nat),
{
    let mut reply = String::from_str("Pong! Current latency: ");
    push_decimal(&mut reply, latency_ms);
    reply
}

/// The line printed once the bot is connected, given its user name.
pub fn connected_message(bot_name: &str) -> (line: String)
    ensures
        line@ == "Connected as "@ + bot_name@,
{
    let mut line = String::from_str("Connected as ");
    line.append(bot_name);
    line
}

} // verus!
