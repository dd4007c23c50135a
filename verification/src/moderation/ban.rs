//! `/ban`.

use vstd::prelude::*;

use crate::text::{decimal, push_decimal};

verus! {

/// What `/ban` does.
pub enum BanAction {
    /// The author tried to ban themself: only answer.
    Refuse { reply: String },
    /// Ban `user_id`, deleting that many days of its messages, with the
    /// reason if one was given, then answer.
    Ban { user_id: u64, delete_message_days: u8, reason: Option<String>, reply: String },
}

/// `/ban` of `user_id` (named `user_name`) by `author_id`, with an optional
/// reason and number of days of messages to delete (0 when not given).
pub fn ban(
    user_id: u64,
    user_name: &str,
    author_id: u64,
    reason: Option<String>,
    delete_message_days: Option<u8>,
) -> (action: BanAction)
    ensures
        user_id == author_id ==> (action matches BanAction::Refuse { reply } && reply@
            == "Can't ban yourself, goofy"@),
        user_id != author_id ==> (action matches BanAction::Ban {
            user_id: banned,
            delete_message_days: days,
            reason: given,
            reply,
        } && banned == user_id && days == (match delete_message_days {
            Some(d) => d,
            None => 0u8,
        }) && given == reason && reply@ == "Banned user "@ + user_name@ + "\nID:"@ + decimal(
            user_id as nat,
        )),
{
    if user_id == author_id {
        BanAction::Refuse { reply: String::from_str("Can't ban yourself, goofy") }
    } else {
        let days = match delete_message_days {
            Some(d) => d,
            None => 0,
        };
        let mut reply = String::from_str("Banned user ");
        reply.append(user_name);
        reply.append("\nID:");
        push_decimal(&mut reply, user_id as u128);
        BanAction::Ban { user_id, delete_message_days: days, reason, reply }
    }
}

} // verus!
