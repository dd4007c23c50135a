//! `/kick`.

use vstd::prelude::*;

verus! {

/// What `/kick` does.
pub enum KickAction {
    /// The author tried to kick themself: only answer.
    Refuse { reply: String },
    /// Kick `user_id`, with the reason if one was given.
    Kick { user_id: u64, reason: Option<String> },
}

/// `/kick` of `user_id` by `author_id`, with an optional reason.
pub fn kick(user_id: u64, author_id: u64, reason: Option<String>) -> (action: KickAction)
    ensures
        user_id == author_id ==> (action matches KickAction::Refuse { reply } && reply@
            == "Can't kick yourself, goofy"@),
        user_id != author_id ==> (action matches KickAction::Kick { user_id: kicked, reason: given }
            && kicked == user_id && given == reason),
{
    if user_id == author_id {
        KickAction::Refuse { reply: String::from_str("Can't kick yourself, goofy") }
    } else {
        KickAction::Kick { user_id, reason }
    }
}

} // verus!
