//! `/unban`.

use vstd::prelude::*;

use crate::text::{decimal, push_decimal};

verus! {

/// The answer to `/unban` once `user_id` was unbanned.
pub fn unban(user_id: u64) -> (reply: String)
    ensures
        reply@ == "Unbanned "@ + decimal(user_id as nat),
{
    let mut reply = String::from_str("Unbanned ");
    push_decimal(&mut reply, user_id as u128);
    reply
}

} // verus!
