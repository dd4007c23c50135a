//! `/purge after`, `/purge before` and `/purge any`: deleting messages in
//! rounds. The bot fetches messages, deletes them one by one and reports how
//! many it deleted; the types here hold what the rounds decide on.

use vstd::prelude::*;

use crate::text::{all_digits, decimal, digits_value, lemma_decimal_reads_back, push_decimal};

verus! {

/// How many messages a purge deletes when no amount is given.
pub const DEFAULT_AMOUNT: u16 = 100;

/// The amount a purge deletes: the one given, or the default.
pub open spec fn amount_or_default(amount: Option<u16>) -> u16 {
    match amount {
        Some(a) => a,
        None => DEFAULT_AMOUNT,
    }
}

/// The answer once a purge is over.
pub open spec fn deleted_text(count: nat) -> Seq<char> {
    "Deleted "@ + decimal(count) + " messages"@
}

/// The answer reports the whole count: between "Deleted " and " messages"
/// stand the decimal digits of `count` and nothing else.
pub proof fn lemma_deleted_text_reads_back(count: nat)
    ensures
        ({
            let t = deleted_text(count);
            &&& t.len() >= 18
            &&& t.subrange(0, 8) == "Deleted "@
            &&& t.subrange(t.len() - 9, t.len() as int) == " messages"@
            &&& all_digits(t.subrange(8, t.len() - 9))
            &&& digits_value(t.subrange(8, t.len() - 9)) == count
        }),
{
    reveal_strlit("Deleted ");
    reveal_strlit(" messages");
    lemma_decimal_reads_back(count);
    let t = deleted_text(count);
    let d = decimal(count);
    assert(t.subrange(0, 8) =~= "Deleted "@);
    assert(t.subrange(t.len() - 9, t.len() as int) =~= " messages"@);
    assert(t.subrange(8, t.len() - 9) =~= d);
}

/// Different counts give different answers.
pub proof fn lemma_deleted_text_injective(a: nat, b: nat)
    requires
        deleted_text(a) == deleted_text(b),
    ensures
        a == b,
{
    lemma_deleted_text_reads_back(a);
    lemma_deleted_text_reads_back(b);
}

fn deleted_reply(count: u16) -> (reply: String)
    ensures
        reply@ == deleted_text(count as nat),
{
    let mut reply = String::from_str("Deleted ");
    push_decimal(&mut reply, count as u128);
    reply.append(" messages");
    reply
}

/// Which side of the given message a purge walks.
#[derive(Debug, Clone, Copy, PartialEq, Eq, Structural)]
pub enum PurgeDirection {
    /// Messages after the given one, fetched forwards.
    After,
    /// Messages before the given one, fetched backwards.
    Before,
}

/// How many messages one fetch asks for at most.
pub const PAGE_SIZE: u16 = 100;

/// A purge of the messages after (or before) a given message: the message
/// that the next fetch starts from, how many were deleted, how many are
/// still to delete, and whether the channel ran out of messages.
pub struct PurgeRange {
    direction: PurgeDirection,
    cursor: u64,
    count: u16,
    left: u16,
    amount: u16,
    exhausted: bool,
}

pub struct PurgeRangeView {
    pub direction: PurgeDirection,
    pub cursor: u64,
    pub count: nat,
    pub left: nat,
    pub amount: nat,
    pub exhausted: bool,
}

impl PurgeRangeView {
    /// Every deleted message is counted: deleted and left add up to the
    /// amount asked for.
    pub open spec fn wf(self) -> bool {
        self.count + self.left == self.amount
    }
}

impl View for PurgeRange {
    type V = PurgeRangeView;

    closed spec fn view(&self) -> PurgeRangeView {
        PurgeRangeView {
            direction: self.direction,
            cursor: self.cursor,
            count: self.count as nat,
            left: self.left as nat,
            amount: self.amount as nat,
            exhausted: self.exhausted,
        }
    }
}

impl PurgeRangeView {
    /// The purge goes on while messages are left to delete and the last
    /// fetch found some.
    pub open spec fn goes_on(self) -> bool {
        self.left > 0 && !self.exhausted
    }
}

impl PurgeRange {
    #[verifier::type_invariant]
    closed spec fn inv(self) -> bool {
        self.count + self.left == self.amount
    }

    /// A purge of `amount` messages (default 100) on the given side of
    /// `message_id`.
    pub fn new(direction: PurgeDirection, message_id: u64, amount: Option<u16>) -> (p: PurgeRange)
        ensures
            p@.direction == direction,
            p@.cursor == message_id,
            p@.count == 0,
            p@.left == amount_or_default(amount),
            p@.amount == amount_or_default(amount),
            !p@.exhausted,
            p@.wf(),
    {
        let amount = match amount {
            Some(a) => a,
            None => DEFAULT_AMOUNT,
        };
        PurgeRange { direction, cursor: message_id, count: 0, left: amount, amount, exhausted: false }
    }

    /// The next fetch, while the purge goes on: its limit (what is left, at
    /// most a page of 100) and the message it starts from. When it is over,
    /// either every message asked for was deleted or the channel ran out.
    pub fn next_request(&self) -> (req: Option<(u8, u64)>)
        ensures
            !self@.goes_on() ==> req is None,
            self@.goes_on() ==> req == Some((
                (if self@.left < PAGE_SIZE { self@.left } else { PAGE_SIZE as nat }) as u8,
                self@.cursor,
            )),
            req is None ==> self@.count == self@.amount || self@.exhausted,
            self@.wf(),
    {
        proof {
            use_type_invariant(self);
        }
        if self.left > 0 && !self.exhausted {
            let limit: u16 = if self.left < PAGE_SIZE { self.left } else { PAGE_SIZE };
            Some((limit as u8, self.cursor))
        } else {
            None
        }
    }

    /// A fetch returned the messages `ids`, in the order the fetch gave them.
    /// An empty page means the channel has no more messages on that side:
    /// the purge is over. Otherwise the next fetch starts from the last of
    /// them when walking forwards, from the first of them when walking
    /// backwards, and the result is how many of them (from the front) to
    /// delete: all of them, but no more than are left.
    pub fn batch_fetched(&mut self, ids: &Vec<u64>) -> (to_delete: usize)
        ensures
            ids.len() == 0 ==> {
                &&& final(self)@.exhausted
                &&& final(self)@.cursor == old(self)@.cursor
                &&& to_delete == 0
            },
            ids.len() > 0 ==> {
                &&& final(self)@.exhausted == old(self)@.exhausted
                &&& final(self)@.cursor == (match old(self)@.direction {
                    PurgeDirection::After => ids@.last(),
                    PurgeDirection::Before => ids@[0],
                })
                &&& to_delete == (if ids.len() < old(self)@.left {
                    ids.len() as nat
                } else {
                    old(self)@.left
                })
            },
            final(self)@.direction == old(self)@.direction,
            final(self)@.count == old(self)@.count,
            final(self)@.left == old(self)@.left,
            final(self)@.amount == old(self)@.amount,
            final(self)@.wf(),
    {
        proof {
            use_type_invariant(&*self);
        }
        if ids.len() == 0 {
            self.exhausted = true;
            return 0;
        }
        let cursor = match self.direction {
            PurgeDirection::After => ids[ids.len() - 1],
            PurgeDirection::Before => ids[0],
        };
        self.cursor = cursor;
        if ids.len() < self.left as usize {
            ids.len()
        } else {
            self.left as usize
        }
    }

    /// One more message was deleted.
    pub fn message_deleted(&mut self)
        requires
            old(self)@.left > 0,
        ensures
            final(self)@.count == old(self)@.count + 1,
            final(self)@.left == old(self)@.left - 1,
            final(self)@.cursor == old(self)@.cursor,
            final(self)@.direction == old(self)@.direction,
            final(self)@.amount == old(self)@.amount,
            final(self)@.exhausted == old(self)@.exhausted,
            final(self)@.wf(),
    {
        proof {
            use_type_invariant(&*self);
        }
        *self = PurgeRange {
            direction: self.direction,
            cursor: self.cursor,
            count: self.count + 1,
            left: self.left - 1,
            amount: self.amount,
            exhausted: self.exhausted,
        };
    }

    /// How many messages are still to delete.
    pub fn left(&self) -> (left: u16)
        ensures
            left == self@.left,
    {
        self.left
    }

    /// The answer: how many messages were deleted.
    pub fn reply(&self) -> (reply: String)
        ensures
            reply@ == deleted_text(self@.count),
    {
        deleted_reply(self.count)
    }
}

/// `/purge any`: deletes the latest messages one by one, up to an amount,
/// and stops early when fetching a message fails.
pub struct PurgeAny {
    count: u16,
    remaining: u16,
    amount: u16,
    stopped: bool,
}

pub struct PurgeAnyView {
    pub count: nat,
    pub remaining: nat,
    pub amount: nat,
    pub stopped: bool,
}

impl PurgeAnyView {
    /// Deleted and remaining add up to the amount asked for.
    pub open spec fn wf(self) -> bool {
        self.count + self.remaining == self.amount
    }

    /// The purge goes on while messages remain and no fetch failed.
    pub open spec fn wants_next(self) -> bool {
        self.remaining > 0 && !self.stopped
    }
}

impl View for PurgeAny {
    type V = PurgeAnyView;

    closed spec fn view(&self) -> PurgeAnyView {
        PurgeAnyView {
            count: self.count as nat,
            remaining: self.remaining as nat,
            amount: self.amount as nat,
            stopped: self.stopped,
        }
    }
}

impl PurgeAny {
    #[verifier::type_invariant]
    closed spec fn inv(self) -> bool {
        self.count + self.remaining == self.amount
    }

    /// A purge of the latest `amount` messages (default 100).
    pub fn new(amount: Option<u16>) -> (p: PurgeAny)
        ensures
            p@.count == 0,
            p@.remaining == amount_or_default(amount),
            p@.amount == amount_or_default(amount),
            !p@.stopped,
            p@.wf(),
    {
        let amount = match amount {
            Some(a) => a,
            None => DEFAULT_AMOUNT,
        };
        PurgeAny { count: 0, remaining: amount, amount, stopped: false }
    }

    /// Whether to fetch and delete another message.
    pub fn wants_next(&self) -> (b: bool)
        ensures
            b == self@.wants_next(),
            self@.wf(),
    {
        proof {
            use_type_invariant(self);
        }
        self.remaining > 0 && !self.stopped
    }

    /// One more message was deleted.
    pub fn message_deleted(&mut self)
        requires
            old(self)@.wants_next(),
        ensures
            final(self)@.count == old(self)@.count + 1,
            final(self)@.remaining == old(self)@.remaining - 1,
            final(self)@.amount == old(self)@.amount,
            final(self)@.stopped == old(self)@.stopped,
            final(self)@.wf(),
    {
        proof {
            use_type_invariant(&*self);
        }
        *self = PurgeAny {
            count: self.count + 1,
            remaining: self.remaining - 1,
            amount: self.amount,
            stopped: self.stopped,
        };
    }

    /// Fetching the next message failed, or the channel has no message left:
    /// the purge stops.
    pub fn fetch_failed(&mut self)
        ensures
            final(self)@.stopped,
            final(self)@.count == old(self)@.count,
            final(self)@.remaining == old(self)@.remaining,
            final(self)@.amount == old(self)@.amount,
            final(self)@.wf(),
    {
        proof {
            use_type_invariant(&*self);
        }
        self.stopped = true;
    }

    /// The answer: how many messages were deleted.
    pub fn reply(&self) -> (reply: String)
        ensures
            reply@ == deleted_text(self@.count),
    {
        deleted_reply(self.count)
    }
}

} // verus!
