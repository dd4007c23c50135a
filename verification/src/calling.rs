//! Calls between text channels of different servers.
//!
//! A channel that asks for a call waits in a queue until a channel of another
//! server asks too; the two are then paired into a conversation until one of
//! them leaves.

use std::collections::HashMap;
use vstd::prelude::*;

use crate::error::CallError;

verus! {

broadcast use vstd::std_specs::hash::group_hash_axioms;

/// The call queue and the running conversations. Channels and servers are
/// given by their Discord ids.
pub struct Calling {
    waiting_servers: HashMap<u64, u64>,
    current_conversations: HashMap<u64, u64>,
}

/// What a call command did.
#[derive(Debug, Clone, Copy, PartialEq, Eq, Structural)]
pub enum CallingStatus {
    /// The channel now waits in the queue.
    WaitingInCall,
    /// The channel was paired with the given waiting channel.
    AddedToCall(u64),
    /// The channel left the queue.
    RemovedFromQueue,
    /// The channel left its conversation with the given channel.
    EndedCall(u64),
}

/// The abstract state: the queue maps each waiting channel to its server,
/// the conversations map each channel in a call to its partner.
#[verifier::ext_equal]
pub struct CallingView {
    pub waiting: Map<u64, u64>,
    pub conversations: Map<u64, u64>,
}

impl View for Calling {
    type V = CallingView;

    closed spec fn view(&self) -> CallingView {
        CallingView { waiting: self.waiting_servers@, conversations: self.current_conversations@ }
    }
}

impl CallingView {
    /// Conversations come in pairs: each channel's partner has it as partner,
    /// and no channel talks to itself.
    pub open spec fn paired(self) -> bool {
        forall|a: u64| #[trigger] self.conversations.contains_key(a) ==> {
            let b = self.conversations[a];
            &&& b != a
            &&& self.conversations.contains_key(b)
            &&& self.conversations[b] == a
        }
    }

    /// No channel waits in the queue while it is in a call.
    pub open spec fn disjoint(self) -> bool {
        forall|a: u64| #[trigger] self.waiting.contains_key(a) ==> !self.conversations.contains_key(a)
    }

    /// All channels in the queue belong to one server: two waiting channels of
    /// different servers would have been paired.
    pub open spec fn one_server_waiting(self) -> bool {
        forall|a: u64, b: u64|
            #[trigger] self.waiting.contains_key(a) && #[trigger] self.waiting.contains_key(b)
                ==> self.waiting[a] == self.waiting[b]
    }

    /// The invariant of every state the operations reach from an empty one.
    pub open spec fn wf(self) -> bool {
        &&& self.paired()
        &&& self.disjoint()
        &&& self.one_server_waiting()
    }

    /// The channel waits in the queue or is in a call.
    pub open spec fn contains(self, channel: u64) -> bool {
        self.waiting.contains_key(channel) || self.conversations.contains_key(channel)
    }

    /// `candidate` waits in the queue for a server other than `guild`.
    pub open spec fn can_match(self, candidate: u64, guild: u64) -> bool {
        self.waiting.contains_key(candidate) && self.waiting[candidate] != guild
    }

    /// The state after `channel` of `guild` joined the queue.
    pub open spec fn queued(self, channel: u64, guild: u64) -> CallingView {
        CallingView { waiting: self.waiting.insert(channel, guild), conversations: self.conversations }
    }

    /// The state after `channel` was paired with the waiting `partner`.
    pub open spec fn paired_with(self, channel: u64, partner: u64) -> CallingView {
        CallingView {
            waiting: self.waiting.remove(partner),
            conversations: self.conversations.insert(partner, channel).insert(channel, partner),
        }
    }

    /// The state after `channel` left the queue.
    pub open spec fn dequeued(self, channel: u64) -> CallingView {
        CallingView { waiting: self.waiting.remove(channel), conversations: self.conversations }
    }

    /// The state after `channel` ended its call.
    pub open spec fn hung_up(self, channel: u64) -> CallingView {
        CallingView {
            waiting: self.waiting,
            conversations: self.conversations.remove(channel).remove(self.conversations[channel]),
        }
    }

    /// What asking for a call does: refused when the channel is already
    /// known; otherwise paired with some channel of another server that waits,
    /// if there is one (which one is left open); otherwise queued.
    pub open spec fn add_outcome(
        self,
        channel: u64,
        guild: u64,
        res: Result<CallingStatus, CallError>,
        post: CallingView,
    ) -> bool {
        if self.contains(channel) {
            res == Err::<CallingStatus, CallError>(CallError::ChannelInQueue) && post == self
        } else if exists|c: u64| #[trigger] self.can_match(c, guild) {
            match res {
                Ok(CallingStatus::AddedToCall(c)) => self.can_match(c, guild) && post
                    == self.paired_with(channel, c),
                _ => false,
            }
        } else {
            res == Ok::<CallingStatus, CallError>(CallingStatus::WaitingInCall) && post == self.queued(
                channel,
                guild,
            )
        }
    }

    /// What leaving does: a channel in a call ends it for both sides; a
    /// waiting channel leaves the queue; any other channel is refused.
    pub open spec fn remove_outcome(
        self,
        channel: u64,
        res: Result<CallingStatus, CallError>,
        post: CallingView,
    ) -> bool {
        if self.conversations.contains_key(channel) {
            res == Ok::<CallingStatus, CallError>(CallingStatus::EndedCall(self.conversations[channel]))
                && post == self.hung_up(channel)
        } else if self.waiting.contains_key(channel) {
            res == Ok::<CallingStatus, CallError>(CallingStatus::RemovedFromQueue) && post
                == self.dequeued(channel)
        } else {
            res == Err::<CallingStatus, CallError>(CallError::ChannelNotInQueue) && post == self
        }
    }
}

impl Calling {
    /// An empty queue with no conversation.
    pub fn new() -> (calling: Calling)
        ensures
            calling@.waiting == Map::<u64, u64>::empty(),
            calling@.conversations == Map::<u64, u64>::empty(),
            calling@.wf(),
    {
        Calling { waiting_servers: HashMap::new(), current_conversations: HashMap::new() }
    }

    /// Puts `channel_id` of server `guild_id` into a call: with a waiting
    /// channel of another server if there is one, else into the queue.
    pub fn add_to_queue(&mut self, channel_id: u64, guild_id: u64) -> (res: Result<
        CallingStatus,
        CallError,
    >)
        ensures
            old(self)@.add_outcome(channel_id, guild_id, res, final(self)@),
            old(self)@.wf() ==> final(self)@.wf(),
    {
        if self.contains_channel(channel_id) {
            return Err(CallError::ChannelInQueue);
        }
        let ghost pre = self@;
        let mut found: Option<u64> = None;
        for kv in it: self.waiting_servers.iter()
            invariant_except_break
                found is None,
                forall|i: int| 0 <= i < it.index() ==> *(#[trigger] it.seq()[i]).1 == guild_id,
            invariant
                pre == self@,
            ensures
                found matches Some(k) ==> pre.can_match(k, guild_id),
                found is None ==> forall|i: int|
                    0 <= i < it.seq().len() ==> *(#[trigger] it.seq()[i]).1 == guild_id,
        {
            let (key, value) = kv;
            if *value != guild_id {
                found = Some(*key);
                break;
            }
        }
        match found {
            Some(partner) => {
                self.current_conversations.insert(partner, channel_id);
                self.current_conversations.insert(channel_id, partner);
                self.waiting_servers.remove(&partner);
                Ok(CallingStatus::AddedToCall(partner))
            },
            None => {
                self.waiting_servers.insert(channel_id, guild_id);
                Ok(CallingStatus::WaitingInCall)
            },
        }
    }

    /// Whether `channel_id` is in a call.
    pub fn channel_in_convo(&self, channel_id: u64) -> (b: bool)
        ensures
            b == self@.conversations.contains_key(channel_id),
    {
        self.current_conversations.contains_key(&channel_id)
    }

    /// Whether `channel_id` waits in the queue or is in a call.
    pub fn contains_channel(&self, channel_id: u64) -> (b: bool)
        ensures
            b == self@.contains(channel_id),
    {
        self.waiting_servers.contains_key(&channel_id) || self.current_conversations.contains_key(
            &channel_id,
        )
    }

    /// The partner of `channel_id` in its call, if it is in one.
    pub fn retrieve_channel_id(&self, channel_id: u64) -> (partner: Option<u64>)
        ensures
            partner == (if self@.conversations.contains_key(channel_id) {
                Some(self@.conversations[channel_id])
            } else {
                None
            }),
    {
        match self.current_conversations.get(&channel_id) {
            Some(id) => Some(*id),
            None => None,
        }
    }

    /// Takes `channel_id` out of its call (ending it for the partner too) or
    /// out of the queue.
    pub fn remove_channel(&mut self, channel_id: u64) -> (res: Result<CallingStatus, CallError>)
        ensures
            old(self)@.remove_outcome(channel_id, res, final(self)@),
            old(self)@.wf() ==> final(self)@.wf(),
    {
        let ghost pre = self@;
        match self.current_conversations.remove(&channel_id) {
            Some(id) => {
                assert(pre.conversations.contains_key(channel_id));
                assert(pre.conversations[channel_id] == id);
                self.current_conversations.remove(&id);
                assert(self@ =~= pre.hung_up(channel_id));
                Ok(CallingStatus::EndedCall(id))
            },
            None => match self.waiting_servers.remove(&channel_id) {
                Some(_) => {
                    assert(self@ =~= pre.dequeued(channel_id));
                    Ok(CallingStatus::RemovedFromQueue)
                },
                None => {
                    assert(self@ =~= pre);
                    Err(CallError::ChannelNotInQueue)
                },
            },
        }
    }
}

} // verus!

verus! {

/// What a call command answers: `reply` goes to the channel that ran it,
/// `notify`, when present, names another channel and what it is told.
pub struct CallReply {
    pub reply: String,
    pub notify: Option<(u64, String)>,
}

impl CallReply {
    pub open spec fn text(self) -> Seq<char> {
        self.reply@
    }

    pub open spec fn notice(self) -> Option<(u64, Seq<char>)> {
        match self.notify {
            Some((channel, message)) => Some((channel, message@)),
            None => None,
        }
    }
}

/// The answer of `/call join` to what asking for a call did.
pub open spec fn join_text(res: Result<CallingStatus, CallError>) -> Seq<char> {
    match res {
        Ok(CallingStatus::AddedToCall(_)) => "Call ready! Beware of people trying to scam! They might go as far as being friends with you only to scam you later."@,
        Ok(_) => "Added to queue!"@,
        Err(_) => "This channel is alredy in the queue or in a conversation!"@,
    }
}

/// Whom `/call join` tells besides, and what.
pub open spec fn join_notice(res: Result<CallingStatus, CallError>) -> Option<(u64, Seq<char>)> {
    match res {
        Ok(CallingStatus::AddedToCall(partner)) => Some((partner, "Call ready! Beware of people trying to scam! They might go as far as being friends with you only to scam you later."@)),
        _ => None,
    }
}

/// `/call join` in `channel_id`, run in the server `guild_id` (`None` in a
/// direct message): asks for a call and says how it went.
pub fn join(calling: &mut Calling, channel_id: u64, guild_id: Option<u64>) -> (r: CallReply)
    ensures
        guild_id is None ==> {
            &&& final(calling)@ == old(calling)@
            &&& r.text() == "You must use this command in a server!"@
            &&& r.notice() is None
        },
        guild_id matches Some(guild) ==> exists|res: Result<CallingStatus, CallError>|
            #[trigger] old(calling)@.add_outcome(channel_id, guild, res, final(calling)@)
                && r.text() == join_text(res) && r.notice() == join_notice(res),
        old(calling)@.wf() ==> final(calling)@.wf(),
{
    let guild = match guild_id {
        Some(guild) => guild,
        None => {
            return CallReply {
                reply: String::from_str("You must use this command in a server!"),
                notify: None,
            };
        },
    };
    let res = calling.add_to_queue(channel_id, guild);
    match res {
        Ok(CallingStatus::AddedToCall(partner)) => {
            let message = "Call ready! Beware of people trying to scam! They might go as far as being friends with you only to scam you later.";
            CallReply {
                reply: String::from_str(message),
                notify: Some((partner, String::from_str(message))),
            }
        },
        Ok(_) => CallReply { reply: String::from_str("Added to queue!"), notify: None },
        Err(_) => CallReply {
            reply: String::from_str("This channel is alredy in the queue or in a conversation!"),
            notify: None,
        },
    }
}

/// The answer of `/call exit` to what leaving did.
pub open spec fn exit_text(res: Result<CallingStatus, CallError>) -> Seq<char> {
    match res {
        Ok(CallingStatus::RemovedFromQueue) => "Removed from queue!"@,
        Ok(_) => "Ended call!"@,
        Err(_) => "This channel is not in the queue or conversation!"@,
    }
}

/// Whom `/call exit` tells besides, and what.
pub open spec fn exit_notice(res: Result<CallingStatus, CallError>) -> Option<(u64, Seq<char>)> {
    match res {
        Ok(CallingStatus::EndedCall(partner)) => Some((partner, "The other server ended the call!"@)),
        _ => None,
    }
}

/// `/call exit` in `channel_id`: ends its call and says so on both sides,
/// or takes it out of the queue, or answers that the channel is in neither
/// the queue nor a call.
pub fn exit(calling: &mut Calling, channel_id: u64) -> (r: CallReply)
    ensures
        exists|res: Result<CallingStatus, CallError>|
            #[trigger] old(calling)@.remove_outcome(channel_id, res, final(calling)@) && r.text()
                == exit_text(res) && r.notice() == exit_notice(res),
        old(calling)@.wf() ==> final(calling)@.wf(),
{
    let res = calling.remove_channel(channel_id);
    match res {
        Ok(CallingStatus::EndedCall(partner)) => CallReply {
            reply: String::from_str("Ended call!"),
            notify: Some((partner, String::from_str("The other server ended the call!"))),
        },
        Ok(CallingStatus::RemovedFromQueue) => CallReply {
            reply: String::from_str("Removed from queue!"),
            notify: None,
        },
        Ok(_) => CallReply { reply: String::from_str("Ended call!"), notify: None },
        Err(_) => CallReply {
            reply: String::from_str("This channel is not in the queue or conversation!"),
            notify: None,
        },
    }
}

} // verus!

verus! {

/// An empty queue with no conversation satisfies the invariant.
pub proof fn lemma_empty_wf()
    ensures
        (CallingView {
            waiting: Map::<u64, u64>::empty(),
            conversations: Map::<u64, u64>::empty(),
        }).wf(),
{
}

/// Asking for a call and leaving keep the invariant: conversations stay in
/// pairs, no channel both waits and talks, and the queue holds channels of
/// one server only.
pub proof fn lemma_operations_keep_wf(
    pre: CallingView,
    channel: u64,
    guild: u64,
    res: Result<CallingStatus, CallError>,
    post: CallingView,
)
    requires
        pre.wf(),
        pre.add_outcome(channel, guild, res, post) || pre.remove_outcome(channel, res, post),
    ensures
        post.wf(),
{
    if pre.add_outcome(channel, guild, res, post) {
        lemma_add_keeps_wf(pre, channel, guild, res, post);
    } else {
        lemma_remove_keeps_wf(pre, channel, res, post);
    }
}

proof fn lemma_add_keeps_wf(
    pre: CallingView,
    channel: u64,
    guild: u64,
    res: Result<CallingStatus, CallError>,
    post: CallingView,
)
    requires
        pre.wf(),
        pre.add_outcome(channel, guild, res, post),
    ensures
        post.wf(),
{
    if !pre.contains(channel) && exists|c: u64| #[trigger] pre.can_match(c, guild) {
        let partner = res->Ok_0->AddedToCall_0;
        assert(post.paired()) by {
            assert forall|a: u64| #[trigger] post.conversations.contains_key(a) implies {
                let b = post.conversations[a];
                &&& b != a
                &&& post.conversations.contains_key(b)
                &&& post.conversations[b] == a
            } by {
                if a != channel && a != partner {
                    let b = pre.conversations[a];
                    assert(b != channel && b != partner);
                }
            }
        }
    } else if !pre.contains(channel) {
        assert forall|a: u64, b: u64|
            #[trigger] post.waiting.contains_key(a) && #[trigger] post.waiting.contains_key(b)
                implies post.waiting[a] == post.waiting[b] by {
            if a != channel {
                assert(!pre.can_match(a, guild));
            }
            if b != channel {
                assert(!pre.can_match(b, guild));
            }
        }
    }
}

proof fn lemma_remove_keeps_wf(
    pre: CallingView,
    channel: u64,
    res: Result<CallingStatus, CallError>,
    post: CallingView,
)
    requires
        pre.wf(),
        pre.remove_outcome(channel, res, post),
    ensures
        post.wf(),
{
    if pre.conversations.contains_key(channel) {
        let partner = pre.conversations[channel];
        assert forall|a: u64| #[trigger] post.conversations.contains_key(a) implies {
            let b = post.conversations[a];
            &&& b != a
            &&& post.conversations.contains_key(b)
            &&& post.conversations[b] == a
        } by {
            let b = pre.conversations[a];
            assert(pre.conversations[b] == a);
        }
    }
}

/// A call joins the two channels both ways, and only channels of different
/// servers: after a channel is paired with a waiting one, each is the other's
/// partner, neither waits any more, and the partner's server differs.
pub proof fn lemma_call_pairs_both_ways(
    pre: CallingView,
    channel: u64,
    guild: u64,
    partner: u64,
    post: CallingView,
)
    requires
        pre.wf(),
        pre.add_outcome(channel, guild, Ok(CallingStatus::AddedToCall(partner)), post),
    ensures
        pre.waiting.contains_key(partner),
        pre.waiting[partner] != guild,
        post.conversations.contains_key(channel),
        post.conversations.contains_key(partner),
        post.conversations[channel] == partner,
        post.conversations[partner] == channel,
        !post.waiting.contains_key(channel),
        !post.waiting.contains_key(partner),
{
}

/// A channel waits only when no channel of another server waits: if asking
/// for a call queues the channel, no waiting channel could have taken it.
pub proof fn lemma_queued_only_without_match(
    pre: CallingView,
    channel: u64,
    guild: u64,
    post: CallingView,
)
    requires
        pre.add_outcome(channel, guild, Ok(CallingStatus::WaitingInCall), post),
    ensures
        forall|c: u64| !#[trigger] pre.can_match(c, guild),
        post.waiting.contains_key(channel),
        post.waiting[channel] == guild,
{
}

/// Leaving the queue undoes joining it: a channel that was queued and then
/// leaves is told it left the queue, and the state is the one before.
pub proof fn lemma_leave_queue_undoes_join(
    pre: CallingView,
    channel: u64,
    guild: u64,
    mid: CallingView,
    res: Result<CallingStatus, CallError>,
    post: CallingView,
)
    requires
        pre.add_outcome(channel, guild, Ok(CallingStatus::WaitingInCall), mid),
        mid.remove_outcome(channel, res, post),
    ensures
        res == Ok::<CallingStatus, CallError>(CallingStatus::RemovedFromQueue),
        post == pre,
{
    assert(post.waiting =~= pre.waiting);
    assert(post.conversations =~= pre.conversations);
}

/// A channel is never queued twice: once asking for a call succeeded, asking
/// again is refused and changes nothing.
pub proof fn lemma_second_join_refused(
    pre: CallingView,
    channel: u64,
    guild: u64,
    guild2: u64,
    status: CallingStatus,
    mid: CallingView,
    res: Result<CallingStatus, CallError>,
    post: CallingView,
)
    requires
        pre.add_outcome(channel, guild, Ok(status), mid),
        mid.add_outcome(channel, guild2, res, post),
    ensures
        res == Err::<CallingStatus, CallError>(CallError::ChannelInQueue),
        post == mid,
{
}

/// Ending a call frees both sides: the partner is told, neither channel is in
/// the queue or a call afterwards, the queue is untouched, and the partner's
/// own leaving is then refused.
pub proof fn lemma_hang_up_frees_both(
    pre: CallingView,
    channel: u64,
    partner: u64,
    post: CallingView,
    res2: Result<CallingStatus, CallError>,
    post2: CallingView,
)
    requires
        pre.wf(),
        pre.remove_outcome(channel, Ok(CallingStatus::EndedCall(partner)), post),
        post.remove_outcome(partner, res2, post2),
    ensures
        pre.conversations.contains_key(channel),
        pre.conversations[channel] == partner,
        !post.contains(channel),
        !post.contains(partner),
        post.waiting == pre.waiting,
        res2 == Err::<CallingStatus, CallError>(CallError::ChannelNotInQueue),
        post2 == post,
{
}

} // verus!

verus! {

/// Joining touches only the joining channel and the partner it is paired
/// with: every other call runs on with the same partners, and every other
/// waiting channel keeps waiting for the same server. A queued channel waits
/// for its own server and changes no call; a refused one changes nothing.
pub proof fn lemma_join_keeps_other_channels(
    pre: CallingView,
    channel: u64,
    guild: u64,
    res: Result<CallingStatus, CallError>,
    post: CallingView,
)
    requires
        pre.add_outcome(channel, guild, res, post),
    ensures
        res matches Ok(CallingStatus::AddedToCall(partner)) ==> {
            &&& post.conversations.contains_key(channel)
            &&& post.conversations[channel] == partner
            &&& post.conversations.contains_key(partner)
            &&& post.conversations[partner] == channel
            &&& forall|a: u64|
                a != channel && a != partner ==> (#[trigger] post.conversations.contains_key(a)
                    <==> pre.conversations.contains_key(a)) && (pre.conversations.contains_key(a)
                    ==> post.conversations[a] == pre.conversations[a])
            &&& !post.waiting.contains_key(partner)
            &&& forall|a: u64|
                a != partner ==> (#[trigger] post.waiting.contains_key(a)
                    <==> pre.waiting.contains_key(a)) && (pre.waiting.contains_key(a)
                    ==> post.waiting[a] == pre.waiting[a])
        },
        res == Ok::<CallingStatus, CallError>(CallingStatus::WaitingInCall) ==> {
            &&& post.waiting.contains_key(channel)
            &&& post.waiting[channel] == guild
            &&& forall|a: u64|
                a != channel ==> (#[trigger] post.waiting.contains_key(a)
                    <==> pre.waiting.contains_key(a)) && (pre.waiting.contains_key(a)
                    ==> post.waiting[a] == pre.waiting[a])
            &&& post.conversations == pre.conversations
        },
        res is Err ==> post.waiting == pre.waiting && post.conversations == pre.conversations,
{
}

/// Leaving touches only the leaving channel and its partner: ending a call
/// takes both out of it and leaves every other call and the queue as they
/// were; leaving the queue takes out only that channel; a refused leave
/// changes nothing.
pub proof fn lemma_leave_keeps_other_channels(
    pre: CallingView,
    channel: u64,
    res: Result<CallingStatus, CallError>,
    post: CallingView,
)
    requires
        pre.remove_outcome(channel, res, post),
    ensures
        res matches Ok(CallingStatus::EndedCall(partner)) ==> {
            &&& pre.conversations.contains_key(channel)
            &&& pre.conversations[channel] == partner
            &&& !post.conversations.contains_key(channel)
            &&& !post.conversations.contains_key(partner)
            &&& forall|a: u64|
                a != channel && a != partner ==> (#[trigger] post.conversations.contains_key(a)
                    <==> pre.conversations.contains_key(a)) && (pre.conversations.contains_key(a)
                    ==> post.conversations[a] == pre.conversations[a])
            &&& post.waiting == pre.waiting
        },
        res == Ok::<CallingStatus, CallError>(CallingStatus::RemovedFromQueue) ==> {
            &&& pre.waiting.contains_key(channel)
            &&& !post.waiting.contains_key(channel)
            &&& forall|a: u64|
                a != channel ==> (#[trigger] post.waiting.contains_key(a)
                    <==> pre.waiting.contains_key(a)) && (pre.waiting.contains_key(a)
                    ==> post.waiting[a] == pre.waiting[a])
            &&& post.conversations == pre.conversations
        },
        res is Err ==> post.waiting == pre.waiting && post.conversations == pre.conversations,
{
}

} // verus!
