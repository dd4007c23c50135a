use talky::calling::{exit, join, Calling, CallingStatus};
use talky::error::CallError;

const SCAM_WARNING: &str = "Call ready! Beware of people trying to scam! They might go as far as being friends with you only to scam you later.";

#[test]
fn new_queue_is_empty() {
    let calling = Calling::new();
    assert!(!calling.contains_channel(1));
    assert!(!calling.channel_in_convo(1));
    assert_eq!(calling.retrieve_channel_id(1), None);
}

#[test]
fn same_server_channels_wait() {
    let mut calling = Calling::new();
    assert_eq!(calling.add_to_queue(1, 10), Ok(CallingStatus::WaitingInCall));
    assert_eq!(calling.add_to_queue(2, 10), Ok(CallingStatus::WaitingInCall));
    assert!(calling.contains_channel(1));
    assert!(calling.contains_channel(2));
    assert!(!calling.channel_in_convo(1));
}

#[test]
fn other_server_channel_is_paired() {
    let mut calling = Calling::new();
    assert_eq!(calling.add_to_queue(1, 10), Ok(CallingStatus::WaitingInCall));
    assert_eq!(calling.add_to_queue(3, 20), Ok(CallingStatus::AddedToCall(1)));
    assert!(calling.channel_in_convo(1));
    assert!(calling.channel_in_convo(3));
    assert_eq!(calling.retrieve_channel_id(1), Some(3));
    assert_eq!(calling.retrieve_channel_id(3), Some(1));
}

#[test]
fn pairing_picks_a_waiting_channel_of_another_server() {
    let mut calling = Calling::new();
    calling.add_to_queue(1, 10).unwrap();
    calling.add_to_queue(2, 10).unwrap();
    let status = calling.add_to_queue(3, 20).unwrap();
    let partner = match status {
        CallingStatus::AddedToCall(p) => p,
        other => panic!("unexpected {:?}", other),
    };
    assert!(partner == 1 || partner == 2);
    let other = if partner == 1 { 2 } else { 1 };
    assert!(calling.contains_channel(other));
    assert!(!calling.channel_in_convo(other));
    assert_eq!(calling.retrieve_channel_id(3), Some(partner));
}

#[test]
fn second_join_is_refused() {
    let mut calling = Calling::new();
    calling.add_to_queue(1, 10).unwrap();
    assert_eq!(calling.add_to_queue(1, 10), Err(CallError::ChannelInQueue));
    assert_eq!(calling.add_to_queue(1, 20), Err(CallError::ChannelInQueue));
    calling.add_to_queue(2, 20).unwrap();
    assert_eq!(calling.add_to_queue(2, 30), Err(CallError::ChannelInQueue));
}

#[test]
fn leaving_the_queue_undoes_joining() {
    let mut calling = Calling::new();
    calling.add_to_queue(1, 10).unwrap();
    assert_eq!(calling.remove_channel(1), Ok(CallingStatus::RemovedFromQueue));
    assert!(!calling.contains_channel(1));
    assert_eq!(calling.add_to_queue(2, 20), Ok(CallingStatus::WaitingInCall));
}

#[test]
fn hanging_up_frees_both_sides() {
    let mut calling = Calling::new();
    calling.add_to_queue(1, 10).unwrap();
    calling.add_to_queue(3, 20).unwrap();
    assert_eq!(calling.remove_channel(3), Ok(CallingStatus::EndedCall(1)));
    assert!(!calling.contains_channel(1));
    assert!(!calling.contains_channel(3));
    assert_eq!(calling.remove_channel(1), Err(CallError::ChannelNotInQueue));
}

#[test]
fn unknown_channel_cannot_leave() {
    let mut calling = Calling::new();
    assert_eq!(calling.remove_channel(5), Err(CallError::ChannelNotInQueue));
}

#[test]
fn join_outside_a_server() {
    let mut calling = Calling::new();
    let reply = join(&mut calling, 1, None);
    assert_eq!(reply.reply, "You must use this command in a server!");
    assert!(reply.notify.is_none());
    assert!(!calling.contains_channel(1));
}

#[test]
fn join_replies() {
    let mut calling = Calling::new();
    let reply = join(&mut calling, 1, Some(10));
    assert_eq!(reply.reply, "Added to queue!");
    assert!(reply.notify.is_none());

    let reply = join(&mut calling, 1, Some(10));
    assert_eq!(reply.reply, "This channel is alredy in the queue or in a conversation!");
    assert!(reply.notify.is_none());

    let reply = join(&mut calling, 2, Some(20));
    assert_eq!(reply.reply, SCAM_WARNING);
    assert_eq!(reply.notify, Some((1, SCAM_WARNING.to_string())));
}

#[test]
fn exit_replies() {
    let mut calling = Calling::new();
    let reply = exit(&mut calling, 1);
    assert_eq!(reply.reply, "This channel is not in the queue or conversation!");
    assert!(reply.notify.is_none());

    join(&mut calling, 1, Some(10));
    join(&mut calling, 2, Some(20));
    let reply = exit(&mut calling, 1);
    assert_eq!(reply.reply, "Ended call!");
    assert_eq!(reply.notify, Some((2, "The other server ended the call!".to_string())));
    assert!(!calling.contains_channel(2));
}

#[test]
fn exit_leaves_the_queue() {
    let mut calling = Calling::new();
    join(&mut calling, 1, Some(10));
    let reply = exit(&mut calling, 1);
    assert_eq!(reply.reply, "Removed from queue!");
    assert!(reply.notify.is_none());
    assert!(!calling.contains_channel(1));
}
