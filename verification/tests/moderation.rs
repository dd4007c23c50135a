use talky::misc::{ping, pong};
use talky::moderation::ban::{ban, BanAction};
use talky::moderation::kick::{kick, KickAction};
use talky::moderation::purge::{PurgeAny, PurgeDirection, PurgeRange};
use talky::moderation::unban::unban;
use talky::text::decimal_string;

#[test]
fn decimal_rendering() {
    assert_eq!(decimal_string(0), "0");
    assert_eq!(decimal_string(7), "7");
    assert_eq!(decimal_string(10), "10");
    assert_eq!(decimal_string(1234567890123), "1234567890123");
    assert_eq!(decimal_string(u128::MAX), u128::MAX.to_string());
}

#[test]
fn ping_reply() {
    assert_eq!(ping(0), "Heartbeat Latency: 0ms");
    assert_eq!(ping(42), "Heartbeat Latency: 42ms");
    assert_eq!(pong(0), "Pong! Current latency: 0");
    assert_eq!(pong(42), "Pong! Current latency: 42");
}

#[test]
fn ban_self_is_refused() {
    match ban(5, "me", 5, None, None) {
        BanAction::Refuse { reply } => assert_eq!(reply, "Can't ban yourself, goofy"),
        _ => panic!("expected a refusal"),
    }
}

#[test]
fn ban_other_user() {
    match ban(42, "bob", 5, Some("spam".to_string()), None) {
        BanAction::Ban { user_id, delete_message_days, reason, reply } => {
            assert_eq!(user_id, 42);
            assert_eq!(delete_message_days, 0);
            assert_eq!(reason, Some("spam".to_string()));
            assert_eq!(reply, "Banned user bob\nID:42");
        }
        _ => panic!("expected a ban"),
    }
    match ban(7, "eve", 5, None, Some(3)) {
        BanAction::Ban { delete_message_days, reason, .. } => {
            assert_eq!(delete_message_days, 3);
            assert_eq!(reason, None);
        }
        _ => panic!("expected a ban"),
    }
}

#[test]
fn kick_decisions() {
    match kick(5, 5, None) {
        KickAction::Refuse { reply } => assert_eq!(reply, "Can't kick yourself, goofy"),
        _ => panic!("expected a refusal"),
    }
    match kick(6, 5, Some("rude".to_string())) {
        KickAction::Kick { user_id, reason } => {
            assert_eq!(user_id, 6);
            assert_eq!(reason, Some("rude".to_string()));
        }
        _ => panic!("expected a kick"),
    }
}

#[test]
fn unban_reply() {
    assert_eq!(unban(123456789012345678), "Unbanned 123456789012345678");
}

#[test]
fn purge_after_rounds() {
    let mut purge = PurgeRange::new(PurgeDirection::After, 1000, Some(5));
    assert_eq!(purge.next_request(), Some((5, 1000)));
    assert_eq!(purge.batch_fetched(&vec![1001, 1002, 1003]), 3);
    for _ in 0..3 {
        purge.message_deleted();
    }
    assert_eq!(purge.left(), 2);
    assert_eq!(purge.next_request(), Some((2, 1003)));
    assert_eq!(purge.batch_fetched(&vec![1004, 1005]), 2);
    purge.message_deleted();
    purge.message_deleted();
    assert_eq!(purge.next_request(), None);
    assert_eq!(purge.reply(), "Deleted 5 messages");
}

#[test]
fn purge_before_walks_back() {
    let mut purge = PurgeRange::new(PurgeDirection::Before, 1000, None);
    assert_eq!(purge.left(), 100);
    assert_eq!(purge.next_request(), Some((100, 1000)));
    assert_eq!(purge.batch_fetched(&vec![990, 995, 999]), 3);
    assert_eq!(purge.next_request(), Some((100, 990)));
}

#[test]
fn purge_fetches_at_most_a_page() {
    let purge = PurgeRange::new(PurgeDirection::After, 1, Some(1000));
    assert_eq!(purge.next_request(), Some((100, 1)));
    let purge = PurgeRange::new(PurgeDirection::After, 1, Some(256));
    assert_eq!(purge.next_request(), Some((100, 1)));
    let purge = PurgeRange::new(PurgeDirection::After, 1, Some(42));
    assert_eq!(purge.next_request(), Some((42, 1)));
}

#[test]
fn purge_stops_on_an_empty_page() {
    let mut purge = PurgeRange::new(PurgeDirection::After, 1, Some(10));
    assert_eq!(purge.batch_fetched(&vec![2, 3]), 2);
    purge.message_deleted();
    purge.message_deleted();
    assert_eq!(purge.next_request(), Some((8, 3)));
    assert_eq!(purge.batch_fetched(&vec![]), 0);
    assert_eq!(purge.next_request(), None);
    assert_eq!(purge.reply(), "Deleted 2 messages");
}

#[test]
fn purge_deletes_no_more_than_left() {
    let mut purge = PurgeRange::new(PurgeDirection::Before, 50, Some(2));
    assert_eq!(purge.batch_fetched(&vec![47, 48, 49]), 2);
}

#[test]
fn purge_nothing() {
    let purge = PurgeRange::new(PurgeDirection::After, 1, Some(0));
    assert_eq!(purge.next_request(), None);
    assert_eq!(purge.reply(), "Deleted 0 messages");
}

#[test]
fn purge_any_counts_and_stops() {
    let mut purge = PurgeAny::new(Some(3));
    assert!(purge.wants_next());
    purge.message_deleted();
    purge.message_deleted();
    purge.message_deleted();
    assert!(!purge.wants_next());
    assert_eq!(purge.reply(), "Deleted 3 messages");

    let mut purge = PurgeAny::new(None);
    purge.message_deleted();
    purge.fetch_failed();
    assert!(!purge.wants_next());
    assert_eq!(purge.reply(), "Deleted 1 messages");
}
