use platform_tui::protocol::RegisterIdentityError;
use platform_tui::tracker::{
    track_message, wait_for_instant_send_lock_messages, FeedMessage, InstantLock,
};

fn lock_for(txid_byte: u8) -> FeedMessage {
    FeedMessage::InstantSendLockMessages(vec![InstantLock { txid: vec![txid_byte; 32] }])
}

#[test]
fn feed_without_finality_fails_with_stream_closed() {
    let watched = vec![5u8; 32];
    let messages = vec![
        FeedMessage::RawTransactions(vec![vec![1, 2, 3]]),
        FeedMessage::MerkleBlock(vec![4, 5, 6]),
    ];
    let r = wait_for_instant_send_lock_messages(&watched, &messages);
    assert!(matches!(r, Err(RegisterIdentityError::StreamClosed)));
}

#[test]
fn mismatched_finality_is_ignored_until_the_right_one() {
    // the feed locks X first, then Y; tracking Y succeeds only on the
    // second message
    let watched = vec![5u8; 32];
    let messages = vec![lock_for(9), lock_for(5)];
    let r = wait_for_instant_send_lock_messages(&watched, &messages).expect("the second matches");
    assert_eq!(r.txid, watched);
    // with only the mismatched lock the feed closes unanswered
    let only_other = vec![lock_for(9)];
    let r = wait_for_instant_send_lock_messages(&watched, &only_other);
    assert!(matches!(r, Err(RegisterIdentityError::StreamClosed)));
}

#[test]
fn track_message_reads_one_message() {
    let watched = vec![5u8; 32];
    assert!(track_message(&watched, &FeedMessage::MerkleBlock(vec![1])).is_none());
    assert!(track_message(&watched, &lock_for(9)).is_none());
    let p = track_message(&watched, &lock_for(5)).expect("a matching lock");
    assert_eq!(p.txid, watched);
    // a finality message listing several locks matches on any of them
    let many = FeedMessage::InstantSendLockMessages(vec![
        InstantLock { txid: vec![1; 32] },
        InstantLock { txid: vec![5; 32] },
    ]);
    assert!(track_message(&watched, &many).is_some());
}

#[test]
fn empty_feed_closes_immediately() {
    let watched = vec![5u8; 32];
    let r = wait_for_instant_send_lock_messages(&watched, &vec![]);
    assert!(matches!(r, Err(RegisterIdentityError::StreamClosed)));
}
