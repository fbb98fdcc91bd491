//! The confirmation tracker: consumes the filtered transaction feed
//! until it sees a finality (instant-lock) attestation for the tracked
//! transaction id.
//!
//! Every other message kind is ignored, and so is a finality
//! attestation for a different transaction: the tracker keeps waiting.
//! A feed that ends before a matching attestation arrives fails the
//! attempt with a closed-stream error.

use vstd::prelude::*;

use crate::bytes::{bytes_eq, copy_bytes};
use crate::protocol::RegisterIdentityError;

verus! {

/// One finality (instant-lock) attestation of the feed, carrying the id
/// of the transaction it locks.
pub struct InstantLock {
    pub txid: Vec<u8>,
}

/// One message of the filtered transaction feed.
pub enum FeedMessage {
    /// Raw transactions matching the filter.
    RawTransactions(Vec<Vec<u8>>),
    /// A merkle block; the tracker does not read it.
    MerkleBlock(Vec<u8>),
    /// Finality attestations.
    InstantSendLockMessages(Vec<InstantLock>),
}

/// Evidence that the tracked transaction reached finality: the
/// attestation's transaction id, which is exactly the tracked one.
pub struct FinalityProof {
    pub txid: Vec<u8>,
}

/// Whether a feed message attests finality of the given transaction: it
/// is a finality message and one of its attestations carries the id.
pub open spec fn message_matches(m: FeedMessage, txid: Seq<u8>) -> bool {
    &&& m matches FeedMessage::InstantSendLockMessages(locks)
    &&& exists|i: int| 0 <= i < locks@.len() && (#[trigger] locks@[i]).txid@ == txid
}

/// The position of the first feed message that attests finality of the
/// given transaction; nothing when no message does.
pub open spec fn first_match(msgs: Seq<FeedMessage>, txid: Seq<u8>) -> Option<int>
    decreases msgs.len(),
{
    if msgs.len() == 0 {
        Option::None
    } else if message_matches(msgs[0], txid) {
        Option::Some(0)
    } else {
        match first_match(msgs.skip(1), txid) {
            Option::Some(i) => Option::Some(i + 1),
            Option::None => Option::None,
        }
    }
}

/// A feed that delivers only non-finality messages has no match at
/// all: closing such a feed is the only outcome, and no finality proof
/// is ever produced from it.
pub proof fn lemma_feed_without_finality_never_matches(msgs: Seq<FeedMessage>, txid: Seq<u8>)
    requires
        forall|i: int|
            0 <= i < msgs.len() ==> !((#[trigger] msgs[i]) is InstantSendLockMessages),
    ensures
        first_match(msgs, txid) is None,
{
    assert forall|i: int| 0 <= i < msgs.len() implies !message_matches(
        #[trigger] msgs[i],
        txid,
    ) by {}
    lemma_first_match_none_iff(msgs, txid);
}

/// No message matches exactly when there is no first match.
pub proof fn lemma_first_match_none_iff(msgs: Seq<FeedMessage>, txid: Seq<u8>)
    ensures
        first_match(msgs, txid) is None <==> forall|i: int|
            0 <= i < msgs.len() ==> !message_matches(#[trigger] msgs[i], txid),
    decreases msgs.len(),
{
    if msgs.len() != 0 {
        lemma_first_match_none_iff(msgs.skip(1), txid);
        if first_match(msgs, txid) is None {
            assert forall|i: int| 0 <= i < msgs.len() implies !message_matches(
                #[trigger] msgs[i],
                txid,
            ) by {
                if i > 0 {
                    assert(msgs.skip(1)[i - 1] == msgs[i]);
                }
            }
        } else {
            // a first match exists; exhibit the matching message
            if !message_matches(msgs[0], txid) {
                assert(first_match(msgs.skip(1), txid) is Some);
                let j = choose|j: int|
                    0 <= j < msgs.skip(1).len() && message_matches(msgs.skip(1)[j], txid);
                assert(msgs.skip(1)[j] == msgs[j + 1]);
            }
        }
    }
}

/// Reads one feed message while tracking `txid`: returns the finality
/// proof when the message attests the tracked transaction, and nothing
/// — keep waiting — otherwise.  A finality attestation for a different
/// transaction id is ignored like any other message.
pub fn track_message(txid: &Vec<u8>, message: &FeedMessage) -> (r: Option<FinalityProof>)
    ensures
        r is Some <==> message_matches(*message, txid@),
        r matches Some(p) ==> p.txid@ == txid@,
{
    match message {
        FeedMessage::InstantSendLockMessages(locks) => {
            let mut i: usize = 0;
            while i < locks.len()
                invariant
                    0 <= i <= locks@.len(),
                    *message == FeedMessage::InstantSendLockMessages(*locks),
                    forall|j: int| 0 <= j < i ==> (#[trigger] locks@[j]).txid@ != txid@,
                decreases locks@.len() - i,
            {
                if bytes_eq(&locks[i].txid, txid) {
                    proof {
                        let wi = i as int;
                        assert(*message == FeedMessage::InstantSendLockMessages(*locks));
                        assert((message->InstantSendLockMessages_0)@[wi].txid@ == txid@);
                        assert(message_matches(*message, txid@));
                    }
                    return Some(FinalityProof { txid: copy_bytes(txid) });
                }
                i = i + 1;
            }
            None
        },
        _ => None,
    }
}

/// Consumes the feed's messages in order until one attests finality of
/// the tracked transaction, returning its proof; fails with a
/// closed-stream error when the feed ends first.  Messages of other
/// kinds, and finality attestations of other transactions, are passed
/// over without effect.
pub fn wait_for_instant_send_lock_messages(txid: &Vec<u8>, messages: &Vec<FeedMessage>) -> (r:
    Result<FinalityProof, RegisterIdentityError>)
    ensures
        r is Ok <==> first_match(messages@, txid@) is Some,
        r matches Ok(p) ==> p.txid@ == txid@,
        r matches Err(e) ==> e == RegisterIdentityError::StreamClosed && first_match(
            messages@,
            txid@,
        ) is None,
{
    let ghost ms = messages@;
    let mut i: usize = 0;
    while i < messages.len()
        invariant
            0 <= i <= ms.len(),
            messages@ == ms,
            forall|j: int| 0 <= j < i ==> !message_matches(#[trigger] ms[j], txid@),
        decreases ms.len() - i,
    {
        match track_message(txid, &messages[i]) {
            Some(p) => {
                proof {
                    lemma_first_match_prefix(ms, txid@, i as int);
                }
                return Ok(p);
            },
            None => {},
        }
        i = i + 1;
    }
    proof {
        lemma_first_match_none_iff(ms, txid@);
    }
    Err(RegisterIdentityError::StreamClosed)
}

/// A message that matches, after a prefix of messages that do not,
/// gives the feed a first match.
proof fn lemma_first_match_prefix(msgs: Seq<FeedMessage>, txid: Seq<u8>, i: int)
    requires
        0 <= i < msgs.len(),
        message_matches(msgs[i], txid),
        forall|j: int| 0 <= j < i ==> !message_matches(#[trigger] msgs[j], txid),
    ensures
        first_match(msgs, txid) is Some,
    decreases i,
{
    if i > 0 {
        assert forall|j: int| 0 <= j < i - 1 implies !message_matches(
            #[trigger] msgs.skip(1)[j],
            txid,
        ) by {
            assert(msgs.skip(1)[j] == msgs[j + 1]);
        }
        assert(msgs.skip(1)[i - 1] == msgs[i]);
        lemma_first_match_prefix(msgs.skip(1), txid, i - 1);
    }
}

} // verus!
