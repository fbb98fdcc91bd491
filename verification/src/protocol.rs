//! The cross-layer registration protocol: the saga that locks funds on
//! the settlement chain, waits for finality, submits the identity
//! creation to the application chain, and activates the identity once
//! its inclusion proof verifies.
//!
//! The protocol's decisions are a state machine: `RegistrationAttempt`
//! holds the state, each network answer arrives as a
//! `RegistrationEvent`, and every step returns the next
//! `RegistrationAction` for the caller to perform.  The caller does the
//! network work — fetching the chain tip, opening the feed,
//! broadcasting, waiting — and feeds the answers back; the decisions
//! themselves are all verified here.

use vstd::prelude::*;

use crate::bytes::copy_bytes;
use crate::crypto::ecdsa_der_signature_of;
use crate::crypto::ecdsa_sign;
use crate::crypto::entropy_tweak;
use crate::crypto::secp_accepts;
use crate::crypto::seeded_key_bytes_of;
use crate::filter::{build_transaction_filter, filter_matches, BloomFilter};
use crate::tracker::{message_matches, track_message, FeedMessage, FinalityProof};
use crate::transaction::{
    registration_ok, transaction_txid, txid_of, LockTransaction, OneTimeKey,
    CREDIT_PAYLOAD_VALUE,
};
use crate::wallet::{utxo_sum, Wallet, WalletError};

verus! {

/// A failure of one registration attempt, surfaced verbatim to the
/// caller; the first failure halts the sequence.
#[derive(Debug)]
pub enum RegisterIdentityError {
    /// The wallet cannot cover the requested amount plus the payload
    /// credit.
    InsufficientFunds,
    /// Key material was rejected by the curve while signing.
    SigningError,
    /// A network round trip failed; the message is the transport's own.
    NetworkError(String),
    /// The confirmation feed ended before a finality attestation for
    /// the tracked transaction arrived.
    StreamClosed,
    /// The inclusion proof failed verification; the identity was not
    /// activated.
    ProofInvalid,
}

/// The account created by the protocol.
pub struct Identity {
    pub id: Vec<u8>,
    pub public_key: Vec<u8>,
}

/// Cryptographic evidence that the state transition was accepted and
/// produced an identity.
pub struct InclusionProof {
    pub proof_bytes: Vec<u8>,
    pub identity_id: Vec<u8>,
}

/// The application-chain request that creates the identity, funded by
/// the one-time key: it references the lock transaction and is signed
/// with the one-time key.
pub struct StateTransition {
    pub locked_transaction_id: Vec<u8>,
    pub one_time_public_key: Vec<u8>,
    pub signature: Vec<u8>,
}

/// The outcome of verifying an inclusion proof against the application
/// chain's authenticated state root; the verification itself is the
/// external verifier's work.
pub enum ProofVerification {
    Valid(Identity),
    Invalid,
}

/// Where one registration attempt stands.
#[derive(Debug, Clone, Copy, PartialEq, Eq, Structural)]
pub enum RegistrationPhase {
    /// Waiting for the chain tip that anchors the feed.
    AwaitingChainStatus,
    /// Waiting for the filtered feed to open.
    AwaitingFeedOpen,
    /// Waiting for the lock transaction's broadcast to be acknowledged.
    AwaitingBroadcast,
    /// Waiting for a finality attestation of the lock transaction.
    AwaitingFinality,
    /// Waiting for the inclusion proof of the state transition.
    AwaitingProof,
    /// Waiting for the proof verifier's verdict.
    AwaitingVerification,
    /// The identity was created and extracted.
    Completed,
    /// The attempt failed; the failure is recorded.
    Failed,
}

/// One registration attempt: the signed lock transaction, the one-time
/// key that funds the identity, the transaction id being tracked, the
/// confirmation filter, and what the protocol has seen so far.
pub struct RegistrationAttempt {
    pub phase: RegistrationPhase,
    pub transaction: LockTransaction,
    pub one_time_key: OneTimeKey,
    pub txid: Vec<u8>,
    pub filter: BloomFilter,
    pub best_block_hash: Option<Vec<u8>>,
    pub finality: Option<FinalityProof>,
    pub identity: Option<Identity>,
    pub failure: Option<RegisterIdentityError>,
}

/// An answer from a collaborator: one network round trip's result, or
/// one message of the confirmation feed.
pub enum RegistrationEvent {
    /// The chain tip: the best block hash.
    ChainStatus(Vec<u8>),
    /// The filtered feed is open.
    FeedOpened,
    /// The settlement chain acknowledged the lock transaction.
    BroadcastAcknowledged,
    /// One message of the confirmation feed.
    FeedMessage(FeedMessage),
    /// The confirmation feed ended.
    FeedClosed,
    /// The application chain answered with the inclusion proof.
    TransitionProof(InclusionProof),
    /// The proof verifier's verdict.
    ProofChecked(ProofVerification),
    /// A round trip failed, with the transport's message.
    TransportFailed(String),
}

/// What the caller must do next.
pub enum RegistrationAction {
    /// Fetch the chain tip.
    FetchChainStatus,
    /// Open the filtered feed from the given block, with the attempt's
    /// filter.
    OpenFeed(Vec<u8>),
    /// Broadcast the attempt's lock transaction to the settlement
    /// chain.
    BroadcastLockTransaction,
    /// Read the next message of the feed.
    AwaitFeedMessage,
    /// Submit the state transition to the application chain and wait
    /// for its proof.
    SubmitStateTransition(StateTransition),
    /// Hand the proof to the external verifier.
    VerifyProof(InclusionProof),
    /// The attempt has concluded; nothing is left to do.
    Conclude,
}

impl RegistrationAttempt {
    /// The attempt's internal invariant: key material and transaction
    /// id have their full lengths.
    pub open spec fn wf(self) -> bool {
        &&& self.one_time_key.secret@.len() == 32
        &&& self.txid@.len() == 32
    }
}

/// The fields that never change across a step: the transaction, the
/// one-time key, the tracked id and the filter.
pub open spec fn attempt_core_unchanged(pre: RegistrationAttempt, post: RegistrationAttempt) -> bool {
    &&& post.transaction == pre.transaction
    &&& post.one_time_key == pre.one_time_key
    &&& post.txid == pre.txid
    &&& post.filter == pre.filter
}

/// The attempt's observations so far, untouched by a step.
pub open spec fn outcome_unchanged(pre: RegistrationAttempt, post: RegistrationAttempt) -> bool {
    &&& post.best_block_hash == pre.best_block_hash
    &&& post.finality == pre.finality
    &&& post.identity == pre.identity
    &&& post.failure == pre.failure
}

/// The step aborted the attempt on an event the protocol does not
/// allow in the current phase.
pub open spec fn step_unexpected(pre: RegistrationAttempt, post: RegistrationAttempt, action: RegistrationAction) -> bool {
    &&& post.phase is Failed
    &&& post.failure matches Some(e) && e matches RegisterIdentityError::NetworkError(s)
        && s@ == "protocol violated: unexpected event"@
    &&& action is Conclude
    &&& post.best_block_hash == pre.best_block_hash
    &&& post.finality == pre.finality
    &&& post.identity == pre.identity
}

/// The full transition relation of the registration protocol: given
/// the attempt before the step and the event received, what the
/// attempt after the step and the returned action are.
pub open spec fn step_rel(
    pre: RegistrationAttempt,
    event: RegistrationEvent,
    post: RegistrationAttempt,
    action: RegistrationAction,
) -> bool {
    &&& attempt_core_unchanged(pre, post)
    &&& match event {
        RegistrationEvent::TransportFailed(m) => {
            &&& post.phase is Failed
            &&& post.failure matches Some(e) && e matches RegisterIdentityError::NetworkError(s)
                && s@ == m@
            &&& action is Conclude
            &&& post.best_block_hash == pre.best_block_hash
            &&& post.finality == pre.finality
            &&& post.identity == pre.identity
        },
        _ => match pre.phase {
            RegistrationPhase::AwaitingChainStatus => match event {
                RegistrationEvent::ChainStatus(h) => {
                    &&& post.phase is AwaitingFeedOpen
                    &&& post.best_block_hash matches Some(b) && b@ == h@
                    &&& action matches RegistrationAction::OpenFeed(fb) && fb@ == h@
                    &&& post.finality == pre.finality
                    &&& post.identity == pre.identity
                    &&& post.failure == pre.failure
                },
                _ => step_unexpected(pre, post, action),
            },
            RegistrationPhase::AwaitingFeedOpen => match event {
                RegistrationEvent::FeedOpened => {
                    &&& post.phase is AwaitingBroadcast
                    &&& action is BroadcastLockTransaction
                    &&& outcome_unchanged(pre, post)
                },
                _ => step_unexpected(pre, post, action),
            },
            RegistrationPhase::AwaitingBroadcast => match event {
                RegistrationEvent::BroadcastAcknowledged => {
                    &&& post.phase is AwaitingFinality
                    &&& action is AwaitFeedMessage
                    &&& outcome_unchanged(pre, post)
                },
                _ => step_unexpected(pre, post, action),
            },
            RegistrationPhase::AwaitingFinality => match event {
                RegistrationEvent::FeedMessage(m) => {
                    if message_matches(m, pre.txid@) {
                        if secp_accepts(pre.one_time_key.secret@) {
                            &&& post.phase is AwaitingProof
                            &&& post.finality matches Some(p) && p.txid@ == pre.txid@
                            &&& action matches RegistrationAction::SubmitStateTransition(st)
                                && st.locked_transaction_id@ == pre.txid@
                                && st.one_time_public_key@ == pre.one_time_key.public_key@
                                && st.signature@ == ecdsa_der_signature_of(
                                pre.one_time_key.secret@,
                                pre.txid@,
                            )
                            &&& post.best_block_hash == pre.best_block_hash
                            &&& post.identity == pre.identity
                            &&& post.failure == pre.failure
                        } else {
                            &&& post.phase is Failed
                            &&& post.failure matches Some(e) && e is SigningError
                            &&& action is Conclude
                            &&& post.best_block_hash == pre.best_block_hash
                            &&& post.finality == pre.finality
                            &&& post.identity == pre.identity
                        }
                    } else {
                        &&& post == pre
                        &&& action is AwaitFeedMessage
                    }
                },
                RegistrationEvent::FeedClosed => {
                    &&& post.phase is Failed
                    &&& post.failure matches Some(e) && e is StreamClosed
                    &&& action is Conclude
                    &&& post.best_block_hash == pre.best_block_hash
                    &&& post.finality == pre.finality
                    &&& post.identity == pre.identity
                },
                _ => step_unexpected(pre, post, action),
            },
            RegistrationPhase::AwaitingProof => match event {
                RegistrationEvent::TransitionProof(p) => {
                    &&& post.phase is AwaitingVerification
                    &&& action matches RegistrationAction::VerifyProof(q) && q.proof_bytes@
                        == p.proof_bytes@ && q.identity_id@ == p.identity_id@
                    &&& outcome_unchanged(pre, post)
                },
                _ => step_unexpected(pre, post, action),
            },
            RegistrationPhase::AwaitingVerification => match event {
                RegistrationEvent::ProofChecked(v) => match v {
                    ProofVerification::Valid(id) => {
                        &&& post.phase is Completed
                        &&& post.identity matches Some(s) && s.id@ == id.id@ && s.public_key@
                            == id.public_key@
                        &&& action is Conclude
                        &&& post.best_block_hash == pre.best_block_hash
                        &&& post.finality == pre.finality
                        &&& post.failure == pre.failure
                    },
                    ProofVerification::Invalid => {
                        &&& post.phase is Failed
                        &&& post.failure matches Some(e) && e is ProofInvalid
                        &&& action is Conclude
                        &&& post.best_block_hash == pre.best_block_hash
                        &&& post.finality == pre.finality
                        &&& post.identity == pre.identity
                    },
                },
                _ => step_unexpected(pre, post, action),
            },
            RegistrationPhase::Completed => {
                &&& post == pre
                &&& action is Conclude
            },
            RegistrationPhase::Failed => {
                &&& post == pre
                &&& action is Conclude
            },
        },
    }
}

impl RegistrationAttempt {
    /// Performs one decision step of the registration protocol: given
    /// the next collaborator answer, moves the attempt to its next
    /// phase and says what the caller must do, exactly as the
    /// transition relation states.  In particular, while finality is
    /// awaited, a mismatched or unrelated feed message leaves the
    /// attempt exactly as it was.
    pub fn step(&mut self, event: RegistrationEvent) -> (action: RegistrationAction)
        requires
            old(self).wf(),
        ensures
            final(self).wf(),
            step_rel(*old(self), event, *final(self), action),
    {
        let ph: RegistrationPhase = self.phase;
        match event {
            RegistrationEvent::TransportFailed(m) => {
                self.phase = RegistrationPhase::Failed;
                self.failure = Some(RegisterIdentityError::NetworkError(m));
                RegistrationAction::Conclude
            },
            RegistrationEvent::ChainStatus(h) => {
                if ph == RegistrationPhase::AwaitingChainStatus {
                    let from_block = copy_bytes(&h);
                    self.phase = RegistrationPhase::AwaitingFeedOpen;
                    self.best_block_hash = Some(h);
                    RegistrationAction::OpenFeed(from_block)
                } else if ph == RegistrationPhase::Completed || ph == RegistrationPhase::Failed {
                    RegistrationAction::Conclude
                } else {
                    self.fail_unexpected()
                }
            },
            RegistrationEvent::FeedOpened => {
                if ph == RegistrationPhase::AwaitingFeedOpen {
                    self.phase = RegistrationPhase::AwaitingBroadcast;
                    RegistrationAction::BroadcastLockTransaction
                } else if ph == RegistrationPhase::Completed || ph == RegistrationPhase::Failed {
                    RegistrationAction::Conclude
                } else {
                    self.fail_unexpected()
                }
            },
            RegistrationEvent::BroadcastAcknowledged => {
                if ph == RegistrationPhase::AwaitingBroadcast {
                    self.phase = RegistrationPhase::AwaitingFinality;
                    RegistrationAction::AwaitFeedMessage
                } else if ph == RegistrationPhase::Completed || ph == RegistrationPhase::Failed {
                    RegistrationAction::Conclude
                } else {
                    self.fail_unexpected()
                }
            },
            RegistrationEvent::FeedMessage(m) => {
                if ph == RegistrationPhase::AwaitingFinality {
                    match track_message(&self.txid, &m) {
                        Some(p) => {
                            match ecdsa_sign(&self.one_time_key.secret, &self.txid) {
                                Some(sig) => {
                                    let st = StateTransition {
                                        locked_transaction_id: copy_bytes(&self.txid),
                                        one_time_public_key: copy_bytes(
                                            &self.one_time_key.public_key,
                                        ),
                                        signature: sig,
                                    };
                                    self.phase = RegistrationPhase::AwaitingProof;
                                    self.finality = Some(p);
                                    RegistrationAction::SubmitStateTransition(st)
                                },
                                None => {
                                    self.phase = RegistrationPhase::Failed;
                                    self.failure = Some(RegisterIdentityError::SigningError);
                                    RegistrationAction::Conclude
                                },
                            }
                        },
                        None => RegistrationAction::AwaitFeedMessage,
                    }
                } else if ph == RegistrationPhase::Completed || ph == RegistrationPhase::Failed {
                    RegistrationAction::Conclude
                } else {
                    self.fail_unexpected()
                }
            },
            RegistrationEvent::FeedClosed => {
                if ph == RegistrationPhase::AwaitingFinality {
                    self.phase = RegistrationPhase::Failed;
                    self.failure = Some(RegisterIdentityError::StreamClosed);
                    RegistrationAction::Conclude
                } else if ph == RegistrationPhase::Completed || ph == RegistrationPhase::Failed {
                    RegistrationAction::Conclude
                } else {
                    self.fail_unexpected()
                }
            },
            RegistrationEvent::TransitionProof(p) => {
                if ph == RegistrationPhase::AwaitingProof {
                    self.phase = RegistrationPhase::AwaitingVerification;
                    RegistrationAction::VerifyProof(p)
                } else if ph == RegistrationPhase::Completed || ph == RegistrationPhase::Failed {
                    RegistrationAction::Conclude
                } else {
                    self.fail_unexpected()
                }
            },
            RegistrationEvent::ProofChecked(v) => {
                if ph == RegistrationPhase::AwaitingVerification {
                    match v {
                        ProofVerification::Valid(id) => {
                            self.phase = RegistrationPhase::Completed;
                            self.identity = Some(id);
                            RegistrationAction::Conclude
                        },
                        ProofVerification::Invalid => {
                            self.phase = RegistrationPhase::Failed;
                            self.failure = Some(RegisterIdentityError::ProofInvalid);
                            RegistrationAction::Conclude
                        },
                    }
                } else if ph == RegistrationPhase::Completed || ph == RegistrationPhase::Failed {
                    RegistrationAction::Conclude
                } else {
                    self.fail_unexpected()
                }
            },
        }
    }

    /// Aborts the attempt on an event the protocol does not allow in
    /// the current phase.
    fn fail_unexpected(&mut self) -> (action: RegistrationAction)
        requires
            old(self).wf(),
        ensures
            final(self).wf(),
            step_unexpected(*old(self), *final(self), action),
            attempt_core_unchanged(*old(self), *final(self)),
    {
        self.phase = RegistrationPhase::Failed;
        self.failure = Some(
            RegisterIdentityError::NetworkError(
                String::from_str("protocol violated: unexpected event"),
            ),
        );
        RegistrationAction::Conclude
    }

    /// Opens a registration attempt: builds and signs the lock
    /// transaction for `amount` from the wallet, computes its
    /// transaction id, and builds the confirmation filter over that one
    /// id.  The attempt starts by asking for the chain tip.  Fails
    /// exactly as the transaction builder does, leaving the wallet
    /// untouched.
    pub fn begin(wallet: &mut Wallet, seed: Option<u64>, amount: u64, tweak: u32) -> (r: Result<
        RegistrationAttempt,
        WalletError,
    >)
        requires
            old(wallet).wf(),
        ensures
            final(wallet).wf(),
            final(wallet).inner().same_keys(old(wallet).inner()),
            (r matches Err(e) && e == WalletError::InsufficientFunds) <==> utxo_sum(
                old(wallet).inner().utxos@,
            ) < amount + CREDIT_PAYLOAD_VALUE,
            utxo_sum(old(wallet).inner().utxos@) >= amount + CREDIT_PAYLOAD_VALUE ==> (seed
                matches Some(sv) ==> ((r matches Err(e) && e == WalletError::SigningError) <==> (
            !secp_accepts(seeded_key_bytes_of(sv)) || !secp_accepts(
                old(wallet).inner().private_key@,
            )))),
            r is Err ==> *final(wallet) == *old(wallet),
            r matches Ok(att) ==> {
                &&& att.wf()
                &&& registration_ok(
                    old(wallet).inner(),
                    final(wallet).inner(),
                    seed,
                    amount,
                    att.transaction,
                    att.one_time_key,
                )
                &&& att.txid@ == txid_of(att.transaction)
                &&& filter_matches(att.filter, att.txid@)
                &&& att.filter.v_data@.len() == crate::filter::FILTER_SIZE_BYTES
                &&& att.filter.n_tweak == tweak
                &&& att.phase is AwaitingChainStatus
                &&& att.best_block_hash is None
                &&& att.finality is None
                &&& att.identity is None
                &&& att.failure is None
            },
    {
        match wallet.registration_transaction(seed, amount) {
            Ok((transaction, one_time_key)) => {
                let txid = transaction_txid(&transaction);
                let filter = build_transaction_filter(&txid, tweak);
                Ok(
                    RegistrationAttempt {
                        phase: RegistrationPhase::AwaitingChainStatus,
                        transaction,
                        one_time_key,
                        txid,
                        filter,
                        best_block_hash: None,
                        finality: None,
                        identity: None,
                        failure: None,
                    },
                )
            },
            Err(e) => Err(e),
        }
    }
}

/// An identity reduced to its attributes.
pub ghost struct IdentityV {
    pub id: Seq<u8>,
    pub public_key: Seq<u8>,
}

/// The identity's attributes.
pub open spec fn identity_view(i: Identity) -> IdentityV {
    IdentityV { id: i.id@, public_key: i.public_key@ }
}

/// A failure reduced to its kind and message.
pub ghost enum FailureV {
    InsufficientFunds,
    SigningError,
    NetworkError(Seq<char>),
    StreamClosed,
    ProofInvalid,
}

/// The failure's kind and message.
pub open spec fn error_view(e: RegisterIdentityError) -> FailureV {
    match e {
        RegisterIdentityError::InsufficientFunds => FailureV::InsufficientFunds,
        RegisterIdentityError::SigningError => FailureV::SigningError,
        RegisterIdentityError::NetworkError(m) => FailureV::NetworkError(m@),
        RegisterIdentityError::StreamClosed => FailureV::StreamClosed,
        RegisterIdentityError::ProofInvalid => FailureV::ProofInvalid,
    }
}

/// What one attempt has decided, reduced to what its result depends
/// on: the phase, the tracked transaction id, whether the curve
/// accepts the one-time secret, and the recorded failure or identity.
pub ghost struct ProtocolOutcome {
    pub phase: RegistrationPhase,
    pub txid: Seq<u8>,
    pub secret_ok: bool,
    pub failure: Option<FailureV>,
    pub identity: Option<IdentityV>,
}

/// The attempt's decisions so far.
pub open spec fn outcome_of(att: RegistrationAttempt) -> ProtocolOutcome {
    ProtocolOutcome {
        phase: att.phase,
        txid: att.txid@,
        secret_ok: secp_accepts(att.one_time_key.secret@),
        failure: match att.failure {
            Some(e) => Some(error_view(e)),
            None => None,
        },
        identity: match att.identity {
            Some(i) => Some(identity_view(i)),
            None => None,
        },
    }
}

/// A fresh attempt's decisions: nothing observed yet.
pub open spec fn start_outcome(txid: Seq<u8>, secret_ok: bool) -> ProtocolOutcome {
    ProtocolOutcome {
        phase: RegistrationPhase::AwaitingChainStatus,
        txid,
        secret_ok,
        failure: None,
        identity: None,
    }
}

/// The outcome after an event the protocol does not allow in the
/// current phase.
pub open spec fn outcome_after_unexpected(o: ProtocolOutcome) -> ProtocolOutcome {
    ProtocolOutcome {
        phase: RegistrationPhase::Failed,
        txid: o.txid,
        secret_ok: o.secret_ok,
        failure: Some(FailureV::NetworkError("protocol violated: unexpected event"@)),
        identity: o.identity,
    }
}

/// The outcome after a failure, recording the given kind.
pub open spec fn outcome_after_failure(o: ProtocolOutcome, f: FailureV) -> ProtocolOutcome {
    ProtocolOutcome {
        phase: RegistrationPhase::Failed,
        txid: o.txid,
        secret_ok: o.secret_ok,
        failure: Some(f),
        identity: o.identity,
    }
}

/// The outcome after a plain advance to the given phase.
pub open spec fn outcome_at_phase(o: ProtocolOutcome, phase: RegistrationPhase) -> ProtocolOutcome {
    ProtocolOutcome {
        phase,
        txid: o.txid,
        secret_ok: o.secret_ok,
        failure: o.failure,
        identity: o.identity,
    }
}

/// One decision step at the outcome level: the deterministic mirror of
/// the transition relation.
pub open spec fn outcome_step(o: ProtocolOutcome, event: RegistrationEvent) -> ProtocolOutcome {
    match event {
        RegistrationEvent::TransportFailed(m) => outcome_after_failure(
            o,
            FailureV::NetworkError(m@),
        ),
        _ => match o.phase {
            RegistrationPhase::AwaitingChainStatus => match event {
                RegistrationEvent::ChainStatus(_) => outcome_at_phase(
                    o,
                    RegistrationPhase::AwaitingFeedOpen,
                ),
                _ => outcome_after_unexpected(o),
            },
            RegistrationPhase::AwaitingFeedOpen => match event {
                RegistrationEvent::FeedOpened => outcome_at_phase(
                    o,
                    RegistrationPhase::AwaitingBroadcast,
                ),
                _ => outcome_after_unexpected(o),
            },
            RegistrationPhase::AwaitingBroadcast => match event {
                RegistrationEvent::BroadcastAcknowledged => outcome_at_phase(
                    o,
                    RegistrationPhase::AwaitingFinality,
                ),
                _ => outcome_after_unexpected(o),
            },
            RegistrationPhase::AwaitingFinality => match event {
                RegistrationEvent::FeedMessage(m) => if message_matches(m, o.txid) {
                    if o.secret_ok {
                        outcome_at_phase(o, RegistrationPhase::AwaitingProof)
                    } else {
                        outcome_after_failure(o, FailureV::SigningError)
                    }
                } else {
                    o
                },
                RegistrationEvent::FeedClosed => outcome_after_failure(o, FailureV::StreamClosed),
                _ => outcome_after_unexpected(o),
            },
            RegistrationPhase::AwaitingProof => match event {
                RegistrationEvent::TransitionProof(_) => outcome_at_phase(
                    o,
                    RegistrationPhase::AwaitingVerification,
                ),
                _ => outcome_after_unexpected(o),
            },
            RegistrationPhase::AwaitingVerification => match event {
                RegistrationEvent::ProofChecked(v) => match v {
                    ProofVerification::Valid(id) => ProtocolOutcome {
                        phase: RegistrationPhase::Completed,
                        txid: o.txid,
                        secret_ok: o.secret_ok,
                        failure: o.failure,
                        identity: Some(identity_view(id)),
                    },
                    ProofVerification::Invalid => outcome_after_failure(
                        o,
                        FailureV::ProofInvalid,
                    ),
                },
                _ => outcome_after_unexpected(o),
            },
            RegistrationPhase::Completed => o,
            RegistrationPhase::Failed => o,
        },
    }
}

/// The decisions after consuming a run of answers in order.
pub open spec fn run_outcome(o: ProtocolOutcome, events: Seq<RegistrationEvent>) -> ProtocolOutcome
    decreases events.len(),
{
    if events.len() == 0 {
        o
    } else {
        run_outcome(outcome_step(o, events[0]), events.skip(1))
    }
}

/// Every protocol step refines its outcome-level mirror: the attempt's
/// decisions after the step are a function of its decisions before and
/// the event alone.
pub proof fn lemma_step_outcome(
    pre: RegistrationAttempt,
    event: RegistrationEvent,
    post: RegistrationAttempt,
    action: RegistrationAction,
)
    requires
        step_rel(pre, event, post, action),
    ensures
        outcome_of(post) == outcome_step(outcome_of(pre), event),
{
}

/// How the driver's result reflects the attempt's final decisions:
/// the attempt succeeds exactly when the decisions reach completion; a
/// completed run installs the recorded identity as the active one; a
/// failed run returns the recorded failure verbatim — the transport's
/// own message among them; and a run of answers that ends mid-flight
/// returns the ran-out message.
pub open spec fn driver_result_matches(
    run: ProtocolOutcome,
    r: Result<(), RegisterIdentityError>,
    active: Option<Identity>,
) -> bool {
    &&& (r is Ok <==> run.phase is Completed)
    &&& (run.phase is Completed ==> (active matches Some(i) && Some(identity_view(i))
        == run.identity))
    &&& (run.phase is Failed ==> (r matches Err(e) && Some(error_view(e)) == run.failure))
    &&& (!(run.phase is Completed) && !(run.phase is Failed) ==> (r matches Err(e) && (e
        matches RegisterIdentityError::NetworkError(m) && m@
        == "the answers ended before the attempt concluded"@)))
}

/// The approval that activates an identity: the verifier judged a
/// proof valid, and the identity it yielded carries exactly these
/// attributes.
pub open spec fn activation_event_for(ev: RegistrationEvent, identity: Identity) -> bool {
    ev matches RegistrationEvent::ProofChecked(v) && (v matches ProofVerification::Valid(id)
        && identity.id@ == id.id@ && identity.public_key@ == id.public_key@)
}

/// The application state the registration protocol reads and writes:
/// the loaded wallet, the one-time key of the registration in flight,
/// and the active identity.
pub struct AppState {
    pub loaded_wallet: Option<Wallet>,
    pub identity_creation_private_key: Option<Vec<u8>>,
    pub loaded_identity: Option<Identity>,
}

impl AppState {
    /// The application state's invariant: a loaded wallet is
    /// well-formed.
    pub open spec fn wf(self) -> bool {
        self.loaded_wallet matches Some(w) ==> w.wf()
    }

    /// Installs the identity that a verified inclusion proof yielded:
    /// a valid verification always replaces the active identity with
    /// the created one; a failed verification changes nothing — the
    /// previously active identity, if any, stays in place — and
    /// surfaces the proof failure.
    pub fn activate(&mut self, verification: ProofVerification) -> (r: Result<
        Identity,
        RegisterIdentityError,
    >)
        ensures
            match verification {
                ProofVerification::Valid(id) => {
                    &&& r matches Ok(out) && out.id@ == id.id@ && out.public_key@
                        == id.public_key@
                    &&& final(self).loaded_identity matches Some(s) && s.id@ == id.id@
                        && s.public_key@ == id.public_key@
                    &&& final(self).loaded_wallet == old(self).loaded_wallet
                    &&& final(self).identity_creation_private_key == old(
                        self,
                    ).identity_creation_private_key
                },
                ProofVerification::Invalid => {
                    &&& r matches Err(e) && e is ProofInvalid
                    &&& *final(self) == *old(self)
                },
            },
    {
        match verification {
            ProofVerification::Valid(id) => {
                let stored = Identity {
                    id: copy_bytes(&id.id),
                    public_key: copy_bytes(&id.public_key),
                };
                self.loaded_identity = Some(stored);
                Ok(id)
            },
            ProofVerification::Invalid => Err(RegisterIdentityError::ProofInvalid),
        }
    }

    /// Runs one whole registration attempt against a recorded run of
    /// collaborator answers: builds and signs the lock transaction,
    /// then steps the protocol through the answers in order until the
    /// attempt concludes.  With no wallet loaded nothing is attempted.
    /// The attempt fails with the insufficient-funds error exactly when
    /// the wallet cannot cover the amount plus the payload credit; a
    /// failed attempt never changes the active identity; a completed
    /// one installs the created identity — which exists only because
    /// one of the answers was the verifier's approval of exactly that
    /// identity — and keeps the one-time key at hand for it.
    pub fn register_identity(&mut self, seed: Option<u64>, amount: u64, events: Vec<
        RegistrationEvent,
    >) -> (r: Result<(), RegisterIdentityError>)
        requires
            old(self).wf(),
        ensures
            final(self).wf(),
            old(self).loaded_wallet is None ==> r is Ok && *final(self) == *old(self),
            (old(self).loaded_wallet matches Some(w) && utxo_sum(w.inner().utxos@) < amount
                + CREDIT_PAYLOAD_VALUE) <==> (r matches Err(e) && e is InsufficientFunds),
            r is Err ==> final(self).loaded_identity == old(self).loaded_identity,
            (old(self).loaded_wallet is Some && r is Ok) ==> (final(self).loaded_identity
                matches Some(s) && (exists|i: int|
                0 <= i < events@.len() && activation_event_for(#[trigger] events@[i], s))
                && final(self).identity_creation_private_key is Some),
            old(self).loaded_wallet is Some ==> (final(self).loaded_wallet matches Some(w1)
                && w1.inner().same_keys(old(self).loaded_wallet->Some_0.inner())),
            (old(self).loaded_wallet is Some && utxo_sum(
                old(self).loaded_wallet->Some_0.inner().utxos@,
            ) >= amount + CREDIT_PAYLOAD_VALUE && seed is Some && secp_accepts(
                seeded_key_bytes_of(seed->Some_0),
            ) && secp_accepts(old(self).loaded_wallet->Some_0.inner().private_key@)) ==> ((
            final(self).identity_creation_private_key matches Some(kb) && kb@
                == seeded_key_bytes_of(seed->Some_0)) && (exists|
                tx: LockTransaction,
                key: OneTimeKey,
            |
                {
                    &&& #[trigger] registration_ok(
                        old(self).loaded_wallet->Some_0.inner(),
                        final(self).loaded_wallet->Some_0.inner(),
                        seed,
                        amount,
                        tx,
                        key,
                    )
                    &&& driver_result_matches(
                        run_outcome(
                            start_outcome(txid_of(tx), secp_accepts(key.secret@)),
                            events@,
                        ),
                        r,
                        final(self).loaded_identity,
                    )
                })),
    {
        let mut wallet = match self.loaded_wallet.take() {
            Some(w) => w,
            None => {
                return Ok(());
            },
        };
        let tweak: u32 = match seed {
            Some(s) => s as u32,
            None => entropy_tweak(),
        };
        let begun = RegistrationAttempt::begin(&mut wallet, seed, amount, tweak);
        self.loaded_wallet = Some(wallet);
        let mut att = match begun {
            Ok(a) => a,
            Err(WalletError::InsufficientFunds) => {
                return Err(RegisterIdentityError::InsufficientFunds);
            },
            Err(WalletError::SigningError) => {
                return Err(RegisterIdentityError::SigningError);
            },
        };
        self.identity_creation_private_key = Some(copy_bytes(&att.one_time_key.secret));
        let ghost tx0v: LockTransaction = att.transaction;
        let ghost key0v: OneTimeKey = att.one_time_key;
        let ghost o0: ProtocolOutcome = outcome_of(att);
        let ghost all: Seq<RegistrationEvent> = events@;
        proof {
            assert(o0 == start_outcome(txid_of(tx0v), secp_accepts(key0v.secret@)));
            assert(all.skip(0) =~= all);
        }
        let mut evs = events;
        let ghost mut consumed: int = 0;
        while evs.len() > 0
            invariant
                att.wf(),
                0 <= consumed <= all.len(),
                evs@ == all.skip(consumed),
                att.phase is Completed ==> (att.identity matches Some(s) && exists|i: int|
                    0 <= i < consumed && activation_event_for(#[trigger] all[i], s)),
                att.phase is Failed ==> att.failure is Some,
                att.failure matches Some(e) ==> !(e is InsufficientFunds),
                run_outcome(outcome_of(att), all.skip(consumed)) == run_outcome(o0, all),
                self.loaded_identity == old(self).loaded_identity,
                self.identity_creation_private_key is Some,
                self.wf(),
            decreases evs@.len(),
        {
            proof {
                assert(all.skip(consumed)[0] == all[consumed]);
                assert(all.skip(consumed).remove(0) =~= all.skip(consumed + 1));
            }
            let ev = evs.remove(0);
            let ghost evg = ev;
            let ghost pre = att;
            let action = att.step(ev);
            proof {
                assert(evg == all[consumed]);
                lemma_step_outcome(pre, evg, att, action);
                assert(all.skip(consumed).skip(1) =~= all.skip(consumed + 1));
                assert(run_outcome(outcome_of(pre), all.skip(consumed)) == run_outcome(
                    outcome_of(att),
                    all.skip(consumed + 1),
                ));
                if att.phase is Completed && !(pre.phase is Completed) {
                    assert(att.identity matches Some(s) && activation_event_for(all[consumed], s));
                }
                consumed = consumed + 1;
            }
        }
        let ghost attg = att;
        proof {
            assert(consumed == all.len());
            assert(all.skip(consumed) =~= Seq::<RegistrationEvent>::empty());
            assert(run_outcome(outcome_of(attg), all.skip(consumed)) == outcome_of(attg));
            assert(outcome_of(attg) == run_outcome(o0, all));
            assert(registration_ok(
                old(self).loaded_wallet->Some_0.inner(),
                self.loaded_wallet->Some_0.inner(),
                seed,
                amount,
                tx0v,
                key0v,
            ));
        }
        match att.phase {
            RegistrationPhase::Completed => {
                match att.identity {
                    Some(id) => {
                        proof {
                            assert(outcome_of(attg).identity == Some(identity_view(id)));
                        }
                        self.loaded_identity = Some(id);
                        Ok(())
                    },
                    None => {
                        proof {
                            assert(false);
                        }
                        Err(RegisterIdentityError::StreamClosed)
                    },
                }
            },
            RegistrationPhase::Failed => {
                match att.failure {
                    Some(e) => {
                        proof {
                            assert(outcome_of(attg).failure == Some(error_view(e)));
                        }
                        Err(e)
                    },
                    None => {
                        proof {
                            assert(false);
                        }
                        Err(RegisterIdentityError::StreamClosed)
                    },
                }
            },
            _ => Err(
                RegisterIdentityError::NetworkError(
                    String::from_str("the answers ended before the attempt concluded"),
                ),
            ),
        }
    }
}

} // verus!
