use platform_tui::protocol::{
    AppState, Identity, InclusionProof, ProofVerification, RegisterIdentityError,
    RegistrationAttempt, RegistrationEvent, RegistrationPhase,
};
use platform_tui::tracker::{FeedMessage, InstantLock};
use platform_tui::transaction::transaction_txid;
use platform_tui::wallet::{OutPoint, SingleKeyWallet, Utxo, Wallet};

fn utxo(txid_byte: u8, vout: u32, value: u64) -> Utxo {
    Utxo {
        outpoint: OutPoint { txid: vec![txid_byte; 32], vout },
        value,
        script_pubkey: vec![0x76, 0xa9],
    }
}

fn wallet_with(outputs: Vec<Utxo>) -> Wallet {
    let mut w = SingleKeyWallet::from_private_key(vec![1; 32]).expect("a valid key");
    w.reload_utxos(outputs);
    Wallet::SingleKeyWallet(w)
}

fn state_with(outputs: Vec<Utxo>) -> AppState {
    AppState {
        loaded_wallet: Some(wallet_with(outputs)),
        identity_creation_private_key: None,
        loaded_identity: None,
    }
}

/// The transaction id the registration with this seed and amount will
/// track, computed on an identical wallet.
fn expected_txid(outputs: Vec<Utxo>, seed: u64, amount: u64) -> Vec<u8> {
    let mut wallet = wallet_with(outputs);
    let attempt = RegistrationAttempt::begin(&mut wallet, Some(seed), amount, seed as u32)
        .expect("the balance covers the amount");
    transaction_txid(&attempt.transaction)
}

fn lock_for_bytes(txid: Vec<u8>) -> RegistrationEvent {
    RegistrationEvent::FeedMessage(FeedMessage::InstantSendLockMessages(vec![InstantLock {
        txid,
    }]))
}

#[test]
fn full_registration_activates_the_identity() {
    let txid = expected_txid(vec![utxo(7, 0, 150_000_000)], 42, 100_000_000);
    let mut state = state_with(vec![utxo(7, 0, 150_000_000)]);
    let events = vec![
        RegistrationEvent::ChainStatus(vec![0xbb; 32]),
        RegistrationEvent::FeedOpened,
        RegistrationEvent::BroadcastAcknowledged,
        // unrelated feed traffic is passed over
        RegistrationEvent::FeedMessage(FeedMessage::RawTransactions(vec![vec![1]])),
        // a finality lock for a different transaction is ignored
        lock_for_bytes(vec![0x99; 32]),
        // the finality lock for the tracked transaction
        lock_for_bytes(txid),
        RegistrationEvent::TransitionProof(InclusionProof {
            proof_bytes: vec![1, 2, 3],
            identity_id: vec![0xaa; 32],
        }),
        RegistrationEvent::ProofChecked(ProofVerification::Valid(Identity {
            id: vec![0xaa; 32],
            public_key: vec![0xcc; 33],
        })),
    ];
    let r = state.register_identity(Some(42), 100_000_000, events);
    assert!(r.is_ok());
    let identity = state.loaded_identity.expect("an identity was activated");
    assert_eq!(identity.id, vec![0xaa; 32]);
    assert!(state.identity_creation_private_key.is_some());
    // the wallet's only output was locked
    match state.loaded_wallet {
        Some(ref w) => assert_eq!(w.balance(), 0),
        None => panic!("the wallet stays loaded"),
    }
}

#[test]
fn registration_without_wallet_does_nothing() {
    let mut state = AppState {
        loaded_wallet: None,
        identity_creation_private_key: None,
        loaded_identity: None,
    };
    let r = state.register_identity(Some(1), 100_000_000, vec![]);
    assert!(r.is_ok());
    assert!(state.loaded_identity.is_none());
    assert!(state.identity_creation_private_key.is_none());
}

#[test]
fn registration_with_insufficient_funds_fails_cleanly() {
    let mut state = state_with(vec![utxo(7, 0, 50_000_000)]);
    let r = state.register_identity(Some(1), 100_000_000, vec![]);
    assert!(matches!(r, Err(RegisterIdentityError::InsufficientFunds)));
    assert!(state.loaded_identity.is_none());
    match state.loaded_wallet {
        Some(ref w) => assert_eq!(w.balance(), 50_000_000),
        None => panic!("the wallet stays loaded"),
    }
}

#[test]
fn feed_closing_early_fails_with_stream_closed() {
    let outputs = vec![utxo(7, 0, 150_000_000)];
    let mut state = state_with(outputs);
    let events = vec![
        RegistrationEvent::ChainStatus(vec![0xbb; 32]),
        RegistrationEvent::FeedOpened,
        RegistrationEvent::BroadcastAcknowledged,
        RegistrationEvent::FeedMessage(FeedMessage::MerkleBlock(vec![1])),
        RegistrationEvent::FeedClosed,
    ];
    let r = state.register_identity(Some(42), 100_000_000, events);
    assert!(matches!(r, Err(RegisterIdentityError::StreamClosed)));
    assert!(state.loaded_identity.is_none());
}

#[test]
fn invalid_proof_never_replaces_the_active_identity() {
    let previous = Identity { id: vec![0x11; 32], public_key: vec![0x22; 33] };
    let mut state = AppState {
        loaded_wallet: None,
        identity_creation_private_key: None,
        loaded_identity: Some(previous),
    };
    let r = state.activate(ProofVerification::Invalid);
    assert!(matches!(r, Err(RegisterIdentityError::ProofInvalid)));
    // the previously active identity is untouched
    let kept = state.loaded_identity.as_ref().expect("still active");
    assert_eq!(kept.id, vec![0x11; 32]);
}

#[test]
fn valid_proof_always_replaces_the_active_identity() {
    let previous = Identity { id: vec![0x11; 32], public_key: vec![0x22; 33] };
    let mut state = AppState {
        loaded_wallet: None,
        identity_creation_private_key: None,
        loaded_identity: Some(previous),
    };
    let created = Identity { id: vec![0x33; 32], public_key: vec![0x44; 33] };
    let r = state.activate(ProofVerification::Valid(created)).expect("activation succeeds");
    assert_eq!(r.id, vec![0x33; 32]);
    let active = state.loaded_identity.as_ref().expect("an identity is active");
    assert_eq!(active.id, vec![0x33; 32]);
}

#[test]
fn transport_failure_halts_the_attempt() {
    let outputs = vec![utxo(7, 0, 150_000_000)];
    let mut state = state_with(outputs);
    let events = vec![
        RegistrationEvent::ChainStatus(vec![0xbb; 32]),
        RegistrationEvent::TransportFailed(String::from("connection reset")),
    ];
    let r = state.register_identity(Some(42), 100_000_000, events);
    match r {
        Err(RegisterIdentityError::NetworkError(m)) => assert_eq!(m, "connection reset"),
        other => panic!("expected a network error, got {:?}", other),
    }
}

#[test]
fn attempt_steps_through_its_phases() {
    let mut wallet = wallet_with(vec![utxo(7, 0, 150_000_000)]);
    let mut attempt =
        RegistrationAttempt::begin(&mut wallet, Some(9), 100_000_000, 9).expect("funds cover");
    assert_eq!(attempt.phase, RegistrationPhase::AwaitingChainStatus);
    attempt.step(RegistrationEvent::ChainStatus(vec![0xbb; 32]));
    assert_eq!(attempt.phase, RegistrationPhase::AwaitingFeedOpen);
    attempt.step(RegistrationEvent::FeedOpened);
    assert_eq!(attempt.phase, RegistrationPhase::AwaitingBroadcast);
    attempt.step(RegistrationEvent::BroadcastAcknowledged);
    assert_eq!(attempt.phase, RegistrationPhase::AwaitingFinality);
    // a mismatched lock leaves the attempt waiting
    attempt.step(lock_for_bytes(vec![0x99; 32]));
    assert_eq!(attempt.phase, RegistrationPhase::AwaitingFinality);
    let txid = attempt.txid.clone();
    attempt.step(lock_for_bytes(txid));
    assert_eq!(attempt.phase, RegistrationPhase::AwaitingProof);
}

#[test]
fn unexpected_event_aborts_the_attempt() {
    let mut wallet = wallet_with(vec![utxo(7, 0, 150_000_000)]);
    let mut attempt =
        RegistrationAttempt::begin(&mut wallet, Some(9), 100_000_000, 9).expect("funds cover");
    // a finality lock before the feed is even open violates the protocol
    attempt.step(lock_for_bytes(vec![0x99; 32]));
    assert_eq!(attempt.phase, RegistrationPhase::Failed);
    assert!(matches!(
        attempt.failure,
        Some(RegisterIdentityError::NetworkError(_))
    ));
}
