use platform_tui::transaction::{
    legacy_sighash, transaction_encoding, transaction_txid, LockTransaction,
    CREDIT_PAYLOAD_VALUE,
};
use platform_tui::wallet::{OutPoint, SingleKeyWallet, Utxo, WalletError};
use rand::{Rng, SeedableRng};
use ripemd::Ripemd160;
use sha2::{Digest, Sha256};

fn utxo(txid_byte: u8, vout: u32, value: u64) -> Utxo {
    Utxo {
        outpoint: OutPoint { txid: vec![txid_byte; 32], vout },
        value,
        script_pubkey: p2pkh_for_secret([9u8; 32]),
    }
}

fn p2pkh_for_secret(secret: [u8; 32]) -> Vec<u8> {
    let sk = secp256k1::SecretKey::from_secret_bytes(secret).unwrap();
    let hash = Ripemd160::digest(Sha256::digest(sk.public_key().serialize()));
    let mut script = vec![0x76, 0xa9, 20];
    script.extend_from_slice(&hash);
    script.extend_from_slice(&[0x88, 0xac]);
    script
}

fn wallet_with(outputs: Vec<Utxo>) -> SingleKeyWallet {
    let mut w = SingleKeyWallet::from_private_key(vec![1; 32]).expect("a valid key");
    w.reload_utxos(outputs);
    w
}

#[test]
fn registration_transaction_funds_the_lock() {
    // the end-to-end shape: one output of 150,000,000 base units,
    // an amount of 100,000,000 to burn
    let mut w = wallet_with(vec![utxo(7, 0, 150_000_000)]);
    let (tx, key) = w
        .registration_transaction(Some(42), 100_000_000)
        .expect("the balance covers amount plus credit");
    // the burn output pays the amount to the one-time key's hash
    assert_eq!(tx.outputs[0].value, 100_000_000);
    let mut burn_script = vec![0x76, 0xa9, 20];
    burn_script.extend_from_slice(&key.pubkey_hash);
    burn_script.extend_from_slice(&[0x88, 0xac]);
    assert_eq!(tx.outputs[0].script_pubkey, burn_script);
    // the payload output carries the fixed credit value
    assert_eq!(tx.credit_outputs.len(), 1);
    assert_eq!(tx.credit_outputs[0].value, CREDIT_PAYLOAD_VALUE);
    assert_eq!(tx.credit_outputs[0].script_pubkey, vec![0x6a, 0x00]);
    // the change output routes the rest back to the wallet's address
    assert_eq!(tx.outputs.len(), 2);
    assert_eq!(tx.outputs[1].value, 150_000_000 - 100_000_000 - CREDIT_PAYLOAD_VALUE);
    let mut change_script = vec![0x76, 0xa9, 20];
    change_script.extend_from_slice(&w.pubkey_hash);
    change_script.extend_from_slice(&[0x88, 0xac]);
    assert_eq!(tx.outputs[1].script_pubkey, change_script);
    // the one-time key differs from the wallet's own key
    assert_ne!(key.pubkey_hash, w.pubkey_hash);
    assert_ne!(key.secret, w.private_key);
    // the reserved output was spent from the wallet
    assert_eq!(w.balance(), 0);
    assert_eq!(tx.inputs.len(), 1);
    assert_eq!(tx.inputs[0].prev_outpoint.txid, vec![7; 32]);
    assert_eq!(tx.inputs[0].prev_outpoint.vout, 0);
}

#[test]
fn registration_signature_verifies_under_the_wallet_key() {
    let prev_script = p2pkh_for_secret([9u8; 32]);
    let mut w = wallet_with(vec![utxo(7, 0, 150_000_000)]);
    let (tx, _key) = w
        .registration_transaction(Some(1), 100_000_000)
        .expect("the balance covers amount plus credit");
    // unlocking script: push of (signature || sighash type), push of key
    let script_sig = &tx.inputs[0].script_sig;
    let sig_len = script_sig[0] as usize;
    let der = &script_sig[1..sig_len];
    assert_eq!(script_sig[sig_len], 0x01);
    let key_len = script_sig[sig_len + 1] as usize;
    let pubkey = &script_sig[sig_len + 2..sig_len + 2 + key_len];
    assert_eq!(script_sig.len(), sig_len + 2 + key_len);
    assert_eq!(pubkey, w.public_key.as_slice());
    // the signature verifies over the input's digest under the wallet key
    let digest = legacy_sighash(&tx, 0, &prev_script);
    let msg = secp256k1::Message::from_digest(digest.as_slice().try_into().unwrap());
    let sig = secp256k1::ecdsa::Signature::from_der(der).expect("a DER signature");
    let pk = secp256k1::PublicKey::from_slice(pubkey).expect("a public key");
    sig.verify(msg, &pk).expect("the signature verifies");
}

#[test]
fn registration_fails_when_credit_cannot_be_covered() {
    let mut w = wallet_with(vec![utxo(7, 0, 150_000_000)]);
    // the amount alone fits, but amount plus payload credit does not
    let r = w.registration_transaction(Some(1), 145_000_000);
    assert!(matches!(r, Err(WalletError::InsufficientFunds)));
    assert_eq!(w.balance(), 150_000_000);
}

#[test]
fn registration_with_exact_balance_omits_change() {
    let mut w = wallet_with(vec![utxo(7, 0, 150_000_000)]);
    let amount = 150_000_000 - CREDIT_PAYLOAD_VALUE;
    let (tx, _key) = w.registration_transaction(Some(1), amount).expect("exact cover");
    assert_eq!(tx.outputs.len(), 1);
    assert_eq!(tx.outputs[0].value, amount);
    assert_eq!(w.balance(), 0);
}

#[test]
fn seeded_key_generation_is_deterministic() {
    let mut w1 = wallet_with(vec![utxo(7, 0, 150_000_000)]);
    let mut w2 = wallet_with(vec![utxo(7, 0, 150_000_000)]);
    let (tx1, k1) = w1.registration_transaction(Some(5), 100_000_000).unwrap();
    let (tx2, k2) = w2.registration_transaction(Some(5), 100_000_000).unwrap();
    assert_eq!(k1.secret, k2.secret);
    assert_eq!(k1.pubkey_hash, k2.pubkey_hash);
    assert_eq!(transaction_txid(&tx1), transaction_txid(&tx2));
    // the seeded draw is the standard generator's
    let drawn: [u8; 32] = rand::rngs::StdRng::seed_from_u64(5).gen();
    assert_eq!(k1.secret, drawn.to_vec());
}

#[test]
fn encoding_of_the_empty_transaction_is_exact() {
    let tx = LockTransaction { inputs: vec![], outputs: vec![], credit_outputs: vec![] };
    // version 3, type 8, no inputs, no outputs, lock time 0,
    // then the two payload bytes (version 0, no credit outputs)
    assert_eq!(
        transaction_encoding(&tx),
        vec![0x03, 0x00, 0x08, 0x00, 0x00, 0x00, 0x00, 0x00, 0x00, 0x00, 0x02, 0x00, 0x00]
    );
}

#[test]
fn txid_is_the_double_sha256_of_the_encoding() {
    let tx = LockTransaction {
        inputs: vec![],
        outputs: vec![],
        credit_outputs: vec![],
    };
    let encoding = transaction_encoding(&tx);
    let expected = Sha256::digest(Sha256::digest(&encoding));
    assert_eq!(transaction_txid(&tx), expected.to_vec());
}

#[test]
fn multi_input_registration_signs_every_input() {
    let prev_script = p2pkh_for_secret([9u8; 32]);
    let mut w = wallet_with(vec![utxo(1, 0, 60_000_000), utxo(2, 1, 80_000_000)]);
    let (tx, _key) = w
        .registration_transaction(Some(3), 100_000_000)
        .expect("both outputs cover amount plus credit");
    assert_eq!(tx.inputs.len(), 2);
    for (i, input) in tx.inputs.iter().enumerate() {
        let script_sig = &input.script_sig;
        let sig_len = script_sig[0] as usize;
        let der = &script_sig[1..sig_len];
        let digest = legacy_sighash(&tx, i, &prev_script);
        let msg = secp256k1::Message::from_digest(digest.as_slice().try_into().unwrap());
        let sig = secp256k1::ecdsa::Signature::from_der(der).expect("a DER signature");
        let pk = secp256k1::PublicKey::from_slice(&w.public_key).expect("a public key");
        sig.verify(msg, &pk).expect("the signature verifies");
    }
    // the two input digests differ, so the signatures differ too
    assert_ne!(tx.inputs[0].script_sig, tx.inputs[1].script_sig);
}
