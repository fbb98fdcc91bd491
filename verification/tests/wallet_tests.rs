use platform_tui::wallet::{outpoint_same, OutPoint, SingleKeyWallet, Utxo, Wallet};
use sha2::Digest;

fn utxo(txid_byte: u8, vout: u32, value: u64) -> Utxo {
    Utxo {
        outpoint: OutPoint { txid: vec![txid_byte; 32], vout },
        value,
        script_pubkey: vec![0x76, 0xa9],
    }
}

fn wallet_with(outputs: Vec<Utxo>) -> SingleKeyWallet {
    let mut w = SingleKeyWallet::from_private_key(vec![1; 32]).expect("a valid key");
    w.reload_utxos(outputs);
    w
}

#[test]
fn reserve_covers_amount_and_removes_outputs() {
    let mut w = wallet_with(vec![utxo(1, 0, 50_000_000), utxo(2, 0, 150_000_000)]);
    assert_eq!(w.balance(), 200_000_000);
    let (selected, change) = w.take_unspent_utxos_for(100_000_000).expect("enough funds");
    let sum: u64 = selected.iter().map(|u| u.value).sum();
    assert!(sum >= 100_000_000);
    assert_eq!(change, sum - 100_000_000);
    // the selected outputs left the available set
    assert_eq!(w.balance(), 200_000_000 - sum);
    assert_eq!(selected.len(), 2);
    assert_eq!(change, 100_000_000);
}

#[test]
fn reserve_takes_shortest_ascending_prefix() {
    let mut w = wallet_with(vec![utxo(9, 0, 70_000_000), utxo(3, 0, 30_000_000)]);
    let (selected, change) = w.take_unspent_utxos_for(20_000_000).expect("enough funds");
    // ascending by identifier: the output with the smaller txid comes first
    assert_eq!(selected.len(), 1);
    assert_eq!(selected[0].outpoint.txid, vec![3; 32]);
    assert_eq!(change, 10_000_000);
    assert_eq!(w.balance(), 70_000_000);
}

#[test]
fn reserve_fails_without_partial_removal() {
    let mut w = wallet_with(vec![utxo(1, 0, 50_000_000), utxo(2, 0, 60_000_000)]);
    let r = w.take_unspent_utxos_for(200_000_000);
    assert!(r.is_none());
    // the wallet's output set is unchanged
    assert_eq!(w.balance(), 110_000_000);
    assert_eq!(w.utxos.len(), 2);
}

#[test]
fn concurrent_reserves_never_overlap() {
    let mut w = wallet_with(vec![
        utxo(1, 0, 50_000_000),
        utxo(2, 0, 60_000_000),
        utxo(3, 0, 70_000_000),
    ]);
    let (first, _) = w.take_unspent_utxos_for(40_000_000).expect("enough funds");
    let (second, _) = w.take_unspent_utxos_for(60_000_000).expect("enough funds");
    for a in &first {
        for b in &second {
            assert!(!outpoint_same(&a.outpoint, &b.outpoint));
        }
    }
}

#[test]
fn reserve_zero_amount_selects_nothing() {
    let mut w = wallet_with(vec![utxo(1, 0, 10)]);
    let (selected, change) = w.take_unspent_utxos_for(0).expect("zero is covered");
    assert_eq!(selected.len(), 0);
    assert_eq!(change, 0);
    assert_eq!(w.balance(), 10);
}

#[test]
fn reload_replaces_the_output_set() {
    let mut w = wallet_with(vec![utxo(1, 0, 10)]);
    w.reload_utxos(vec![utxo(5, 1, 30), utxo(4, 0, 20)]);
    assert_eq!(w.balance(), 50);
    assert_eq!(w.utxos.len(), 2);
    // sorted ascending by identifier after the reload
    assert_eq!(w.utxos[0].outpoint.txid, vec![4; 32]);
    assert_eq!(w.utxos[1].outpoint.txid, vec![5; 32]);
}

#[test]
fn balance_formatting_rounds_to_four_places() {
    let w = wallet_with(vec![utxo(1, 0, 150_000_000)]);
    assert_eq!(w.balance_dash_formatted(), "1.5000");
    let w = wallet_with(vec![utxo(1, 0, 123_456_789)]);
    assert_eq!(w.balance_dash_formatted(), "1.2346");
    let w = wallet_with(vec![]);
    assert_eq!(w.balance_dash_formatted(), "0.0000");
    let w = wallet_with(vec![utxo(1, 0, 99_999_999)]);
    assert_eq!(w.balance_dash_formatted(), "1.0000");
}

#[test]
fn description_shows_key_address_and_balance() {
    let w = wallet_with(vec![utxo(1, 0, 150_000_000)]);
    let description = w.description();
    // cross-check the public key hex against the curve crate directly
    let sk = secp256k1::SecretKey::from_secret_bytes([1u8; 32]).unwrap();
    let pk_hex = hex::encode(sk.public_key().serialize());
    assert!(description.contains(&pk_hex));
    assert!(description.starts_with("Single Key Wallet \npublic key: "));
    assert!(description.contains(" \naddress: "));
    assert!(description.ends_with(" \nbalance: 1.5000"));
    // cross-check the base58check address against the crates directly
    let mut payload = vec![140u8];
    payload.extend_from_slice(&w.pubkey_hash);
    let check = sha2::Sha256::digest(sha2::Sha256::digest(&payload));
    payload.extend_from_slice(&check[0..4]);
    let address = bs58::encode(&payload).into_string();
    assert!(description.contains(&address));
}

#[test]
fn private_key_for_address_matches_only_own_address() {
    let w = wallet_with(vec![]);
    let own = w.pubkey_hash.clone();
    assert_eq!(w.private_key_for_address(&own), Some(&vec![1u8; 32]));
    let other = vec![0u8; 20];
    assert!(w.private_key_for_address(&other).is_none());
}

#[test]
fn wallet_enum_dispatches_to_single_key_wallet() {
    let mut w = Wallet::SingleKeyWallet(wallet_with(vec![utxo(1, 0, 70)]));
    assert_eq!(w.balance(), 70);
    let change_address = w.change_address();
    assert_eq!(change_address.len(), 20);
    let r = w.take_unspent_utxos_for(100);
    assert!(r.is_none());
}

#[test]
fn decimal_rendering_is_exact() {
    assert_eq!(platform_tui::text::decimal_string(0), "0");
    assert_eq!(platform_tui::text::decimal_string(7), "7");
    assert_eq!(platform_tui::text::decimal_string(10), "10");
    assert_eq!(platform_tui::text::decimal_string(90_210), "90210");
    assert_eq!(platform_tui::text::decimal_string(u64::MAX), "18446744073709551615");
}

#[test]
fn curve_rejected_private_keys_make_no_wallet() {
    // the all-zero scalar is rejected by the curve
    assert!(SingleKeyWallet::from_private_key(vec![0u8; 32]).is_none());
    // an ordinary scalar is accepted
    assert!(SingleKeyWallet::from_private_key(vec![2u8; 32]).is_some());
    // a value at the top of the range is at or above the group order
    assert!(SingleKeyWallet::from_private_key(vec![0xffu8; 32]).is_none());
}
