use platform_tui::crypto::murmur3_32_hash;
use platform_tui::filter::{
    build_transaction_filter, filter_contains, FILTER_FLAGS, FILTER_HASH_FUNCS,
    FILTER_SIZE_BYTES,
};

#[test]
fn filter_never_reports_its_element_absent() {
    // zero false negatives, whatever the id and the tweak
    for seed_byte in 0u8..16 {
        let txid = vec![seed_byte; 32];
        for tweak in [0u32, 1, 0xdead_beef, u32::MAX] {
            let f = build_transaction_filter(&txid, tweak);
            assert!(filter_contains(&f, &txid));
        }
    }
}

#[test]
fn filter_has_the_fixed_parameters() {
    let txid = vec![7u8; 32];
    let f = build_transaction_filter(&txid, 99);
    assert_eq!(f.v_data.len(), FILTER_SIZE_BYTES as usize);
    assert_eq!(f.n_hash_funcs, FILTER_HASH_FUNCS);
    assert_eq!(f.n_tweak, 99);
    assert_eq!(f.n_flags, FILTER_FLAGS);
}

#[test]
fn filter_rejects_most_other_elements() {
    let txid = vec![7u8; 32];
    let f = build_transaction_filter(&txid, 5);
    let mut misses = 0usize;
    for b in 0u8..=255 {
        let other = vec![b.wrapping_add(100); 31];
        if !filter_contains(&f, &other) {
            misses += 1;
        }
    }
    // false positives are possible but rare; most other ids miss
    assert!(misses > 200);
}

#[test]
fn murmur3_matches_the_known_vectors() {
    // the classic test vectors of the 32-bit murmur3
    assert_eq!(murmur3_32_hash(0, &vec![]), 0);
    assert_eq!(murmur3_32_hash(0, &b"Hello, world!".to_vec()), 0xc036_3e43);
    assert_eq!(murmur3_32_hash(0, &b"1".to_vec()), 0x9416_ac93);
}
