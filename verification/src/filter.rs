//! The confirmation filter: a compact probabilistic descriptor of the
//! transaction of interest, handed to the chain so the feed only
//! forwards matching messages.
//!
//! The filter is the classic bloom filter of light clients: a bit array
//! and a family of murmur3 hashes derived from an index and a random
//! tweak.  Inserting an element sets its hash bits; a membership check
//! reads the same bits, so an inserted element is never reported
//! absent, while other elements may occasionally collide into a false
//! positive.  It is sized here for exactly one inserted element at a
//! one-in-ten-thousand false-positive target, which the standard sizing
//! formulas turn into two bytes of bits and eleven hash functions.

use vstd::prelude::*;

use vstd::pervasive::VecAdditionalExecFns;

use crate::crypto::{murmur3_32_hash, murmur3_of};

verus! {

/// The byte width of the bit array, from the standard sizing formula at
/// one element and the false-positive target.
pub const FILTER_SIZE_BYTES: u32 = 2;

/// The number of hash functions, from the standard sizing formula.
pub const FILTER_HASH_FUNCS: u32 = 11;

/// The update-mode flag sent along with the filter: the chain may add
/// matched outputs to the filter on its side.
pub const FILTER_FLAGS: u32 = 1;

/// The multiplier that separates the seeds of the hash family.
pub const FILTER_SEED_STEP: u32 = 0xFBA4_C795;

/// The confirmation filter as sent to the chain: the bit array and the
/// parameters of its hash family.
pub struct BloomFilter {
    pub v_data: Vec<u8>,
    pub n_hash_funcs: u32,
    pub n_tweak: u32,
    pub n_flags: u32,
}

/// The seed of hash `i` of the family: the index times the step,
/// wrapping, plus the tweak, wrapping.
pub open spec fn bloom_seed(i: u32, tweak: u32) -> u32 {
    vstd::wrapping::u32_specs::wrapping_add(
        vstd::wrapping::u32_specs::wrapping_mul(i, FILTER_SEED_STEP),
        tweak,
    )
}

/// The bit that hash `i` maps `data` to, in a bit array of `len` bytes.
pub open spec fn bloom_bit(i: u32, tweak: u32, data: Seq<u8>, len: int) -> int {
    murmur3_of(bloom_seed(i, tweak), data) as int % (8 * len)
}

/// Whether bit `b` of the bit array is set.
pub open spec fn bit_set(v: Seq<u8>, b: int) -> bool {
    v[b / 8] & (1u8 << ((b % 8) as u8)) != 0
}

/// The filter reports `data` present: every hash of the family maps it
/// to a set bit.  An inserted element satisfies this always; another
/// element may satisfy it by collision.
pub open spec fn filter_matches(f: BloomFilter, data: Seq<u8>) -> bool {
    &&& f.v_data@.len() > 0
    &&& forall|i: u32|
        i < f.n_hash_funcs ==> bit_set(
            f.v_data@,
            bloom_bit(i, f.n_tweak, data, f.v_data@.len() as int),
        )
}

/// Setting a bit by or-ing its mask makes that bit set and leaves every
/// other bit of the byte as it was.
proof fn lemma_or_bit(x: u8, k: u8, j: u8)
    requires
        k < 8,
        j < 8,
    ensures
        (x | (1u8 << k)) & (1u8 << k) != 0,
        j != k ==> ((x | (1u8 << k)) & (1u8 << j)) == (x & (1u8 << j)),
{
    assert((x | (1u8 << k)) & (1u8 << k) != 0) by (bit_vector)
        requires
            k < 8,
    ;
    assert(j != k ==> ((x | (1u8 << k)) & (1u8 << j)) == (x & (1u8 << j))) by (bit_vector)
        requires
            k < 8 && j < 8,
    ;
}

/// Sets the bit that hash `i` maps `data` to.
fn set_bloom_bit(v: &mut Vec<u8>, i: u32, tweak: u32, data: &Vec<u8>)
    requires
        old(v)@.len() > 0,
        old(v)@.len() <= 0x1000,
    ensures
        final(v)@.len() == old(v)@.len(),
        bit_set(final(v)@, bloom_bit(i, tweak, data@, final(v)@.len() as int)),
        forall|b: int|
            0 <= b < 8 * old(v)@.len() && bit_set(old(v)@, b) ==> bit_set(final(v)@, b),
{
    let h: u32 = murmur3_32_hash(i.wrapping_mul(FILTER_SEED_STEP).wrapping_add(tweak), data);
    let nbits: u32 = 8 * (v.len() as u32);
    let b: u32 = h % nbits;
    let idx: usize = (b / 8) as usize;
    let sh: u8 = (b % 8) as u8;
    let byte: u8 = v[idx];
    v.set(idx, byte | (1u8 << sh));
    proof {
        let ghost bi = bloom_bit(i, tweak, data@, v@.len() as int);
        assert(bi == b as int);
        assert(bi / 8 == idx as int && bi % 8 == sh as int);
        lemma_or_bit(byte, sh, 0);
        assert(bit_set(v@, bi));
        assert forall|bb: int|
            0 <= bb < 8 * old(v)@.len() && bit_set(old(v)@, bb) implies bit_set(v@, bb) by {
            if bb / 8 == idx as int {
                lemma_or_bit(byte, sh, (bb % 8) as u8);
            } else {
                assert(v@[bb / 8] == old(v)@[bb / 8]);
            }
        }
    }
}

/// Builds the confirmation filter for a single transaction id: a fresh
/// bit array of the fixed width with every hash bit of the id set.  The
/// returned filter reports the id present — it never has a false
/// negative for the element it was built over.
pub fn build_transaction_filter(txid: &Vec<u8>, tweak: u32) -> (f: BloomFilter)
    ensures
        f.v_data@.len() == FILTER_SIZE_BYTES,
        f.n_hash_funcs == FILTER_HASH_FUNCS,
        f.n_tweak == tweak,
        f.n_flags == FILTER_FLAGS,
        filter_matches(f, txid@),
{
    let mut v_data: Vec<u8> = Vec::new();
    let mut z: u32 = 0;
    while z < FILTER_SIZE_BYTES
        invariant
            0 <= z <= FILTER_SIZE_BYTES,
            v_data@.len() == z,
        decreases FILTER_SIZE_BYTES - z,
    {
        v_data.push(0);
        z = z + 1;
    }
    let mut i: u32 = 0;
    while i < FILTER_HASH_FUNCS
        invariant
            0 <= i <= FILTER_HASH_FUNCS,
            v_data@.len() == FILTER_SIZE_BYTES,
            forall|j: u32|
                j < i ==> bit_set(v_data@, bloom_bit(j, tweak, txid@, v_data@.len() as int)),
        decreases FILTER_HASH_FUNCS - i,
    {
        set_bloom_bit(&mut v_data, i, tweak, txid);
        proof {
            assert forall|j: u32|
                j < i + 1 implies bit_set(
                v_data@,
                bloom_bit(j, tweak, txid@, v_data@.len() as int),
            ) by {
                assert(0 <= bloom_bit(j, tweak, txid@, v_data@.len() as int) < 8 * v_data@.len());
            }
        }
        i = i + 1;
    }
    BloomFilter { v_data, n_hash_funcs: FILTER_HASH_FUNCS, n_tweak: tweak, n_flags: FILTER_FLAGS }
}

/// Checks whether the filter reports `data` present: reads the bit of
/// every hash of the family.  For the element the filter was built
/// over this is always true; for other elements it may be true by
/// collision, which only widens the feed.
pub fn filter_contains(f: &BloomFilter, data: &Vec<u8>) -> (r: bool)
    requires
        f.v_data@.len() > 0,
        f.v_data@.len() <= 0x1000,
    ensures
        r == filter_matches(*f, data@),
{
    let mut i: u32 = 0;
    let nbits: u32 = 8 * (f.v_data.len() as u32);
    while i < f.n_hash_funcs
        invariant
            0 <= i <= f.n_hash_funcs,
            f.v_data@.len() > 0,
            f.v_data@.len() <= 0x1000,
            nbits == 8 * f.v_data@.len(),
            forall|j: u32|
                j < i ==> bit_set(f.v_data@, bloom_bit(j, f.n_tweak, data@, f.v_data@.len() as int)),
        decreases f.n_hash_funcs - i,
    {
        let h: u32 = murmur3_32_hash(i.wrapping_mul(FILTER_SEED_STEP).wrapping_add(f.n_tweak), data);
        let b: u32 = h % nbits;
        let idx: usize = (b / 8) as usize;
        let sh: u8 = (b % 8) as u8;
        if f.v_data[idx] & (1u8 << sh) == 0 {
            proof {
                assert(bloom_bit(i, f.n_tweak, data@, f.v_data@.len() as int) == b as int);
                assert(!bit_set(f.v_data@, bloom_bit(i, f.n_tweak, data@, f.v_data@.len() as int)));
            }
            return false;
        }
        proof {
            assert(bloom_bit(i, f.n_tweak, data@, f.v_data@.len() as int) == b as int);
            assert(bit_set(f.v_data@, bloom_bit(i, f.n_tweak, data@, f.v_data@.len() as int)));
        }
        i = i + 1;
    }
    true
}

} // verus!
