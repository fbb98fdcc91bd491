//! Locking and unlocking scripts.
//!
//! Only the three script shapes the funding protocol needs are built
//! here: the pay-to-public-key-hash locking script, the empty data-carrier
//! (OP_RETURN) script of the credit output, and the signature-plus-key
//! unlocking script that spends a pay-to-public-key-hash output.

use vstd::prelude::*;

verus! {

/// OP_DUP OP_HASH160 <20-byte hash> OP_EQUALVERIFY OP_CHECKSIG.
pub open spec fn p2pkh_script_of(hash: Seq<u8>) -> Seq<u8> {
    seq![0x76u8, 0xa9u8, 20u8] + hash + seq![0x88u8, 0xacu8]
}

/// OP_RETURN followed by a push of no bytes.
pub open spec fn op_return_script_of() -> Seq<u8> {
    seq![0x6au8, 0x00u8]
}

/// A push of `sig` with the all-outputs sighash type byte appended,
/// then a push of the public key: the canonical unlocking script of a
/// pay-to-public-key-hash output.
pub open spec fn p2pkh_unlock_script_of(sig: Seq<u8>, public_key: Seq<u8>) -> Seq<u8> {
    seq![(sig.len() + 1) as u8] + sig + seq![0x01u8] + seq![public_key.len() as u8] + public_key
}

/// Builds the pay-to-public-key-hash locking script for a 20-byte key hash.
pub fn p2pkh_script(hash: &Vec<u8>) -> (r: Vec<u8>)
    requires
        hash@.len() == 20,
    ensures
        r@ == p2pkh_script_of(hash@),
        r@.len() == 25,
{
    let mut r: Vec<u8> = Vec::new();
    r.push(0x76);
    r.push(0xa9);
    r.push(20);
    let mut i: usize = 0;
    while i < hash.len()
        invariant
            0 <= i <= hash@.len(),
            hash@.len() == 20,
            r@ == seq![0x76u8, 0xa9u8, 20u8] + hash@.take(i as int),
        decreases hash@.len() - i,
    {
        r.push(hash[i]);
        proof {
            assert(hash@.take(i + 1 as int) =~= hash@.take(i as int).push(hash@[i as int]));
            assert(r@ =~= seq![0x76u8, 0xa9u8, 20u8] + hash@.take(i + 1 as int));
        }
        i = i + 1;
    }
    r.push(0x88);
    r.push(0xac);
    proof {
        assert(hash@.take(20) =~= hash@);
        assert(r@ =~= p2pkh_script_of(hash@));
    }
    r
}

/// Builds the empty data-carrier script of the credit output.
pub fn op_return_script() -> (r: Vec<u8>)
    ensures
        r@ == op_return_script_of(),
{
    let mut r: Vec<u8> = Vec::new();
    r.push(0x6a);
    r.push(0x00);
    proof {
        assert(r@ =~= op_return_script_of());
    }
    r
}

/// Builds the unlocking script that embeds the signature (with the
/// sighash type byte appended) and the public key.
pub fn p2pkh_unlock_script(sig: &Vec<u8>, public_key: &Vec<u8>) -> (r: Vec<u8>)
    requires
        sig@.len() <= 73,
        0 < public_key@.len() <= 75,
    ensures
        r@ == p2pkh_unlock_script_of(sig@, public_key@),
{
    let mut r: Vec<u8> = Vec::new();
    r.push((sig.len() + 1) as u8);
    let mut i: usize = 0;
    while i < sig.len()
        invariant
            0 <= i <= sig@.len(),
            sig@.len() <= 73,
            r@ == seq![(sig@.len() + 1) as u8] + sig@.take(i as int),
        decreases sig@.len() - i,
    {
        r.push(sig[i]);
        proof {
            assert(sig@.take(i + 1 as int) =~= sig@.take(i as int).push(sig@[i as int]));
            assert(r@ =~= seq![(sig@.len() + 1) as u8] + sig@.take(i + 1 as int));
        }
        i = i + 1;
    }
    proof {
        assert(sig@.take(sig@.len() as int) =~= sig@);
    }
    r.push(0x01);
    r.push(public_key.len() as u8);
    let ghost head: Seq<u8> = seq![(sig@.len() + 1) as u8] + sig@ + seq![0x01u8] + seq![
        public_key@.len() as u8,
    ];
    proof {
        assert(r@ =~= head);
    }
    let mut j: usize = 0;
    while j < public_key.len()
        invariant
            0 <= j <= public_key@.len(),
            r@ == head + public_key@.take(j as int),
        decreases public_key@.len() - j,
    {
        r.push(public_key[j]);
        proof {
            assert(public_key@.take(j + 1 as int) =~= public_key@.take(j as int).push(
                public_key@[j as int],
            ));
            assert(r@ =~= head + public_key@.take(j + 1 as int));
        }
        j = j + 1;
    }
    proof {
        assert(public_key@.take(public_key@.len() as int) =~= public_key@);
        assert(r@ =~= p2pkh_unlock_script_of(sig@, public_key@));
    }
    r
}

} // verus!
