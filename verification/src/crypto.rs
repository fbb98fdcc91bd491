//! Trusted boundary to the cryptographic crates.
//!
//! Every function here wraps one operation of an outside crate.  Results
//! that no short formula can state (digests, curve points, signatures)
//! are given names by bodyless spec functions; each wrapper's contract
//! ties its result to such a name, and the verified code above reasons
//! purely in terms of the names.

use vstd::prelude::*;

use rand::rngs::StdRng;
use rand::{Rng, SeedableRng};
use ripemd::Ripemd160;
use sha2::{Digest, Sha256};

verus! {

/// The SHA-256 digest of a byte string, named; always 32 bytes.
pub uninterp spec fn sha256_of(data: Seq<u8>) -> Seq<u8>;

/// The RIPEMD-160 digest of a byte string, named; always 20 bytes.
pub uninterp spec fn ripemd160_of(data: Seq<u8>) -> Seq<u8>;

/// Whether secp256k1 accepts 32 bytes as a secret key, named: the curve
/// rejects exactly the all-zero scalar and values at or above the group
/// order, a function of the bytes alone.
pub uninterp spec fn secp_accepts(secret: Seq<u8>) -> bool;

/// The compressed secp256k1 public key derived from a secret key, named;
/// 33 bytes for every valid secret key.
pub uninterp spec fn secp_public_key_of(secret: Seq<u8>) -> Seq<u8>;

/// The DER-encoded ECDSA signature of a 32-byte digest under a secret
/// key, named.  The signing nonce is the deterministic RFC 6979 one, so
/// the signature is a function of the key and the digest alone.
pub uninterp spec fn ecdsa_der_signature_of(secret: Seq<u8>, digest: Seq<u8>) -> Seq<u8>;

/// The 32-bit murmur3 hash of a byte string under a seed, named.
pub uninterp spec fn murmur3_of(seed: u32, data: Seq<u8>) -> u32;

/// The base58 rendering of a byte string, named.
pub uninterp spec fn base58_of(data: Seq<u8>) -> Seq<char>;

/// The 32 bytes drawn from the standard generator seeded with a 64-bit
/// seed, named: the draw is a function of the seed alone.
pub uninterp spec fn seeded_key_bytes_of(seed: u64) -> Seq<u8>;

/// Relies on sha2's `Sha256::digest`: the SHA-256 digest, 32 bytes.
#[verifier::external_body]
pub fn sha256(data: &Vec<u8>) -> (r: Vec<u8>)
    ensures
        r@ == sha256_of(data@),
        r@.len() == 32,
{
    Sha256::digest(data.as_slice()).to_vec()
}

/// Relies on ripemd's `Ripemd160::digest`: the RIPEMD-160 digest, 20 bytes.
#[verifier::external_body]
pub fn ripemd160(data: &Vec<u8>) -> (r: Vec<u8>)
    ensures
        r@ == ripemd160_of(data@),
        r@.len() == 20,
{
    Ripemd160::digest(data.as_slice()).to_vec()
}

/// Relies on secp256k1's `SecretKey::from_secret_bytes` and
/// `PublicKey::serialize`: the compressed public key of an accepted
/// secret key, and nothing exactly when the curve rejects the bytes.
#[verifier::external_body]
pub fn secp_public_key(secret: &Vec<u8>) -> (r: Option<Vec<u8>>)
    requires
        secret@.len() == 32,
    ensures
        r is Some <==> secp_accepts(secret@),
        match r {
            Some(pk) => pk@ == secp_public_key_of(secret@) && pk@.len() == 33,
            None => true,
        },
{
    let bytes: [u8; 32] = secret.as_slice().try_into().ok()?;
    let key = secp256k1::SecretKey::from_secret_bytes(bytes).ok()?;
    Some(key.public_key().serialize().to_vec())
}

/// Relies on secp256k1's `SecretKey::sign_ecdsa` with the RFC 6979
/// nonce: the DER signature of the digest, at most 72 bytes; signing an
/// accepted key never fails, so nothing comes back exactly when the
/// curve rejects the bytes.
#[verifier::external_body]
pub fn ecdsa_sign(secret: &Vec<u8>, digest: &Vec<u8>) -> (r: Option<Vec<u8>>)
    requires
        secret@.len() == 32,
        digest@.len() == 32,
    ensures
        r is Some <==> secp_accepts(secret@),
        match r {
            Some(sig) => sig@ == ecdsa_der_signature_of(secret@, digest@) && sig@.len() <= 72,
            None => true,
        },
{
    let key_bytes: [u8; 32] = secret.as_slice().try_into().ok()?;
    let key = secp256k1::SecretKey::from_secret_bytes(key_bytes).ok()?;
    let digest_bytes: [u8; 32] = digest.as_slice().try_into().ok()?;
    let msg = secp256k1::Message::from_digest(digest_bytes);
    Some(key.sign_ecdsa(msg).serialize_der().as_ref().to_vec())
}

/// Relies on murmur3's `murmur3_32`; reading from an in-memory cursor
/// cannot fail.
#[verifier::external_body]
pub fn murmur3_32_hash(seed: u32, data: &Vec<u8>) -> (r: u32)
    ensures
        r == murmur3_of(seed, data@),
{
    murmur3::murmur3_32(&mut std::io::Cursor::new(data.as_slice()), seed)
        .expect("reading from a cursor cannot fail")
}

/// Relies on bs58's `encode`: the base58 rendering of the bytes.
#[verifier::external_body]
pub fn base58_encode(data: &Vec<u8>) -> (r: String)
    ensures
        r@ == base58_of(data@),
{
    bs58::encode(data.as_slice()).into_string()
}

/// The lowercase hexadecimal digit for a value below 16.
pub open spec fn hex_digit(n: u8) -> char {
    if n < 10 {
        (n + 48) as char
    } else {
        (n + 87) as char
    }
}

/// The lowercase hexadecimal rendering of a byte string: two digits for
/// each byte, high nibble first.
pub open spec fn hex_of(data: Seq<u8>) -> Seq<char>
    decreases data.len(),
{
    if data.len() == 0 {
        Seq::empty()
    } else {
        seq![hex_digit(data[0] / 16), hex_digit(data[0] % 16)] + hex_of(data.skip(1))
    }
}

/// Relies on hex's `encode`: lowercase, two digits per byte, high nibble
/// first, which is exactly `hex_of`.
#[verifier::external_body]
pub fn hex_encode(data: &Vec<u8>) -> (r: String)
    ensures
        r@ == hex_of(data@),
{
    hex::encode(data.as_slice())
}

/// Relies on rand's `StdRng::seed_from_u64` and `Rng::gen`: the 32 bytes
/// drawn are a function of the seed alone.
#[verifier::external_body]
pub fn seeded_key_bytes(seed: u64) -> (r: Vec<u8>)
    ensures
        r@ == seeded_key_bytes_of(seed),
        r@.len() == 32,
{
    let mut rng = StdRng::seed_from_u64(seed);
    let bytes: [u8; 32] = rng.gen();
    bytes.to_vec()
}

/// Relies on rand's `StdRng::from_entropy` and `Rng::gen`; nothing is
/// promised of the drawn bytes but their count.
#[verifier::external_body]
pub fn entropy_key_bytes() -> (r: Vec<u8>)
    ensures
        r@.len() == 32,
{
    let mut rng = StdRng::from_entropy();
    let bytes: [u8; 32] = rng.gen();
    bytes.to_vec()
}

/// Relies on rand's `StdRng::from_entropy` and `Rng::gen`; nothing is
/// promised of the drawn value.
#[verifier::external_body]
pub fn entropy_tweak() -> (r: u32)
{
    let mut rng = StdRng::from_entropy();
    rng.gen()
}

/// The double-SHA-256 digest used by the settlement chain for
/// transaction ids and signature digests.
pub open spec fn sha256d_of(data: Seq<u8>) -> Seq<u8> {
    sha256_of(sha256_of(data))
}

/// Computes the double-SHA-256 digest.
pub fn sha256d(data: &Vec<u8>) -> (r: Vec<u8>)
    ensures
        r@ == sha256d_of(data@),
        r@.len() == 32,
{
    let once = sha256(data);
    sha256(&once)
}

/// The HASH160 digest (RIPEMD-160 of SHA-256) used for key hashes.
pub open spec fn hash160_of(data: Seq<u8>) -> Seq<u8> {
    ripemd160_of(sha256_of(data))
}

/// Computes the HASH160 digest.
pub fn hash160(data: &Vec<u8>) -> (r: Vec<u8>)
    ensures
        r@ == hash160_of(data@),
        r@.len() == 20,
{
    let once = sha256(data);
    ripemd160(&once)
}

} // verus!
