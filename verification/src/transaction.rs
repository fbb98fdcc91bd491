//! The value-locking transaction: its model, its wire encoding, its
//! identifier and signature digests, and the builder that assembles and
//! signs it from reserved wallet outputs.
//!
//! The wire encoding is the settlement chain's transaction format: a
//! two-part version field, compact-size-prefixed input and output lists,
//! a lock time, and an appended funding payload that carries the credit
//! outputs.  The transaction id is the double-SHA-256 digest of the full
//! encoding; the per-input signature digest is the double-SHA-256 digest
//! of the encoding with every unlocking script cleared but the signed
//! input's, which carries the locking script of the output it spends,
//! followed by the sighash type.

use vstd::prelude::*;

use crate::bytes::copy_bytes;
use crate::crypto::{
    ecdsa_der_signature_of, ecdsa_sign, entropy_key_bytes, hash160, hash160_of, secp_accepts,
    secp_public_key, secp_public_key_of, seeded_key_bytes, seeded_key_bytes_of, sha256d,
    sha256d_of,
};
use crate::script::{
    op_return_script, op_return_script_of, p2pkh_script, p2pkh_script_of, p2pkh_unlock_script,
    p2pkh_unlock_script_of,
};
use crate::wallet::{
    outpoint_eq, reserve_len, utxo_sum, utxos_wf, OutPoint, SingleKeyWallet, Utxo, Wallet,
    WalletError,
};

verus! {

/// The version of the lock transaction on the settlement chain.
pub const TRANSACTION_VERSION: u16 = 3;

/// The special-transaction type of the funding lock.
pub const ASSET_LOCK_TYPE: u16 = 8;

/// The version byte of the funding payload.
pub const PAYLOAD_VERSION: u8 = 0;

/// The sequence number of every input of the lock transaction.
pub const INPUT_SEQUENCE: u32 = 0xffff_ffff;

/// The sighash type the inputs are signed under: all outputs committed.
pub const SIGHASH_ALL: u32 = 1;

/// A transaction output: a value and the script that locks it.
pub struct TxOut {
    pub value: u64,
    pub script_pubkey: Vec<u8>,
}

/// A transaction input: the output it spends and the script that
/// unlocks it.
pub struct TxIn {
    pub prev_outpoint: OutPoint,
    pub script_sig: Vec<u8>,
}

/// The funding lock transaction.  Its version, type, lock time, input
/// sequence numbers and payload version are the fixed protocol
/// constants above.
pub struct LockTransaction {
    pub inputs: Vec<TxIn>,
    pub outputs: Vec<TxOut>,
    pub credit_outputs: Vec<TxOut>,
}

/// The two bytes of a 16-bit value, least significant first.
pub open spec fn le16_of(v: u16) -> Seq<u8> {
    seq![(v & 0xff) as u8, ((v >> 8) & 0xff) as u8]
}

/// The four bytes of a 32-bit value, least significant first.
pub open spec fn le32_of(v: u32) -> Seq<u8> {
    seq![
        (v & 0xff) as u8,
        ((v >> 8) & 0xff) as u8,
        ((v >> 16) & 0xff) as u8,
        ((v >> 24) & 0xff) as u8,
    ]
}

/// The eight bytes of a 64-bit value, least significant first.
pub open spec fn le64_of(v: u64) -> Seq<u8> {
    seq![
        (v & 0xff) as u8,
        ((v >> 8) & 0xff) as u8,
        ((v >> 16) & 0xff) as u8,
        ((v >> 24) & 0xff) as u8,
        ((v >> 32) & 0xff) as u8,
        ((v >> 40) & 0xff) as u8,
        ((v >> 48) & 0xff) as u8,
        ((v >> 56) & 0xff) as u8,
    ]
}

/// The compact-size encoding of a count.
pub open spec fn varint_of(n: u64) -> Seq<u8> {
    if n < 0xfd {
        seq![n as u8]
    } else if n <= 0xffff {
        seq![0xfdu8] + le16_of(n as u16)
    } else if n <= 0xffff_ffff {
        seq![0xfeu8] + le32_of(n as u32)
    } else {
        seq![0xffu8] + le64_of(n)
    }
}

/// The encoding of one output.
pub open spec fn txout_bytes(o: TxOut) -> Seq<u8> {
    le64_of(o.value) + varint_of(o.script_pubkey@.len() as u64) + o.script_pubkey@
}

/// The encoding of one input carrying the given unlocking script.
pub open spec fn txin_bytes_with_script(i: TxIn, script: Seq<u8>) -> Seq<u8> {
    i.prev_outpoint.txid@ + le32_of(i.prev_outpoint.vout) + varint_of(script.len() as u64)
        + script + le32_of(INPUT_SEQUENCE)
}

/// The encoding of one input with its own unlocking script.
pub open spec fn txin_bytes(i: TxIn) -> Seq<u8> {
    txin_bytes_with_script(i, i.script_sig@)
}

/// The concatenated encodings of a run of inputs.
pub open spec fn txins_bytes(s: Seq<TxIn>) -> Seq<u8>
    decreases s.len(),
{
    if s.len() == 0 {
        Seq::empty()
    } else {
        txin_bytes(s[0]) + txins_bytes(s.skip(1))
    }
}

/// The concatenated encodings of a run of outputs.
pub open spec fn txouts_bytes(s: Seq<TxOut>) -> Seq<u8>
    decreases s.len(),
{
    if s.len() == 0 {
        Seq::empty()
    } else {
        txout_bytes(s[0]) + txouts_bytes(s.skip(1))
    }
}

/// The concatenated input encodings under the signing rule: every
/// unlocking script is cleared but the one at `index`, which carries
/// the locking script of the output it spends.
pub open spec fn sighash_txins_bytes(s: Seq<TxIn>, index: int, subscript: Seq<u8>) -> Seq<u8>
    decreases s.len(),
{
    if s.len() == 0 {
        Seq::empty()
    } else {
        txin_bytes_with_script(
            s[0],
            if index == 0 {
                subscript
            } else {
                Seq::empty()
            },
        ) + sighash_txins_bytes(s.skip(1), index - 1, subscript)
    }
}

/// The encoding of the funding payload: its version and the credit
/// outputs.
pub open spec fn payload_bytes(credit: Seq<TxOut>) -> Seq<u8> {
    seq![PAYLOAD_VERSION] + varint_of(credit.len() as u64) + txouts_bytes(credit)
}

/// The full wire encoding of the lock transaction.
pub open spec fn transaction_bytes(tx: LockTransaction) -> Seq<u8> {
    le16_of(TRANSACTION_VERSION) + le16_of(ASSET_LOCK_TYPE) + varint_of(tx.inputs@.len() as u64)
        + txins_bytes(tx.inputs@) + varint_of(tx.outputs@.len() as u64) + txouts_bytes(tx.outputs@)
        + le32_of(0u32) + varint_of(payload_bytes(tx.credit_outputs@).len() as u64)
        + payload_bytes(tx.credit_outputs@)
}

/// The transaction id: the double-SHA-256 digest of the wire encoding.
pub open spec fn txid_of(tx: LockTransaction) -> Seq<u8> {
    sha256d_of(transaction_bytes(tx))
}

/// The bytes the signature of input `index` signs: the encoding under
/// the signing rule followed by the sighash type.
pub open spec fn sighash_base_bytes(tx: LockTransaction, index: int, subscript: Seq<u8>) -> Seq<
    u8,
> {
    le16_of(TRANSACTION_VERSION) + le16_of(ASSET_LOCK_TYPE) + varint_of(tx.inputs@.len() as u64)
        + sighash_txins_bytes(tx.inputs@, index, subscript) + varint_of(tx.outputs@.len() as u64)
        + txouts_bytes(tx.outputs@) + le32_of(0u32) + varint_of(
        payload_bytes(tx.credit_outputs@).len() as u64,
    ) + payload_bytes(tx.credit_outputs@) + le32_of(SIGHASH_ALL)
}

/// The digest the signature of input `index` signs.
pub open spec fn sighash_of(tx: LockTransaction, index: int, subscript: Seq<u8>) -> Seq<u8> {
    sha256d_of(sighash_base_bytes(tx, index, subscript))
}

/// One more input appends its encoding.
pub proof fn lemma_txins_take_step(s: Seq<TxIn>, i: int)
    requires
        0 <= i < s.len(),
    ensures
        txins_bytes(s.take(i + 1)) == txins_bytes(s.take(i)) + txin_bytes(s[i]),
    decreases i,
{
    if i == 0 {
        let t1 = s.take(1);
        assert(t1.len() == 1 && t1[0] == s[0]);
        assert(t1.skip(1) =~= Seq::<TxIn>::empty());
        assert(txins_bytes(t1.skip(1)) == Seq::<u8>::empty());
        assert(txins_bytes(t1) == txin_bytes(s[0]) + txins_bytes(t1.skip(1)));
        assert(s.take(0) =~= Seq::<TxIn>::empty());
        assert(txins_bytes(s.take(0)) == Seq::<u8>::empty());
        assert(txins_bytes(s.take(1)) =~= txins_bytes(s.take(0)) + txin_bytes(s[0]));
    } else {
        let t = s.skip(1);
        lemma_txins_take_step(t, i - 1);
        assert(s.take(i + 1)[0] == s[0]);
        assert(s.take(i)[0] == s[0]);
        assert(s.take(i + 1).skip(1) =~= t.take(i));
        assert(s.take(i).skip(1) =~= t.take(i - 1));
        assert(t[i - 1] == s[i]);
        assert(txins_bytes(s.take(i + 1)) =~= txins_bytes(s.take(i)) + txin_bytes(s[i]));
    }
}

/// One more output appends its encoding.
pub proof fn lemma_txouts_take_step(s: Seq<TxOut>, i: int)
    requires
        0 <= i < s.len(),
    ensures
        txouts_bytes(s.take(i + 1)) == txouts_bytes(s.take(i)) + txout_bytes(s[i]),
    decreases i,
{
    if i == 0 {
        let t1 = s.take(1);
        assert(t1.len() == 1 && t1[0] == s[0]);
        assert(t1.skip(1) =~= Seq::<TxOut>::empty());
        assert(txouts_bytes(t1.skip(1)) == Seq::<u8>::empty());
        assert(txouts_bytes(t1) == txout_bytes(s[0]) + txouts_bytes(t1.skip(1)));
        assert(s.take(0) =~= Seq::<TxOut>::empty());
        assert(txouts_bytes(s.take(0)) == Seq::<u8>::empty());
        assert(txouts_bytes(s.take(1)) =~= txouts_bytes(s.take(0)) + txout_bytes(s[0]));
    } else {
        let t = s.skip(1);
        lemma_txouts_take_step(t, i - 1);
        assert(s.take(i + 1)[0] == s[0]);
        assert(s.take(i)[0] == s[0]);
        assert(s.take(i + 1).skip(1) =~= t.take(i));
        assert(s.take(i).skip(1) =~= t.take(i - 1));
        assert(t[i - 1] == s[i]);
        assert(txouts_bytes(s.take(i + 1)) =~= txouts_bytes(s.take(i)) + txout_bytes(s[i]));
    }
}

/// One more input appends its encoding under the signing rule.
pub proof fn lemma_sighash_txins_take_step(s: Seq<TxIn>, i: int, index: int, subscript: Seq<u8>)
    requires
        0 <= i < s.len(),
    ensures
        sighash_txins_bytes(s.take(i + 1), index, subscript) == sighash_txins_bytes(
            s.take(i),
            index,
            subscript,
        ) + txin_bytes_with_script(
            s[i],
            if index == i {
                subscript
            } else {
                Seq::empty()
            },
        ),
    decreases i,
{
    if i == 0 {
        let t1 = s.take(1);
        assert(t1.len() == 1 && t1[0] == s[0]);
        assert(t1.skip(1) =~= Seq::<TxIn>::empty());
        assert(sighash_txins_bytes(t1.skip(1), index - 1, subscript) == Seq::<u8>::empty());
        assert(sighash_txins_bytes(t1, index, subscript) == txin_bytes_with_script(
            s[0],
            if index == 0 {
                subscript
            } else {
                Seq::empty()
            },
        ) + sighash_txins_bytes(t1.skip(1), index - 1, subscript));
        assert(s.take(0) =~= Seq::<TxIn>::empty());
        assert(sighash_txins_bytes(s.take(0), index, subscript) == Seq::<u8>::empty());
        assert(sighash_txins_bytes(s.take(1), index, subscript) =~= sighash_txins_bytes(
            s.take(0),
            index,
            subscript,
        ) + txin_bytes_with_script(
            s[0],
            if index == 0 {
                subscript
            } else {
                Seq::empty()
            },
        ));
    } else {
        let t = s.skip(1);
        lemma_sighash_txins_take_step(t, i - 1, index - 1, subscript);
        assert(s.take(i + 1)[0] == s[0]);
        assert(s.take(i)[0] == s[0]);
        assert(s.take(i + 1).skip(1) =~= t.take(i));
        assert(s.take(i).skip(1) =~= t.take(i - 1));
        assert(t[i - 1] == s[i]);
        assert(sighash_txins_bytes(s.take(i + 1), index, subscript) =~= sighash_txins_bytes(
            s.take(i),
            index,
            subscript,
        ) + txin_bytes_with_script(
            s[i],
            if index == i {
                subscript
            } else {
                Seq::empty()
            },
        ));
    }
}

/// The encoding under the signing rule reads nothing of an input but
/// the output it spends, so inputs that spend the same outputs encode
/// the same.
pub proof fn lemma_sighash_txins_same_outpoints(
    a: Seq<TxIn>,
    b: Seq<TxIn>,
    index: int,
    subscript: Seq<u8>,
)
    requires
        a.len() == b.len(),
        forall|i: int|
            0 <= i < a.len() ==> (#[trigger] a[i]).prev_outpoint.txid@
                == (#[trigger] b[i]).prev_outpoint.txid@ && a[i].prev_outpoint.vout
                == b[i].prev_outpoint.vout,
    ensures
        sighash_txins_bytes(a, index, subscript) == sighash_txins_bytes(b, index, subscript),
    decreases a.len(),
{
    if a.len() != 0 {
        assert(a[0].prev_outpoint.txid@ == b[0].prev_outpoint.txid@);
        assert forall|i: int| 0 <= i < a.skip(1).len() implies (
        #[trigger] a.skip(1)[i]).prev_outpoint.txid@ == (
        #[trigger] b.skip(1)[i]).prev_outpoint.txid@ && a.skip(1)[i].prev_outpoint.vout == b.skip(
            1,
        )[i].prev_outpoint.vout by {
            assert(a.skip(1)[i] == a[i + 1]);
            assert(b.skip(1)[i] == b[i + 1]);
        }
        lemma_sighash_txins_same_outpoints(a.skip(1), b.skip(1), index - 1, subscript);
    }
}

/// Appends the little-endian bytes of a 16-bit value.
fn append_le16(out: &mut Vec<u8>, v: u16)
    ensures
        final(out)@ == old(out)@ + le16_of(v),
{
    out.push((v & 0xff) as u8);
    out.push(((v >> 8) & 0xff) as u8);
    proof {
        assert(out@ =~= old(out)@ + le16_of(v));
    }
}

/// Appends the little-endian bytes of a 32-bit value.
fn append_le32(out: &mut Vec<u8>, v: u32)
    ensures
        final(out)@ == old(out)@ + le32_of(v),
{
    out.push((v & 0xff) as u8);
    out.push(((v >> 8) & 0xff) as u8);
    out.push(((v >> 16) & 0xff) as u8);
    out.push(((v >> 24) & 0xff) as u8);
    proof {
        assert(out@ =~= old(out)@ + le32_of(v));
    }
}

/// Appends the little-endian bytes of a 64-bit value.
fn append_le64(out: &mut Vec<u8>, v: u64)
    ensures
        final(out)@ == old(out)@ + le64_of(v),
{
    out.push((v & 0xff) as u8);
    out.push(((v >> 8) & 0xff) as u8);
    out.push(((v >> 16) & 0xff) as u8);
    out.push(((v >> 24) & 0xff) as u8);
    out.push(((v >> 32) & 0xff) as u8);
    out.push(((v >> 40) & 0xff) as u8);
    out.push(((v >> 48) & 0xff) as u8);
    out.push(((v >> 56) & 0xff) as u8);
    proof {
        assert(out@ =~= old(out)@ + le64_of(v));
    }
}

/// Appends the compact-size encoding of a count.
fn append_varint(out: &mut Vec<u8>, n: u64)
    ensures
        final(out)@ == old(out)@ + varint_of(n),
{
    if n < 0xfd {
        out.push(n as u8);
        proof {
            assert(out@ =~= old(out)@ + varint_of(n));
        }
    } else if n <= 0xffff {
        out.push(0xfd);
        append_le16(out, n as u16);
        proof {
            assert(out@ =~= old(out)@ + varint_of(n));
        }
    } else if n <= 0xffff_ffff {
        out.push(0xfe);
        append_le32(out, n as u32);
        proof {
            assert(out@ =~= old(out)@ + varint_of(n));
        }
    } else {
        out.push(0xff);
        append_le64(out, n);
        proof {
            assert(out@ =~= old(out)@ + varint_of(n));
        }
    }
}

/// Appends a whole byte string.
fn append_bytes(out: &mut Vec<u8>, data: &Vec<u8>)
    ensures
        final(out)@ == old(out)@ + data@,
{
    let mut i: usize = 0;
    while i < data.len()
        invariant
            0 <= i <= data@.len(),
            out@ == old(out)@ + data@.take(i as int),
        decreases data@.len() - i,
    {
        out.push(data[i]);
        proof {
            assert(data@.take(i + 1 as int) =~= data@.take(i as int).push(data@[i as int]));
            assert(out@ =~= old(out)@ + data@.take(i + 1 as int));
        }
        i = i + 1;
    }
    proof {
        assert(data@.take(data@.len() as int) =~= data@);
    }
}

/// Appends the encoding of one output.
fn append_txout(out: &mut Vec<u8>, o: &TxOut)
    ensures
        final(out)@ == old(out)@ + txout_bytes(*o),
{
    append_le64(out, o.value);
    append_varint(out, o.script_pubkey.len() as u64);
    append_bytes(out, &o.script_pubkey);
    proof {
        assert(out@ =~= old(out)@ + txout_bytes(*o));
    }
}

/// Appends the encoding of one input carrying the given unlocking
/// script.
fn append_txin_with_script(out: &mut Vec<u8>, i: &TxIn, script: &Vec<u8>)
    ensures
        final(out)@ == old(out)@ + txin_bytes_with_script(*i, script@),
{
    append_bytes(out, &i.prev_outpoint.txid);
    append_le32(out, i.prev_outpoint.vout);
    append_varint(out, script.len() as u64);
    append_bytes(out, script);
    append_le32(out, INPUT_SEQUENCE);
    proof {
        assert(out@ =~= old(out)@ + txin_bytes_with_script(*i, script@));
    }
}

/// Appends the encodings of all outputs of a run.
fn append_txouts(out: &mut Vec<u8>, s: &Vec<TxOut>)
    ensures
        final(out)@ == old(out)@ + txouts_bytes(s@),
{
    proof {
        assert(s@.take(0) =~= Seq::<TxOut>::empty());
    }
    let mut i: usize = 0;
    while i < s.len()
        invariant
            0 <= i <= s@.len(),
            out@ == old(out)@ + txouts_bytes(s@.take(i as int)),
        decreases s@.len() - i,
    {
        append_txout(out, &s[i]);
        proof {
            lemma_txouts_take_step(s@, i as int);
        }
        i = i + 1;
    }
    proof {
        assert(s@.take(s@.len() as int) =~= s@);
    }
}

/// Appends the encoding of the funding payload.
fn append_payload(out: &mut Vec<u8>, credit: &Vec<TxOut>)
    ensures
        final(out)@ == old(out)@ + payload_bytes(credit@),
{
    out.push(PAYLOAD_VERSION);
    append_varint(out, credit.len() as u64);
    append_txouts(out, credit);
    proof {
        assert(out@ =~= old(out)@ + payload_bytes(credit@));
    }
}

/// The full wire encoding of the lock transaction, as broadcast to the
/// settlement chain.
pub fn transaction_encoding(tx: &LockTransaction) -> (r: Vec<u8>)
    ensures
        r@ == transaction_bytes(*tx),
{
    let mut out: Vec<u8> = Vec::new();
    proof {
        assert(out@ =~= Seq::<u8>::empty());
    }
    append_le16(&mut out, TRANSACTION_VERSION);
    append_le16(&mut out, ASSET_LOCK_TYPE);
    append_varint(&mut out, tx.inputs.len() as u64);
    let ghost head: Seq<u8> = out@;
    proof {
        assert(tx.inputs@.take(0) =~= Seq::<TxIn>::empty());
    }
    let mut i: usize = 0;
    while i < tx.inputs.len()
        invariant
            0 <= i <= tx.inputs@.len(),
            out@ == head + txins_bytes(tx.inputs@.take(i as int)),
        decreases tx.inputs@.len() - i,
    {
        append_txin_with_script(&mut out, &tx.inputs[i], &tx.inputs[i].script_sig);
        proof {
            lemma_txins_take_step(tx.inputs@, i as int);
        }
        i = i + 1;
    }
    proof {
        assert(tx.inputs@.take(tx.inputs@.len() as int) =~= tx.inputs@);
    }
    append_varint(&mut out, tx.outputs.len() as u64);
    append_txouts(&mut out, &tx.outputs);
    append_le32(&mut out, 0);
    let mut payload: Vec<u8> = Vec::new();
    proof {
        assert(payload@ =~= Seq::<u8>::empty());
    }
    append_payload(&mut payload, &tx.credit_outputs);
    proof {
        assert(payload@ =~= payload_bytes(tx.credit_outputs@));
    }
    append_varint(&mut out, payload.len() as u64);
    append_bytes(&mut out, &payload);
    proof {
        assert(out@ =~= transaction_bytes(*tx));
    }
    out
}

/// The transaction id of the lock transaction.
pub fn transaction_txid(tx: &LockTransaction) -> (r: Vec<u8>)
    ensures
        r@ == txid_of(*tx),
        r@.len() == 32,
{
    let encoding = transaction_encoding(tx);
    sha256d(&encoding)
}

/// The digest that the signature of input `index` signs, computed over
/// the encoding under the signing rule and the sighash type.
pub fn legacy_sighash(tx: &LockTransaction, index: usize, subscript: &Vec<u8>) -> (r: Vec<u8>)
    requires
        index < tx.inputs@.len(),
    ensures
        r@ == sighash_of(*tx, index as int, subscript@),
        r@.len() == 32,
{
    let mut out: Vec<u8> = Vec::new();
    proof {
        assert(out@ =~= Seq::<u8>::empty());
    }
    append_le16(&mut out, TRANSACTION_VERSION);
    append_le16(&mut out, ASSET_LOCK_TYPE);
    append_varint(&mut out, tx.inputs.len() as u64);
    let ghost head: Seq<u8> = out@;
    proof {
        assert(tx.inputs@.take(0) =~= Seq::<TxIn>::empty());
    }
    let empty_script: Vec<u8> = Vec::new();
    proof {
        assert(empty_script@ =~= Seq::<u8>::empty());
    }
    let mut i: usize = 0;
    while i < tx.inputs.len()
        invariant
            0 <= i <= tx.inputs@.len(),
            index < tx.inputs@.len(),
            empty_script@ == Seq::<u8>::empty(),
            out@ == head + sighash_txins_bytes(
                tx.inputs@.take(i as int),
                index as int,
                subscript@,
            ),
        decreases tx.inputs@.len() - i,
    {
        if i == index {
            append_txin_with_script(&mut out, &tx.inputs[i], subscript);
        } else {
            append_txin_with_script(&mut out, &tx.inputs[i], &empty_script);
        }
        proof {
            lemma_sighash_txins_take_step(tx.inputs@, i as int, index as int, subscript@);
        }
        i = i + 1;
    }
    proof {
        assert(tx.inputs@.take(tx.inputs@.len() as int) =~= tx.inputs@);
    }
    append_varint(&mut out, tx.outputs.len() as u64);
    append_txouts(&mut out, &tx.outputs);
    append_le32(&mut out, 0);
    let mut payload: Vec<u8> = Vec::new();
    proof {
        assert(payload@ =~= Seq::<u8>::empty());
    }
    append_payload(&mut payload, &tx.credit_outputs);
    append_varint(&mut out, payload.len() as u64);
    append_bytes(&mut out, &payload);
    append_le32(&mut out, SIGHASH_ALL);
    proof {
        assert(out@ =~= sighash_base_bytes(*tx, index as int, subscript@));
    }
    sha256d(&out)
}

/// The fixed credit value carried by the payload output of every lock
/// transaction: a protocol-wide tunable constant.  Whether this value
/// should scale with the requested amount or stay fixed — and at what
/// figure the application chain's credit exchange rate would put it —
/// is an open question of the protocol; it is fixed here, small enough
/// that a wallet covering the burn amount and this credit can still
/// route its change home.
pub const CREDIT_PAYLOAD_VALUE: u64 = 10_000_000;

/// The key pair generated fresh for one registration attempt.  The burn
/// output pays to its key hash; the secret is handed on to the state
/// transition and never enters the wallet's own key set.
pub struct OneTimeKey {
    pub secret: Vec<u8>,
    pub public_key: Vec<u8>,
    pub pubkey_hash: Vec<u8>,
}

/// One signed input of a registration transaction: it spends the output
/// `u` reserved from the wallet `w`, and its unlocking script embeds
/// the wallet key's signature of the digest of input `i` of `tx`.
pub open spec fn signed_input_ok(
    input: TxIn,
    u: Utxo,
    tx: LockTransaction,
    i: int,
    w: SingleKeyWallet,
) -> bool {
    &&& input.prev_outpoint.txid@ == u.outpoint.txid@
    &&& input.prev_outpoint.vout == u.outpoint.vout
    &&& input.script_sig@ == p2pkh_unlock_script_of(
        ecdsa_der_signature_of(w.private_key@, sighash_of(tx, i, u.script_pubkey@)),
        w.public_key@,
    )
}

/// What a successfully built registration transaction looks like, given
/// the wallet before (`w0`) and after (`w1`) the build: the shortest
/// ascending prefix of the wallet's outputs covering the burn amount
/// plus the payload credit is reserved and removed; the burn output
/// pays `amount` to the fresh key's hash; the payload carries the fixed
/// credit; change, when positive, returns to the wallet's own address;
/// and every input carries a signature of its own digest under the
/// wallet's key.
pub open spec fn registration_ok(
    w0: SingleKeyWallet,
    w1: SingleKeyWallet,
    seed: Option<u64>,
    amount: u64,
    tx: LockTransaction,
    key: OneTimeKey,
) -> bool {
    let total = amount + CREDIT_PAYLOAD_VALUE;
    let k = tx.inputs@.len() as int;
    let change = utxo_sum(w0.utxos@.take(k)) - total;
    &&& reserve_len(w0.utxos@, total as int) == Option::Some(k)
    &&& w1.utxos@ == w0.utxos@.skip(k)
    &&& key.secret@.len() == 32
    &&& (seed matches Some(s) ==> key.secret@ == seeded_key_bytes_of(s))
    &&& key.public_key@ == secp_public_key_of(key.secret@)
    &&& key.pubkey_hash@ == hash160_of(key.public_key@)
    &&& tx.credit_outputs@.len() == 1
    &&& tx.credit_outputs@[0].value == CREDIT_PAYLOAD_VALUE
    &&& tx.credit_outputs@[0].script_pubkey@ == op_return_script_of()
    &&& tx.outputs@.len() == (if change > 0 {
        2int
    } else {
        1int
    })
    &&& tx.outputs@[0].value == amount
    &&& tx.outputs@[0].script_pubkey@ == p2pkh_script_of(key.pubkey_hash@)
    &&& (change > 0 ==> tx.outputs@[1].value == change && tx.outputs@[1].script_pubkey@
        == p2pkh_script_of(w0.pubkey_hash@))
    &&& forall|i: int|
        0 <= i < k ==> signed_input_ok(#[trigger] tx.inputs@[i], w0.utxos@[i], tx, i, w0)
}

impl SingleKeyWallet {
    /// Builds and signs the registration (funding lock) transaction for
    /// `amount`: generates a fresh one-time key (from `seed` when one is
    /// given, else from entropy), reserves outputs covering the amount
    /// plus the payload credit, constructs the burn, payload and change
    /// outputs, and signs every input with the wallet's key.  Fails with
    /// `InsufficientFunds`, leaving the wallet untouched, exactly when
    /// the balance cannot cover amount plus credit; fails with
    /// `SigningError`, leaving the wallet untouched, exactly when the
    /// curve rejects the drawn or the stored key material.
    pub fn registration_transaction(&mut self, seed: Option<u64>, amount: u64) -> (r: Result<
        (LockTransaction, OneTimeKey),
        WalletError,
    >)
        requires
            old(self).wf(),
        ensures
            final(self).wf(),
            final(self).same_keys(*old(self)),
            (r matches Err(e) && e == WalletError::InsufficientFunds) <==> utxo_sum(
                old(self).utxos@,
            ) < amount + CREDIT_PAYLOAD_VALUE,
            utxo_sum(old(self).utxos@) >= amount + CREDIT_PAYLOAD_VALUE ==> (seed matches Some(
                sv,
            ) ==> ((r matches Err(e) && e == WalletError::SigningError) <==> (!secp_accepts(
                seeded_key_bytes_of(sv),
            ) || !secp_accepts(old(self).private_key@)))),
            r is Err ==> *final(self) == *old(self),
            r matches Ok(p) ==> registration_ok(*old(self), *final(self), seed, amount, p.0, p.1),
    {
        let ghost s0 = self.utxos@;
        let total: u64 = match amount.checked_add(CREDIT_PAYLOAD_VALUE) {
            Some(t) => t,
            None => {
                return Err(WalletError::InsufficientFunds);
            },
        };
        let mut acc: u64 = 0;
        let mut k: usize = 0;
        let n: usize = self.utxos.len();
        proof {
            assert(s0.take(0) =~= Seq::<Utxo>::empty());
        }
        while k < n && acc < total
            invariant
                0 <= k <= n,
                n == s0.len(),
                self.utxos@ == s0,
                utxos_wf(s0),
                acc as int == utxo_sum(s0.take(k as int)),
                k > 0 ==> utxo_sum(s0.take(k - 1 as int)) < total,
            decreases n - k,
        {
            proof {
                crate::wallet::lemma_utxo_sum_take_step(s0, k as int);
                crate::wallet::lemma_utxo_sum_split(s0, k + 1 as int);
                crate::wallet::lemma_utxo_sum_nonneg(s0.skip(k + 1 as int));
            }
            acc = acc + self.utxos[k].value;
            k = k + 1;
        }
        if acc < total {
            proof {
                assert(k == n);
                assert(s0.take(n as int) =~= s0);
            }
            return Err(WalletError::InsufficientFunds);
        }
        proof {
            crate::wallet::lemma_reserve_len_char(s0, total as int, k as int);
            crate::wallet::lemma_utxo_sum_split(s0, k as int);
            crate::wallet::lemma_utxo_sum_nonneg(s0.skip(k as int));
        }
        let change: u64 = acc - total;
        // The one-time key for this attempt.
        let secret: Vec<u8> = match seed {
            Some(s) => seeded_key_bytes(s),
            None => entropy_key_bytes(),
        };
        let public_key: Vec<u8> = match secp_public_key(&secret) {
            Some(pk) => pk,
            None => {
                return Err(WalletError::SigningError);
            },
        };
        let pubkey_hash: Vec<u8> = hash160(&public_key);
        // The burn, change and credit outputs.
        let mut outputs: Vec<TxOut> = Vec::new();
        outputs.push(TxOut { value: amount, script_pubkey: p2pkh_script(&pubkey_hash) });
        if change > 0 {
            outputs.push(TxOut { value: change, script_pubkey: p2pkh_script(&self.pubkey_hash) });
        }
        let mut credit_outputs: Vec<TxOut> = Vec::new();
        credit_outputs.push(
            TxOut { value: CREDIT_PAYLOAD_VALUE, script_pubkey: op_return_script() },
        );
        // The inputs, unsigned first so each signature digest can be
        // computed over the assembled transaction.
        let mut unsigned: Vec<TxIn> = Vec::new();
        let mut i: usize = 0;
        while i < k
            invariant
                0 <= i <= k <= s0.len(),
                self.utxos@ == s0,
                unsigned@.len() == i,
                forall|j: int|
                    0 <= j < i ==> (#[trigger] unsigned@[j]).prev_outpoint.txid@
                        == s0[j].outpoint.txid@ && unsigned@[j].prev_outpoint.vout
                        == s0[j].outpoint.vout,
            decreases k - i,
        {
            unsigned.push(
                TxIn {
                    prev_outpoint: OutPoint {
                        txid: copy_bytes(&self.utxos[i].outpoint.txid),
                        vout: self.utxos[i].outpoint.vout,
                    },
                    script_sig: Vec::new(),
                },
            );
            i = i + 1;
        }
        let tx0 = LockTransaction { inputs: unsigned, outputs, credit_outputs };
        let ghost tx0v: LockTransaction = tx0;
        // Sign each input with the wallet's own key.
        let mut signed: Vec<TxIn> = Vec::new();
        let mut i2: usize = 0;
        while i2 < k
            invariant
                0 <= i2 <= k <= s0.len(),
                *self == *old(self),
                self.utxos@ == s0,
                self.wf(),
                utxo_sum(s0) >= amount + CREDIT_PAYLOAD_VALUE,
                secp_accepts(secret@),
                seed matches Some(sv) ==> secret@ == seeded_key_bytes_of(sv),
                i2 > 0 ==> secp_accepts(old(self).private_key@),
                tx0 == tx0v,
                tx0v.inputs@.len() == k,
                signed@.len() == i2,
                forall|j: int|
                    0 <= j < i2 ==> (#[trigger] signed@[j]).prev_outpoint.txid@
                        == s0[j].outpoint.txid@ && signed@[j].prev_outpoint.vout
                        == s0[j].outpoint.vout,
                forall|j: int|
                    0 <= j < i2 ==> (#[trigger] signed@[j]).script_sig@ == p2pkh_unlock_script_of(
                        ecdsa_der_signature_of(
                            self.private_key@,
                            sighash_of(tx0v, j, s0[j].script_pubkey@),
                        ),
                        self.public_key@,
                    ),
            decreases k - i2,
        {
            let digest = legacy_sighash(&tx0, i2, &self.utxos[i2].script_pubkey);
            let sig = match ecdsa_sign(&self.private_key, &digest) {
                Some(s) => s,
                None => {
                    return Err(WalletError::SigningError);
                },
            };
            let unlock = p2pkh_unlock_script(&sig, &self.public_key);
            signed.push(
                TxIn {
                    prev_outpoint: OutPoint {
                        txid: copy_bytes(&self.utxos[i2].outpoint.txid),
                        vout: self.utxos[i2].outpoint.vout,
                    },
                    script_sig: unlock,
                },
            );
            i2 = i2 + 1;
        }
        proof {
            // the payload credit is positive, so at least one output was
            // reserved and at least one input was signed
            assert(s0.take(0) =~= Seq::<Utxo>::empty());
            assert(k >= 1);
        }
        let tx = LockTransaction {
            inputs: signed,
            outputs: tx0.outputs,
            credit_outputs: tx0.credit_outputs,
        };
        // The signature digests read nothing of an input but the output
        // it spends, so the digests of the signed transaction are those
        // the signatures were computed over.
        proof {
            assert forall|j: int| 0 <= j < k implies sighash_base_bytes(
                tx,
                j,
                s0[j].script_pubkey@,
            ) == sighash_base_bytes(tx0v, j, s0[j].script_pubkey@) by {
                lemma_sighash_txins_same_outpoints(
                    tx.inputs@,
                    tx0v.inputs@,
                    j,
                    s0[j].script_pubkey@,
                );
            }
        }
        // Commit the reservation: the selected prefix leaves the
        // available set.
        let mut d: usize = 0;
        while d < k
            invariant
                0 <= d <= k <= s0.len(),
                self.utxos@ == s0.skip(d as int),
                self.private_key@ == old(self).private_key@,
                self.public_key@ == old(self).public_key@,
                self.pubkey_hash@ == old(self).pubkey_hash@,
            decreases k - d,
        {
            let _ = self.utxos.remove(0);
            proof {
                assert(s0.skip(d as int).remove(0) =~= s0.skip(d + 1 as int));
            }
            d = d + 1;
        }
        proof {
            let rest = s0.skip(k as int);
            assert forall|a: int, b: int| 0 <= a < b < rest.len() implies crate::wallet::outpoint_lt(
                (#[trigger] rest[a]).outpoint,
                (#[trigger] rest[b]).outpoint,
            ) by {
                assert(rest[a] == s0[k + a]);
                assert(rest[b] == s0[k + b]);
            }
            assert forall|a: int| 0 <= a < rest.len() implies (
            #[trigger] rest[a]).outpoint.txid@.len() == 32 by {
                assert(rest[a] == s0[k + a]);
            }
        }
        Ok((tx, OneTimeKey { secret, public_key, pubkey_hash }))
    }
}

impl Wallet {
    /// Builds and signs the registration (funding lock) transaction;
    /// see the single-key wallet's builder for the full contract.
    pub fn registration_transaction(&mut self, seed: Option<u64>, amount: u64) -> (r: Result<
        (LockTransaction, OneTimeKey),
        WalletError,
    >)
        requires
            old(self).wf(),
        ensures
            final(self).wf(),
            final(self).inner().same_keys(old(self).inner()),
            (r matches Err(e) && e == WalletError::InsufficientFunds) <==> utxo_sum(
                old(self).inner().utxos@,
            ) < amount + CREDIT_PAYLOAD_VALUE,
            utxo_sum(old(self).inner().utxos@) >= amount + CREDIT_PAYLOAD_VALUE ==> (seed
                matches Some(sv) ==> ((r matches Err(e) && e == WalletError::SigningError) <==> (
            !secp_accepts(seeded_key_bytes_of(sv)) || !secp_accepts(
                old(self).inner().private_key@,
            )))),
            r is Err ==> *final(self) == *old(self),
            r matches Ok(p) ==> registration_ok(
                old(self).inner(),
                final(self).inner(),
                seed,
                amount,
                p.0,
                p.1,
            ),
    {
        match self {
            Wallet::SingleKeyWallet(w) => w.registration_transaction(seed, amount),
        }
    }
}

} // verus!
