//! The UTXO ledger: a single-key wallet over a set of spendable outputs.
//!
//! The wallet owns its outputs exclusively; reserving funds selects
//! outputs in ascending order of their identifiers and removes them from
//! the available set in the same step, so two reservations made one
//! after the other under the wallet's exclusive access can never pick
//! the same output.

use vstd::prelude::*;

use crate::bytes::{
    bytes_eq, cmp_bytes, compare_bytes, copy_bytes, lemma_cmp_bytes_antisym, lemma_cmp_bytes_eq,
    lemma_cmp_bytes_range, lemma_cmp_bytes_trans,
};
use crate::crypto::{
    base58_encode, base58_of, hash160, hash160_of, hex_encode, hex_of, secp_accepts,
    secp_public_key, secp_public_key_of, sha256d, sha256d_of,
};
use crate::text::{coin_value_of, coin_value_string};

verus! {

/// The identifier of a spendable output: the transaction that created it
/// and the index of the output within that transaction.
#[derive(Clone)]
pub struct OutPoint {
    pub txid: Vec<u8>,
    pub vout: u32,
}

/// A spendable prior transaction output known to the wallet.
#[derive(Clone)]
pub struct Utxo {
    pub outpoint: OutPoint,
    pub value: u64,
    pub script_pubkey: Vec<u8>,
}

/// A failure of the wallet's own operations.
#[derive(Debug, Clone, Copy, PartialEq, Eq, Structural)]
pub enum WalletError {
    /// The outputs at hand cannot cover the requested amount.
    InsufficientFunds,
    /// A key needed for signing is missing or unusable.
    SigningError,
}

/// The strict ascending order on output identifiers: by transaction id
/// in lexicographic order, then by output index.
pub open spec fn outpoint_lt(a: OutPoint, b: OutPoint) -> bool {
    cmp_bytes(a.txid@, b.txid@) == -1 || (cmp_bytes(a.txid@, b.txid@) == 0 && a.vout < b.vout)
}

/// Two identifiers name the same output.
pub open spec fn outpoint_eq(a: OutPoint, b: OutPoint) -> bool {
    a.txid@ == b.txid@ && a.vout == b.vout
}

/// Exactly one of `a < b`, `b < a`, `a == b` holds.
pub proof fn lemma_outpoint_order(a: OutPoint, b: OutPoint)
    ensures
        outpoint_lt(a, b) || outpoint_lt(b, a) || outpoint_eq(a, b),
        outpoint_lt(a, b) ==> !outpoint_lt(b, a) && !outpoint_eq(a, b),
        outpoint_eq(a, b) ==> !outpoint_lt(a, b) && !outpoint_lt(b, a),
{
    lemma_cmp_bytes_range(a.txid@, b.txid@);
    lemma_cmp_bytes_antisym(a.txid@, b.txid@);
    lemma_cmp_bytes_eq(a.txid@, b.txid@);
}

/// The identifier order is transitive.
pub proof fn lemma_outpoint_lt_trans(a: OutPoint, b: OutPoint, c: OutPoint)
    requires
        outpoint_lt(a, b),
        outpoint_lt(b, c),
    ensures
        outpoint_lt(a, c),
{
    lemma_cmp_bytes_eq(a.txid@, b.txid@);
    lemma_cmp_bytes_eq(b.txid@, c.txid@);
    lemma_cmp_bytes_range(a.txid@, b.txid@);
    lemma_cmp_bytes_range(b.txid@, c.txid@);
    if cmp_bytes(a.txid@, b.txid@) == -1 && cmp_bytes(b.txid@, c.txid@) == -1 {
        lemma_cmp_bytes_trans(a.txid@, b.txid@, c.txid@);
    }
}

/// Compares two output identifiers under the ascending order.
pub fn outpoint_before(a: &OutPoint, b: &OutPoint) -> (r: bool)
    ensures
        r == outpoint_lt(*a, *b),
{
    let c: i8 = compare_bytes(&a.txid, &b.txid);
    if c == -1 {
        true
    } else if c == 0 {
        a.vout < b.vout
    } else {
        proof {
            lemma_cmp_bytes_range(a.txid@, b.txid@);
        }
        false
    }
}

/// True when the two identifiers name the same output.
pub fn outpoint_same(a: &OutPoint, b: &OutPoint) -> (r: bool)
    ensures
        r == outpoint_eq(*a, *b),
{
    bytes_eq(&a.txid, &b.txid) && a.vout == b.vout
}

/// The total value of a run of outputs.
pub open spec fn utxo_sum(s: Seq<Utxo>) -> int
    decreases s.len(),
{
    if s.len() == 0 {
        0
    } else {
        s[0].value + utxo_sum(s.skip(1))
    }
}

pub proof fn lemma_utxo_sum_nonneg(s: Seq<Utxo>)
    ensures
        utxo_sum(s) >= 0,
    decreases s.len(),
{
    if s.len() != 0 {
        lemma_utxo_sum_nonneg(s.skip(1));
    }
}

/// Splitting a run splits its total value.
pub proof fn lemma_utxo_sum_split(s: Seq<Utxo>, i: int)
    requires
        0 <= i <= s.len(),
    ensures
        utxo_sum(s) == utxo_sum(s.take(i)) + utxo_sum(s.skip(i)),
    decreases i,
{
    if i == 0 {
        assert(s.take(0) =~= Seq::<Utxo>::empty());
        assert(s.skip(0) =~= s);
    } else {
        let t = s.skip(1);
        lemma_utxo_sum_split(t, i - 1);
        assert(s.take(i)[0] == s[0]);
        assert(s.take(i).skip(1) =~= t.take(i - 1));
        assert(s.skip(i) =~= t.skip(i - 1));
    }
}

/// One more output adds its value to the prefix total.
pub proof fn lemma_utxo_sum_take_step(s: Seq<Utxo>, i: int)
    requires
        0 <= i < s.len(),
    ensures
        utxo_sum(s.take(i + 1)) == utxo_sum(s.take(i)) + s[i].value,
    decreases i,
{
    if i == 0 {
        assert(s.take(0) =~= Seq::<Utxo>::empty());
        assert(s.take(1) =~= seq![s[0]]);
        assert(seq![s[0]].skip(1) =~= Seq::<Utxo>::empty());
    } else {
        let t = s.skip(1);
        lemma_utxo_sum_take_step(t, i - 1);
        assert(s.take(i + 1)[0] == s[0]);
        assert(s.take(i)[0] == s[0]);
        assert(s.take(i + 1).skip(1) =~= t.take(i));
        assert(s.take(i).skip(1) =~= t.take(i - 1));
        assert(t[i - 1] == s[i]);
    }
}

/// The length of the shortest prefix, in the wallet's ascending order,
/// whose total value covers `amount`; nothing when even the whole run
/// falls short.
pub open spec fn reserve_len(s: Seq<Utxo>, amount: int) -> Option<int>
    decreases s.len(),
{
    if amount <= 0 {
        Option::Some(0)
    } else if s.len() == 0 {
        Option::None
    } else {
        match reserve_len(s.skip(1), amount - s[0].value) {
            Option::Some(k) => Option::Some(k + 1),
            Option::None => Option::None,
        }
    }
}

/// A reservation exists exactly when the total value covers the amount.
pub proof fn lemma_reserve_len_iff(s: Seq<Utxo>, amount: int)
    ensures
        reserve_len(s, amount) is Some <==> utxo_sum(s) >= amount,
    decreases s.len(),
{
    lemma_utxo_sum_nonneg(s);
    if amount > 0 && s.len() != 0 {
        lemma_reserve_len_iff(s.skip(1), amount - s[0].value);
    }
}

/// The reserved prefix covers the amount, and no shorter prefix does.
pub proof fn lemma_reserve_len_props(s: Seq<Utxo>, amount: int)
    requires
        reserve_len(s, amount) is Some,
    ensures
        0 <= reserve_len(s, amount)->Some_0 <= s.len(),
        utxo_sum(s.take(reserve_len(s, amount)->Some_0)) >= amount,
        reserve_len(s, amount)->Some_0 > 0 ==> utxo_sum(
            s.take(reserve_len(s, amount)->Some_0 - 1),
        ) < amount,
    decreases s.len(),
{
    let k = reserve_len(s, amount)->Some_0;
    if amount <= 0 {
        assert(s.take(0) =~= Seq::<Utxo>::empty());
        lemma_utxo_sum_nonneg(s.take(0));
    } else {
        let t = s.skip(1);
        lemma_reserve_len_props(t, amount - s[0].value);
        let k1 = reserve_len(t, amount - s[0].value)->Some_0;
        assert(k == k1 + 1);
        assert(s.take(k)[0] == s[0]);
        assert(s.take(k).skip(1) =~= t.take(k1));
        if k1 > 0 {
            assert(s.take(k - 1)[0] == s[0]);
            assert(s.take(k - 1).skip(1) =~= t.take(k1 - 1));
        } else {
            assert(s.take(0) =~= Seq::<Utxo>::empty());
        }
    }
}

/// A prefix that covers the amount, while the one-shorter prefix does
/// not, is the reserved prefix.
pub proof fn lemma_reserve_len_char(s: Seq<Utxo>, amount: int, k: int)
    requires
        0 <= k <= s.len(),
        utxo_sum(s.take(k)) >= amount,
        k > 0 ==> utxo_sum(s.take(k - 1)) < amount,
    ensures
        reserve_len(s, amount) == Option::Some(k),
    decreases s.len(),
{
    if amount <= 0 {
        if k > 0 {
            lemma_utxo_sum_nonneg(s.take(k - 1));
        }
    } else {
        assert(s.take(0) =~= Seq::<Utxo>::empty());
        assert(k > 0) by {
            lemma_utxo_sum_nonneg(s.take(0));
        }
        let t = s.skip(1);
        assert(s.take(k)[0] == s[0]);
        assert(s.take(k).skip(1) =~= t.take(k - 1));
        if k > 1 {
            assert(s.take(k - 1)[0] == s[0]);
            assert(s.take(k - 1).skip(1) =~= t.take(k - 2));
        } else {
            assert(t.take(0) =~= Seq::<Utxo>::empty());
            lemma_utxo_sum_nonneg(t.take(0));
        }
        lemma_reserve_len_char(t, amount - s[0].value, k - 1);
    }
}

/// Well-formedness of the wallet's output run: transaction ids have
/// their full length, identifiers strictly ascend, and the total value
/// fits the balance type.
pub open spec fn utxos_wf(s: Seq<Utxo>) -> bool {
    &&& forall|i: int| 0 <= i < s.len() ==> (#[trigger] s[i]).outpoint.txid@.len() == 32
    &&& forall|i: int, j: int|
        0 <= i < j < s.len() ==> outpoint_lt(#[trigger] s[i].outpoint, #[trigger] s[j].outpoint)
    &&& utxo_sum(s) <= u64::MAX
}

/// A wallet controlled by one private key.  Its address is carried as
/// the key hash that the locking scripts and the address rendering are
/// built from.
#[derive(Clone)]
pub struct SingleKeyWallet {
    pub private_key: Vec<u8>,
    pub public_key: Vec<u8>,
    pub pubkey_hash: Vec<u8>,
    pub utxos: Vec<Utxo>,
}

impl SingleKeyWallet {
    /// The wallet's internal invariant.
    pub open spec fn wf(self) -> bool {
        &&& self.private_key@.len() == 32
        &&& self.public_key@.len() == 33
        &&& self.pubkey_hash@.len() == 20
        &&& utxos_wf(self.utxos@)
    }

    /// The key material is untouched.
    pub open spec fn same_keys(self, other: SingleKeyWallet) -> bool {
        &&& self.private_key@ == other.private_key@
        &&& self.public_key@ == other.public_key@
        &&& self.pubkey_hash@ == other.pubkey_hash@
    }

    /// Builds a wallet from a 32-byte private key, with no outputs yet;
    /// fails exactly when the curve rejects the bytes.
    pub fn from_private_key(private_key: Vec<u8>) -> (r: Option<SingleKeyWallet>)
        requires
            private_key@.len() == 32,
        ensures
            r is Some <==> secp_accepts(private_key@),
            match r {
                Some(w) => {
                    &&& w.wf()
                    &&& w.private_key@ == private_key@
                    &&& w.public_key@ == secp_public_key_of(private_key@)
                    &&& w.pubkey_hash@ == hash160_of(secp_public_key_of(private_key@))
                    &&& w.utxos@.len() == 0
                },
                None => true,
            },
    {
        match secp_public_key(&private_key) {
            Some(public_key) => {
                let pubkey_hash = hash160(&public_key);
                Some(
                    SingleKeyWallet {
                        private_key,
                        public_key,
                        pubkey_hash,
                        utxos: Vec::new(),
                    },
                )
            },
            None => None,
        }
    }

    /// The wallet's balance: the total value of its outputs.
    pub fn balance(&self) -> (r: u64)
        requires
            self.wf(),
        ensures
            r as int == utxo_sum(self.utxos@),
    {
        let ghost s = self.utxos@;
        let mut acc: u64 = 0;
        let mut i: usize = 0;
        let n: usize = self.utxos.len();
        while i < n
            invariant
                0 <= i <= n,
                n == s.len(),
                self.utxos@ == s,
                utxos_wf(s),
                acc as int == utxo_sum(s.take(i as int)),
            decreases n - i,
        {
            proof {
                lemma_utxo_sum_take_step(s, i as int);
                lemma_utxo_sum_split(s, i + 1 as int);
                lemma_utxo_sum_nonneg(s.skip(i + 1 as int));
            }
            acc = acc + self.utxos[i].value;
            i = i + 1;
        }
        proof {
            assert(s.take(n as int) =~= s);
        }
        acc
    }

    /// The address change is returned to: the wallet's own key hash.
    pub fn change_address(&self) -> (r: Vec<u8>)
        ensures
            r@ == self.pubkey_hash@,
    {
        copy_bytes(&self.pubkey_hash)
    }

    /// The private key controlling the given address, when it is the
    /// wallet's own; the wallet holds no other keys.
    pub fn private_key_for_address<'a>(&'a self, address: &Vec<u8>) -> (r: Option<&'a Vec<u8>>)
        ensures
            match r {
                Some(k) => address@ == self.pubkey_hash@ && k@ == self.private_key@,
                None => address@ != self.pubkey_hash@,
            },
    {
        if bytes_eq(address, &self.pubkey_hash) {
            Some(&self.private_key)
        } else {
            None
        }
    }

    /// Reserves outputs covering `amount`: walks the outputs in
    /// ascending order of their identifiers, accumulating value until it
    /// reaches `amount`, removes the selected outputs from the available
    /// set in the same step, and returns them with the change
    /// (accumulated value less the amount).  Fails, leaving the wallet
    /// untouched, when the total balance falls short.
    pub fn take_unspent_utxos_for(&mut self, amount: u64) -> (r: Option<(Vec<Utxo>, u64)>)
        requires
            old(self).wf(),
        ensures
            final(self).wf(),
            final(self).same_keys(*old(self)),
            match r {
                Some(p) => {
                    &&& reserve_len(old(self).utxos@, amount as int) == Option::Some(
                        p.0@.len() as int,
                    )
                    &&& p.0@ == old(self).utxos@.take(p.0@.len() as int)
                    &&& final(self).utxos@ == old(self).utxos@.skip(p.0@.len() as int)
                    &&& utxo_sum(p.0@) >= amount
                    &&& p.1 as int == utxo_sum(p.0@) - amount
                },
                None => {
                    &&& *final(self) == *old(self)
                    &&& utxo_sum(old(self).utxos@) < amount
                },
            },
    {
        let ghost s0 = self.utxos@;
        let mut acc: u64 = 0;
        let mut k: usize = 0;
        let n: usize = self.utxos.len();
        proof {
            assert(s0.take(0) =~= Seq::<Utxo>::empty());
        }
        while k < n && acc < amount
            invariant
                0 <= k <= n,
                n == s0.len(),
                self.utxos@ == s0,
                utxos_wf(s0),
                acc as int == utxo_sum(s0.take(k as int)),
                k > 0 ==> utxo_sum(s0.take(k - 1 as int)) < amount,
            decreases n - k,
        {
            proof {
                lemma_utxo_sum_take_step(s0, k as int);
                lemma_utxo_sum_split(s0, k + 1 as int);
                lemma_utxo_sum_nonneg(s0.skip(k + 1 as int));
            }
            acc = acc + self.utxos[k].value;
            k = k + 1;
        }
        if acc < amount {
            proof {
                assert(k == n);
                assert(s0.take(n as int) =~= s0);
            }
            return None;
        }
        proof {
            lemma_reserve_len_char(s0, amount as int, k as int);
        }
        let change: u64 = acc - amount;
        let mut sel: Vec<Utxo> = Vec::new();
        let mut i: usize = 0;
        proof {
            assert(sel@ =~= s0.take(0));
            assert(self.utxos@ =~= s0.skip(0));
        }
        while i < k
            invariant
                0 <= i <= k <= s0.len(),
                sel@ == s0.take(i as int),
                self.utxos@ == s0.skip(i as int),
                self.private_key@ == old(self).private_key@,
                self.public_key@ == old(self).public_key@,
                self.pubkey_hash@ == old(self).pubkey_hash@,
            decreases k - i,
        {
            let u = self.utxos.remove(0);
            proof {
                assert(s0.skip(i as int)[0] == s0[i as int]);
                assert(s0.skip(i as int).remove(0) =~= s0.skip(i + 1 as int));
                assert(s0.take(i as int).push(s0[i as int]) =~= s0.take(i + 1 as int));
            }
            sel.push(u);
            i = i + 1;
        }
        proof {
            let ghost rest = s0.skip(k as int);
            lemma_utxo_sum_split(s0, k as int);
            lemma_utxo_sum_nonneg(s0.take(k as int));
            lemma_utxo_sum_nonneg(rest);
            assert forall|a: int, b: int| 0 <= a < b < rest.len() implies outpoint_lt(
                #[trigger] rest[a].outpoint,
                #[trigger] rest[b].outpoint,
            ) by {
                assert(rest[a] == s0[k + a]);
                assert(rest[b] == s0[k + b]);
            }
            assert forall|a: int| 0 <= a < rest.len() implies (
            #[trigger] rest[a]).outpoint.txid@.len() == 32 by {
                assert(rest[a] == s0[k + a]);
            }
        }
        Some((sel, change))
    }
}

/// In a strictly ascending run, a prefix reservation and a later
/// reservation made on what remains never pick the same output: this is
/// the exclusion that keeps two attempts on one wallet from spending a
/// coin twice.
pub proof fn lemma_reservations_disjoint(s: Seq<Utxo>, k1: int, k2: int)
    requires
        utxos_wf(s),
        0 <= k1 <= s.len(),
        0 <= k2 <= s.skip(k1).len(),
    ensures
        forall|i: int, j: int|
            0 <= i < k1 && 0 <= j < k2 ==> !outpoint_eq(
                #[trigger] s.take(k1)[i].outpoint,
                #[trigger] s.skip(k1).take(k2)[j].outpoint,
            ),
{
    assert forall|i: int, j: int| 0 <= i < k1 && 0 <= j < k2 implies !outpoint_eq(
        #[trigger] s.take(k1)[i].outpoint,
        #[trigger] s.skip(k1).take(k2)[j].outpoint,
    ) by {
        assert(s.take(k1)[i] == s[i]);
        assert(s.skip(k1).take(k2)[j] == s[k1 + j]);
        assert(outpoint_lt(s[i].outpoint, s[k1 + j].outpoint));
        lemma_outpoint_order(s[i].outpoint, s[k1 + j].outpoint);
    }
}

/// Two successive reservations on one wallet select disjoint outputs:
/// the first reserves the prefix of length `k1`, the second, made on
/// what the first left behind, reserves a further `k2` outputs, and no
/// output identifier occurs in both selections.
pub proof fn lemma_concurrent_reserves_exclusive(s: Seq<Utxo>, a1: int, a2: int, k1: int, k2: int)
    requires
        utxos_wf(s),
        reserve_len(s, a1) == Option::Some(k1),
        reserve_len(s.skip(k1), a2) == Option::Some(k2),
    ensures
        forall|i: int, j: int|
            0 <= i < k1 && 0 <= j < k2 ==> !outpoint_eq(
                #[trigger] s.take(k1)[i].outpoint,
                #[trigger] s.skip(k1).take(k2)[j].outpoint,
            ),
{
    lemma_reserve_len_props(s, a1);
    lemma_reserve_len_props(s.skip(k1), a2);
    lemma_reservations_disjoint(s, k1, k2);
}

/// Inserts one output into a strictly ascending run, keeping the order;
/// the output's identifier must be new to the run.
fn insert_sorted(list: &mut Vec<Utxo>, u: Utxo)
    requires
        utxos_wf(old(list)@),
        u.outpoint.txid@.len() == 32,
        forall|i: int|
            0 <= i < old(list)@.len() ==> !outpoint_eq(
                (#[trigger] old(list)@[i]).outpoint,
                u.outpoint,
            ),
        utxo_sum(old(list)@) + u.value <= u64::MAX,
    ensures
        utxos_wf(final(list)@),
        final(list)@.len() == old(list)@.len() + 1,
        forall|x: Utxo| #[trigger]
            final(list)@.contains(x) <==> old(list)@.contains(x) || x == u,
        utxo_sum(final(list)@) == utxo_sum(old(list)@) + u.value,
{
    let ghost s0 = list@;
    let n: usize = list.len();
    let mut i: usize = 0;
    while i < n && outpoint_before(&list[i].outpoint, &u.outpoint)
        invariant
            0 <= i <= n,
            n == s0.len(),
            list@ == s0,
            utxos_wf(s0),
            forall|j: int| 0 <= j < i ==> outpoint_lt((#[trigger] s0[j]).outpoint, u.outpoint),
        decreases n - i,
    {
        i = i + 1;
    }
    proof {
        if i < n {
            lemma_outpoint_order(s0[i as int].outpoint, u.outpoint);
            assert(outpoint_lt(u.outpoint, s0[i as int].outpoint));
        }
    }
    list.insert(i, u);
    proof {
        let s1 = list@;
        let iv = i as int;
        assert(s1 == s0.insert(iv, u));
        s0.insert_ensures(iv, u);
        // The run stays strictly ascending.
        assert forall|a: int, b: int| 0 <= a < b < s1.len() implies outpoint_lt(
            (#[trigger] s1[a]).outpoint,
            (#[trigger] s1[b]).outpoint,
        ) by {
            if b < iv {
                assert(s1[a] == s0[a] && s1[b] == s0[b]);
            } else if a < iv && b == iv {
                assert(s1[a] == s0[a] && s1[b] == u);
            } else if a < iv && b > iv {
                assert(s1[a] == s0[a] && s1[b] == s0[b - 1]);
                if a < b - 1 {
                } else {
                    assert(a == b - 1 && a < iv && iv <= b - 1);
                }
            } else if a == iv {
                assert(s1[a] == u && s1[b] == s0[b - 1]);
                assert(iv <= b - 1 < s0.len());
                if iv < b - 1 {
                    assert(outpoint_lt(s0[iv].outpoint, s0[b - 1].outpoint));
                    lemma_outpoint_lt_trans(u.outpoint, s0[iv].outpoint, s0[b - 1].outpoint);
                } else {
                    assert(outpoint_lt(u.outpoint, s0[iv].outpoint));
                }
            } else {
                assert(s1[a] == s0[a - 1] && s1[b] == s0[b - 1]);
            }
        }
        // Transaction ids keep their length.
        assert forall|a: int| 0 <= a < s1.len() implies (
        #[trigger] s1[a]).outpoint.txid@.len() == 32 by {
            if a < iv {
                assert(s1[a] == s0[a]);
            } else if a == iv {
                assert(s1[a] == u);
            } else {
                assert(s1[a] == s0[a - 1]);
            }
        }
        // The total value grows by the inserted output's value.
        assert(s1.take(iv) =~= s0.take(iv));
        assert(s1.skip(iv) =~= seq![u] + s0.skip(iv));
        assert((seq![u] + s0.skip(iv))[0] == u);
        assert((seq![u] + s0.skip(iv)).skip(1) =~= s0.skip(iv));
        lemma_utxo_sum_split(s1, iv);
        lemma_utxo_sum_split(s0, iv);
        assert(utxo_sum(s1) == utxo_sum(s0) + u.value);
        // Membership grows by exactly the inserted output.
        assert forall|x: Utxo| #[trigger] s1.contains(x) implies s0.contains(x) || x == u by {
            let w = choose|w: int| 0 <= w < s1.len() && s1[w] == x;
            if w < iv {
                assert(s0[w] == x);
            } else if w == iv {
                assert(x == u);
            } else {
                assert(s0[w - 1] == x);
            }
        }
        assert forall|x: Utxo| s0.contains(x) || x == u implies #[trigger] s1.contains(x) by {
            if x == u {
                assert(s1[iv] == u);
            } else {
                let w = choose|w: int| 0 <= w < s0.len() && s0[w] == x;
                if w < iv {
                    assert(s1[w] == x);
                } else {
                    assert(s1[w + 1] == x);
                }
            }
        }
    }
}

impl SingleKeyWallet {
    /// Replaces the wallet's entire output set with outputs freshly
    /// scanned from the chain; their identifiers are pairwise distinct,
    /// as a chain scan yields each output once.
    pub fn reload_utxos(&mut self, outputs: Vec<Utxo>)
        requires
            old(self).wf(),
            forall|i: int|
                0 <= i < outputs@.len() ==> (#[trigger] outputs@[i]).outpoint.txid@.len() == 32,
            forall|i: int, j: int|
                0 <= i < j < outputs@.len() ==> !outpoint_eq(
                    (#[trigger] outputs@[i]).outpoint,
                    (#[trigger] outputs@[j]).outpoint,
                ),
            utxo_sum(outputs@) <= u64::MAX,
        ensures
            final(self).wf(),
            final(self).same_keys(*old(self)),
            final(self).utxos@.len() == outputs@.len(),
            forall|i: int|
                0 <= i < outputs@.len() ==> final(self).utxos@.contains(#[trigger] outputs@[i]),
            forall|x: Utxo| #[trigger] final(self).utxos@.contains(x) ==> outputs@.contains(x),
            utxo_sum(final(self).utxos@) == utxo_sum(outputs@),
    {
        let ghost o0 = outputs@;
        let mut rest = outputs;
        self.utxos = Vec::new();
        let ghost keys0 = (old(self).private_key@, old(self).public_key@, old(self).pubkey_hash@);
        proof {
            assert(self.utxos@ =~= Seq::<Utxo>::empty());
            assert(o0.take(0) =~= Seq::<Utxo>::empty());
            assert(rest@ =~= o0.skip(0));
        }
        let ghost mut p: int = 0;
        while rest.len() > 0
            invariant
                0 <= p <= o0.len(),
                rest@ == o0.skip(p as int),
                self.private_key@ == keys0.0,
                self.public_key@ == keys0.1,
                self.pubkey_hash@ == keys0.2,
                old(self).wf(),
                utxos_wf(self.utxos@),
                self.utxos@.len() == p,
                utxo_sum(self.utxos@) == utxo_sum(o0.take(p as int)),
                forall|x: Utxo| #[trigger]
                    self.utxos@.contains(x) ==> o0.take(p as int).contains(x),
                forall|i: int| 0 <= i < p ==> self.utxos@.contains(#[trigger] o0[i]),
                forall|i: int|
                    0 <= i < o0.len() ==> (#[trigger] o0[i]).outpoint.txid@.len() == 32,
                forall|i: int, j: int|
                    0 <= i < j < o0.len() ==> !outpoint_eq(
                        (#[trigger] o0[i]).outpoint,
                        (#[trigger] o0[j]).outpoint,
                    ),
                utxo_sum(o0) <= u64::MAX,
            decreases rest@.len(),
    {
            proof {
                assert(rest@.len() == o0.len() - p);
            }
            let u = rest.remove(0);
            proof {
                assert(o0.skip(p as int)[0] == o0[p as int]);
                assert(o0.skip(p as int).remove(0) =~= o0.skip(p + 1 as int));
                lemma_utxo_sum_take_step(o0, p as int);
                lemma_utxo_sum_split(o0, p + 1 as int);
                lemma_utxo_sum_nonneg(o0.skip(p + 1 as int));
                assert forall|i: int| 0 <= i < self.utxos@.len() implies !outpoint_eq(
                    (#[trigger] self.utxos@[i]).outpoint,
                    u.outpoint,
                ) by {
                    assert(self.utxos@.contains(self.utxos@[i]));
                    assert(o0.take(p as int).contains(self.utxos@[i]));
                    let w = choose|w: int|
                        0 <= w < p && o0.take(p as int)[w] == self.utxos@[i];
                    assert(o0[w] == self.utxos@[i]);
                    assert(!outpoint_eq(o0[w].outpoint, o0[p as int].outpoint));
                }
            }
            let ghost before = self.utxos@;
            insert_sorted(&mut self.utxos, u);
            proof {
                assert(o0.take(p + 1 as int) =~= o0.take(p as int).push(o0[p as int]));
                assert forall|x: Utxo| #[trigger] self.utxos@.contains(x) implies o0.take(
                    p + 1 as int,
                ).contains(x) by {
                    if x == u {
                        assert(o0.take(p + 1 as int)[p as int] == u);
                    } else {
                        assert(before.contains(x));
                        let w = choose|w: int| 0 <= w < p && o0.take(p as int)[w] == x;
                        assert(o0.take(p + 1 as int)[w] == x);
                    }
                }
                p = p + 1;
            }
        }
        proof {
            assert(p == o0.len());
            assert(o0.take(o0.len() as int) =~= o0);
            assert forall|x: Utxo| #[trigger] self.utxos@.contains(x) implies o0.contains(x) by {
                assert(o0.take(o0.len() as int).contains(x));
            }
        }
    }
}

/// The version byte that the test network prefixes to a public key hash
/// before base58 rendering.
pub const ADDRESS_VERSION_BYTE: u8 = 140;

/// The versioned payload of a pay-to-public-key-hash address.
pub open spec fn address_payload_of(hash: Seq<u8>) -> Seq<u8> {
    seq![ADDRESS_VERSION_BYTE] + hash
}

/// The base58check address of a public key hash: the versioned payload
/// followed by the first four bytes of its double-SHA-256 digest.
pub open spec fn p2pkh_address_of(hash: Seq<u8>) -> Seq<char> {
    base58_of(address_payload_of(hash) + sha256d_of(address_payload_of(hash)).take(4))
}

/// Renders the base58check address of a 20-byte public key hash.
pub fn p2pkh_address(hash: &Vec<u8>) -> (r: String)
    requires
        hash@.len() == 20,
    ensures
        r@ == p2pkh_address_of(hash@),
{
    let mut payload: Vec<u8> = Vec::new();
    payload.push(ADDRESS_VERSION_BYTE);
    let mut i: usize = 0;
    while i < hash.len()
        invariant
            0 <= i <= hash@.len(),
            payload@ == seq![ADDRESS_VERSION_BYTE] + hash@.take(i as int),
        decreases hash@.len() - i,
    {
        payload.push(hash[i]);
        proof {
            assert(hash@.take(i + 1 as int) =~= hash@.take(i as int).push(hash@[i as int]));
            assert(payload@ =~= seq![ADDRESS_VERSION_BYTE] + hash@.take(i + 1 as int));
        }
        i = i + 1;
    }
    proof {
        assert(hash@.take(hash@.len() as int) =~= hash@);
        assert(payload@ =~= address_payload_of(hash@));
    }
    let check = sha256d(&payload);
    let ghost base: Seq<u8> = payload@;
    let mut j: usize = 0;
    while j < 4
        invariant
            0 <= j <= 4,
            check@ == sha256d_of(base),
            check@.len() == 32,
            payload@ == base + check@.take(j as int),
        decreases 4 - j,
    {
        payload.push(check[j]);
        proof {
            assert(check@.take(j + 1 as int) =~= check@.take(j as int).push(check@[j as int]));
            assert(payload@ =~= base + check@.take(j + 1 as int));
        }
        j = j + 1;
    }
    base58_encode(&payload)
}

/// The wallet's one-line description: its kind, public key, address and
/// balance.
pub open spec fn description_of(public_key: Seq<u8>, pubkey_hash: Seq<u8>, balance: int) -> Seq<
    char,
> {
    "Single Key Wallet \npublic key: "@ + hex_of(public_key) + " \naddress: "@ + p2pkh_address_of(
        pubkey_hash,
    ) + " \nbalance: "@ + coin_value_of(balance)
}

impl SingleKeyWallet {
    /// The wallet's balance rendered as whole coins with four decimal
    /// places.
    pub fn balance_dash_formatted(&self) -> (r: String)
        requires
            self.wf(),
        ensures
            r@ == coin_value_of(utxo_sum(self.utxos@)),
    {
        let sat = self.balance();
        coin_value_string(sat)
    }

    /// Describes the wallet: its kind, public key, address and balance.
    pub fn description(&self) -> (r: String)
        requires
            self.wf(),
        ensures
            r@ == description_of(self.public_key@, self.pubkey_hash@, utxo_sum(self.utxos@)),
    {
        let mut out = String::from_str("Single Key Wallet \npublic key: ");
        let key_hex = hex_encode(&self.public_key);
        out.append(key_hex.as_str());
        out.append(" \naddress: ");
        let address = p2pkh_address(&self.pubkey_hash);
        out.append(address.as_str());
        out.append(" \nbalance: ");
        let balance = self.balance_dash_formatted();
        out.append(balance.as_str());
        proof {
            assert(out@ =~= description_of(
                self.public_key@,
                self.pubkey_hash@,
                utxo_sum(self.utxos@),
            ));
        }
        out
    }
}

/// A private-key-controlled source of funds; every wallet the
/// application can load is a single-key wallet.
#[derive(Clone)]
pub enum Wallet {
    SingleKeyWallet(SingleKeyWallet),
}

impl Wallet {
    /// The wallet behind the enum.
    pub open spec fn inner(self) -> SingleKeyWallet {
        match self {
            Wallet::SingleKeyWallet(w) => w,
        }
    }

    /// The wallet's internal invariant.
    pub open spec fn wf(self) -> bool {
        self.inner().wf()
    }

    /// The private key controlling the given address, when the wallet
    /// holds it.
    pub fn private_key_for_address<'a>(&'a self, address: &Vec<u8>) -> (r: Option<&'a Vec<u8>>)
        ensures
            match r {
                Some(k) => address@ == self.inner().pubkey_hash@ && k@
                    == self.inner().private_key@,
                None => address@ != self.inner().pubkey_hash@,
            },
    {
        match self {
            Wallet::SingleKeyWallet(w) => w.private_key_for_address(address),
        }
    }

    /// The address change is returned to.
    pub fn change_address(&self) -> (r: Vec<u8>)
        ensures
            r@ == self.inner().pubkey_hash@,
    {
        match self {
            Wallet::SingleKeyWallet(w) => w.change_address(),
        }
    }

    /// Describes the wallet.
    pub fn description(&self) -> (r: String)
        requires
            self.wf(),
        ensures
            r@ == description_of(
                self.inner().public_key@,
                self.inner().pubkey_hash@,
                utxo_sum(self.inner().utxos@),
            ),
    {
        match self {
            Wallet::SingleKeyWallet(w) => w.description(),
        }
    }

    /// The wallet's balance rendered as whole coins.
    pub fn balance_dash_formatted(&self) -> (r: String)
        requires
            self.wf(),
        ensures
            r@ == coin_value_of(utxo_sum(self.inner().utxos@)),
    {
        match self {
            Wallet::SingleKeyWallet(w) => w.balance_dash_formatted(),
        }
    }

    /// The wallet's balance: the total value of its outputs.
    pub fn balance(&self) -> (r: u64)
        requires
            self.wf(),
        ensures
            r as int == utxo_sum(self.inner().utxos@),
    {
        match self {
            Wallet::SingleKeyWallet(w) => w.balance(),
        }
    }

    /// Reserves outputs covering `amount` and removes them from the
    /// available set; fails, leaving the wallet untouched, when the
    /// balance falls short.
    pub fn take_unspent_utxos_for(&mut self, amount: u64) -> (r: Option<(Vec<Utxo>, u64)>)
        requires
            old(self).wf(),
        ensures
            final(self).wf(),
            final(self).inner().same_keys(old(self).inner()),
            match r {
                Some(p) => {
                    &&& reserve_len(old(self).inner().utxos@, amount as int) == Option::Some(
                        p.0@.len() as int,
                    )
                    &&& p.0@ == old(self).inner().utxos@.take(p.0@.len() as int)
                    &&& final(self).inner().utxos@ == old(self).inner().utxos@.skip(
                        p.0@.len() as int,
                    )
                    &&& utxo_sum(p.0@) >= amount
                    &&& p.1 as int == utxo_sum(p.0@) - amount
                },
                None => {
                    &&& *final(self) == *old(self)
                    &&& utxo_sum(old(self).inner().utxos@) < amount
                },
            },
    {
        match self {
            Wallet::SingleKeyWallet(w) => w.take_unspent_utxos_for(amount),
        }
    }

    /// Replaces the wallet's entire output set with freshly scanned
    /// outputs.
    pub fn reload_utxos(&mut self, outputs: Vec<Utxo>)
        requires
            old(self).wf(),
            forall|i: int|
                0 <= i < outputs@.len() ==> (#[trigger] outputs@[i]).outpoint.txid@.len() == 32,
            forall|i: int, j: int|
                0 <= i < j < outputs@.len() ==> !outpoint_eq(
                    (#[trigger] outputs@[i]).outpoint,
                    (#[trigger] outputs@[j]).outpoint,
                ),
            utxo_sum(outputs@) <= u64::MAX,
        ensures
            final(self).wf(),
            final(self).inner().same_keys(old(self).inner()),
            final(self).inner().utxos@.len() == outputs@.len(),
            forall|i: int|
                0 <= i < outputs@.len() ==> final(self).inner().utxos@.contains(
                    #[trigger] outputs@[i],
                ),
            forall|x: Utxo| #[trigger]
                final(self).inner().utxos@.contains(x) ==> outputs@.contains(x),
            utxo_sum(final(self).inner().utxos@) == utxo_sum(outputs@),
    {
        match self {
            Wallet::SingleKeyWallet(w) => w.reload_utxos(outputs),
        }
    }
}

} // verus!
