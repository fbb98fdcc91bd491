//! Byte-string helpers: exact copies and a lexicographic order.
//!
//! The wallet iterates its outputs in ascending order of their
//! identifiers, which are byte strings; the order used is the usual
//! lexicographic one.

use vstd::prelude::*;

verus! {

/// Three-way lexicographic comparison of byte strings:
/// -1 when `a` comes first, 1 when `b` comes first, 0 when they are equal.
pub open spec fn cmp_bytes(a: Seq<u8>, b: Seq<u8>) -> int
    decreases a.len(),
{
    if a.len() == 0 && b.len() == 0 {
        0
    } else if a.len() == 0 {
        -1
    } else if b.len() == 0 {
        1
    } else if a[0] < b[0] {
        -1
    } else if a[0] > b[0] {
        1
    } else {
        cmp_bytes(a.skip(1), b.skip(1))
    }
}

pub proof fn lemma_cmp_bytes_range(a: Seq<u8>, b: Seq<u8>)
    ensures
        cmp_bytes(a, b) == -1 || cmp_bytes(a, b) == 0 || cmp_bytes(a, b) == 1,
    decreases a.len(),
{
    if a.len() != 0 && b.len() != 0 && a[0] == b[0] {
        lemma_cmp_bytes_range(a.skip(1), b.skip(1));
    }
}

/// The comparison reports 0 exactly on equal strings.
pub proof fn lemma_cmp_bytes_eq(a: Seq<u8>, b: Seq<u8>)
    ensures
        (cmp_bytes(a, b) == 0) <==> (a == b),
    decreases a.len(),
{
    if a.len() == 0 && b.len() == 0 {
        assert(a =~= b);
    } else if a.len() != 0 && b.len() != 0 && a[0] == b[0] {
        lemma_cmp_bytes_eq(a.skip(1), b.skip(1));
        if cmp_bytes(a, b) == 0 {
            assert(a.skip(1) == b.skip(1));
            assert(a.len() == b.len());
            assert forall|j: int| 0 <= j < a.len() implies a[j] == b[j] by {
                if j > 0 {
                    assert(a.skip(1)[j - 1] == b.skip(1)[j - 1]);
                }
            }
            assert(a =~= b);
        } else {
            if a == b {
                assert(a.skip(1) =~= b.skip(1));
            }
        }
    } else {
        if a == b {
            assert(a.len() == b.len());
        }
    }
}

/// Swapping the arguments negates the comparison.
pub proof fn lemma_cmp_bytes_antisym(a: Seq<u8>, b: Seq<u8>)
    ensures
        cmp_bytes(a, b) == -cmp_bytes(b, a),
    decreases a.len(),
{
    if a.len() != 0 && b.len() != 0 && a[0] == b[0] {
        lemma_cmp_bytes_antisym(a.skip(1), b.skip(1));
    }
}

/// The strict order `cmp_bytes(_, _) == -1` is transitive.
pub proof fn lemma_cmp_bytes_trans(a: Seq<u8>, b: Seq<u8>, c: Seq<u8>)
    requires
        cmp_bytes(a, b) == -1,
        cmp_bytes(b, c) == -1,
    ensures
        cmp_bytes(a, c) == -1,
    decreases a.len(),
{
    lemma_cmp_bytes_range(a, c);
    if a.len() == 0 {
        if c.len() == 0 {
            assert(b.len() != 0);
        }
    } else {
        assert(b.len() != 0);
        if c.len() != 0 {
            if a[0] == b[0] && b[0] == c[0] {
                lemma_cmp_bytes_trans(a.skip(1), b.skip(1), c.skip(1));
            }
        }
    }
}

/// Dropping a common prefix does not change the comparison.
pub proof fn lemma_cmp_bytes_common_prefix(a: Seq<u8>, b: Seq<u8>, i: int)
    requires
        0 <= i <= a.len(),
        i <= b.len(),
        forall|j: int| 0 <= j < i ==> a[j] == b[j],
    ensures
        cmp_bytes(a, b) == cmp_bytes(a.skip(i), b.skip(i)),
    decreases i,
{
    if i > 0 {
        assert(a.len() != 0 && b.len() != 0 && a[0] == b[0]);
        lemma_cmp_bytes_common_prefix(a.skip(1), b.skip(1), i - 1);
        assert(a.skip(1).skip(i - 1) =~= a.skip(i));
        assert(b.skip(1).skip(i - 1) =~= b.skip(i));
    } else {
        assert(a.skip(0) =~= a);
        assert(b.skip(0) =~= b);
    }
}

/// Compares two byte strings in lexicographic order.
pub fn compare_bytes(a: &Vec<u8>, b: &Vec<u8>) -> (r: i8)
    ensures
        r as int == cmp_bytes(a@, b@),
{
    let a_len: usize = a.len();
    let b_len: usize = b.len();
    let mut i: usize = 0;
    while i < a_len && i < b_len
        invariant
            0 <= i <= a_len,
            i <= b_len,
            a_len == a@.len(),
            b_len == b@.len(),
            forall|j: int| 0 <= j < i ==> a@[j] == b@[j],
        decreases a_len - i,
    {
        if a[i] < b[i] {
            proof {
                lemma_cmp_bytes_common_prefix(a@, b@, i as int);
            }
            return -1;
        }
        if a[i] > b[i] {
            proof {
                lemma_cmp_bytes_common_prefix(a@, b@, i as int);
            }
            return 1;
        }
        i = i + 1;
    }
    proof {
        lemma_cmp_bytes_common_prefix(a@, b@, i as int);
    }
    if a_len == b_len {
        0
    } else if a_len < b_len {
        -1
    } else {
        1
    }
}

/// Returns an exact copy of the given bytes.
pub fn copy_bytes(v: &Vec<u8>) -> (r: Vec<u8>)
    ensures
        r@ == v@,
{
    let mut r: Vec<u8> = Vec::new();
    let mut i: usize = 0;
    while i < v.len()
        invariant
            0 <= i <= v@.len(),
            r@ == v@.take(i as int),
        decreases v@.len() - i,
    {
        r.push(v[i]);
        proof {
            assert(v@.take(i + 1 as int) =~= v@.take(i as int).push(v@[i as int]));
        }
        i = i + 1;
    }
    proof {
        assert(v@.take(v@.len() as int) =~= v@);
    }
    r
}

/// True exactly when the two byte strings are equal.
pub fn bytes_eq(a: &Vec<u8>, b: &Vec<u8>) -> (r: bool)
    ensures
        r <==> (a@ == b@),
{
    proof {
        lemma_cmp_bytes_eq(a@, b@);
    }
    compare_bytes(a, b) == 0
}

} // verus!
