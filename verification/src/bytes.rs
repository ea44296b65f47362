//! Big-endian unsigned integers, as stored in the MP4 `cnID` atom.

use vstd::prelude::*;

verus! {

/// `256` to the power `n`.
pub open spec fn pow256(n: nat) -> nat
    decreases n,
{
    if n == 0 {
        1
    } else {
        256 * pow256((n - 1) as nat)
    }
}

/// The unsigned value of a big-endian byte string (first byte most significant).
pub open spec fn be_value(bytes: Seq<u8>) -> nat
    decreases bytes.len(),
{
    if bytes.len() == 0 {
        0
    } else {
        be_value(bytes.drop_last()) * 256 + bytes.last() as nat
    }
}

/// What `be_uint` returns: the value of one to eight big-endian bytes.
pub open spec fn spec_be_uint(bytes: Seq<u8>) -> Option<u64> {
    if bytes.len() == 0 || bytes.len() > 8 {
        None
    } else {
        Some(be_value(bytes) as u64)
    }
}

/// The `k` low-order bytes of `n`, most significant first.
pub open spec fn be_bytes(n: nat, k: nat) -> Seq<u8>
    decreases k,
{
    if k == 0 {
        Seq::empty()
    } else {
        be_bytes(n / 256, (k - 1) as nat).push((n % 256) as u8)
    }
}

pub proof fn lemma_pow256_monotone(a: nat, b: nat)
    requires
        a <= b,
    ensures
        pow256(a) <= pow256(b),
    decreases b,
{
    if a < b {
        lemma_pow256_monotone(a, (b - 1) as nat);
    }
}

pub proof fn lemma_pow256_eight()
    ensures
        pow256(8) == 0x1_0000_0000_0000_0000,
{
    reveal_with_fuel(pow256, 9);
}

/// A big-endian value of `n` bytes is below `256^n`.
pub proof fn lemma_be_value_bound(bytes: Seq<u8>)
    ensures
        be_value(bytes) < pow256(bytes.len()),
    decreases bytes.len(),
{
    if bytes.len() > 0 {
        lemma_be_value_bound(bytes.drop_last());
    }
}

/// Decodes one to eight bytes as a big-endian unsigned integer; `None` for an
/// empty slice or one longer than eight bytes.
pub fn be_uint(bytes: &[u8]) -> (r: Option<u64>)
    ensures
        r == spec_be_uint(bytes@),
        r is Some <==> 1 <= bytes@.len() <= 8,
        r matches Some(v) ==> v as nat == be_value(bytes@),
{
    if bytes.len() == 0 || bytes.len() > 8 {
        return None;
    }
    let mut acc: u64 = 0;
    let mut i: usize = 0;
    while i < bytes.len()
        invariant
            i <= bytes@.len() <= 8,
            acc as nat == be_value(bytes@.take(i as int)),
        decreases bytes@.len() - i,
    {
        let ghost next = bytes@.take(i + 1);
        proof {
            assert(next.drop_last() =~= bytes@.take(i as int));
            lemma_be_value_bound(next);
            lemma_pow256_monotone(next.len(), 8);
            lemma_pow256_eight();
        }
        acc = acc * 256 + bytes[i] as u64;
        i = i + 1;
    }
    proof {
        assert(bytes@.take(i as int) =~= bytes@);
        lemma_be_value_bound(bytes@);
        lemma_pow256_monotone(bytes@.len(), 8);
        lemma_pow256_eight();
    }
    Some(acc)
}

/// Leading zero bytes do not change a big-endian value.
pub proof fn lemma_be_value_leading_zero(bytes: Seq<u8>)
    ensures
        be_value(seq![0u8] + bytes) == be_value(bytes),
    decreases bytes.len(),
{
    if bytes.len() > 0 {
        let whole = seq![0u8] + bytes;
        assert(whole.drop_last() =~= seq![0u8] + bytes.drop_last());
        assert(whole.last() == bytes.last());
        lemma_be_value_leading_zero(bytes.drop_last());
    } else {
        assert(seq![0u8] + bytes =~= seq![0u8]);
        assert(seq![0u8].drop_last() =~= Seq::<u8>::empty());
        assert(be_value(seq![0u8]) == be_value(Seq::<u8>::empty()) * 256 + 0);
    }
}

/// The `k`-byte big-endian encoding of `n < 256^k` decodes back to `n`.
pub proof fn lemma_be_bytes_roundtrip(n: nat, k: nat)
    requires
        n < pow256(k),
    ensures
        be_bytes(n, k).len() == k,
        be_value(be_bytes(n, k)) == n,
    decreases k,
{
    if k > 0 {
        let m = n / 256;
        assert(m < pow256((k - 1) as nat)) by (nonlinear_arith)
            requires
                n < 256 * pow256((k - 1) as nat),
                m == n / 256,
        ;
        lemma_be_bytes_roundtrip(m, (k - 1) as nat);
        let s = be_bytes(n, k);
        assert(s.drop_last() =~= be_bytes(m, (k - 1) as nat));
        assert(n == 256 * (n / 256) + n % 256) by (nonlinear_arith);
    } else {
        assert(n == 0) by {
            assert(pow256(0) == 1);
        }
    }
}

/// Decoding law: `be_uint` gives back any value from its big-endian encoding
/// in one to eight bytes, and zero padding in front changes nothing.
pub proof fn law_be_uint_decodes_encoding(n: nat, k: nat)
    requires
        1 <= k <= 8,
        n < pow256(k),
    ensures
        spec_be_uint(be_bytes(n, k)) == Some(n as u64),
        k < 8 ==> spec_be_uint(seq![0u8] + be_bytes(n, k)) == Some(n as u64),
{
    lemma_be_bytes_roundtrip(n, k);
    lemma_be_value_leading_zero(be_bytes(n, k));
}

} // verus!
