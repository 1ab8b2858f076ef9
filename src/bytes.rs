//! Little-endian integers in byte sequences.

use byteorder::{ByteOrder, LittleEndian};
use vstd::prelude::*;

verus! {

/// The unsigned integer whose little-endian encoding is `s`.
pub open spec fn le_value(s: Seq<u8>) -> nat
    decreases s.len(),
{
    if s.len() == 0 {
        0
    } else {
        s[0] as nat + 256 * le_value(s.drop_first())
    }
}

/// The `k` low bytes of `n`, least significant first.
pub open spec fn le_seq(n: nat, k: nat) -> Seq<u8>
    decreases k,
{
    if k == 0 {
        Seq::empty()
    } else {
        seq![(n % 256) as u8] + le_seq(n / 256, (k - 1) as nat)
    }
}

/// 256 to the power `k`: the bound of a `k`-byte number.
pub open spec fn pow256(k: nat) -> nat
    decreases k,
{
    if k == 0 {
        1
    } else {
        256 * pow256((k - 1) as nat)
    }
}

/// An encoding in `k` bytes is `k` bytes long.
pub proof fn lemma_le_seq_len(n: nat, k: nat)
    ensures
        le_seq(n, k).len() == k,
    decreases k,
{
    if k > 0 {
        lemma_le_seq_len(n / 256, (k - 1) as nat);
    }
}

/// Reading back an encoding gives the number, where it fits.
pub proof fn lemma_le_value_of_le_seq(n: nat, k: nat)
    requires
        n < pow256(k),
    ensures
        le_value(le_seq(n, k)) == n,
        le_seq(n, k).len() == k,
    decreases k,
{
    lemma_le_seq_len(n, k);
    if k > 0 {
        let s = le_seq(n, k);
        assert(n / 256 < pow256((k - 1) as nat)) by (nonlinear_arith)
            requires
                n < 256 * pow256((k - 1) as nat),
        ;
        lemma_le_value_of_le_seq(n / 256, (k - 1) as nat);
        assert(s.drop_first() =~= le_seq(n / 256, (k - 1) as nat));
    }
}

/// Every `u128` fits in 16 bytes.
pub proof fn lemma_u128_bound(n: u128)
    ensures
        (n as nat) < pow256(16),
{
    reveal_with_fuel(pow256, 17);
}

/// Relies on byteorder's `LittleEndian::read_u64`: the first eight bytes,
/// least significant first.
#[verifier::external_body]
pub(crate) fn read_u64_le(buf: &[u8]) -> (r: u64)
    requires
        buf@.len() >= 8,
    ensures
        r as nat == le_value(buf@.subrange(0, 8)),
{
    LittleEndian::read_u64(buf)
}

/// Relies on byteorder's `LittleEndian::read_u128`: the first sixteen bytes,
/// least significant first.
#[verifier::external_body]
pub(crate) fn read_u128_le(buf: &[u8]) -> (r: u128)
    requires
        buf@.len() >= 16,
    ensures
        r as nat == le_value(buf@.subrange(0, 16)),
{
    LittleEndian::read_u128(buf)
}

/// Relies on byteorder's `LittleEndian::write_u64`: eight bytes, least
/// significant first.
#[verifier::external_body]
pub(crate) fn u64_le_bytes(n: u64) -> (r: [u8; 8])
    ensures
        r@ == le_seq(n as nat, 8),
{
    let mut buf = [0u8; 8];
    LittleEndian::write_u64(&mut buf, n);
    buf
}

/// The bytes of `v` as an array.
pub(crate) fn to_array<const N: usize>(v: &[u8]) -> (a: [u8; N])
    requires
        v@.len() == N,
    ensures
        a@ == v@,
{
    let mut a = [0u8; N];
    let mut i: usize = 0;
    while i < N
        invariant
            i <= N,
            v@.len() == N,
            a@.len() == N,
            forall|j: int| 0 <= j < i ==> a@[j] == v@[j],
        decreases N - i,
    {
        a[i] = v[i];
        i = i + 1;
    }
    assert(a@ =~= v@);
    a
}

} // verus!
