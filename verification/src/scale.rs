//! SCALE encoding of the primitive values that the gossip messages are made of.

use vstd::prelude::*;
use parity_scale_codec::Encode;

verus! {

/// The `n` least significant bytes of `x`, least significant first.
pub open spec fn le_bytes(x: nat, n: nat) -> Seq<u8>
    decreases n,
{
    if n == 0 {
        Seq::empty()
    } else {
        seq![(x % 256) as u8] + le_bytes(x / 256, (n - 1) as nat)
    }
}

/// The SCALE compact encoding of a 32-bit length prefix.
pub open spec fn compact_u32(n: nat) -> Seq<u8> {
    if n < 64 {
        seq![(4 * n) as u8]
    } else if n < 0x4000 {
        le_bytes(4 * n + 1, 2)
    } else if n < 0x4000_0000 {
        le_bytes(4 * n + 2, 4)
    } else {
        seq![3u8] + le_bytes(n, 4)
    }
}

/// The SCALE encoding of a byte vector: its compact length, then its bytes.
pub open spec fn scale_bytes(v: Seq<u8>) -> Seq<u8> {
    compact_u32(v.len()) + v
}

/// `Encode::encode` of parity-scale-codec on a `u16`: its two bytes, little
/// endian.
#[verifier::external_body]
pub(crate) fn encode_u16(x: u16) -> (r: Vec<u8>)
    ensures
        r@ == le_bytes(x as nat, 2),
{
    x.encode()
}

/// `Encode::encode` of parity-scale-codec on a `u64`: its eight bytes, little
/// endian.
#[verifier::external_body]
pub(crate) fn encode_u64(x: u64) -> (r: Vec<u8>)
    ensures
        r@ == le_bytes(x as nat, 8),
{
    x.encode()
}

/// `Encode::encode` of parity-scale-codec on a byte array: the bytes
/// themselves, with no length prefix.
#[verifier::external_body]
pub(crate) fn encode_byte_array<const N: usize>(a: &[u8; N]) -> (r: Vec<u8>)
    ensures
        r@ == a@,
{
    a.encode()
}

/// `Encode::encode` of parity-scale-codec on a byte vector: the compact
/// encoding of its length, then its bytes. The codec panics on a length above
/// `u32::MAX`, which `requires` leaves out.
#[verifier::external_body]
pub(crate) fn encode_byte_vec(v: &Vec<u8>) -> (r: Vec<u8>)
    requires
        v.len() <= u32::MAX,
    ensures
        r@ == scale_bytes(v@),
{
    v.encode()
}

/// Reads a compact length prefix at the start of `s`: its value and the
/// number of bytes it takes.
pub open spec fn read_compact(s: Seq<u8>) -> (nat, nat) {
    let mode = s[0] as nat % 4;
    if mode == 0 {
        (s[0] as nat / 4, 1)
    } else if mode == 1 {
        ((s[0] as nat + 256 * s[1] as nat) / 4, 2)
    } else if mode == 2 {
        ((s[0] as nat + 256 * s[1] as nat + 65536 * s[2] as nat + 16777216 * s[3] as nat) / 4, 4)
    } else {
        (s[1] as nat + 256 * s[2] as nat + 65536 * s[3] as nat + 16777216 * s[4] as nat, 5)
    }
}

/// `le_bytes` yields `n` bytes.
pub proof fn lemma_le_bytes_len(x: nat, n: nat)
    ensures
        le_bytes(x, n).len() == n,
    decreases n,
{
    if n > 0 {
        lemma_le_bytes_len(x / 256, (n - 1) as nat);
    }
}

/// The bytes of `le_bytes(x, 2)` and `le_bytes(x, 4)`.
proof fn lemma_le_bytes_small(x: nat)
    ensures
        le_bytes(x, 2) == seq![(x % 256) as u8, (x / 256 % 256) as u8],
        le_bytes(x, 4) == seq![
            (x % 256) as u8,
            (x / 256 % 256) as u8,
            (x / 256 / 256 % 256) as u8,
            (x / 256 / 256 / 256 % 256) as u8,
        ],
{
    reveal_with_fuel(le_bytes, 5);
    assert(le_bytes(x, 2) =~= seq![(x % 256) as u8, (x / 256 % 256) as u8]);
    assert(le_bytes(x, 4) =~= seq![
        (x % 256) as u8,
        (x / 256 % 256) as u8,
        (x / 256 / 256 % 256) as u8,
        (x / 256 / 256 / 256 % 256) as u8,
    ]);
}

/// A number below `2^32` is the sum of its four little-endian bytes.
proof fn lemma_four_bytes(x: nat)
    requires
        x < 0x1_0000_0000,
    ensures
        x == (x % 256) + 256 * (x / 256 % 256) + 65536 * (x / 256 / 256 % 256) + 16777216 * (
        x / 256 / 256 / 256 % 256),
        x < 65536 ==> x == (x % 256) + 256 * (x / 256 % 256),
{
    let b0 = x % 256;
    let q0 = x / 256;
    let b1 = q0 % 256;
    let q1 = q0 / 256;
    let b2 = q1 % 256;
    let q2 = q1 / 256;
    let b3 = q2 % 256;
    assert(x == b0 + 256 * q0);
    assert(q0 == b1 + 256 * q1);
    assert(q1 == b2 + 256 * q2);
    assert(q2 < 256);
    assert(b3 == q2);
    assert(x < 65536 ==> q1 == 0);
}

/// The compact encoding of a 32-bit length reads back as that length, and
/// its size is its length.
pub proof fn lemma_read_compact(n: nat, rest: Seq<u8>)
    requires
        n <= u32::MAX,
    ensures
        read_compact(compact_u32(n) + rest) == (n, compact_u32(n).len()),
{
    let s = compact_u32(n) + rest;
    if n < 64 {
        assert(s[0] == (4 * n) as u8);
    } else if n < 0x4000 {
        let x = 4 * n + 1;
        lemma_le_bytes_small(x);
        lemma_four_bytes(x);
        assert(s[0] == (x % 256) as u8);
        assert(s[1] == (x / 256 % 256) as u8);
        assert(x % 256 % 4 == 1);
    } else if n < 0x4000_0000 {
        let x = 4 * n + 2;
        lemma_le_bytes_small(x);
        lemma_four_bytes(x);
        assert(s[0] == (x % 256) as u8);
        assert(s[1] == (x / 256 % 256) as u8);
        assert(s[2] == (x / 256 / 256 % 256) as u8);
        assert(s[3] == (x / 256 / 256 / 256 % 256) as u8);
        assert(x % 256 % 4 == 2);
    } else {
        lemma_le_bytes_small(n);
        lemma_four_bytes(n);
        assert(s[0] == 3u8);
        assert(s[1] == (n % 256) as u8);
        assert(s[2] == (n / 256 % 256) as u8);
        assert(s[3] == (n / 256 / 256 % 256) as u8);
        assert(s[4] == (n / 256 / 256 / 256 % 256) as u8);
    }
}

/// SCALE-encoded byte vectors are prefix free: one followed by anything can
/// be split back into the vector and what follows it.
pub proof fn lemma_scale_bytes_prefix_free(a: Seq<u8>, b: Seq<u8>, r1: Seq<u8>, r2: Seq<u8>)
    requires
        a.len() <= u32::MAX,
        b.len() <= u32::MAX,
        scale_bytes(a) + r1 == scale_bytes(b) + r2,
    ensures
        a == b,
        r1 == r2,
{
    let ca = compact_u32(a.len());
    let cb = compact_u32(b.len());
    assert(scale_bytes(a) + r1 =~= ca + (a + r1));
    assert(scale_bytes(b) + r2 =~= cb + (b + r2));
    lemma_read_compact(a.len(), a + r1);
    lemma_read_compact(b.len(), b + r2);
    let k: int = ca.len() as int;
    let s = scale_bytes(a) + r1;
    assert(a =~= s.subrange(k, k + a.len()));
    assert(b =~= s.subrange(k, k + b.len()));
    assert(r1 =~= s.subrange(k + a.len(), s.len() as int));
    assert(r2 =~= s.subrange(k + b.len(), s.len() as int));
}

} // verus!
