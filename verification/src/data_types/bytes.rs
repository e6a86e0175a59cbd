//! Little-endian integer encoding of byte sequences.
//!
//! Every multi-byte field of a UEFI structure is stored in little-endian
//! order. The model is a pair of spec functions, `le_decode` and
//! `le_encode`, and the executable readers and writers are proved against
//! them.
use vstd::prelude::*;

verus! {

/// `256` raised to the power `n`.
pub open spec fn pow256(n: nat) -> nat
    decreases n,
{
    if n == 0 {
        1
    } else {
        256 * pow256((n - 1) as nat)
    }
}

/// The number stored little-endian in `s` (first byte least significant).
pub open spec fn le_decode(s: Seq<u8>) -> nat
    decreases s.len(),
{
    if s.len() == 0 {
        0
    } else {
        s[0] as nat + 256 * le_decode(s.drop_first())
    }
}

/// The `n` low bytes of `v`, least significant first.
pub open spec fn le_encode(v: nat, n: nat) -> Seq<u8>
    decreases n,
{
    if n == 0 {
        Seq::empty()
    } else {
        seq![(v % 256) as u8] + le_encode(v / 256, (n - 1) as nat)
    }
}

/// The number stored little-endian in `n` bytes of `s` at `off`.
pub open spec fn le_at(s: Seq<u8>, off: int, n: int) -> nat {
    le_decode(s.subrange(off, off + n))
}

pub proof fn lemma_pow256_positive(n: nat)
    ensures
        pow256(n) >= 1,
    decreases n,
{
    if n > 0 {
        lemma_pow256_positive((n - 1) as nat);
    }
}

pub proof fn lemma_pow256_values()
    ensures
        pow256(1) == 0x100,
        pow256(2) == 0x10000,
        pow256(4) == 0x1_0000_0000,
        pow256(6) == 0x1_0000_0000_0000,
        pow256(8) == 0x1_0000_0000_0000_0000,
{
    reveal_with_fuel(pow256, 9);
}

/// Encoding gives `n` bytes.
pub proof fn lemma_le_encode_len(v: nat, n: nat)
    ensures
        le_encode(v, n).len() == n,
    decreases n,
{
    if n > 0 {
        lemma_le_encode_len(v / 256, (n - 1) as nat);
    }
}

/// A decoded value is less than `256^len`.
pub proof fn lemma_le_decode_bound(s: Seq<u8>)
    ensures
        le_decode(s) < pow256(s.len()),
    decreases s.len(),
{
    if s.len() > 0 {
        lemma_le_decode_bound(s.drop_first());
        let r = le_decode(s.drop_first());
        let p = pow256((s.len() - 1) as nat);
        assert(r + 1 <= p);
        assert(256 * (r + 1) <= 256 * p) by (nonlinear_arith)
            requires
                r + 1 <= p,
        ;
    }
}

/// Decoding the encoding of a value that fits in `n` bytes gives it back.
pub proof fn lemma_le_roundtrip(v: nat, n: nat)
    requires
        v < pow256(n),
    ensures
        le_encode(v, n).len() == n,
        le_decode(le_encode(v, n)) == v,
    decreases n,
{
    lemma_le_encode_len(v, n);
    if n > 0 {
        let p = pow256((n - 1) as nat);
        assert(v / 256 < p) by {
            vstd::arithmetic::div_mod::lemma_fundamental_div_mod(v as int, 256);
            assert(v / 256 < p) by (nonlinear_arith)
                requires
                    v < 256 * p,
                    v == 256 * (v / 256) + v % 256,
                    0 <= v % 256,
            ;
        }
        lemma_le_roundtrip(v / 256, (n - 1) as nat);
        let e = le_encode(v, n);
        assert(e.drop_first() =~= le_encode(v / 256, (n - 1) as nat));
        vstd::arithmetic::div_mod::lemma_fundamental_div_mod(v as int, 256);
    }
}

/// Encoding the decoding of a byte sequence gives it back.
pub proof fn lemma_le_decode_encode(s: Seq<u8>)
    ensures
        le_encode(le_decode(s), s.len()) =~= s,
    decreases s.len(),
{
    if s.len() > 0 {
        lemma_le_decode_encode(s.drop_first());
        let v = le_decode(s);
        let r = le_decode(s.drop_first());
        assert(v % 256 == s[0] as nat && v / 256 == r) by {
            vstd::arithmetic::div_mod::lemma_fundamental_div_mod_converse(
                v as int,
                256,
                r as int,
                s[0] as int,
            );
        }
        assert(le_encode(v, s.len()) =~= seq![s[0]] + s.drop_first());
    }
}

/// Splitting an encoding at its last byte.
pub proof fn lemma_le_encode_snoc(v: nat, n: nat)
    ensures
        le_encode(v, n + 1) =~= le_encode(v, n).push(((v / pow256(n)) % 256) as u8),
    decreases n,
{
    if n == 0 {
        assert(v / 1 == v);
        assert(le_encode(v / 256, 0) =~= Seq::<u8>::empty());
        assert(le_encode(v, 1) =~= seq![(v % 256) as u8]);
    } else {
        lemma_le_encode_snoc(v / 256, (n - 1) as nat);
        lemma_pow256_positive((n - 1) as nat);
        vstd::arithmetic::div_mod::lemma_div_denominator(
            v as int,
            256,
            pow256((n - 1) as nat) as int,
        );
    }
}

/// Decoding a sequence split at its first byte, in terms of `le_at`.
pub proof fn lemma_le_at_step(s: Seq<u8>, off: int, n: int)
    requires
        0 <= off,
        0 < n,
        off + n <= s.len(),
    ensures
        le_at(s, off, n) == s[off] as nat + 256 * le_at(s, off + 1, n - 1),
{
    assert(s.subrange(off, off + n).drop_first() =~= s.subrange(off + 1, off + n));
}

/// Reads the `n`-byte little-endian number at `off`.
pub fn read_le(s: &[u8], off: usize, n: usize) -> (r: u64)
    requires
        n <= 8,
        off + n <= s.len(),
    ensures
        r as nat == le_at(s@, off as int, n as int),
        r < pow256(n as nat),
{
    let mut acc: u64 = 0;
    let mut i: usize = n;
    proof {
        assert(s@.subrange(off as int + n, off as int + n) =~= Seq::<u8>::empty());
        lemma_pow256_values();
    }
    while i > 0
        invariant
            n <= 8,
            off + n <= s.len(),
            i <= n,
            acc as nat == le_at(s@, off + i, (n - i) as int),
            acc < pow256((n - i) as nat),
            pow256(8) == 0x1_0000_0000_0000_0000,
        decreases i,
    {
        i = i - 1;
        proof {
            lemma_le_at_step(s@, off + i, (n - i) as int);
            assert(pow256((n - i) as nat) == 256 * pow256((n - i - 1) as nat));
            lemma_pow256_mono((n - i) as nat, 8);
            assert(256 * acc + 255 < pow256((n - i) as nat)) by (nonlinear_arith)
                requires
                    acc < pow256((n - i - 1) as nat),
                    pow256((n - i) as nat) == 256 * pow256((n - i - 1) as nat),
            ;
        }
        let idx = off + i;
        let b = s[idx] as u64;
        acc = b + acc * 256;
    }
    acc
}

pub proof fn lemma_pow256_mono(a: nat, b: nat)
    requires
        a <= b,
    ensures
        pow256(a) <= pow256(b),
    decreases b,
{
    if a < b {
        lemma_pow256_mono(a, (b - 1) as nat);
        lemma_pow256_positive((b - 1) as nat);
    }
}

/// Appends the `n` low bytes of `v`, least significant first.
pub fn push_le(out: &mut Vec<u8>, v: u64, n: usize)
    requires
        n <= 8,
    ensures
        final(out)@ =~= old(out)@ + le_encode(v as nat, n as nat),
{
    let mut x: u64 = v;
    let mut i: usize = 0;
    proof {
        assert(le_encode(v as nat, 0) =~= Seq::<u8>::empty());
        assert(pow256(0) == 1);
    }
    while i < n
        invariant
            n <= 8,
            i <= n,
            x as nat == v as nat / pow256(i as nat),
            out@ =~= old(out)@ + le_encode(v as nat, i as nat),
        decreases n - i,
    {
        proof {
            lemma_le_encode_snoc(v as nat, i as nat);
            lemma_pow256_positive(i as nat);
            vstd::arithmetic::div_mod::lemma_div_denominator(
                v as int,
                pow256(i as nat) as int,
                256,
            );
            assert(pow256((i + 1) as nat) == 256 * pow256(i as nat));
        }
        out.push((x % 256) as u8);
        x = x / 256;
        i = i + 1;
    }
}

/// Copies the `N` bytes of `s` that start at `off`.
pub fn read_array<const N: usize>(s: &[u8], off: usize) -> (a: [u8; N])
    requires
        off + N <= s.len(),
    ensures
        a@ == s@.subrange(off as int, off + N),
{
    let mut a: [u8; N] = [0u8; N];
    let mut i: usize = 0;
    while i < N
        invariant
            off + N <= s.len(),
            i <= N,
            a@.len() == N,
            forall|j: int| 0 <= j < i ==> a@[j] == s@[off + j],
        decreases N - i,
    {
        a[i] = s[off + i];
        i = i + 1;
    }
    proof {
        assert(a@ =~= s@.subrange(off as int, off + N));
    }
    a
}

/// Appends the bytes of `src`.
pub fn push_bytes(out: &mut Vec<u8>, src: &[u8])
    ensures
        final(out)@ == old(out)@ + src@,
{
    let mut i: usize = 0;
    while i < src.len()
        invariant
            i <= src@.len(),
            out@ =~= old(out)@ + src@.subrange(0, i as int),
        decreases src@.len() - i,
    {
        out.push(src[i]);
        i = i + 1;
    }
    proof {
        assert(src@.subrange(0, src@.len() as int) =~= src@);
    }
}

} // verus!
