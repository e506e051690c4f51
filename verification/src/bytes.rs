use vstd::prelude::*;

verus! {

/// 256 to the power `n`.
pub open spec fn pow256(n: nat) -> nat
    decreases n,
{
    if n == 0 { 1 } else { 256 * pow256((n - 1) as nat) }
}

/// The unsigned number that bytes `s` encode, most significant byte first.
pub open spec fn be_value(s: Seq<u8>) -> nat
    decreases s.len(),
{
    if s.len() == 0 { 0 } else { be_value(s.drop_last()) * 256 + s.last() as nat }
}

/// The unsigned number that bytes `s` encode, least significant byte first.
pub open spec fn le_value(s: Seq<u8>) -> nat
    decreases s.len(),
{
    if s.len() == 0 { 0 } else { s[0] as nat + 256 * le_value(s.drop_first()) }
}

/// The little-endian `u32` stored at byte offset `off` of `s`.
pub open spec fn le_u32_at(s: Seq<u8>, off: int) -> nat {
    le_value(s.subrange(off, off + 4))
}

/// The little-endian two's-complement `i64` stored at byte offset `off` of `s`.
pub open spec fn le_i64_at(s: Seq<u8>, off: int) -> int {
    let u = le_value(s.subrange(off, off + 8));
    if u >= 0x8000_0000_0000_0000 { u - 0x1_0000_0000_0000_0000 } else { u as int }
}

pub proof fn lemma_pow256_positive(n: nat)
    ensures
        pow256(n) >= 1,
    decreases n,
{
    if n > 0 {
        lemma_pow256_positive((n - 1) as nat);
    }
}

/// A big-endian number of `n` bytes is below `256^n`.
pub proof fn lemma_be_value_bound(s: Seq<u8>)
    ensures
        be_value(s) < pow256(s.len()),
    decreases s.len(),
{
    if s.len() > 0 {
        let t = s.drop_last();
        lemma_be_value_bound(t);
        let a = be_value(t);
        let p = pow256(t.len());
        let b = s.last() as int;
        assert(a * 256 + b < p * 256) by (nonlinear_arith)
            requires
                a < p,
                0 <= b < 256,
        ;
        assert(pow256(s.len()) == 256 * p);
    }
}

/// Reads `bytes[from..to]` as a big-endian unsigned number.
pub fn be_u128_of(bytes: &[u8], from: usize, to: usize) -> (res: u128)
    requires
        from <= to <= bytes@.len(),
        to - from <= 16,
    ensures
        res == be_value(bytes@.subrange(from as int, to as int)),
{
    let mut acc: u128 = 0;
    let mut i: usize = from;
    proof { lemma_pow256_16(); }
    while i < to
        invariant
            from <= i <= to <= bytes@.len(),
            to - from <= 16,
            acc == be_value(bytes@.subrange(from as int, i as int)),
            pow256(16) == 0x1_0000_0000_0000_0000_0000_0000_0000_0000,
        decreases to - i,
    {
        let ghost prefix = bytes@.subrange(from as int, i as int);
        let ghost next = bytes@.subrange(from as int, i + 1);
        proof {
            assert(next.drop_last() =~= prefix);
            lemma_be_value_bound(next);
            lemma_pow256_monotone(next.len(), 16);
        }
        acc = acc * 256 + bytes[i] as u128;
        i = i + 1;
    }
    acc
}

pub proof fn lemma_pow256_16()
    ensures
        pow256(16) == 0x1_0000_0000_0000_0000_0000_0000_0000_0000,
{
    reveal_with_fuel(pow256, 17);
}

pub proof fn lemma_pow256_monotone(m: nat, n: nat)
    requires
        m <= n,
    ensures
        pow256(m) <= pow256(n),
    decreases n - m,
{
    if m < n {
        lemma_pow256_monotone(m, (n - 1) as nat);
        lemma_pow256_positive((n - 1) as nat);
    }
}

} // verus!
