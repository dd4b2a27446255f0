//! Integers as fixed-width byte strings, in both byte orders.
use vstd::prelude::*;

verus! {

/// 256 to the power `n`: the number of values that `n` bytes can hold.
pub open spec fn pow256(n: nat) -> nat
    decreases n,
{
    if n == 0 {
        1
    } else {
        256 * pow256((n - 1) as nat)
    }
}

/// The unsigned value of a byte string read most significant byte first.
pub open spec fn be_value(s: Seq<u8>) -> nat
    decreases s.len(),
{
    if s.len() == 0 {
        0
    } else {
        be_value(s.drop_last()) * 256 + s.last() as nat
    }
}

/// The unsigned value of a byte string read least significant byte first.
pub open spec fn le_value(s: Seq<u8>) -> nat
    decreases s.len(),
{
    if s.len() == 0 {
        0
    } else {
        s[0] as nat + 256 * le_value(s.drop_first())
    }
}

/// The `n` low-order bytes of `v`, most significant first.
pub open spec fn be_bytes(v: nat, n: nat) -> Seq<u8>
    decreases n,
{
    if n == 0 {
        seq![]
    } else {
        be_bytes(v / 256, (n - 1) as nat).push((v % 256) as u8)
    }
}

/// The `n` low-order bytes of `v`, least significant first.
pub open spec fn le_bytes(v: nat, n: nat) -> Seq<u8>
    decreases n,
{
    if n == 0 {
        seq![]
    } else {
        seq![(v % 256) as u8] + le_bytes(v / 256, (n - 1) as nat)
    }
}

pub proof fn lemma_pow256_monotone(m: nat, n: nat)
    requires
        m <= n,
    ensures
        1 <= pow256(m) <= pow256(n),
    decreases n,
{
    if n > m {
        lemma_pow256_monotone(m, (n - 1) as nat);
    } else if n > 0 {
        lemma_pow256_monotone(0, (n - 1) as nat);
    }
}

pub proof fn lemma_pow256_facts()
    ensures
        pow256(2) == 0x1_0000,
        pow256(4) == 0x1_0000_0000,
        pow256(8) == 0x1_0000_0000_0000_0000,
        pow256(16) == 0x1_0000_0000_0000_0000_0000_0000_0000_0000,
{
    reveal_with_fuel(pow256, 17);
}

pub proof fn lemma_be_value_bound(s: Seq<u8>)
    ensures
        be_value(s) < pow256(s.len()),
    decreases s.len(),
{
    if s.len() > 0 {
        let d = s.drop_last();
        lemma_be_value_bound(d);
        let a = be_value(d);
        let p = pow256(d.len());
        let l = s.last() as nat;
        assert(a * 256 + l < 256 * p) by (nonlinear_arith)
            requires
                a < p,
                l < 256,
        ;
    }
}

pub proof fn lemma_le_value_bound(s: Seq<u8>)
    ensures
        le_value(s) < pow256(s.len()),
    decreases s.len(),
{
    if s.len() > 0 {
        let d = s.drop_first();
        lemma_le_value_bound(d);
        let a = le_value(d);
        let p = pow256(d.len());
        let f = s[0] as nat;
        assert(f + 256 * a < 256 * p) by (nonlinear_arith)
            requires
                a < p,
                f < 256,
        ;
    }
}

pub proof fn lemma_be_bytes_len(v: nat, n: nat)
    ensures
        be_bytes(v, n).len() == n,
    decreases n,
{
    if n > 0 {
        lemma_be_bytes_len(v / 256, (n - 1) as nat);
    }
}

/// Writing a value that fits in `n` bytes and reading it back gives the value.
pub proof fn lemma_be_value_of_bytes(v: nat, n: nat)
    requires
        v < pow256(n),
    ensures
        be_bytes(v, n).len() == n,
        be_value(be_bytes(v, n)) == v,
    decreases n,
{
    lemma_be_bytes_len(v, n);
    if n > 0 {
        let q = v / 256;
        let p = pow256((n - 1) as nat);
        assert(q < p) by (nonlinear_arith)
            requires
                v < 256 * p,
                q == v / 256,
        ;
        lemma_be_value_of_bytes(q, (n - 1) as nat);
        let s = be_bytes(v, n);
        assert(s.drop_last() =~= be_bytes(q, (n - 1) as nat));
        assert(v == q * 256 + v % 256) by (nonlinear_arith)
            requires
                q == v / 256,
        ;
    }
}

/// Reading a byte string and writing the value back gives the same bytes.
pub proof fn lemma_be_bytes_of_value(s: Seq<u8>)
    ensures
        be_bytes(be_value(s), s.len()) == s,
    decreases s.len(),
{
    if s.len() > 0 {
        let d = s.drop_last();
        lemma_be_bytes_of_value(d);
        let a = be_value(d);
        let l = s.last() as nat;
        let v = be_value(s);
        assert(v / 256 == a && v % 256 == l) by (nonlinear_arith)
            requires
                v == a * 256 + l,
                l < 256,
        ;
        assert(be_bytes(v, s.len()) =~= d.push(s.last()));
        assert(d.push(s.last()) =~= s);
    }
}

/// The value of two byte strings written one after the other.
pub proof fn lemma_be_value_append(a: Seq<u8>, b: Seq<u8>)
    ensures
        be_value(a + b) == be_value(a) * pow256(b.len()) + be_value(b),
    decreases b.len(),
{
    if b.len() == 0 {
        assert(a + b =~= a);
        assert(pow256(0) == 1);
        assert(be_value(a) * 1 == be_value(a)) by (nonlinear_arith);
    } else {
        let c = a + b;
        let d = b.drop_last();
        assert(c.drop_last() =~= a + d);
        lemma_be_value_append(a, d);
        let (va, vd, p) = (be_value(a), be_value(d), pow256(d.len()));
        let l = b.last() as nat;
        assert(c.last() == b.last());
        assert(pow256(b.len()) == 256 * p);
        assert(be_value(b) == vd * 256 + l);
        assert(be_value(c) == be_value(a + d) * 256 + l);
        assert((va * p + vd) * 256 + l == va * (256 * p) + (vd * 256 + l)) by (nonlinear_arith);
    }
}

/// Reads `n` bytes at `start` as a big-endian number.
pub fn read_be(buf: &[u8], start: usize, n: usize) -> (r: u128)
    requires
        start + n <= buf.len(),
        n <= 16,
    ensures
        r as nat == be_value(buf@.subrange(start as int, start + n)),
    decreases n,
{
    if n == 0 {
        0
    } else {
        let hi = read_be(buf, start, n - 1);
        let b = buf[start + (n - 1)];
        let ghost s = buf@.subrange(start as int, start + n);
        proof {
            assert(s.drop_last() =~= buf@.subrange(start as int, start + n - 1));
            lemma_be_value_bound(s);
            lemma_pow256_monotone(n as nat, 16);
            lemma_pow256_facts();
        }
        hi * 256 + b as u128
    }
}

/// Reads `n` bytes at `start` as a little-endian number.
pub fn read_le(buf: &[u8], start: usize, n: usize) -> (r: u64)
    requires
        start + n <= buf.len(),
        n <= 8,
    ensures
        r as nat == le_value(buf@.subrange(start as int, start + n)),
    decreases n,
{
    if n == 0 {
        0
    } else {
        let lo = buf[start];
        let rest = read_le(buf, start + 1, n - 1);
        let ghost s = buf@.subrange(start as int, start + n);
        proof {
            assert(s.drop_first() =~= buf@.subrange(start + 1, start + n));
            lemma_le_value_bound(s);
            lemma_pow256_monotone(n as nat, 8);
            lemma_pow256_facts();
        }
        lo as u64 + 256 * rest
    }
}

/// Appends the `n` low-order bytes of `v`, most significant first.
pub fn write_be(out: &mut Vec<u8>, v: u128, n: usize)
    ensures
        final(out)@ == old(out)@ + be_bytes(v as nat, n as nat),
    decreases n,
{
    if n > 0 {
        write_be(out, v / 256, n - 1);
        out.push((v % 256) as u8);
        assert(final(out)@ =~= old(out)@ + be_bytes(v as nat, n as nat));
    }
}

/// Appends the `n` low-order bytes of `v`, least significant first.
pub fn write_le(out: &mut Vec<u8>, v: u64, n: usize)
    ensures
        final(out)@ == old(out)@ + le_bytes(v as nat, n as nat),
    decreases n,
{
    if n > 0 {
        out.push((v % 256) as u8);
        write_le(out, v / 256, n - 1);
        assert(final(out)@ =~= old(out)@ + le_bytes(v as nat, n as nat));
    }
}

/// Copies the 32 bytes at `start` into an array.
pub fn read_array32(buf: &[u8], start: usize) -> (r: [u8; 32])
    requires
        start + 32 <= buf.len(),
    ensures
        r@ == buf@.subrange(start as int, start + 32),
{
    let mut a: [u8; 32] = [0u8; 32];
    for i in 0..32
        invariant
            start + 32 <= buf.len(),
            forall|j: int| 0 <= j < i ==> a[j] == buf@[start + j],
    {
        a[i] = buf[start + i];
    }
    assert(a@ =~= buf@.subrange(start as int, start + 32));
    a
}

/// Appends the 32 bytes of `a`.
pub fn write_array32(out: &mut Vec<u8>, a: &[u8; 32])
    ensures
        final(out)@ == old(out)@ + a@,
{
    let ghost start = out@;
    for i in 0..32
        invariant
            out@ == start + a@.subrange(0, i as int),
    {
        out.push(a[i]);
        assert(out@ =~= start + a@.subrange(0, i + 1));
    }
    assert(a@.subrange(0, 32) =~= a@);
}

/// Whether two 32-byte arrays are equal.
pub fn array32_eq(a: &[u8; 32], b: &[u8; 32]) -> (r: bool)
    ensures
        r == (*a == *b),
{
    for i in 0..32
        invariant
            forall|j: int| 0 <= j < i ==> a[j] == b[j],
    {
        if a[i] != b[i] {
            return false;
        }
    }
    assert(*a =~= *b);
    true
}

} // verus!
