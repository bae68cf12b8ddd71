//! The SCALE wire encoding of the values that make up signing payloads,
//! storage keys and getter results.

use vstd::prelude::*;

verus! {

/// `len` little-endian bytes of `n` (higher bytes beyond `len` are dropped).
pub open spec fn le_bytes(n: nat, len: nat) -> Seq<u8>
    decreases len,
{
    if len == 0 {
        Seq::empty()
    } else {
        seq![(n % 256) as u8] + le_bytes(n / 256, (len - 1) as nat)
    }
}

/// The number that a little-endian byte string denotes.
pub open spec fn le_value(s: Seq<u8>) -> nat
    decreases s.len(),
{
    if s.len() == 0 {
        0
    } else {
        s[0] as nat + 256 * le_value(s.subrange(1, s.len() as int))
    }
}

/// SCALE encoding of a `u32` (and of a collection length) in compact form.
pub open spec fn compact_bytes(n: nat) -> Seq<u8> {
    if n < 64 {
        le_bytes(n * 4, 1)
    } else if n < 16384 {
        le_bytes(n * 4 + 1, 2)
    } else if n < 0x4000_0000 {
        le_bytes(n * 4 + 2, 4)
    } else {
        seq![3u8] + le_bytes(n, 4)
    }
}

/// An `Option` in SCALE form: a tag byte, then the value if present.
pub open spec fn option_bytes(present: bool, value: Seq<u8>) -> Seq<u8> {
    if present {
        seq![1u8] + value
    } else {
        seq![0u8]
    }
}

/// Two's complement of a signed number on `bits` bits.
pub open spec fn twos(v: int, bits: nat) -> nat {
    if v >= 0 {
        v as nat
    } else {
        (v + vstd::arithmetic::power2::pow2(bits)) as nat
    }
}

pub open spec fn u8_bytes(v: u8) -> Seq<u8> {
    le_bytes(v as nat, 1)
}

pub open spec fn u32_bytes(v: u32) -> Seq<u8> {
    le_bytes(v as nat, 4)
}

pub open spec fn u64_bytes(v: u64) -> Seq<u8> {
    le_bytes(v as nat, 8)
}

pub open spec fn u128_bytes(v: u128) -> Seq<u8> {
    le_bytes(v as nat, 16)
}

pub open spec fn i32_bytes(v: i32) -> Seq<u8> {
    le_bytes(twos(v as int, 32), 4)
}

pub open spec fn i128_bytes(v: i128) -> Seq<u8> {
    le_bytes(twos(v as int, 128), 16)
}

proof fn lemma_le_bytes_len(n: nat, len: nat)
    ensures
        le_bytes(n, len).len() == len,
    decreases len,
{
    if len > 0 {
        lemma_le_bytes_len(n / 256, (len - 1) as nat);
    }
}

/// Appends `len` little-endian bytes of `v`.
pub fn push_le(out: &mut Vec<u8>, v: u128, len: usize)
    ensures
        final(out)@ == old(out)@ + le_bytes(v as nat, len as nat),
{
    let mut x: u128 = v;
    let mut i: usize = 0;
    while i < len
        invariant
            i <= len,
            out@ + le_bytes(x as nat, (len - i) as nat) == old(out)@ + le_bytes(v as nat, len as nat),
        decreases len - i,
    {
        let ghost before = out@;
        let ghost rest = le_bytes((x / 256) as nat, (len - i - 1) as nat);
        assert(le_bytes(x as nat, (len - i) as nat) == seq![(x % 256) as u8] + rest);
        out.push((x % 256) as u8);
        assert(out@ + rest =~= before + (seq![(x % 256) as u8] + rest));
        x = x / 256;
        i = i + 1;
    }
    assert(le_bytes(x as nat, 0) =~= Seq::<u8>::empty());
    assert(out@ + Seq::<u8>::empty() =~= out@);
}

pub fn push_u8(out: &mut Vec<u8>, v: u8)
    ensures
        final(out)@ == old(out)@ + u8_bytes(v),
{
    push_le(out, v as u128, 1);
}

pub fn push_u32(out: &mut Vec<u8>, v: u32)
    ensures
        final(out)@ == old(out)@ + u32_bytes(v),
{
    push_le(out, v as u128, 4);
}

pub fn push_u64(out: &mut Vec<u8>, v: u64)
    ensures
        final(out)@ == old(out)@ + u64_bytes(v),
{
    push_le(out, v as u128, 8);
}

pub fn push_u128(out: &mut Vec<u8>, v: u128)
    ensures
        final(out)@ == old(out)@ + u128_bytes(v),
{
    push_le(out, v, 16);
}

pub fn push_i32(out: &mut Vec<u8>, v: i32)
    ensures
        final(out)@ == old(out)@ + i32_bytes(v),
{
    let u: u128 = if v >= 0 {
        v as u128
    } else {
        (v as i64 + 0x1_0000_0000i64) as u128
    };
    proof {
        vstd::arithmetic::power2::lemma2_to64();
    }
    push_le(out, u, 4);
}

pub fn push_i128(out: &mut Vec<u8>, v: i128)
    ensures
        final(out)@ == old(out)@ + i128_bytes(v),
{
    let u: u128 = if v >= 0 {
        v as u128
    } else {
        // v + 2^128, written as (v + 2^127) + 2^127 to stay in range
        ((v + 0x7fff_ffff_ffff_ffff_ffff_ffff_ffff_ffffi128 + 1) as u128) + 0x8000_0000_0000_0000_0000_0000_0000_0000u128
    };
    proof {
        vstd::arithmetic::power2::lemma_pow2_unfold(128);
        assert(vstd::arithmetic::power2::pow2(128) == 0x1_0000_0000_0000_0000_0000_0000_0000_0000) by {
            vstd::arithmetic::power2::lemma2_to64_rest();
            vstd::arithmetic::power2::lemma_pow2_adds(64, 64);
        }
    }
    push_le(out, u, 16);
}

/// Appends the bytes of `b` unchanged.
pub fn push_bytes(out: &mut Vec<u8>, b: &[u8])
    ensures
        final(out)@ == old(out)@ + b@,
{
    out.extend_from_slice(b);
}

/// Appends a collection length in compact form.
pub fn push_compact(out: &mut Vec<u8>, n: u32)
    ensures
        final(out)@ == old(out)@ + compact_bytes(n as nat),
{
    if n < 64 {
        push_le(out, (n as u128) * 4, 1);
    } else if n < 16384 {
        push_le(out, (n as u128) * 4 + 1, 2);
    } else if n < 0x4000_0000 {
        push_le(out, (n as u128) * 4 + 2, 4);
    } else {
        out.push(3u8);
        let ghost mid = out@;
        push_le(out, n as u128, 4);
        assert(out@ =~= old(out)@ + (seq![3u8] + le_bytes(n as nat, 4)));
    }
}

/// 256 to the power `n`.
pub open spec fn pow256(n: nat) -> nat
    decreases n,
{
    if n == 0 {
        1
    } else {
        256 * pow256((n - 1) as nat)
    }
}

proof fn lemma_pow256_mono(a: nat, b: nat)
    requires
        a <= b,
    ensures
        pow256(a) <= pow256(b),
    decreases b,
{
    if a < b {
        lemma_pow256_mono(a, (b - 1) as nat);
    }
}

proof fn lemma_le_value_bound(s: Seq<u8>)
    ensures
        le_value(s) < pow256(s.len()),
    decreases s.len(),
{
    if s.len() > 0 {
        let t = s.subrange(1, s.len() as int);
        lemma_le_value_bound(t);
        let p = pow256(t.len());
        assert(s[0] as nat + 256 * le_value(t) < 256 * p) by (nonlinear_arith)
            requires
                s[0] < 256,
                le_value(t) < p,
        ;
    }
}

/// Reads the little-endian number in `b[start..end]`, at most eight bytes.
pub fn read_le(b: &[u8], start: usize, end: usize) -> (r: u64)
    requires
        start <= end <= b@.len(),
        end - start <= 8,
    ensures
        r as nat == le_value(b@.subrange(start as int, end as int)),
{
    proof {
        reveal_with_fuel(pow256, 9);
    }
    assert(pow256(8) == 0x1_0000_0000_0000_0000);
    let mut acc: u128 = 0;
    let mut i: usize = end;
    assert(b@.subrange(end as int, end as int) =~= Seq::<u8>::empty());
    while i > start
        invariant
            start <= i <= end,
            end <= b@.len(),
            end - start <= 8,
            pow256(8) == 0x1_0000_0000_0000_0000,
            acc as nat == le_value(b@.subrange(i as int, end as int)),
        decreases i,
    {
        let ghost t = b@.subrange(i as int, end as int);
        let ghost s = b@.subrange(i - 1, end as int);
        assert(s.subrange(1, s.len() as int) =~= t);
        proof {
            lemma_le_value_bound(s);
            lemma_pow256_mono(s.len(), 8);
        }
        acc = (b[i - 1] as u128) + 256 * acc;
        i = i - 1;
    }
    proof {
        lemma_le_value_bound(b@.subrange(start as int, end as int));
        lemma_pow256_mono((end - start) as nat, 8);
    }
    acc as u64
}

/// Reads a `u64` from exactly eight little-endian bytes; `None` for any other length.
pub fn decode_u64(b: &[u8]) -> (r: Option<u64>)
    ensures
        b@.len() == 8 ==> r == Some(le_value(b@) as u64) && le_value(b@) < 0x1_0000_0000_0000_0000,
        b@.len() != 8 ==> r.is_none(),
{
    if b.len() != 8 {
        return None;
    }
    let v = read_le(b, 0, 8);
    assert(b@.subrange(0, 8) =~= b@);
    Some(v)
}

/// A compact-encoded number at the start of `s` (up to `u32` range): its
/// value and how many bytes it takes.
pub open spec fn compact_prefix(s: Seq<u8>) -> Option<(nat, nat)> {
    if s.len() == 0 {
        None
    } else if s[0] % 4 == 0 {
        Some(((s[0] / 4) as nat, 1))
    } else if s[0] % 4 == 1 {
        if s.len() >= 2 {
            Some((le_value(s.subrange(0, 2)) / 4, 2))
        } else {
            None
        }
    } else if s[0] % 4 == 2 {
        if s.len() >= 4 {
            Some((le_value(s.subrange(0, 4)) / 4, 4))
        } else {
            None
        }
    } else if s[0] == 3 && s.len() >= 5 {
        Some((le_value(s.subrange(1, 5)), 5))
    } else {
        None
    }
}

/// Reads a compact-encoded number at the start of `b`.
pub fn decode_compact_prefix(b: &[u8]) -> (r: Option<(u64, usize)>)
    ensures
        match compact_prefix(b@) {
            None => r is None,
            Some((n, k)) => r == Some((n as u64, k as usize)) && n < 0x1_0000_0000,
        },
{
    if b.len() == 0 {
        return None;
    }
    let m = b[0] % 4;
    if m == 0 {
        Some(((b[0] / 4) as u64, 1))
    } else if m == 1 {
        if b.len() >= 2 {
            proof {
                lemma_le_value_bound(b@.subrange(0, 2));
                reveal_with_fuel(pow256, 3);
            }
            Some((read_le(b, 0, 2) / 4, 2))
        } else {
            None
        }
    } else if m == 2 {
        if b.len() >= 4 {
            proof {
                lemma_le_value_bound(b@.subrange(0, 4));
                reveal_with_fuel(pow256, 5);
            }
            Some((read_le(b, 0, 4) / 4, 4))
        } else {
            None
        }
    } else if b[0] == 3 && b.len() >= 5 {
        proof {
            lemma_le_value_bound(b@.subrange(1, 5));
            reveal_with_fuel(pow256, 5);
        }
        Some((read_le(b, 1, 5), 5))
    } else {
        None
    }
}

/// A compact-encoded count `n` followed by `n` items of `size` bytes each, as
/// a SCALE decoder reads them from the start of `b` (bytes after the last item are not read).
pub open spec fn fixed_items(b: Seq<u8>, size: nat) -> Option<Seq<Seq<u8>>> {
    match compact_prefix(b) {
        Some((n, k)) => if k + size * n <= b.len() {
            Some(Seq::new(n, |i: int| b.subrange(k + size * i, k + size * i + size)))
        } else {
            None
        },
        None => None,
    }
}

/// Where the items of a list of `size`-byte items start in `b`, and how many there are.
pub fn decode_fixed_header(b: &[u8], size: usize) -> (r: Option<(usize, usize)>)
    requires
        0 < size <= 64,
    ensures
        match fixed_items(b@, size as nat) {
            None => r is None,
            Some(items) => r matches Some((k, n)) && n == items.len() && compact_prefix(b@) == Some((n as nat, k as nat))
                && k + size * n <= b@.len(),
        },
{
    match decode_compact_prefix(b) {
        None => None,
        Some((n, k)) => {
            assert(n < 0x1_0000_0000);
            assert((size as u128) * (n as u128) <= 64 * 0x1_0000_0000) by (nonlinear_arith)
                requires
                    size <= 64,
                    n < 0x1_0000_0000,
            ;
            if (k as u128) + (size as u128) * (n as u128) > b.len() as u128 {
                None
            } else {
                assert(n <= b@.len()) by (nonlinear_arith)
                    requires (k as int) + (size as int) * (n as int) <= b@.len(), size >= 1, k >= 0;
                Some((k, n as usize))
            }
        },
    }
}

} // verus!
