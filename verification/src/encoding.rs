//! Integers as bytes: the fixed-width form used in signed payloads and the
//! decimal form used in keys and event records.

use vstd::prelude::*;

verus! {

/// The 64-bit two's-complement pattern of `v`, read as an unsigned number.
pub open spec fn unsigned64(v: i64) -> int {
    if v >= 0 {
        v as int
    } else {
        v + 0x1_0000_0000_0000_0000
    }
}

/// The low eight bytes of the number `u`, most significant first.
pub open spec fn be_bytes_of(u: int) -> Seq<u8> {
    seq![
        ((u / 0x100_0000_0000_0000) % 256) as u8,
        ((u / 0x1_0000_0000_0000) % 256) as u8,
        ((u / 0x100_0000_0000) % 256) as u8,
        ((u / 0x1_0000_0000) % 256) as u8,
        ((u / 0x100_0000) % 256) as u8,
        ((u / 0x1_0000) % 256) as u8,
        ((u / 0x100) % 256) as u8,
        (u % 256) as u8,
    ]
}

/// The eight bytes of `v` in two's complement, most significant first.
pub open spec fn be_bytes(v: i64) -> Seq<u8> {
    be_bytes_of(unsigned64(v))
}

/// The decimal digits of `n` as ASCII, without leading zeros.
pub open spec fn digits(n: nat) -> Seq<u8>
    decreases n,
{
    if n < 10 {
        seq![(48 + n) as u8]
    } else {
        digits(n / 10).push((48 + n % 10) as u8)
    }
}

/// The decimal text of `v`: a minus sign for a negative number, then its
/// digits.
pub open spec fn decimal(v: i64) -> Seq<u8> {
    if v < 0 {
        seq![45u8] + digits((-v) as nat)
    } else {
        digits(v as nat)
    }
}

/// The unsigned reading of the bit pattern of `v`.
fn to_unsigned(v: i64) -> (u: u64)
    ensures
        u as int == unsigned64(v),
{
    if v >= 0 {
        v as u64
    } else {
        let low: u64 = (v - i64::MIN) as u64;
        low + 0x8000_0000_0000_0000u64
    }
}

/// The magnitude of `v`.
fn magnitude(v: i64) -> (u: u64)
    ensures
        u as int == if v < 0 {
            -(v as int)
        } else {
            v as int
        },
{
    if v >= 0 {
        v as u64
    } else {
        let below: u64 = (-(v + 1)) as u64;
        below + 1
    }
}

/// Appends the eight big-endian bytes of `u` to `out`.
pub fn push_be_unsigned(out: &mut Vec<u8>, u: u64)
    ensures
        final(out)@ == old(out)@ + be_bytes_of(u as int),
{
    let ghost start = out@;
    out.push(((u / 0x100_0000_0000_0000u64) % 256) as u8);
    out.push(((u / 0x1_0000_0000_0000u64) % 256) as u8);
    out.push(((u / 0x100_0000_0000u64) % 256) as u8);
    out.push(((u / 0x1_0000_0000u64) % 256) as u8);
    out.push(((u / 0x100_0000u64) % 256) as u8);
    out.push(((u / 0x1_0000u64) % 256) as u8);
    out.push(((u / 0x100u64) % 256) as u8);
    out.push((u % 256) as u8);
    assert(out@ =~= start + be_bytes_of(u as int));
}

/// Appends the eight big-endian bytes of `v` to `out`.
pub fn push_be_bytes(out: &mut Vec<u8>, v: i64)
    ensures
        final(out)@ == old(out)@ + be_bytes(v),
{
    push_be_unsigned(out, to_unsigned(v));
}

/// The eight bytes of `v`, most significant first.
pub fn to_be_bytes(v: i64) -> (out: Vec<u8>)
    ensures
        out@ == be_bytes(v),
{
    let mut out: Vec<u8> = Vec::new();
    push_be_bytes(&mut out, v);
    assert(Seq::<u8>::empty() + be_bytes(v) =~= be_bytes(v));
    out
}

/// Appends the decimal text of `v` to `out`.
pub fn push_decimal(out: &mut Vec<u8>, v: i64)
    ensures
        final(out)@ == old(out)@ + decimal(v),
{
    let ghost start = out@;
    let total: u64 = magnitude(v);
    let mut low_first: Vec<u8> = Vec::new();
    let mut n: u64 = total;
    while n >= 10
        invariant
            digits(total as nat) == digits(n as nat) + Seq::new(
                low_first@.len(),
                |j: int| low_first@[low_first@.len() - 1 - j],
            ),
        decreases n,
    {
        let ghost prev = low_first@;
        low_first.push((48 + n % 10) as u8);
        assert(digits(n as nat) + Seq::new(prev.len(), |j: int| prev[prev.len() - 1 - j])
            =~= digits((n / 10) as nat) + Seq::new(
            low_first@.len(),
            |j: int| low_first@[low_first@.len() - 1 - j],
        ));
        n = n / 10;
    }
    if v < 0 {
        out.push(45u8);
    }
    out.push((48 + n) as u8);
    let ghost head = out@;
    let mut k: usize = low_first.len();
    while k > 0
        invariant
            k <= low_first.len(),
            out@ == head + Seq::new(
                (low_first@.len() - k) as nat,
                |j: int| low_first@[low_first@.len() - 1 - j],
            ),
        decreases k,
    {
        k -= 1;
        out.push(low_first[k]);
        assert(out@ =~= head + Seq::new(
            (low_first@.len() - k) as nat,
            |j: int| low_first@[low_first@.len() - 1 - j],
        ));
    }
    assert(out@ =~= start + decimal(v));
}

/// The decimal text of `v`.
pub fn to_decimal(v: i64) -> (out: Vec<u8>)
    ensures
        out@ == decimal(v),
{
    let mut out: Vec<u8> = Vec::new();
    push_decimal(&mut out, v);
    assert(Seq::<u8>::empty() + decimal(v) =~= decimal(v));
    out
}

} // verus!
