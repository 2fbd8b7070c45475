//! Numbers as bytes, the most significant byte first.

use vstd::prelude::*;

verus! {

/// The lowest `width` bytes of `n`, the most significant one first.
pub open spec fn be(n: nat, width: nat) -> Seq<u8>
    decreases width,
{
    if width == 0 {
        seq![]
    } else {
        be(n / 256, (width - 1) as nat).push((n % 256) as u8)
    }
}

/// The number whose bytes are `s`, the most significant one first.
pub open spec fn from_be(s: Seq<u8>) -> nat
    decreases s.len(),
{
    if s.len() == 0 {
        0
    } else {
        from_be(s.drop_last()) * 256 + s.last() as nat
    }
}

/// How many numbers `width` bytes can hold.
pub open spec fn span(width: nat) -> nat
    decreases width,
{
    if width == 0 {
        1
    } else {
        256 * span((width - 1) as nat)
    }
}

/// A 32-bit number with a sign, as one without.
pub open spec fn unsigned32(i: i32) -> nat {
    if i >= 0 {
        i as nat
    } else {
        (i + 0x1_0000_0000) as nat
    }
}

/// A 16-bit number with a sign, as one without.
pub open spec fn unsigned16(i: i16) -> nat {
    if i >= 0 {
        i as nat
    } else {
        (i + 0x1_0000) as nat
    }
}

pub(crate) proof fn be_len(n: nat, width: nat)
    ensures
        be(n, width).len() == width,
    decreases width,
{
    if width > 0 {
        be_len(n / 256, (width - 1) as nat);
    }
}

pub(crate) proof fn spans()
    ensures
        span(2) == 0x1_0000,
        span(4) == 0x1_0000_0000,
        span(8) == 0x1_0000_0000_0000_0000,
{
    reveal_with_fuel(span, 9);
}

/// The bytes of a number that they can hold are read as that number.
pub proof fn be_reads_back(n: nat, width: nat)
    requires
        n < span(width),
    ensures
        from_be(be(n, width)) == n,
    decreases width,
{
    if width > 0 {
        be_reads_back(n / 256, (width - 1) as nat);
        let s = be(n, width);
        assert(s.drop_last() =~= be(n / 256, (width - 1) as nat));
    }
}

pub(crate) proof fn from_be_bound(s: Seq<u8>)
    ensures
        from_be(s) < span(s.len()),
    decreases s.len(),
{
    if s.len() > 0 {
        from_be_bound(s.drop_last());
    }
}

/// Puts the lowest `width` bytes of `n` behind `out`.
pub fn put_be(out: &mut Vec<u8>, n: u64, width: usize)
    ensures
        final(out)@ == old(out)@ + be(n as nat, width as nat),
    decreases width,
{
    if width > 0 {
        put_be(out, n / 256, width - 1);
        let ghost was = out@;
        out.push((n % 256) as u8);
        assert(out@ =~= old(out)@ + be(n as nat, width as nat));
    } else {
        assert(out@ =~= old(out)@ + be(n as nat, 0));
    }
}

/// The number whose bytes are `v[at..at + width]`.
pub fn get_be(v: &Vec<u8>, at: usize, width: usize) -> (n: u64)
    requires
        width <= 8,
        at + width <= v.len(),
    ensures
        n == from_be(v@.subrange(at as int, at + width)),
{
    let mut n: u64 = 0;
    let mut i: usize = 0;
    assert(v@.subrange(at as int, at as int) =~= seq![]);
    proof {
        reveal_with_fuel(span, 9);
    }
    while i < width
        invariant
            i <= width <= 8,
            at + width <= v.len(),
            n == from_be(v@.subrange(at as int, at + i)),
        decreases width - i,
    {
        let ghost s = v@.subrange(at as int, at + i + 1);
        proof {
            assert(s.drop_last() =~= v@.subrange(at as int, at + i));
            from_be_bound(s);
            span_grows(s.len(), 8);
            spans();
        }
        n = n * 256 + v[at + i] as u64;
        i = i + 1;
    }
    n
}

proof fn span_grows(a: nat, b: nat)
    requires
        a <= b,
    ensures
        span(a) <= span(b),
    decreases b,
{
    if a < b {
        span_grows(a, (b - 1) as nat);
    }
}

/// A 32-bit number with a sign, as one without.
pub fn to_unsigned32(i: i32) -> (n: u64)
    ensures
        n == unsigned32(i),
{
    if i >= 0 {
        i as u64
    } else {
        (i as i64 + 0x1_0000_0000) as u64
    }
}

/// A 16-bit number with a sign, as one without.
pub fn to_unsigned16(i: i16) -> (n: u64)
    ensures
        n == unsigned16(i),
{
    if i >= 0 {
        i as u64
    } else {
        (i as i64 + 0x1_0000) as u64
    }
}

} // verus!
