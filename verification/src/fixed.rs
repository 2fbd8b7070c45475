//! Fractions as fixed-point numbers.
//!
//! A fraction comes as the bits of a 32-bit floating-point number. It is taken
//! apart, scaled and rounded with integers alone.

use vstd::arithmetic::power2::{lemma2_to64, lemma_pow2_adds, lemma_pow2_pos, pow2};
use vstd::prelude::*;

verus! {

/// The sign bit is set.
pub open spec fn negative(bits: u32) -> bool {
    bits >= 0x8000_0000
}

/// The eight bits of the exponent.
pub open spec fn exponent(bits: u32) -> int {
    (bits as int / 0x80_0000) % 0x100
}

/// The bits behind the point.
pub open spec fn mantissa(bits: u32) -> int {
    bits as int % 0x80_0000
}

/// The bits are those of no number.
pub open spec fn not_a_number(bits: u32) -> bool {
    exponent(bits) == 255 && mantissa(bits) != 0
}

/// The bits are those of an infinity.
pub open spec fn infinite(bits: u32) -> bool {
    exponent(bits) == 255 && mantissa(bits) == 0
}

/// The digits of a finite number: it is `digits * 2^scale`, but for its sign.
pub open spec fn digits(bits: u32) -> int {
    if exponent(bits) == 0 {
        mantissa(bits)
    } else {
        0x80_0000 + mantissa(bits)
    }
}

/// The power of two that the digits of a finite number count.
pub open spec fn scale(bits: u32) -> int {
    if exponent(bits) == 0 {
        -149
    } else {
        exponent(bits) - 150
    }
}

/// `m * 2^x`, rounded to the nearest integer, a half upwards.
pub open spec fn rounded(m: int, x: int) -> int {
    if x >= 0 {
        m * pow2(x as nat)
    } else {
        (m + pow2((-x - 1) as nat)) / pow2((-x) as nat) as int
    }
}

/// The number times `2^k`, rounded to the nearest integer, a half away from
/// zero, and brought between `low` and `high`. What is no number counts as
/// zero.
pub open spec fn fixed(bits: u32, k: int, low: int, high: int) -> int {
    if not_a_number(bits) {
        0
    } else if infinite(bits) {
        if negative(bits) {
            low
        } else {
            high
        }
    } else {
        let size = rounded(digits(bits), scale(bits) + k);
        let n = if negative(bits) {
            -size
        } else {
            size
        };
        if n < low {
            low
        } else if n > high {
            high
        } else {
            n
        }
    }
}

/// `rounded(m, x)` where that is at most 0x10000, and 0x10000 otherwise.
fn rounded_up_to(m: u32, x: i32) -> (r: u32)
    requires
        m < 0x100_0000,
        -200 < x < 200,
    ensures
        rounded(m as int, x as int) <= 0x1_0000 ==> r == rounded(m as int, x as int),
        rounded(m as int, x as int) > 0x1_0000 ==> r == 0x1_0000,
        0 <= rounded(m as int, x as int),
{
    proof {
        lemma2_to64();
        if x >= 0 {
            lemma_pow2_pos(x as nat);
            assert(m * pow2(x as nat) >= 0) by (nonlinear_arith)
                requires
                    m >= 0,
                    pow2(x as nat) > 0,
            ;
        } else {
            lemma_pow2_pos((-x) as nat);
            lemma_pow2_pos((-x - 1) as nat);
            assert((m + pow2((-x - 1) as nat)) / pow2((-x) as nat) as int >= 0)
                by (nonlinear_arith)
                requires
                    m >= 0,
                    pow2((-x) as nat) > 0,
                    pow2((-x - 1) as nat) > 0,
            ;
        }
    }
    if x >= 0 {
        let mut r: u32 = m;
        let mut i: i32 = 0;
        assert(m * 1 == m);
        while i < x
            invariant
                0 <= i <= x < 200,
                r <= 0x1ff_ffff,
                pow2(0) == 1,
                m < 0x100_0000,
                i == 0 ==> r == m,
                i > 0 ==> r <= 0x1_0000,
                i > 0 && m * pow2(i as nat) <= 0x1_0000 ==> r == m * pow2(i as nat),
                i > 0 && m * pow2(i as nat) > 0x1_0000 ==> r == 0x1_0000,
                m * pow2(i as nat) >= 0,
            decreases x - i,
        {
            proof {
                let was = m * pow2(i as nat);
                lemma_pow2_adds(i as nat, 1);
                lemma2_to64();
                assert(m * pow2((i + 1) as nat) == 2 * was) by (nonlinear_arith)
                    requires
                        pow2((i + 1) as nat) == pow2(i as nat) * 2,
                        was == m * pow2(i as nat),
                ;
                if i == 0 {
                    assert(was == m) by (nonlinear_arith)
                        requires
                            was == m * pow2(i as nat),
                            pow2(i as nat) == 1,
                    ;
                }
            }
            let twice: u32 = r * 2;
            r = if twice > 0x1_0000 {
                0x1_0000
            } else {
                twice
            };
            i = i + 1;
        }
        if x == 0 && r > 0x1_0000 {
            r = 0x1_0000;
        }
        r
    } else if x < -25 {
        proof {
            let h = pow2((-x - 1) as nat) as int;
            lemma_pow2_adds(1, (-x - 1) as nat);
            lemma_pow2_adds(25, (-x - 1 - 25) as nat);
            lemma_pow2_pos((-x - 1 - 25) as nat);
            assert(h >= pow2(25)) by (nonlinear_arith)
                requires
                    h == pow2(25) * pow2((-x - 1 - 25) as nat),
                    pow2((-x - 1 - 25) as nat) >= 1,
                    pow2(25) == 0x200_0000,
            ;
            assert((m as int + h) / (2 * h) == 0) by (nonlinear_arith)
                requires
                    0 <= m < h,
            ;
        }
        0
    } else {
        let n: u32 = (-x) as u32;
        let half: u32 = power(n - 1);
        let r: u32 = (m + half) / power(n);
        if r > 0x1_0000 {
            0x1_0000
        } else {
            r
        }
    }
}

fn power(n: u32) -> (r: u32)
    requires
        n <= 25,
    ensures
        r == pow2(n as nat),
        1 <= r <= 0x200_0000,
{
    let mut r: u32 = 1;
    let mut i: u32 = 0;
    proof {
        lemma2_to64();
    }
    while i < n
        invariant
            i <= n <= 25,
            r == pow2(i as nat),
            1 <= r <= 0x200_0000,
        decreases n - i,
    {
        proof {
            lemma_pow2_adds(i as nat, 1);
            lemma_pow2_adds((i + 1) as nat, (25 - i - 1) as nat);
            lemma_pow2_pos((25 - i - 1) as nat);
            lemma2_to64();
            assert(pow2((i + 1) as nat) <= pow2(25)) by (nonlinear_arith)
                requires
                    pow2(25) == pow2((i + 1) as nat) * pow2((25 - i - 1) as nat),
                    pow2((25 - i - 1) as nat) >= 1,
            ;
        }
        r = r * 2;
        i = i + 1;
    }
    r
}

/// The size of the number times `2^k`, rounded, up to 0x10000.
fn size_up_to(bits: u32, k: i32) -> (r: u32)
    requires
        0 <= k <= 16,
        exponent(bits) != 255,
    ensures
        ({
            let size = rounded(digits(bits), scale(bits) + k);
            (size <= 0x1_0000 ==> r == size) && (size > 0x1_0000 ==> r == 0x1_0000) && 0 <= size
        }),
{
    let e: u32 = (bits / 0x80_0000) % 0x100;
    let m: u32 = bits % 0x80_0000;
    if e == 0 {
        rounded_up_to(m, -149 + k)
    } else {
        rounded_up_to(0x80_0000 + m, e as i32 - 150 + k)
    }
}

/// A fraction of one as a 16-bit number: times `2^16`, rounded, at least zero
/// and at most 0xffff.
pub fn fixed_u16(bits: u32) -> (r: u16)
    ensures
        r == fixed(bits, 16, 0, 0xffff),
{
    let e: u32 = (bits / 0x80_0000) % 0x100;
    let minus = bits >= 0x8000_0000;
    if e == 255 {
        if bits % 0x80_0000 != 0 || minus {
            0
        } else {
            0xffff
        }
    } else {
        let size: u32 = size_up_to(bits, 16);
        if minus {
            0
        } else if size > 0xffff {
            0xffff
        } else {
            size as u16
        }
    }
}

/// A fraction of one with a sign as a 16-bit number: times `2^15`, rounded, at
/// least -0x8000 and at most 0x7fff.
pub fn fixed_i16(bits: u32) -> (r: i16)
    ensures
        r == fixed(bits, 15, -0x8000, 0x7fff),
{
    let e: u32 = (bits / 0x80_0000) % 0x100;
    let minus = bits >= 0x8000_0000;
    if e == 255 {
        if bits % 0x80_0000 != 0 {
            0
        } else if minus {
            -0x8000
        } else {
            0x7fff
        }
    } else {
        let size: u32 = size_up_to(bits, 15);
        if minus {
            if size > 0x8000 {
                -0x8000
            } else {
                (-(size as i32)) as i16
            }
        } else if size > 0x7fff {
            0x7fff
        } else {
            size as i16
        }
    }
}

/// A number that is rounded is off by a half at most.
pub proof fn rounding_is_off_by_half(m: int, x: int)
    requires
        0 <= m,
        x < 0,
    ensures
        2 * (rounded(m, x) * pow2((-x) as nat) - m) <= pow2((-x) as nat),
        2 * (m - rounded(m, x) * pow2((-x) as nat)) <= pow2((-x) as nat),
{
    let d = pow2((-x) as nat) as int;
    let half = pow2((-x - 1) as nat) as int;
    lemma_pow2_pos((-x) as nat);
    lemma_pow2_pos((-x - 1) as nat);
    lemma_pow2_adds((-x - 1) as nat, 1);
    lemma2_to64();
    assert(d == 2 * half);
    let q = rounded(m, x);
    assert(q == (m + half) / d);
    vstd::arithmetic::div_mod::lemma_fundamental_div_mod(m + half, d);
    assert(0 <= (m + half) % d < d) by {
        vstd::arithmetic::div_mod::lemma_mod_bound(m + half, d);
    }
    assert(q * d == d * q) by (nonlinear_arith);
}

/// A fixed-point number stays in its bounds; one with the other sign is the other
/// side of zero as far as the bounds let it, and what is no number is nothing.
pub proof fn fixed_point_keeps_to_its_bounds(bits: u32, k: int, low: int, high: int)
    requires
        low <= 0 <= high,
    ensures
        low <= fixed(bits, k, low, high) <= high,
        not_a_number(bits) ==> fixed(bits, k, low, high) == 0,
        infinite(bits) ==> fixed(bits, k, low, high) == (if bits < 0x8000_0000 {
            high
        } else {
            low
        }),
        bits < 0x8000_0000 && fixed(bits, k, -high, high) < high ==> fixed(
            (bits + 0x8000_0000) as u32,
            k,
            -high,
            high,
        ) == -fixed(bits, k, -high, high),
{
    if bits < 0x8000_0000 {
        let other = (bits + 0x8000_0000) as u32;
        assert(other as int == bits + 0x100 * 0x80_0000);
        assert(mantissa(other) == mantissa(bits));
        assert(other as int / 0x80_0000 == bits as int / 0x80_0000 + 0x100);
        assert(exponent(other) == exponent(bits));
        assert(fixed(bits, k, -high, high) >= 0) by {
            a_size_is_no_less_than_zero(bits, k);
        }
        a_size_is_no_less_than_zero(bits, k);
    }
}

proof fn a_size_is_no_less_than_zero(bits: u32, k: int)
    ensures
        rounded(digits(bits), scale(bits) + k) >= 0,
{
    let m = digits(bits);
    let x = scale(bits) + k;
    assert(m >= 0);
    if x >= 0 {
        lemma_pow2_pos(x as nat);
        assert(m * pow2(x as nat) >= 0) by (nonlinear_arith)
            requires
                m >= 0,
                pow2(x as nat) > 0,
        ;
    } else {
        lemma_pow2_pos((-x) as nat);
        lemma_pow2_pos((-x - 1) as nat);
        vstd::arithmetic::div_mod::lemma_div_pos_is_pos(
            m + pow2((-x - 1) as nat),
            pow2((-x) as nat) as int,
        );
    }
}

} // verus!
