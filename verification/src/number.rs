//! Numbers as text: decimal and hexadecimal digits, and the texts that read
//! as integers or as decimal fractions.

use crate::text::{code, to_chars};
use vstd::prelude::*;

verus! {

/// The decimal digit `d`, or the hexadecimal one from ten on.
pub open spec fn digit(d: int) -> char {
    if d < 10 {
        (48 + d) as char
    } else {
        (87 + d) as char
    }
}

/// `n` in decimal digits.
pub open spec fn dec_nat(n: nat) -> Seq<char>
    decreases n,
{
    if n < 10 {
        seq![digit(n as int)]
    } else {
        dec_nat(n / 10).push(digit((n % 10) as int))
    }
}

/// `n` in decimal digits, with a minus sign where it is negative.
pub open spec fn dec(n: int) -> Seq<char> {
    if n < 0 {
        seq!['-'] + dec_nat((-n) as nat)
    } else {
        dec_nat(n as nat)
    }
}

/// The lowest `width` hexadecimal digits of `n`.
pub open spec fn hex(n: nat, width: nat) -> Seq<char>
    decreases width,
{
    if width == 0 {
        seq![]
    } else {
        hex(n / 16, (width - 1) as nat).push(digit((n % 16) as int))
    }
}

/// How many numbers have `width` hexadecimal digits at most.
pub open spec fn hex_numbers(width: nat) -> nat
    decreases width,
{
    if width == 0 {
        1
    } else {
        16 * hex_numbers((width - 1) as nat)
    }
}

/// Two numbers whose digits all fit have different digits.
pub proof fn hex_tells_apart(a: nat, b: nat, width: nat)
    requires
        a < hex_numbers(width),
        b < hex_numbers(width),
        a != b,
    ensures
        hex(a, width) != hex(b, width),
    decreases width,
{
    if width > 0 {
        let w = (width - 1) as nat;
        assert(hex(a, width).last() == digit((a % 16) as int));
        assert(hex(b, width).last() == digit((b % 16) as int));
        assert(hex(a, width).drop_last() =~= hex(a / 16, w));
        assert(hex(b, width).drop_last() =~= hex(b / 16, w));
        if a / 16 != b / 16 {
            hex_tells_apart(a / 16, b / 16, w);
        }
    }
}

/// `c` is one of `0` to `9`.
pub open spec fn is_digit(c: char) -> bool {
    48 <= c as int <= 57
}

/// What `c` stands for as a hexadecimal digit, in either case.
pub open spec fn hex_digit(c: char) -> Option<int> {
    let n = c as int;
    if 48 <= n <= 57 {
        Some(n - 48)
    } else if 97 <= n <= 102 {
        Some(n - 87)
    } else if 65 <= n <= 70 {
        Some(n - 55)
    } else {
        None
    }
}

/// `s` is one or more decimal digits.
pub open spec fn all_digits(s: Seq<char>) -> bool {
    s.len() > 0 && forall|i: int| 0 <= i < s.len() ==> is_digit(#[trigger] s[i])
}

/// The number that the decimal digits of `s` stand for.
pub open spec fn digits_value(s: Seq<char>) -> int
    decreases s.len(),
{
    if s.len() == 0 {
        0
    } else {
        digits_value(s.drop_last()) * 10 + (s.last() as int - 48)
    }
}

/// The number that `s` reads as: decimal digits, which a plus sign may
/// precede, of a value up to `max`.
pub open spec fn unsigned(s: Seq<char>, max: int) -> Option<int> {
    let d = if s.len() > 0 && s[0] == '+' {
        s.skip(1)
    } else {
        s
    };
    if all_digits(d) && digits_value(d) <= max {
        Some(digits_value(d))
    } else {
        None
    }
}

/// The number that `s` reads as: decimal digits, which a sign may precede, of
/// a value that an `i64` holds.
pub open spec fn signed(s: Seq<char>) -> Option<int> {
    if s.len() > 0 && s[0] == '-' {
        let d = s.skip(1);
        if all_digits(d) && -digits_value(d) >= i64::MIN {
            Some(-digits_value(d))
        } else {
            None
        }
    } else {
        unsigned(s, i64::MAX as int)
    }
}

/// How many decimal digits `s` begins with.
pub open spec fn digit_run(s: Seq<char>) -> int
    decreases s.len(),
{
    if s.len() > 0 && is_digit(s[0]) {
        1 + digit_run(s.skip(1))
    } else {
        0
    }
}

/// `s` without a sign before it.
pub open spec fn unsign(s: Seq<char>) -> Seq<char> {
    if s.len() > 0 && (s[0] == '+' || s[0] == '-') {
        s.skip(1)
    } else {
        s
    }
}

/// `c` is the letter `low`, in either case.
pub open spec fn letter(c: char, low: char) -> bool {
    c as int == low as int || c as int == low as int - 32
}

/// `s` is the word `low`, in either case.
pub open spec fn letters(s: Seq<char>, low: Seq<char>) -> bool {
    s.len() == low.len() && forall|i: int| 0 <= i < s.len() ==> letter(#[trigger] s[i], low[i])
}

/// `s` names an infinity, or a number that is none.
pub open spec fn unbounded(s: Seq<char>) -> bool {
    letters(s, "inf"@) || letters(s, "infinity"@) || letters(s, "nan"@)
}

/// `s` is empty or an exponent: `e`, a sign or none, and digits.
pub open spec fn exponent(s: Seq<char>) -> bool {
    s.len() == 0 || (letter(s[0], 'e') && unsign(s.skip(1)).len() > 0 && digit_run(
        unsign(s.skip(1)),
    ) == unsign(s.skip(1)).len())
}

/// `s` is digits with at most one point among them and at most one exponent
/// behind them.
pub open spec fn numeral(s: Seq<char>) -> bool {
    let whole = digit_run(s);
    let rest = s.skip(whole);
    if rest.len() > 0 && rest[0] == '.' {
        let part = digit_run(rest.skip(1));
        whole + part > 0 && exponent(rest.skip(1 + part))
    } else {
        whole > 0 && exponent(rest)
    }
}

/// `s` reads as a number with a fraction: a sign or none, and then an infinity,
/// a not-a-number, or a numeral.
pub open spec fn fraction(s: Seq<char>) -> bool {
    unbounded(unsign(s)) || numeral(unsign(s))
}

/// The decimal digits of a number are digits, and stand for that number.
pub proof fn dec_nat_reads_back(n: nat)
    ensures
        all_digits(dec_nat(n)),
        digits_value(dec_nat(n)) == n,
    decreases n,
{
    if n < 10 {
        let s = dec_nat(n);
        assert(s.drop_last() =~= seq![]);
        assert(digits_value(s.drop_last()) == 0);
    } else {
        dec_nat_reads_back(n / 10);
        let s = dec_nat(n);
        assert(s.drop_last() =~= dec_nat(n / 10));
        assert forall|i: int| 0 <= i < s.len() implies is_digit(#[trigger] s[i]) by {
            if i < s.len() - 1 {
                assert(s[i] == dec_nat(n / 10)[i]);
            }
        }
    }
}

/// Reading the decimal text of an `i64` gives the number back.
pub proof fn dec_reads_back(n: int)
    requires
        i64::MIN <= n <= i64::MAX,
    ensures
        signed(dec(n)) == Some(n),
{
    if n < 0 {
        dec_nat_reads_back((-n) as nat);
        assert(dec(n).skip(1) =~= dec_nat((-n) as nat));
    } else {
        dec_nat_reads_back(n as nat);
        assert(is_digit(dec(n)[0]));
    }
}

/// Reading the decimal text of a number up to `max` gives the number back.
pub proof fn dec_unsigned_reads_back(n: int, max: int)
    requires
        0 <= n <= max,
    ensures
        unsigned(dec(n), max) == Some(n),
{
    dec_nat_reads_back(n as nat);
    assert(is_digit(dec(n)[0]));
}

pub(crate) proof fn digits_value_grows(s: Seq<char>, k: int)
    requires
        forall|i: int| 0 <= i < s.len() ==> is_digit(#[trigger] s[i]),
        0 <= k <= s.len(),
    ensures
        0 <= digits_value(s.take(k)) <= digits_value(s),
    decreases s.len(),
{
    if s.len() == 0 {
        assert(s.take(k) =~= s);
    } else {
        let front = s.drop_last();
        assert forall|i: int| 0 <= i < front.len() implies is_digit(#[trigger] front[i]) by {
            assert(is_digit(s[i]));
        }
        assert(is_digit(s[s.len() - 1]));
        let d = s.last() as int - 48;
        assert(digits_value(s) == digits_value(front) * 10 + d);
        if k == s.len() {
            assert(s.take(k) =~= s);
            digits_value_grows(front, front.len() as int);
            assert(front.take(front.len() as int) =~= front);
        } else {
            digits_value_grows(front, k);
            assert(front.take(k) =~= s.take(k));
        }
        assert(0 <= digits_value(front) <= digits_value(s));
    }
}

pub(crate) proof fn digit_run_bounds(s: Seq<char>)
    ensures
        0 <= digit_run(s) <= s.len(),
        forall|i: int| 0 <= i < digit_run(s) ==> is_digit(#[trigger] s[i]),
        digit_run(s) < s.len() ==> !is_digit(s[digit_run(s)]),
    decreases s.len(),
{
    if s.len() > 0 && is_digit(s[0]) {
        digit_run_bounds(s.skip(1));
        assert forall|i: int| 0 <= i < digit_run(s) implies is_digit(#[trigger] s[i]) by {
            if i > 0 {
                assert(is_digit(s.skip(1)[i - 1]));
            }
        }
    }
}

fn digit_of(d: u32) -> (c: char)
    requires
        d < 16,
    ensures
        c == digit(d as int),
{
    if d < 10 {
        (48 + d as u8) as char
    } else {
        (87 + d as u8) as char
    }
}

/// `n` in decimal digits.
pub fn decimal(n: u64) -> (s: String)
    ensures
        s@ == dec(n as int),
    decreases n,
{
    let mut s = String::new();
    if n >= 10 {
        s = decimal(n / 10);
    }
    s.push(digit_of((n % 10) as u32));
    assert(n < 10 ==> s@ =~= seq![digit(n as int)]);
    s
}

/// `n` in decimal digits, with a minus sign where it is negative.
pub fn decimal_signed(n: i64) -> (s: String)
    ensures
        s@ == dec(n as int),
{
    if n < 0 {
        let mut s = String::new();
        s.push('-');
        let m: u64 = (-(n + 1)) as u64 + 1;
        s.append(decimal(m).as_str());
        assert(s@ =~= dec(n as int));
        s
    } else {
        decimal(n as u64)
    }
}

/// The lowest `width` hexadecimal digits of `n`.
pub fn hexadecimal(n: u32, width: usize) -> (s: String)
    ensures
        s@ == hex(n as nat, width as nat),
    decreases width,
{
    if width == 0 {
        let s = String::new();
        assert(s@ =~= hex(n as nat, 0));
        s
    } else {
        let mut s = hexadecimal(n / 16, width - 1);
        s.push(digit_of(n % 16));
        s
    }
}

/// `c` is one of `0` to `9`.
pub fn is_decimal(c: char) -> (r: bool)
    ensures
        r == is_digit(c),
{
    let n: u32 = code(c);
    48 <= n && n <= 57
}

/// What `c` stands for as a hexadecimal digit.
pub fn hex_value(c: char) -> (r: Option<u32>)
    ensures
        match r {
            Some(d) => hex_digit(c) == Some(d as int) && d < 16,
            None => hex_digit(c) is None,
        },
{
    let n: u32 = code(c);
    if 48 <= n && n <= 57 {
        Some(n - 48)
    } else if 97 <= n && n <= 102 {
        Some(n - 87)
    } else if 65 <= n && n <= 70 {
        Some(n - 55)
    } else {
        None
    }
}

/// The value of the digits `v[from..to]`, when they are digits and their value
/// is at most `max`.
pub fn digits_at(v: &Vec<char>, from: usize, to: usize, max: u64) -> (r: Option<u64>)
    requires
        from <= to <= v.len(),
    ensures
        ({
            let d = v@.subrange(from as int, to as int);
            match r {
                Some(n) => all_digits(d) && digits_value(d) == n && n <= max,
                None => !(all_digits(d) && digits_value(d) <= max),
            }
        }),
{
    let ghost d = v@.subrange(from as int, to as int);
    if from == to {
        return None;
    }
    let mut n: u64 = 0;
    let mut i: usize = from;
    assert(d.take(0) =~= seq![]);
    while i < to
        invariant
            from <= i <= to <= v.len(),
            d == v@.subrange(from as int, to as int),
            forall|k: int| 0 <= k < i - from ==> is_digit(#[trigger] d[k]),
            n == digits_value(d.take(i - from)),
            n <= max,
        decreases to - i,
    {
        if !is_decimal(v[i]) {
            assert(!is_digit(d[i - from]));
            return None;
        }
        let x: u64 = (code(v[i]) - 48) as u64;
        assert(d[i - from] == v@[i as int]);
        proof {
            assert(d.take(i - from + 1).drop_last() =~= d.take(i - from));
            assert(digits_value(d.take(i - from + 1)) == n * 10 + x);
            if all_digits(d) {
                digits_value_grows(d, i - from + 1);
            }
        }
        if x > max || n > max / 10 || n * 10 > max - x {
            assert(n * 10 + x > max);
            return None;
        }
        n = n * 10 + x;
        i = i + 1;
    }
    assert(d.take(to - from) =~= d);
    Some(n)
}

/// The number up to `max` that `s` reads as.
pub fn parse_unsigned(s: &str, max: u64) -> (r: Option<u64>)
    ensures
        match r {
            Some(n) => unsigned(s@, max as int) == Some(n as int) && n <= max,
            None => unsigned(s@, max as int) is None,
        },
{
    let v = to_chars(s);
    let from: usize = if v.len() > 0 && v[0] == '+' {
        1
    } else {
        0
    };
    assert(v@.skip(1) =~= v@.subrange(1, v@.len() as int) || v@.len() == 0);
    assert(v@ =~= v@.subrange(0, v@.len() as int));
    digits_at(&v, from, v.len(), max)
}

/// The `u32` that `s` reads as.
pub fn parse_u32(s: &str) -> (r: Option<u32>)
    ensures
        match r {
            Some(n) => unsigned(s@, u32::MAX as int) == Some(n as int),
            None => unsigned(s@, u32::MAX as int) is None,
        },
{
    match parse_unsigned(s, 0xffff_ffff) {
        Some(n) => Some(n as u32),
        None => None,
    }
}

/// The `i64` that the text `v[from..to]` reads as.
pub fn signed_at(v: &Vec<char>, from: usize, to: usize) -> (r: Option<i64>)
    requires
        from <= to <= v.len(),
    ensures
        match r {
            Some(n) => signed(v@.subrange(from as int, to as int)) == Some(n as int),
            None => signed(v@.subrange(from as int, to as int)) is None,
        },
{
    let ghost s = v@.subrange(from as int, to as int);
    if from < to && v[from] == '-' {
        assert(s.skip(1) =~= v@.subrange(from + 1, to as int));
        match digits_at(v, from + 1, to, 0x8000_0000_0000_0000) {
            Some(m) => {
                if m == 0x8000_0000_0000_0000 {
                    Some(i64::MIN)
                } else {
                    Some(-(m as i64))
                }
            },
            None => None,
        }
    } else {
        let start: usize = if from < to && v[from] == '+' {
            from + 1
        } else {
            from
        };
        assert(from < to ==> s.skip(1) =~= v@.subrange(from + 1, to as int));
        match digits_at(v, start, to, 0x7fff_ffff_ffff_ffff) {
            Some(m) => Some(m as i64),
            None => None,
        }
    }
}

fn run_at(v: &Vec<char>, from: usize) -> (end: usize)
    requires
        from <= v.len(),
    ensures
        from <= end <= v.len(),
        end - from == digit_run(v@.skip(from as int)),
{
    let ghost rest = v@.skip(from as int);
    let mut end: usize = from;
    assert(v@.skip(end as int) =~= rest);
    while end < v.len() && is_decimal(v[end])
        invariant
            from <= end <= v.len(),
            rest == v@.skip(from as int),
            digit_run(rest) == end - from + digit_run(v@.skip(end as int)),
        decreases v.len() - end,
    {
        assert(v@.skip(end as int).skip(1) =~= v@.skip(end + 1));
        end = end + 1;
    }
    end
}

fn sign_at(v: &Vec<char>, from: usize) -> (at: usize)
    requires
        from <= v.len(),
    ensures
        from <= at <= v.len(),
        v@.skip(at as int) == unsign(v@.skip(from as int)),
{
    if from < v.len() && (v[from] == '+' || v[from] == '-') {
        assert(v@.skip(from as int).skip(1) =~= v@.skip(from + 1));
        from + 1
    } else {
        from
    }
}

fn is_letter(c: char, low: char) -> (r: bool)
    requires
        97 <= low as int <= 122,
    ensures
        r == letter(c, low),
{
    let n: u32 = code(c);
    let m: u32 = code(low);
    n == m || n == m - 32
}

fn word_at(v: &Vec<char>, from: usize, low: &str) -> (r: bool)
    requires
        from <= v.len(),
        forall|i: int| 0 <= i < low@.len() ==> 97 <= #[trigger] low@[i] as int <= 122,
    ensures
        r == letters(v@.skip(from as int), low@),
{
    let w = to_chars(low);
    let ghost rest = v@.skip(from as int);
    if w.len() != v.len() - from {
        return false;
    }
    let mut i: usize = 0;
    while i < w.len()
        invariant
            i <= w.len(),
            w.len() == v.len() - from,
            from <= v.len(),
            w@ == low@,
            rest == v@.skip(from as int),
            forall|k: int| 0 <= k < i ==> letter(#[trigger] rest[k], low@[k]),
            forall|k: int| 0 <= k < low@.len() ==> 97 <= #[trigger] low@[k] as int <= 122,
        decreases w.len() - i,
    {
        assert(97 <= low@[i as int] as int <= 122);
        if !is_letter(v[from + i], w[i]) {
            assert(!letter(rest[i as int], low@[i as int]));
            return false;
        }
        assert(letter(rest[i as int], low@[i as int]));
        i = i + 1;
    }
    true
}

fn unbounded_at(v: &Vec<char>, from: usize) -> (r: bool)
    requires
        from <= v.len(),
    ensures
        r == unbounded(v@.skip(from as int)),
{
    proof {
        reveal_strlit("inf");
        reveal_strlit("infinity");
        reveal_strlit("nan");
    }
    word_at(v, from, "inf") || word_at(v, from, "infinity") || word_at(v, from, "nan")
}

fn exponent_at(v: &Vec<char>, from: usize) -> (r: bool)
    requires
        from <= v.len(),
    ensures
        r == exponent(v@.skip(from as int)),
{
    if from == v.len() {
        return true;
    }
    assert(v@.skip(from as int)[0] == v@[from as int]);
    assert(v@.skip(from as int).skip(1) =~= v@.skip(from + 1));
    if !is_letter(v[from], 'e') {
        return false;
    }
    let at: usize = sign_at(v, from + 1);
    let end: usize = run_at(v, at);
    at < v.len() && end == v.len()
}

fn numeral_at(v: &Vec<char>, at: usize) -> (r: bool)
    requires
        at <= v.len(),
    ensures
        r == numeral(v@.skip(at as int)),
{
    let dot: usize = run_at(v, at);
    let ghost rest = v@.skip(at as int).skip(dot - at);
    assert(rest =~= v@.skip(dot as int));
    if dot < v.len() && v[dot] == '.' {
        let end: usize = run_at(v, dot + 1);
        assert(rest.skip(1) =~= v@.skip(dot + 1));
        assert(rest.skip(1 + (end - dot - 1)) =~= v@.skip(end as int));
        (dot > at || end > dot + 1) && exponent_at(v, end)
    } else {
        dot > at && exponent_at(v, dot)
    }
}

/// `s` reads as a number with a fraction.
pub fn is_fraction(s: &str) -> (r: bool)
    ensures
        r == fraction(s@),
{
    let v = to_chars(s);
    assert(v@.skip(0) =~= v@);
    let at: usize = sign_at(&v, 0);
    unbounded_at(&v, at) || numeral_at(&v, at)
}

/// How often `d` goes into `n`, to the nearest; halfway, to the even one.
pub open spec fn half_even(n: int, d: int) -> int {
    let q = n / d;
    let r = n % d;
    if 2 * r > d || (2 * r == d && q % 2 == 1) {
        q + 1
    } else {
        q
    }
}

/// How far apart the numbers are, around `n`, that have 53 binary digits
/// before zeros.
pub open spec fn spacing(n: int) -> int
    decreases n,
{
    if n < 0x20_0000_0000_0000 {
        1
    } else {
        2 * spacing(n / 2)
    }
}

/// The number with 53 binary digits before zeros that is nearest to `n`.
pub open spec fn rounded(n: int) -> int {
    half_even(n, spacing(n)) * spacing(n)
}

/// How many tenths of a megabyte `n` bytes are, to the nearest.
pub open spec fn tenths(n: int) -> int {
    half_even(rounded(n) * 10, 0x10_0000)
}

/// `n` bytes in megabytes, with one digit behind the point.
pub open spec fn megabytes_text(n: int) -> Seq<char> {
    dec(tenths(n) / 10) + "."@ + dec(tenths(n) % 10)
}

/// How far apart the numbers are around `n`.
fn spacing_of(n: u64) -> (r: u64)
    ensures
        r == spacing(n as int),
        1 <= r <= 2048,
        n < 0x20_0000_0000_0000 * r,
    decreases n,
{
    proof {
        reveal_with_fuel(spacing, 13);
    }
    if n < 0x20_0000_0000_0000 {
        1
    } else if n / 2 < 0x20_0000_0000_0000 {
        2
    } else if n / 4 < 0x20_0000_0000_0000 {
        4
    } else if n / 8 < 0x20_0000_0000_0000 {
        8
    } else if n / 16 < 0x20_0000_0000_0000 {
        16
    } else if n / 32 < 0x20_0000_0000_0000 {
        32
    } else if n / 64 < 0x20_0000_0000_0000 {
        64
    } else if n / 128 < 0x20_0000_0000_0000 {
        128
    } else if n / 256 < 0x20_0000_0000_0000 {
        256
    } else if n / 512 < 0x20_0000_0000_0000 {
        512
    } else if n / 1024 < 0x20_0000_0000_0000 {
        1024
    } else {
        2048
    }
}

/// How often `d` goes into `n`, to the nearest.
fn nearest(n: u128, d: u128) -> (r: u128)
    requires
        0 < d <= 0x10_0000,
        n <= 0x1_0000_0000_0000_0000_0000,
    ensures
        r == half_even(n as int, d as int),
        r <= n / d + 1,
{
    let q: u128 = n / d;
    let r: u128 = n % d;
    assert(q <= n) by (nonlinear_arith)
        requires
            q == n / d,
            d > 0,
    ;
    if 2 * r > d || (2 * r == d && q % 2 == 1) {
        q + 1
    } else {
        q
    }
}

/// `n` bytes in megabytes, with one digit behind the point.
pub fn megabytes(n: u64) -> (s: String)
    ensures
        s@ == megabytes_text(n as int),
{
    let unit: u64 = spacing_of(n);
    let count: u128 = nearest(n as u128, unit as u128);
    assert(count <= 0x20_0000_0000_0000) by (nonlinear_arith)
        requires
            count <= n / unit + 1,
            n < 0x20_0000_0000_0000 * unit,
            unit >= 1,
    ;
    assert(count * unit <= 0x20_0000_0000_0000 * 2048) by (nonlinear_arith)
        requires
            count <= 0x20_0000_0000_0000,
            unit <= 2048,
    ;
    let whole: u128 = count * (unit as u128);
    let t: u128 = nearest(whole * 10, 0x10_0000);
    let mut s = decimal((t / 10) as u64);
    s.append(".");
    s.append(decimal((t % 10) as u64).as_str());
    s
}

/// A quotient to the nearest is off by a half at most.
pub proof fn nearest_is_off_by_half(n: int, d: int)
    requires
        0 <= n,
        0 < d,
    ensures
        2 * (half_even(n, d) * d - n) <= d,
        2 * (n - half_even(n, d) * d) <= d,
        2 * (n % d) == d ==> half_even(n, d) % 2 == 0,
{
    let q = n / d;
    vstd::arithmetic::div_mod::lemma_fundamental_div_mod(n, d);
    vstd::arithmetic::div_mod::lemma_mod_bound(n, d);
    assert(q * d == d * q) by (nonlinear_arith);
    assert((q + 1) * d == q * d + d) by (nonlinear_arith);
}

/// A size below 2^53 bytes is given in megabytes to the nearest tenth.
pub proof fn megabytes_are_to_the_nearest_tenth(n: int)
    requires
        0 <= n < 0x20_0000_0000_0000,
    ensures
        2 * (tenths(n) * 0x10_0000 - n * 10) <= 0x10_0000,
        2 * (n * 10 - tenths(n) * 0x10_0000) <= 0x10_0000,
        megabytes_text(n) == dec(tenths(n) / 10) + "."@ + dec(tenths(n) % 10),
{
    assert(spacing(n) == 1);
    assert(half_even(n, 1) == n);
    nearest_is_off_by_half(n * 10, 0x10_0000);
}

} // verus!
