//! Reading of decimal notation, and the shortest decimal notation of a
//! fixed-point number.

use vstd::prelude::*;
use crate::fixed::{abs, clamp, digit, int_text, min, nat_text, pad_text, pow10, push_nat};
use crate::text::{find_char, find_from, lacks, lemma_find_char};

verus! {

pub open spec fn is_digit(c: char) -> bool {
    '0' <= c && c <= '9'
}

/// What a digit stands for.
pub open spec fn digit_value(c: char) -> nat {
    (c as u32 - 48) as nat
}

pub open spec fn all_digits(s: Seq<char>) -> bool {
    forall|i: int| 0 <= i < s.len() ==> is_digit(#[trigger] s[i])
}

/// What a row of digits stands for.
pub open spec fn digits_value(s: Seq<char>) -> nat
    decreases s.len(),
{
    if s.len() == 0 {
        0
    } else {
        digits_value(s.drop_last()) * 10 + digit_value(s.last())
    }
}

/// The largest whole number that is read.
pub const MAX_WHOLE: u64 = 1_000_000_000_000_000;

proof fn lemma_digits_grow(s: Seq<char>, i: int)
    requires
        0 <= i <= s.len(),
    ensures
        digits_value(s.take(i)) <= digits_value(s),
    decreases s.len() - i,
{
    if i < s.len() {
        assert(s.take(i + 1).drop_last() =~= s.take(i));
        lemma_digits_grow(s, i + 1);
    } else {
        assert(s.take(i) =~= s);
    }
}

/// What the digits `v[lo..hi]` stand for, or `None` where one of them is no digit
/// or the number is above `MAX_WHOLE`.
pub fn read_digits(v: &Vec<char>, lo: usize, hi: usize) -> (r: Option<u64>)
    requires
        lo <= hi <= v@.len(),
    ensures
        r is Some <==> all_digits(v@.subrange(lo as int, hi as int)) && digits_value(
            v@.subrange(lo as int, hi as int),
        ) <= MAX_WHOLE,
        r is Some ==> r->0 == digits_value(v@.subrange(lo as int, hi as int)),
{
    let ghost s = v@.subrange(lo as int, hi as int);
    let mut acc: u64 = 0;
    let mut i: usize = lo;
    assert(s.take(0) =~= Seq::empty());
    while i < hi
        invariant
            lo <= i <= hi <= v@.len(),
            s == v@.subrange(lo as int, hi as int),
            acc <= MAX_WHOLE,
            acc == digits_value(s.take(i - lo)),
            forall|j: int| 0 <= j < i - lo ==> is_digit(#[trigger] s[j]),
        decreases hi - i,
    {
        let c = v[i];
        assert(s[i - lo] == c);
        if c < '0' || c > '9' {
            return None;
        }
        let next: u64 = acc * 10 + (c as u32 - 48) as u64;
        proof {
            assert(s.take(i - lo + 1).drop_last() =~= s.take(i - lo));
            assert(s.take(i - lo + 1).last() == c);
            lemma_digits_grow(s, i - lo + 1);
        }
        if next > MAX_WHOLE {
            return None;
        }
        acc = next;
        i = i + 1;
    }
    assert(s.take(i - lo) =~= s);
    Some(acc)
}

/// `s` without a leading sign.
pub open spec fn unsigned(s: Seq<char>) -> Seq<char> {
    if s.len() > 0 && (s[0] == '-' || s[0] == '+') {
        s.drop_first()
    } else {
        s
    }
}

/// Whether `s` begins with a minus sign.
pub open spec fn negative(s: Seq<char>) -> bool {
    s.len() > 0 && s[0] == '-'
}

/// The whole number that `s` denotes: an optional sign and at least one digit,
/// the number within 64 bits.
pub open spec fn long_value(s: Seq<char>) -> Option<int> {
    let d = unsigned(s);
    let v = if negative(s) {
        -(digits_value(d) as int)
    } else {
        digits_value(d) as int
    };
    if d.len() > 0 && all_digits(d) && i64::MIN <= v <= i64::MAX {
        Some(v)
    } else {
        None
    }
}

/// Reads a whole number of 64 bits.
pub fn read_long(v: &Vec<char>) -> (r: Option<i64>)
    ensures
        r is Some <==> long_value(v@) is Some,
        r is Some ==> r->0 == long_value(v@)->0,
{
    let signed = v.len() > 0 && (v[0] == '-' || v[0] == '+');
    let lo: usize = if signed {
        1
    } else {
        0
    };
    let ghost d = unsigned(v@);
    assert(v@.subrange(lo as int, v@.len() as int) =~= d);
    if lo == v.len() {
        return None;
    }
    let mut acc: i128 = 0;
    let mut i: usize = lo;
    assert(d.take(0) =~= Seq::empty());
    while i < v.len()
        invariant
            lo <= i <= v@.len(),
            d == v@.subrange(lo as int, v@.len() as int),
            d == unsigned(v@),
            0 <= acc <= 0x8000_0000_0000_0000,
            acc == digits_value(d.take(i - lo)),
            forall|j: int| 0 <= j < i - lo ==> is_digit(#[trigger] d[j]),
        decreases v@.len() - i,
    {
        let c = v[i];
        assert(d[i - lo] == c);
        if c < '0' || c > '9' {
            return None;
        }
        let next: i128 = acc * 10 + (c as u32 - 48) as i128;
        proof {
            assert(d.take(i - lo + 1).drop_last() =~= d.take(i - lo));
            assert(d.take(i - lo + 1).last() == c);
            lemma_digits_grow(d, i - lo + 1);
        }
        if next > 0x8000_0000_0000_0000 {
            return None;
        }
        acc = next;
        i = i + 1;
    }
    assert(d.take(i - lo) =~= d);
    if v[0] == '-' {
        Some((-acc) as i64)
    } else if acc <= 0x7fff_ffff_ffff_ffff {
        Some(acc as i64)
    } else {
        None
    }
}

/// The whole number that `s` denotes: an optional sign and at least one digit,
/// the number within 32 bits.
pub open spec fn int_value(s: Seq<char>) -> Option<int> {
    let d = unsigned(s);
    let v = if negative(s) {
        -(digits_value(d) as int)
    } else {
        digits_value(d) as int
    };
    if d.len() > 0 && all_digits(d) && i32::MIN <= v <= i32::MAX {
        Some(v)
    } else {
        None
    }
}

/// Reads a whole number of 32 bits.
pub fn read_int(v: &Vec<char>) -> (r: Option<i32>)
    ensures
        r is Some <==> int_value(v@) is Some,
        r is Some ==> r->0 == int_value(v@)->0,
{
    let signed = v.len() > 0 && (v[0] == '-' || v[0] == '+');
    let lo: usize = if signed {
        1
    } else {
        0
    };
    assert(v@.subrange(lo as int, v@.len() as int) =~= unsigned(v@));
    if lo == v.len() {
        return None;
    }
    match read_digits(v, lo, v.len()) {
        None => None,
        Some(n) => {
            if v[0] == '-' {
                if n <= 2147483648 {
                    Some((-(n as i64)) as i32)
                } else {
                    None
                }
            } else if n <= 2147483647 {
                Some(n as i32)
            } else {
                None
            }
        },
    }
}

// --- decimal numbers -------------------------------------------------------

/// Where the exponent of `d` begins: at its first `e` or `E`, or at its end.
pub open spec fn exponent_at(d: Seq<char>) -> int {
    min(find_char(d, 'e'), find_char(d, 'E'))
}

/// What stands in front of the exponent.
pub open spec fn mantissa(d: Seq<char>) -> Seq<char> {
    d.take(exponent_at(d))
}

/// The digits in front of the decimal point.
pub open spec fn whole_part(m: Seq<char>) -> Seq<char> {
    m.take(find_char(m, '.'))
}

/// The digits behind the decimal point.
pub open spec fn fraction_part(m: Seq<char>) -> Seq<char> {
    if find_char(m, '.') < m.len() {
        m.skip(find_char(m, '.') + 1)
    } else {
        Seq::empty()
    }
}

/// The whole number that a sign and digits stand for.
pub open spec fn signed_value(s: Seq<char>) -> int {
    if negative(s) {
        -(digits_value(unsigned(s)) as int)
    } else {
        digits_value(unsigned(s)) as int
    }
}

/// Whether `s` is at least one digit, with or without a sign in front.
pub open spec fn is_signed(s: Seq<char>) -> bool {
    unsigned(s).len() > 0 && all_digits(unsigned(s))
}

/// The power of ten by which the mantissa is multiplied.
pub open spec fn exponent_of(d: Seq<char>) -> int {
    if exponent_at(d) < d.len() {
        signed_value(d.skip(exponent_at(d) + 1))
    } else {
        0
    }
}

/// Whether `d` is an unsigned decimal number: digits with at most one point among
/// them and at least one digit, and behind them nothing, or an `e` and a whole
/// number.
pub open spec fn is_decimal(d: Seq<char>) -> bool {
    let m = mantissa(d);
    &&& all_digits(whole_part(m))
    &&& all_digits(fraction_part(m))
    &&& whole_part(m).len() + fraction_part(m).len() > 0
    &&& exponent_at(d) < d.len() ==> is_signed(d.skip(exponent_at(d) + 1))
}

/// What the digits `ds` stand for with the point behind the first `p` of them (or
/// as many zeros further), to the nearest whole number, a tie going up.
pub open spec fn size_at(ds: Seq<char>, p: int) -> nat {
    if p < 0 {
        0
    } else if p < ds.len() {
        digits_value(ds.take(p)) + (if digit_value(ds[p]) >= 5 {
            1nat
        } else {
            0nat
        })
    } else {
        digits_value(ds) * pow10((p - ds.len()) as nat)
    }
}

/// The size of the unsigned decimal `d` in millionths.
pub open spec fn decimal_size(d: Seq<char>) -> nat {
    let m = mantissa(d);
    size_at(
        whole_part(m) + fraction_part(m),
        whole_part(m).len() + exponent_of(d) + 6,
    )
}

/// The number of millionths that the decimal notation `s` denotes, to the nearest
/// one; `None` where it is no decimal number or does not fit 64 bits.
pub open spec fn decimal_value(s: Seq<char>) -> Option<int> {
    let d = unsigned(s);
    let v = if negative(s) {
        -(decimal_size(d) as int)
    } else {
        decimal_size(d) as int
    };
    if is_decimal(d) && i64::MIN <= v <= i64::MAX {
        Some(v)
    } else {
        None
    }
}

pub proof fn lemma_pow10_values()
    ensures
        pow10(0) == 1,
        pow10(1) == 10,
        pow10(2) == 100,
        pow10(3) == 1_000,
        pow10(4) == 10_000,
        pow10(5) == 100_000,
        pow10(6) == 1_000_000,
{
    reveal_with_fuel(pow10, 8);
}

proof fn lemma_pow10_grows(a: nat, b: nat)
    requires
        a <= b,
    ensures
        1 <= pow10(a) <= pow10(b),
    decreases b,
{
    if a < b {
        lemma_pow10_grows(a, (b - 1) as nat);
    } else if a > 0 {
        lemma_pow10_grows((a - 1) as nat, (b - 1) as nat);
    }
}

pub proof fn lemma_pow10_adds(a: nat, b: nat)
    ensures
        pow10(a) * pow10(b) == pow10(a + b),
    decreases a,
{
    if a > 0 {
        let c = (a - 1) as nat;
        lemma_pow10_adds(c, b);
        assert(pow10(a) == 10 * pow10(c));
        assert(pow10(a + b) == 10 * pow10(c + b));
        assert(10 * pow10(c) * pow10(b) == 10 * (pow10(c) * pow10(b))) by (nonlinear_arith);
    } else {
        assert(1 * pow10(b) == pow10(b));
    }
}

/// Past twenty zeros a number is nothing or does not fit 64 bits.
proof fn lemma_far(ds: Seq<char>, p: int)
    requires
        p >= ds.len() + 20,
    ensures
        digits_value(ds) == 0 ==> size_at(ds, p) == 0,
        digits_value(ds) > 0 ==> size_at(ds, p) > 0x8000_0000_0000_0000,
{
    let (n, k) = (digits_value(ds), pow10((p - ds.len()) as nat));
    reveal_with_fuel(pow10, 22);
    lemma_pow10_grows(20, (p - ds.len()) as nat);
    assert(n == 0 ==> n * k == 0) by (nonlinear_arith);
    assert(n > 0 ==> n * k >= k) by (nonlinear_arith);
}

fn take_digits(out: &mut Vec<char>, v: &Vec<char>, lo: usize, hi: usize) -> (ok: bool)
    requires
        lo <= hi <= v@.len(),
    ensures
        ok == all_digits(v@.subrange(lo as int, hi as int)),
        ok ==> final(out)@ == old(out)@ + v@.subrange(lo as int, hi as int),
{
    let ghost s = v@.subrange(lo as int, hi as int);
    let mut i: usize = lo;
    assert(s.take(0) =~= Seq::empty());
    assert(out@ =~= old(out)@ + s.take(0));
    while i < hi
        invariant
            lo <= i <= hi <= v@.len(),
            s == v@.subrange(lo as int, hi as int),
            out@ == old(out)@ + s.take(i - lo),
            forall|j: int| 0 <= j < i - lo ==> is_digit(#[trigger] s[j]),
        decreases hi - i,
    {
        let c = v[i];
        assert(s[i - lo] == c);
        if c < '0' || c > '9' {
            return false;
        }
        out.push(c);
        i = i + 1;
        assert(out@ =~= old(out)@ + s.take(i - lo));
    }
    assert(s.take(i - lo) =~= s);
    true
}

/// Exponents further out than this all mean the same.
const FAR: i128 = 1_000_000_000_000_000_000_000_000_000_000;

fn read_exponent(v: &Vec<char>, lo: usize) -> (r: Option<i128>)
    requires
        lo <= v@.len(),
    ensures
        r is Some <==> is_signed(v@.skip(lo as int)),
        r is Some ==> r->0 == clamp(signed_value(v@.skip(lo as int)), -FAR as int, FAR as int),
{
    let ghost x = v@.skip(lo as int);
    let signed = lo < v.len() && (v[lo] == '-' || v[lo] == '+');
    let start: usize = if signed {
        lo + 1
    } else {
        lo
    };
    let ghost d = unsigned(x);
    assert(lo < v@.len() ==> x[0] == v@[lo as int]);
    assert(d =~= v@.subrange(start as int, v@.len() as int));
    if start == v.len() {
        return None;
    }
    let mut acc: i128 = 0;
    let mut i: usize = start;
    assert(d.take(0) =~= Seq::empty());
    while i < v.len()
        invariant
            start <= i <= v@.len(),
            d == v@.subrange(start as int, v@.len() as int),
            d == unsigned(v@.skip(lo as int)),
            acc == min(digits_value(d.take(i - start)) as int, FAR as int),
            forall|j: int| 0 <= j < i - start ==> is_digit(#[trigger] d[j]),
        decreases v@.len() - i,
    {
        let c = v[i];
        assert(d[i - start] == c);
        if c < '0' || c > '9' {
            return None;
        }
        proof {
            assert(d.take(i - start + 1).drop_last() =~= d.take(i - start));
            assert(d.take(i - start + 1).last() == c);
        }
        let next: i128 = acc * 10 + (c as u32 - 48) as i128;
        acc = if next > FAR {
            FAR
        } else {
            next
        };
        i = i + 1;
    }
    assert(d.take(i - start) =~= d);
    if v[lo] == '-' {
        Some(-acc)
    } else {
        Some(acc)
    }
}

fn read_size(ds: &Vec<char>, p: i128) -> (r: Option<u64>)
    requires
        all_digits(ds@),
    ensures
        r is Some <==> size_at(ds@, p as int) <= 0x8000_0000_0000_0000,
        r is Some ==> r->0 == size_at(ds@, p as int),
{
    if p < 0 {
        return Some(0);
    }
    let mut acc: u128 = 0;
    let mut i: usize = 0;
    assert(ds@.take(0) =~= Seq::empty());
    while i < ds.len() && (i as i128) < p
        invariant
            all_digits(ds@),
            0 <= i <= ds@.len(),
            i <= p,
            acc == digits_value(ds@.take(i as int)),
            acc <= 0x8000_0000_0000_0000,
        decreases ds@.len() - i,
    {
        let c = ds[i];
        assert(is_digit(ds@[i as int]));
        let next: u128 = acc * 10 + (c as u32 - 48) as u128;
        proof {
            assert(ds@.take(i + 1).drop_last() =~= ds@.take(i as int));
            assert(ds@.take(i + 1).last() == c);
            lemma_size_reaches(ds@, p as int, i + 1);
        }
        if next > 0x8000_0000_0000_0000 {
            return None;
        }
        acc = next;
        i = i + 1;
    }
    if i < ds.len() {
        assert(is_digit(ds@[i as int]));
        let size: u128 = if ds[i] >= '5' {
            acc + 1
        } else {
            acc
        };
        return if size > 0x8000_0000_0000_0000 {
            None
        } else {
            Some(size as u64)
        };
    }
    assert(ds@.take(i as int) =~= ds@);
    let ghost n = acc as nat;
    if acc == 0 {
        assert(n * pow10((p - ds@.len()) as nat) == 0) by (nonlinear_arith)
            requires
                n == 0,
        ;
        return Some(0);
    }
    let mut k: i128 = i as i128;
    assert(n * pow10(0) == n) by (nonlinear_arith)
        requires
            pow10(0) == 1,
    ;
    while k < p
        invariant
            i == ds@.len(),
            i <= k <= p,
            n == digits_value(ds@),
            acc == n * pow10((k - i) as nat),
            acc <= 0x8000_0000_0000_0000,
        decreases p - k,
    {
        let ghost (a, b) = (pow10((k - i) as nat), pow10((k + 1 - i) as nat));
        proof {
            assert(b == 10 * a);
            assert(n * b == 10 * (n * a)) by (nonlinear_arith)
                requires
                    b == 10 * a,
            ;
            let c = pow10((p - i) as nat);
            lemma_pow10_grows((k + 1 - i) as nat, (p - i) as nat);
            assert(n * c >= n * b) by (nonlinear_arith)
                requires
                    c >= b,
                    n >= 0,
            ;
        }
        acc = acc * 10;
        if acc > 0x8000_0000_0000_0000 {
            return None;
        }
        k = k + 1;
    }
    Some(acc as u64)
}

/// A size is not below what the digits in front of its point stand for.
proof fn lemma_size_reaches(ds: Seq<char>, p: int, i: int)
    requires
        0 <= i <= ds.len(),
        i <= p,
    ensures
        digits_value(ds.take(i)) <= size_at(ds, p),
{
    if p < ds.len() {
        assert(ds.take(p).take(i) =~= ds.take(i));
        lemma_digits_grow(ds.take(p), i);
    } else {
        lemma_digits_grow(ds, i);
        lemma_pow10_grows(0, (p - ds.len()) as nat);
        let (n, k) = (digits_value(ds), pow10((p - ds.len()) as nat));
        assert(n * k >= n) by (nonlinear_arith)
            requires
                k >= 1,
        ;
    }
}

proof fn lemma_found(s: Seq<char>, c: char)
    ensures
        0 <= find_char(s, c) <= s.len(),
        forall|j: int| 0 <= j < find_char(s, c) ==> s[j] != c,
        find_char(s, c) < s.len() ==> s[find_char(s, c)] == c,
    decreases s.len(),
{
    if s.len() > 0 && s[0] != c {
        let t = s.drop_first();
        lemma_found(t, c);
        assert forall|j: int| 0 <= j < find_char(s, c) implies s[j] != c by {
            if j > 0 {
                assert(s[j] == t[j - 1]);
            }
        }
    }
}

proof fn lemma_find_in_front(d: Seq<char>, c: char, k: int)
    requires
        0 <= k <= d.len(),
    ensures
        find_char(d.take(k), c) == min(find_char(d, c), k),
{
    lemma_found(d, c);
    let at = min(find_char(d, c), k);
    assert forall|j: int| 0 <= j < at implies d.take(k)[j] != c by {
        assert(d.take(k)[j] == d[j]);
    }
    lemma_find_char(d.take(k), c, at);
}

fn read_mantissa(v: &Vec<char>, lo: usize, end: usize) -> (r: Option<(Vec<char>, usize)>)
    requires
        lo <= end <= v@.len(),
    ensures
        ({
            let m = v@.subrange(lo as int, end as int);
            &&& r is Some <==> all_digits(whole_part(m)) && all_digits(fraction_part(m))
                && whole_part(m).len() + fraction_part(m).len() > 0
            &&& r is Some ==> (r->0).0@ == whole_part(m) + fraction_part(m) && (r->0).1
                == whole_part(m).len() && all_digits((r->0).0@)
        }),
{
    let ghost m = v@.subrange(lo as int, end as int);
    let ghost d = v@.subrange(lo as int, v@.len() as int);
    let point: usize = find_from(v, lo, '.');
    let dot: usize = if point < end - lo {
        lo + point
    } else {
        end
    };
    proof {
        lemma_find_in_front(d, '.', end - lo);
        assert(d.take(end - lo) =~= m);
    }
    assert(v@.subrange(lo as int, dot as int) =~= whole_part(m));
    let mut ds: Vec<char> = Vec::new();
    if !take_digits(&mut ds, v, lo, dot) {
        return None;
    }
    assert(ds@ =~= whole_part(m));
    if dot < end {
        assert(v@.subrange(dot + 1, end as int) =~= fraction_part(m));
        if !take_digits(&mut ds, v, dot + 1, end) {
            return None;
        }
    } else {
        assert(fraction_part(m) =~= Seq::empty());
    }
    assert(ds@ =~= whole_part(m) + fraction_part(m));
    if ds.len() == 0 {
        return None;
    }
    proof {
        assert forall|i: int| 0 <= i < ds@.len() implies is_digit(#[trigger] ds@[i]) by {
            let w = whole_part(m);
            if i < w.len() {
                assert(is_digit(w[i]));
            } else {
                assert(is_digit(fraction_part(m)[i - w.len()]));
            }
        }
    }
    Some((ds, dot - lo))
}

fn read_unsigned(v: &Vec<char>, lo: usize) -> (r: Option<u64>)
    requires
        lo <= v@.len(),
    ensures
        ({
            let d = v@.subrange(lo as int, v@.len() as int);
            &&& r is Some <==> is_decimal(d) && decimal_size(d) <= 0x8000_0000_0000_0000
            &&& r is Some ==> r->0 == decimal_size(d)
        }),
{
    let ghost d = v@.subrange(lo as int, v@.len() as int);
    let total: usize = v.len();
    let small: usize = find_from(v, lo, 'e');
    let large: usize = find_from(v, lo, 'E');
    let end: usize = if small <= large {
        lo + small
    } else {
        lo + large
    };
    let ghost m = mantissa(d);
    assert(m =~= v@.subrange(lo as int, end as int));
    let (ds, whole) = match read_mantissa(v, lo, end) {
        Some(x) => x,
        None => {
            return None;
        },
    };
    let exponent: i128 = if end < total {
        assert(v@.skip(end + 1) =~= d.skip(exponent_at(d) + 1));
        match read_exponent(v, end + 1) {
            Some(e) => e,
            None => {
                return None;
            },
        }
    } else {
        0
    };
    let p: i128 = whole as i128 + exponent + 6;
    let count: usize = ds.len();
    proof {
        assert(ds@.len() == count);
        if exponent_of(d) > FAR {
            lemma_far(ds@, p as int);
            lemma_far(ds@, whole_part(m).len() + exponent_of(d) + 6);
        }
    }
    read_size(&ds, p)
}

/// Reads a decimal number.
pub fn read_decimal(v: &Vec<char>) -> (r: Option<i64>)
    ensures
        r is Some <==> decimal_value(v@) is Some,
        r is Some ==> r->0 == decimal_value(v@)->0,
{
    let signed = v.len() > 0 && (v[0] == '-' || v[0] == '+');
    let lo: usize = if signed {
        1
    } else {
        0
    };
    assert(v@.subrange(lo as int, v@.len() as int) =~= unsigned(v@));
    let size: u64 = match read_unsigned(v, lo) {
        Some(n) => n,
        None => {
            return None;
        },
    };
    if signed && v[0] == '-' {
        Some((-(size as i128)) as i64)
    } else if size <= 0x7fff_ffff_ffff_ffff {
        Some(size as i64)
    } else {
        None
    }
}

// --- shortest notation -----------------------------------------------------

/// The low `w` digits of `n` without the zeros at their end.
pub open spec fn short_fraction(n: nat, w: nat) -> Seq<char>
    decreases w,
{
    if n == 0 || w == 0 {
        Seq::empty()
    } else if n % 10 == 0 {
        short_fraction(n / 10, (w - 1) as nat)
    } else {
        pad_text(n, w)
    }
}

/// The size `n` in millionths with no more digits than it needs.
pub open spec fn short_size(n: nat) -> Seq<char> {
    if n % 1_000_000 == 0 {
        nat_text(n / 1_000_000)
    } else {
        nat_text(n / 1_000_000).push('.') + short_fraction(n % 1_000_000, 6)
    }
}

/// A fixed-point number with no more digits than it needs.
pub open spec fn short_text(x: int) -> Seq<char> {
    if x < 0 {
        seq!['-'] + short_size((-x) as nat)
    } else {
        short_size(x as nat)
    }
}

fn push_padded(s: &mut String, n: u64, w: u8)
    ensures
        final(s)@ == old(s)@ + pad_text(n as nat, w as nat),
    decreases w,
{
    if w > 0 {
        push_padded(s, n / 10, w - 1);
        let d: u8 = (n % 10) as u8;
        s.push((48 + d) as char);
    }
    assert(s@ =~= old(s)@ + pad_text(n as nat, w as nat));
}

fn push_short(s: &mut String, n: u64, w: u8)
    ensures
        final(s)@ == old(s)@ + short_fraction(n as nat, w as nat),
    decreases w,
{
    if n == 0 || w == 0 {
        assert(s@ =~= old(s)@ + short_fraction(n as nat, w as nat));
    } else if n % 10 == 0 {
        push_short(s, n / 10, w - 1);
    } else {
        push_padded(s, n, w);
    }
}

/// Appends a fixed-point number with no more digits than it needs.
pub fn push_shortest(s: &mut String, x: i64)
    ensures
        final(s)@ == old(s)@ + short_text(x as int),
{
    let size: u64 = if x < 0 {
        s.push('-');
        (-(x as i128)) as u64
    } else {
        x as u64
    };
    push_nat(s, (size / 1_000_000) as u128);
    if size % 1_000_000 != 0 {
        s.push('.');
        push_short(s, size % 1_000_000, 6);
    }
    assert(s@ =~= old(s)@ + short_text(x as int));
}

pub proof fn lemma_nat_text(n: nat)
    ensures
        all_digits(nat_text(n)),
        digits_value(nat_text(n)) == n,
        nat_text(n).len() >= 1,
    decreases n,
{
    if n < 10 {
        let s = seq![digit(n as int)];
        assert(s.drop_last() =~= Seq::<char>::empty());
        assert(digits_value(s.drop_last()) == 0);
        assert(nat_text(n) == s);
    } else {
        lemma_nat_text(n / 10);
        let s = nat_text(n);
        assert(s.drop_last() =~= nat_text(n / 10));
    }
}

pub proof fn lemma_pad_text(n: nat, w: nat)
    requires
        n < pow10(w),
    ensures
        all_digits(pad_text(n, w)),
        digits_value(pad_text(n, w)) == n,
        pad_text(n, w).len() == w,
    decreases w,
{
    if w > 0 {
        assert(pow10(w) == 10 * pow10((w - 1) as nat));
        lemma_pad_text(n / 10, (w - 1) as nat);
        assert(pad_text(n, w).drop_last() =~= pad_text(n / 10, (w - 1) as nat));
    }
}

proof fn lemma_short_fraction(n: nat, w: nat, k: nat)
    requires
        0 < n < pow10(w),
        w + k == 6,
    ensures
        all_digits(short_fraction(n, w)),
        1 <= short_fraction(n, w).len() <= w,
        digits_value(short_fraction(n, w)) * pow10((6 - short_fraction(n, w).len()) as nat) == n
            * pow10(k),
    decreases w,
{
    assert(pow10(0) == 1);
    if n % 10 == 0 {
        assert(pow10(w) == 10 * pow10((w - 1) as nat));
        lemma_short_fraction(n / 10, (w - 1) as nat, k + 1);
        assert(pow10(k + 1) == 10 * pow10(k));
        assert((n / 10) * (10 * pow10(k)) == n * pow10(k)) by (nonlinear_arith)
            requires
                n % 10 == 0,
        ;
    } else {
        lemma_pad_text(n, w);
    }
}

pub proof fn lemma_digits_join(w: Seq<char>, f: Seq<char>)
    ensures
        digits_value(w + f) == digits_value(w) * pow10(f.len()) + digits_value(f),
    decreases f.len(),
{
    if f.len() == 0 {
        assert(w + f =~= w);
        assert(digits_value(w) * 1 == digits_value(w));
    } else {
        let g = f.drop_last();
        lemma_digits_join(w, g);
        assert((w + f).drop_last() =~= w + g);
        assert((w + f).last() == f.last());
        let (a, b) = (digits_value(w), pow10(g.len()));
        assert(pow10(f.len()) == 10 * b);
        assert(a * (10 * b) == 10 * (a * b)) by (nonlinear_arith);
    }
}

/// Reading the shortest notation of a number gives the number back.
pub proof fn law_read_undoes_shortest(x: int)
    requires
        i64::MIN <= x <= i64::MAX,
    ensures
        decimal_value(short_text(x)) == Some(x),
{
    let n = abs(x) as nat;
    let d = short_size(n);
    let w = nat_text(n / 1_000_000);
    let part = n % 1_000_000;
    lemma_nat_text(n / 1_000_000);
    lemma_pow10_values();
    let f = if part == 0 {
        Seq::empty()
    } else {
        short_fraction(part, 6)
    };
    if part != 0 {
        lemma_short_fraction(part, 6, 0);
        assert(part * pow10(0) == part) by (nonlinear_arith)
            requires
                pow10(0) == 1,
        ;
    }
    assert(is_digit(w[0]));
    assert(d[0] == w[0]);
    if x < 0 {
        assert(short_text(x).drop_first() =~= d);
    }
    assert(unsigned(short_text(x)) == d);
    assert forall|j: int| 0 <= j < d.len() implies d[j] != 'e' && d[j] != 'E' && (j < w.len()
        ==> d[j] != '.') by {
        if j < w.len() {
            assert(is_digit(w[j]));
        } else if j > w.len() {
            assert(is_digit(f[j - w.len() - 1]));
        }
    }
    lemma_find_char(d, 'e', d.len() as int);
    lemma_find_char(d, 'E', d.len() as int);
    assert(mantissa(d) =~= d);
    lemma_find_char(d, '.', w.len() as int);
    assert(whole_part(d) =~= w);
    assert(fraction_part(d) =~= f);
    lemma_digits_join(w, f);
    let (q, r, a, b) = (
        digits_value(w),
        digits_value(f),
        pow10(f.len()),
        pow10((6 - f.len()) as nat),
    );
    lemma_pow10_adds(f.len(), (6 - f.len()) as nat);
    if part == 0 {
        assert(r * b == 0) by (nonlinear_arith)
            requires
                r == 0,
        ;
    }
    assert((q * a + r) * b == q * (a * b) + r * b) by (nonlinear_arith);
    assert(q * (a * b) + part == n) by (nonlinear_arith)
        requires
            a * b == 1_000_000,
            q == n / 1_000_000,
            part == n % 1_000_000,
    ;
    assert(decimal_size(d) == n);
    assert(is_decimal(d));
}

/// Reading the notation of a 32-bit whole number gives the number back.
pub proof fn law_read_undoes_int(x: int)
    requires
        i32::MIN <= x <= i32::MAX,
    ensures
        int_value(int_text(x)) == Some(x),
{
    lemma_nat_text(abs(x) as nat);
    let w = nat_text(abs(x) as nat);
    assert(is_digit(w[0]));
    if x < 0 {
        assert(int_text(x).drop_first() =~= w);
    }
}

/// Neither notation holds a character other than digits, a sign and a point.
pub proof fn lemma_notation_plain(x: int, c: char)
    requires
        c != '-',
        c != '.',
        !is_digit(c),
    ensures
        lacks(short_text(x), c),
        lacks(int_text(x), c),
{
    let n = abs(x) as nat;
    lemma_nat_text(n);
    lemma_nat_text(n / 1_000_000);
    lemma_pow10_values();
    if n % 1_000_000 != 0 {
        lemma_short_fraction(n % 1_000_000, 6, 0);
    }
    let w = nat_text(n / 1_000_000);
    let f = short_fraction(n % 1_000_000, 6);
    let d = short_size(n);
    assert forall|i: int| 0 <= i < d.len() implies d[i] != c by {
        if i < w.len() {
            assert(is_digit(w[i]));
        } else if i > w.len() {
            assert(is_digit(f[i - w.len() - 1]));
        }
    }
    assert forall|i: int| 0 <= i < short_text(x).len() implies short_text(x)[i] != c by {
        if x < 0 && i > 0 {
            assert(short_text(x)[i] == d[i - 1]);
        }
    }
    assert forall|i: int| 0 <= i < int_text(x).len() implies int_text(x)[i] != c by {
        if x < 0 && i > 0 {
            assert(is_digit(nat_text(n)[i - 1]));
        } else if x >= 0 {
            assert(is_digit(nat_text(n)[i]));
        }
    }
}

} // verus!
