//! Fixed-point numbers. Prices, strikes, money, share counts, deltas and
//! fractions are whole numbers of millionths; returns are whole numbers of
//! billionths. Quotients are rounded only where a function says so.

use vstd::prelude::*;
use vstd::string::*;

verus! {

/// Millionths to a whole.
pub const SCALE: i64 = 1_000_000;

/// Millionths to a cent.
pub const CENT: i64 = 10_000;

/// The largest price or strike, in millionths (a billion dollars): small enough
/// that a structure of many legs can be added up.
pub const MAX_PRICE: i64 = 1_000_000_000_000_000;

/// The largest amount of money that a computation carries on with, in millionths.
pub const MAX_MONEY: i128 = 1_000_000_000_000_000_000_000_000_000_000_000;

/// The largest premium or collateral of one order, in millionths.
pub const MAX_TOTAL: i128 = 10_000_000_000_000_000_000_000_000_000;

/// The largest numerator of a quotient that is written out.
pub const MAX_PART: i128 = 100_000_000_000_000_000_000_000_000_000_000_000;

/// Whether `x` is in the range of a price.
pub open spec fn is_price(x: int) -> bool {
    -MAX_PRICE <= x <= MAX_PRICE
}

/// Whether `x` is in the range of one order's premium or collateral.
pub open spec fn is_total(x: int) -> bool {
    -MAX_TOTAL <= x <= MAX_TOTAL
}

/// Whether `x` is in the range of an amount of money.
pub open spec fn is_money(x: int) -> bool {
    -MAX_MONEY <= x <= MAX_MONEY
}

pub open spec fn abs(x: int) -> int {
    if x < 0 {
        -x
    } else {
        x
    }
}

pub open spec fn max(x: int, y: int) -> int {
    if x >= y {
        x
    } else {
        y
    }
}

pub open spec fn min(x: int, y: int) -> int {
    if x <= y {
        x
    } else {
        y
    }
}

/// `x` held between `lo` and `hi`.
pub open spec fn clamp(x: int, lo: int, hi: int) -> int {
    if x < lo {
        lo
    } else if x > hi {
        hi
    } else {
        x
    }
}

/// `x` held between `lo` and `hi`.
pub fn clamp_to(x: i64, lo: i64, hi: i64) -> (r: i64)
    ensures
        r == clamp(x as int, lo as int, hi as int),
{
    if x < lo {
        lo
    } else if x > hi {
        hi
    } else {
        x
    }
}

/// The largest whole number that is not above `a / b`.
pub open spec fn floor_div(a: int, b: int) -> int {
    if b > 0 {
        a / b
    } else {
        (-a) / (-b)
    }
}

proof fn lemma_floor_unique(a: int, b: int, q: int)
    requires
        b > 0,
        q * b <= a < q * b + b,
    ensures
        a / b == q,
{
    assert(a / b == q) by (nonlinear_arith)
        requires
            b > 0,
            q * b <= a < q * b + b,
    ;
}

/// The largest whole number that is not above `a / b`.
pub fn floor_of(a: i128, b: i128) -> (r: i128)
    requires
        b > 0,
    ensures
        r == floor_div(a as int, b as int),
{
    if a >= 0 {
        a / b
    } else {
        let m: i128 = -(a + 1);
        let q: i128 = m / b;
        proof {
            assert(0 <= q <= m) by (nonlinear_arith)
                requires
                    q == m as int / b as int,
                    b > 0,
                    m >= 0,
            ;
            assert(q * b <= m < q * b + b) by (nonlinear_arith)
                requires
                    q == m as int / b as int,
                    b > 0,
            ;
            assert((-q - 1) * b == -(q * b) - b) by (nonlinear_arith);
            lemma_floor_unique(a as int, b as int, -q - 1);
        }
        -q - 1
    }
}

/// `a / b` to the nearest whole number, a tie going away from zero.
pub open spec fn round_away(a: int, b: int) -> int {
    if a >= 0 {
        (2 * a + b) / (2 * b)
    } else {
        -((2 * (-a) + b) / (2 * b))
    }
}

/// `x` to the nearest cent, a tie going away from zero.
pub open spec fn cents(x: int) -> int {
    round_away(x, CENT as int) * CENT
}

/// Rounds a price to the nearest cent.
pub fn round_cents(x: i64) -> (r: i64)
    requires
        -9_000_000_000_000_000_000 <= x <= 9_000_000_000_000_000_000,
    ensures
        r == cents(x as int),
        x - CENT < r < x + CENT,
        x >= 0 ==> r >= 0,
{
    if x >= 0 {
        (x + 5_000) / 10_000 * 10_000
    } else {
        -((-x + 5_000) / 10_000 * 10_000)
    }
}

/// Cent rounding of a sum of money.
pub fn round_cents_wide(x: i128) -> (r: i128)
    requires
        -MAX_PART <= x <= MAX_PART,
    ensures
        r == cents(x as int),
        x - CENT < r < x + CENT,
        x >= 0 ==> r >= 0,
{
    if x >= 0 {
        (x + 5_000) / 10_000 * 10_000
    } else {
        -((-x + 5_000) / 10_000 * 10_000)
    }
}

/// Rounding to the cent keeps the order of prices, leaves whole cents alone, and
/// moves a price by half a cent at most.
pub proof fn law_cents(x: int, y: int)
    ensures
        x <= y ==> cents(x) <= cents(y),
        cents(cents(x)) == cents(x),
        2 * abs(cents(x) - x) <= CENT,
{
}

/// The whole number nearest to `a / b` for `a >= 0`, a tie going to the even one.
pub open spec fn round_even(a: int, b: int) -> int {
    let q = a / b;
    let r = a % b;
    if 2 * r > b || (2 * r == b && q % 2 == 1) {
        q + 1
    } else {
        q
    }
}

fn round_even_of(a: u128, b: u128) -> (r: u128)
    requires
        0 < b < 0x4000_0000_0000_0000_0000_0000_0000_0000,
        a < 0x4000_0000_0000_0000_0000_0000_0000_0000,
    ensures
        r == round_even(a as int, b as int),
        r <= a + 1,
{
    let q: u128 = a / b;
    let m: u128 = a % b;
    proof {
        assert(q <= a) by (nonlinear_arith)
            requires
                q == a as int / b as int,
                b > 0,
                a >= 0,
        ;
    }
    if 2 * m > b || (2 * m == b && q % 2 == 1) {
        q + 1
    } else {
        q
    }
}

// --- decimal notation ------------------------------------------------------

/// The character of a digit.
pub open spec fn digit(d: int) -> char {
    (48 + d) as u8 as char
}

/// The decimal digits of `n`, without leading zeros.
pub open spec fn nat_text(n: nat) -> Seq<char>
    decreases n,
{
    if n < 10 {
        seq![digit(n as int)]
    } else {
        nat_text(n / 10).push(digit((n % 10) as int))
    }
}

/// A whole number, with a minus sign where it is negative.
pub open spec fn int_text(x: int) -> Seq<char> {
    if x < 0 {
        seq!['-'] + nat_text((-x) as nat)
    } else {
        nat_text(x as nat)
    }
}

/// The last `w` decimal digits of `n`, leading zeros kept.
pub open spec fn pad_text(n: nat, w: nat) -> Seq<char>
    decreases w,
{
    if w == 0 {
        Seq::empty()
    } else {
        pad_text(n / 10, (w - 1) as nat).push(digit((n % 10) as int))
    }
}

/// Ten to the power `p`.
pub open spec fn pow10(p: nat) -> nat
    decreases p,
{
    if p == 0 {
        1
    } else {
        10 * pow10((p - 1) as nat)
    }
}

/// A number of the size `a`, given in units of which `pow10(places)` make a
/// whole, with `places` digits behind the point.
pub open spec fn point_text(a: nat, places: nat) -> Seq<char> {
    if places == 0 {
        nat_text(a)
    } else {
        nat_text(a / pow10(places)).push('.') + pad_text(a % pow10(places), places)
    }
}

/// The size of `num / den` with `places` digits behind the point, the last one
/// rounded (a tie to the even digit).
pub open spec fn size_text(num: int, den: int, places: nat) -> Seq<char> {
    point_text(round_even(abs(num) * pow10(places), den) as nat, places)
}

/// `num / den` with `places` digits behind the point, and a minus sign in front
/// where `num` is negative.
pub open spec fn ratio_text(num: int, den: int, places: nat) -> Seq<char> {
    if num < 0 {
        seq!['-'] + size_text(num, den, places)
    } else {
        size_text(num, den, places)
    }
}

/// A fixed-point number with `places` digits behind the point.
pub open spec fn dec_text(x: int, places: nat) -> Seq<char> {
    ratio_text(x, SCALE as int, places)
}

fn digit_char(d: u8) -> (r: char)
    requires
        d < 10,
    ensures
        r == digit(d as int),
{
    (48 + d) as char
}

/// Appends the decimal digits of `n`.
pub fn push_nat(s: &mut String, n: u128)
    ensures
        final(s)@ == old(s)@ + nat_text(n as nat),
    decreases n,
{
    if n >= 10 {
        push_nat(s, n / 10);
    }
    s.push(digit_char((n % 10) as u8));
    assert(s@ =~= old(s)@ + nat_text(n as nat));
}

fn push_padded(s: &mut String, n: u128, w: u8)
    ensures
        final(s)@ == old(s)@ + pad_text(n as nat, w as nat),
    decreases w,
{
    if w > 0 {
        push_padded(s, n / 10, w - 1);
        s.push(digit_char((n % 10) as u8));
    }
    assert(s@ =~= old(s)@ + pad_text(n as nat, w as nat));
}

/// Appends a whole number.
pub fn push_int(s: &mut String, x: i128)
    requires
        x > i128::MIN,
    ensures
        final(s)@ == old(s)@ + int_text(x as int),
{
    if x < 0 {
        s.push('-');
        push_nat(s, (-x) as u128);
        assert(s@ =~= old(s)@ + int_text(x as int));
    } else {
        push_nat(s, x as u128);
    }
}

/// A whole number as text.
pub fn int_string(x: i128) -> (r: String)
    requires
        x > i128::MIN,
    ensures
        r@ == int_text(x as int),
{
    let mut s = String::new();
    push_int(&mut s, x);
    assert(s@ =~= int_text(x as int));
    s
}

/// Appends the size of `num / den` with `places` digits behind the point.
pub fn push_size(s: &mut String, num: i128, den: i128, places: u8)
    requires
        -MAX_PART <= num <= MAX_PART,
        0 < den <= MAX_MONEY,
        places <= 2,
    ensures
        final(s)@ == old(s)@ + size_text(num as int, den as int, places as nat),
{
    let a: u128 = if num < 0 {
        (-num) as u128
    } else {
        num as u128
    };
    let scale: u128 = if places == 0 {
        1
    } else if places == 1 {
        10
    } else {
        100
    };
    proof {
        reveal_with_fuel(pow10, 4);
        assert(scale == pow10(places as nat));
    }
    let scaled: u128 = if places == 0 {
        a
    } else if places == 1 {
        a * 10
    } else {
        a * 100
    };
    proof {
        let (k, b) = (pow10(places as nat) as int, abs(num as int));
        assert(scaled == b * k) by (nonlinear_arith)
            requires
                a == b,
                (k == 1 && scaled == a) || (k == 10 && scaled == a * 10) || (k == 100 && scaled == a
                    * 100),
        ;
    }
    let n: u128 = round_even_of(scaled, den as u128);
    if places == 0 {
        push_nat(s, n);
    } else {
        push_nat(s, n / scale);
        s.push('.');
        push_padded(s, n % scale, places);
        assert(s@ =~= old(s)@ + point_text(n as nat, places as nat));
    }
}

/// Appends `num / den` with `places` digits behind the point.
pub fn push_ratio(s: &mut String, num: i128, den: i128, places: u8)
    requires
        -MAX_PART <= num <= MAX_PART,
        0 < den <= MAX_MONEY,
        places <= 2,
    ensures
        final(s)@ == old(s)@ + ratio_text(num as int, den as int, places as nat),
{
    if num < 0 {
        s.push('-');
        push_size(s, num, den, places);
        assert(s@ =~= old(s)@ + ratio_text(num as int, den as int, places as nat));
    } else {
        push_size(s, num, den, places);
    }
}

/// Appends a fixed-point number with `places` digits behind the point.
pub fn push_dec(s: &mut String, x: i128, places: u8)
    requires
        is_money(x as int),
        places <= 2,
    ensures
        final(s)@ == old(s)@ + dec_text(x as int, places as nat),
{
    push_ratio(s, x, SCALE as i128, places);
}

/// A fixed-point number as text with `places` digits behind the point.
pub fn dec_string(x: i128, places: u8) -> (r: String)
    requires
        is_money(x as int),
        places <= 2,
    ensures
        r@ == dec_text(x as int, places as nat),
{
    let mut s = String::new();
    push_dec(&mut s, x, places);
    assert(s@ =~= dec_text(x as int, places as nat));
    s
}

} // verus!
