//! What the texts of numbers say and what trimmed text keeps.

use vstd::prelude::*;
use crate::dates::{
    civil_day, clock_of_text, code_text, dashed_text, instant_of_text, is_date, is_day,
    law_date_of_day, month_text, weekday,
};
use crate::decimal::{
    all_digits, decimal_value, digits_value, exponent_at, fraction_part, int_value, is_digit,
    lemma_digits_join, lemma_nat_text, lemma_pad_text, lemma_pow10_adds, lemma_pow10_values,
    long_value, mantissa, negative, unsigned, whole_part,
};
use crate::engine::types::Right;
use crate::fixed::{
    dec_text, floor_div, int_text, nat_text, pad_text, pow10, ratio_text, round_even,
};
use crate::text::{contains_text, is_space, lemma_find_char, lower_text, stands_at, trim_text};

verus! {

// --- quotients -------------------------------------------------------------

/// A quotient that is rounded down is not above the true one, and less than one below it.
pub proof fn law_floor(a: int, b: int)
    requires
        b != 0,
    ensures
        b > 0 ==> floor_div(a, b) * b <= a < (floor_div(a, b) + 1) * b,
        b < 0 ==> floor_div(a, b) * b >= a > (floor_div(a, b) + 1) * b,
{
    if b > 0 {
        let q = a / b;
        assert(q * b <= a < (q + 1) * b) by (nonlinear_arith)
            requires
                q == a / b,
                b > 0,
        ;
    } else {
        let (m, c) = (-a, -b);
        let q = m / c;
        assert(q * c <= m < (q + 1) * c) by (nonlinear_arith)
            requires
                q == m / c,
                c > 0,
        ;
        assert(q * b == -(q * c) && (q + 1) * b == -((q + 1) * c)) by (nonlinear_arith)
            requires
                c == -b,
        ;
    }
}

/// A quotient that is rounded is no more than half a divisor away, and is even where two
/// whole numbers are equally near.
pub proof fn law_round_even(a: int, b: int)
    requires
        a >= 0,
        b > 0,
    ensures
        ({
            let q = round_even(a, b);
            &&& q >= 0
            &&& -b <= 2 * (q * b - a) <= b
            &&& 2 * (q * b - a) == b || 2 * (q * b - a) == -b ==> q % 2 == 0
        }),
{
    let q = a / b;
    let r = a % b;
    assert(a == q * b + r && 0 <= r < b && q >= 0) by (nonlinear_arith)
        requires
            q == a / b,
            r == a % b,
            a >= 0,
            b > 0,
    ;
    assert((q + 1) * b == q * b + b) by (nonlinear_arith);
}

// --- texts of numbers ------------------------------------------------------

/// A whole number is written in digits that stand for its size, with a minus sign in front
/// where it is negative, and reads back.
pub proof fn law_int_text(x: int)
    requires
        i64::MIN <= x <= i64::MAX,
    ensures
        long_value(int_text(x)) == Some(x),
        i32::MIN <= x <= i32::MAX ==> int_value(int_text(x)) == Some(x),
        x < 0 <==> int_text(x)[0] == '-',
{
    let n = if x < 0 {
        (-x) as nat
    } else {
        x as nat
    };
    lemma_nat_text(n);
    let w = nat_text(n);
    assert(is_digit(w[0]));
    if x < 0 {
        assert(int_text(x).drop_first() =~= w);
    }
}

/// A number with digits behind the point: a sign, the whole part, a point and so many
/// digits. The digits together stand for the number `n`, which is the size of `num / den`
/// in units of the last digit, to the nearest one.
pub proof fn law_ratio_text(num: int, den: int, places: nat) -> (n: nat)
    requires
        den > 0,
        places > 0,
    ensures
        ({
            let size = if num < 0 {
                -num
            } else {
                num
            };
            let (w, f) = (nat_text(n / pow10(places)), pad_text(n % pow10(places), places));
            &&& -den <= 2 * (n * den - size * pow10(places)) <= den
            &&& all_digits(w) && all_digits(f)
            &&& f.len() == places
            &&& digits_value(w) * pow10(places) + digits_value(f) == n
            &&& num >= 0 ==> ratio_text(num, den, places) == w.push('.') + f
            &&& num < 0 ==> ratio_text(num, den, places) == seq!['-'] + (w.push('.') + f)
        }),
{
    let size = if num < 0 {
        -num
    } else {
        num
    };
    let p = pow10(places) as int;
    lemma_pow10_positive(places);
    let a = size * p;
    assert(a >= 0) by (nonlinear_arith)
        requires
            a == size * p,
            size >= 0,
            p > 0,
    ;
    law_round_even(a, den);
    let n = round_even(a, den) as nat;
    lemma_nat_text(n / pow10(places));
    lemma_pad_text(n % pow10(places), places);
    let (q, r) = (n as int / p, n as int % p);
    assert(q * p + r == n) by (nonlinear_arith)
        requires
            q == n as int / p,
            r == n as int % p,
            p > 0,
    ;
    n
}

/// A number without digits behind the point: a sign and the digits of the nearest whole
/// number `n`.
pub proof fn law_whole_text(num: int, den: int) -> (n: nat)
    requires
        den > 0,
    ensures
        ({
            let size = if num < 0 {
                -num
            } else {
                num
            };
            &&& -den <= 2 * (n * den - size) <= den
            &&& digits_value(nat_text(n)) == n
            &&& all_digits(nat_text(n))
            &&& num >= 0 ==> ratio_text(num, den, 0) == nat_text(n)
            &&& num < 0 ==> ratio_text(num, den, 0) == seq!['-'] + nat_text(n)
        }),
{
    let size = if num < 0 {
        -num
    } else {
        num
    };
    assert(pow10(0) == 1);
    law_round_even(size, den);
    let n = round_even(size, den) as nat;
    lemma_nat_text(n);
    n
}

proof fn lemma_pow10_positive(p: nat)
    ensures
        pow10(p) > 0,
    decreases p,
{
    if p > 0 {
        lemma_pow10_positive((p - 1) as nat);
    }
}

/// An amount is written as its size in millionths over a million.
pub proof fn law_dec_text(x: int, places: nat)
    ensures
        dec_text(x, places) == ratio_text(x, 1_000_000, places),
{
}

// --- reading numbers -------------------------------------------------------

/// Digits, a point and up to six more digits, with or without a minus sign, stand for the
/// whole number in front of the point and the fraction behind it, in millionths.
pub proof fn law_read_decimal(w: Seq<char>, f: Seq<char>)
    requires
        w.len() > 0,
        all_digits(w),
        all_digits(f),
        f.len() <= 6,
        ({
            let n = digits_value(w) * 1_000_000 + digits_value(f) * pow10((6 - f.len()) as nat);
            n <= i64::MAX
        }),
    ensures
        ({
            let n = digits_value(w) * 1_000_000 + digits_value(f) * pow10((6 - f.len()) as nat);
            let d = w.push('.') + f;
            &&& decimal_value(d) == Some(n as int)
            &&& decimal_value(seq!['-'] + d) == Some(-n)
            &&& f.len() == 0 ==> decimal_value(w) == Some(n as int)
            &&& f.len() == 0 ==> decimal_value(seq!['-'] + w) == Some(-n)
        }),
{
    lemma_read(w, f, w.push('.') + f);
    if f.len() == 0 {
        lemma_read(w, f, w);
    }
}

proof fn lemma_read(w: Seq<char>, f: Seq<char>, d: Seq<char>)
    requires
        w.len() > 0,
        all_digits(w),
        all_digits(f),
        f.len() <= 6,
        d == w.push('.') + f || (f.len() == 0 && d == w),
        digits_value(w) * 1_000_000 + digits_value(f) * pow10((6 - f.len()) as nat) <= i64::MAX,
    ensures
        ({
            let n = digits_value(w) * 1_000_000 + digits_value(f) * pow10((6 - f.len()) as nat);
            decimal_value(d) == Some(n as int) && decimal_value(seq!['-'] + d) == Some(-n)
        }),
{
    lemma_parts(w, f, d);
    lemma_digits_join(w, f);
    let (q, r, a, b) = (
        digits_value(w),
        digits_value(f),
        pow10(f.len()),
        pow10((6 - f.len()) as nat),
    );
    lemma_pow10_values();
    lemma_pow10_adds(f.len(), (6 - f.len()) as nat);
    assert((q * a + r) * b == q * (a * b) + r * b) by (nonlinear_arith);
    assert(q * (a * b) == q * 1_000_000);
    assert((w + f).len() == w.len() + f.len());
}

/// Beyond six digits behind the point a number is rounded by the seventh: up from five on.
pub proof fn law_read_rounds(w: Seq<char>, f: Seq<char>)
    requires
        w.len() > 0,
        all_digits(w),
        all_digits(f),
        f.len() > 6,
        digits_value(w) * 1_000_000 + digits_value(f.take(6)) < i64::MAX,
    ensures
        ({
            let n = digits_value(w) * 1_000_000 + digits_value(f.take(6));
            let d = w.push('.') + f;
            &&& f[6] >= '5' ==> decimal_value(d) == Some(n as int + 1)
            &&& f[6] < '5' ==> decimal_value(d) == Some(n as int)
            &&& f[6] >= '5' ==> decimal_value(seq!['-'] + d) == Some(-(n as int) - 1)
            &&& f[6] < '5' ==> decimal_value(seq!['-'] + d) == Some(-n)
        }),
{
    let d = w.push('.') + f;
    lemma_parts(w, f, d);
    let g = f.take(6);
    lemma_digits_join(w, g);
    lemma_pow10_values();
    assert((w + f).take((w.len() + 6) as int) =~= w + g);
    assert((w + f)[(w.len() + 6) as int] == f[6]);
    assert(is_digit(f[6]));
}

proof fn lemma_parts(w: Seq<char>, f: Seq<char>, d: Seq<char>)
    requires
        w.len() > 0,
        all_digits(w),
        all_digits(f),
        d == w.push('.') + f || (f.len() == 0 && d == w),
    ensures
        mantissa(d) == d,
        whole_part(d) == w,
        fraction_part(d) == f,
        exponent_at(d) == d.len(),
        unsigned(d) == d,
        !negative(d),
        unsigned(seq!['-'] + d) == d,
        negative(seq!['-'] + d),
{
    assert(is_digit(w[0]));
    assert(d[0] == w[0]);
    assert((seq!['-'] + d).drop_first() =~= d);
    assert forall|j: int| 0 <= j < d.len() implies d[j] != 'e' && d[j] != 'E' && (j < w.len()
        ==> d[j] != '.') by {
        if j < w.len() {
            assert(is_digit(w[j]));
        } else if j > w.len() {
            assert(is_digit(f[j - w.len() - 1]));
        }
    }
    lemma_find_char(d, 'e', d.len() as int);
    lemma_find_char(d, 'E', d.len() as int);
    assert(mantissa(d) =~= d);
    lemma_find_char(d, '.', w.len() as int);
    assert(whole_part(d) =~= w);
    assert(fraction_part(d) =~= f);
}

// --- texts of days ---------------------------------------------------------

/// A date is written as four digits of the year, two of the month and two of the day, with
/// or without dashes; each group of digits stands for its number.
pub proof fn law_date_text(y: int, m: int, d: int)
    requires
        is_date(y, m, d),
        0 <= y <= 9_999,
        is_day(civil_day(y, m, d)),
    ensures
        ({
            let day = civil_day(y, m, d);
            let (a, b, c) = (pad_text(y as nat, 4), pad_text(m as nat, 2), pad_text(d as nat, 2));
            &&& code_text(day) == a + b + c
            &&& month_text(day) == a + b
            &&& dashed_text(day) == a + "-"@ + b + "-"@ + c
            &&& digits_value(a) == y && digits_value(b) == m && digits_value(c) == d
            &&& a.len() == 4 && b.len() == 2 && c.len() == 2
        }),
{
    law_date_of_day(y, m, d);
    lemma_pow10_values();
    assert(d <= 99 && m <= 99);
    lemma_pad_text(y as nat, 4);
    lemma_pad_text(m as nat, 2);
    lemma_pad_text(d as nat, 2);
}

/// A year has 366 days exactly where it is a fourth one and no hundredth, or a
/// four-hundredth one. Day 719,163 is the first of 1970.
#[verifier::spinoff_prover]
pub proof fn law_years(y: int)
    ensures
        ({
            let long = y % 4 == 0 && (y % 100 != 0 || y % 400 == 0);
            &&& long ==> civil_day(y + 1, 1, 1) - civil_day(y, 1, 1) == 366
            &&& !long ==> civil_day(y + 1, 1, 1) - civil_day(y, 1, 1) == 365
            &&& civil_day(1970, 1, 1) == 719_163
        }),
{
    reveal(civil_day);
}

/// February has 28 days, or 29 in a long year; four months have 30 and the others 31; and
/// the next day of a month has the next number.
#[verifier::spinoff_prover]
pub proof fn law_months(y: int, m: int, d: int)
    requires
        1 <= m <= 11,
    ensures
        ({
            let long = y % 4 == 0 && (y % 100 != 0 || y % 400 == 0);
            let size = civil_day(y, m + 1, 1) - civil_day(y, m, 1);
            &&& m == 2 && long ==> size == 29
            &&& m == 2 && !long ==> size == 28
            &&& m == 4 || m == 6 || m == 9 || m == 11 ==> size == 30
            &&& m != 2 && m != 4 && m != 6 && m != 9 && m != 11 ==> size == 31
            &&& civil_day(y, m, d + 1) == civil_day(y, m, d) + 1
            &&& civil_day(y, m + 1, d + 1) == civil_day(y, m + 1, d) + 1
        }),
{
    reveal(civil_day);
}

/// A day later the week goes on by one day, and a week later it is the same day of it.
pub proof fn law_weekday(day: int)
    ensures
        0 <= weekday(day) <= 6,
        weekday(day) < 6 ==> weekday(day + 1) == weekday(day) + 1,
        weekday(day) == 6 ==> weekday(day + 1) == 0,
        weekday(civil_day(2024, 3, 10)) == 0,
{
    reveal(civil_day);
}

// --- text ------------------------------------------------------------------

/// Trimmed text is what is left without the white space at both ends: it begins and ends
/// with none, and all that is gone is white space. `from` is where it begins.
pub proof fn law_trim(s: Seq<char>) -> (from: int)
    ensures
        ({
            let t = trim_text(s);
            &&& 0 <= from && from + t.len() <= s.len()
            &&& s.subrange(from, from + t.len()) == t
            &&& t.len() > 0 ==> !is_space(t[0]) && !is_space(t.last())
            &&& forall|i: int| 0 <= i < from ==> is_space(#[trigger] s[i])
            &&& forall|i: int| from + t.len() <= i < s.len() ==> is_space(#[trigger] s[i])
        }),
    decreases s.len(),
{
    if s.len() == 0 {
        assert(s.subrange(0, 0) =~= s);
        0
    } else if is_space(s[0]) {
        let u = s.drop_first();
        let k = law_trim(u);
        let t = trim_text(s);
        assert(s.subrange(k + 1, k + 1 + t.len()) =~= u.subrange(k, k + t.len()));
        assert forall|i: int| 0 <= i < k + 1 implies is_space(#[trigger] s[i]) by {
            if i > 0 {
                assert(u[i - 1] == s[i]);
            }
        }
        assert forall|i: int| k + 1 + t.len() <= i < s.len() implies is_space(#[trigger] s[i]) by {
            assert(u[i - 1] == s[i]);
        }
        k + 1
    } else if is_space(s.last()) {
        let u = s.drop_last();
        let k = law_trim(u);
        let t = trim_text(s);
        assert(s.subrange(k, k + t.len()) =~= u.subrange(k, k + t.len()));
        assert forall|i: int| 0 <= i < k implies is_space(#[trigger] s[i]) by {
            assert(u[i] == s[i]);
        }
        assert forall|i: int| k + t.len() <= i < s.len() implies is_space(#[trigger] s[i]) by {
            if i < u.len() {
                assert(u[i] == s[i]);
            }
        }
        k
    } else {
        assert(s.subrange(0, s.len() as int) =~= s);
        0
    }
}

/// Lower case changes capitals into their small letters and nothing else.
pub proof fn law_lower(s: Seq<char>, i: int)
    requires
        0 <= i < s.len(),
    ensures
        lower_text(s).len() == s.len(),
        'A' <= s[i] && s[i] <= 'Z' ==> lower_text(s)[i] == (s[i] as int + 32) as char,
        !('A' <= s[i] && s[i] <= 'Z') ==> lower_text(s)[i] == s[i],
{
}

/// A text holds another exactly where it is that text with something before and behind.
pub proof fn law_contains(hay: Seq<char>, needle: Seq<char>, a: Seq<char>, b: Seq<char>) -> (r: (
    Seq<char>,
    Seq<char>,
))
    ensures
        hay == a + needle + b ==> contains_text(hay, needle),
        contains_text(hay, needle) ==> hay == r.0 + needle + r.1,
{
    if hay == a + needle + b {
        assert((a + needle + b).subrange(a.len() as int, (a.len() + needle.len()) as int)
            =~= needle);
        assert(stands_at(hay, needle, a.len() as int));
    }
    if contains_text(hay, needle) {
        let i = choose|i: int| stands_at(hay, needle, i);
        let (front, back) = (hay.take(i), hay.skip((i + needle.len()) as int));
        assert(hay =~= front + needle + back) by {
            assert forall|k: int| 0 <= k < hay.len() implies hay[k] == (front + needle
                + back)[k] by {
                if i <= k < i + needle.len() {
                    assert(hay.subrange(i, (i + needle.len()) as int)[k - i] == needle[k - i]);
                }
            }
        }
        (front, back)
    } else {
        (a, b)
    }
}

/// A code stands for a call exactly where it begins with a C, in either case.
pub proof fn law_right_of_code(s: Seq<char>)
    ensures
        Right::of_code(s) == Right::Call <==> s.len() > 0 && (s[0] == 'C' || s[0] == 'c'),
        Right::Put.spec_code() == "P"@,
        Right::Call.spec_code() == "C"@,
{
}

/// An instant has the day of its date and, within it, its second and nanosecond.
pub proof fn law_clock_of_text(s: Seq<char>, day: int, second: int, nano: int)
    ensures
        clock_of_text(s) is Some <==> instant_of_text(s) is Some,
        instant_of_text(s) == Some((day, second, nano)) && i32::MIN <= day <= i32::MAX && 0
            <= second < 86_400 && 0 <= nano < 2_000_000_000 ==> {
            let t = clock_of_text(s)->0;
            t.day == day && t.nanos == second * 1_000_000_000 + nano
        },
{
}

} // verus!
