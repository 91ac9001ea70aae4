use crate::text::{is_space, strip_space, without_space};
use vstd::arithmetic::div_mod::{
    lemma_div_denominator, lemma_div_plus_one, lemma_hoist_over_denominator,
};
use vstd::prelude::*;

verus! {

/// The largest factor that a decimal number can be scaled by.
pub const MAX_FACTOR: u64 = 500_000_000_000_000_000;

/// Whether `c` is one of the ten decimal digits.
pub open spec fn is_digit(c: char) -> bool {
    '0' <= c <= '9'
}

/// Whether `c` belongs to the numeric part of a size: a digit or the point.
pub open spec fn is_numeric(c: char) -> bool {
    is_digit(c) || c == '.'
}

/// Whether `c` belongs to the unit part of a size: neither numeric nor
/// white space.
pub open spec fn is_unit(c: char) -> bool {
    !is_numeric(c) && !is_space(c)
}

/// The numeric part of a size string: its digits and points, in order.
pub open spec fn numeric_part(s: Seq<char>) -> Seq<char> {
    s.filter(|c: char| is_numeric(c))
}

/// The unit part of a size string: what is neither numeric nor white space.
pub open spec fn unit_part(s: Seq<char>) -> Seq<char> {
    s.filter(|c: char| is_unit(c))
}

/// Ten to the power `k`.
pub open spec fn pow10(k: nat) -> int
    decreases k,
{
    if k == 0 {
        1
    } else {
        10 * pow10((k - 1) as nat)
    }
}

/// The value of one digit.
pub open spec fn digit_value(c: char) -> int {
    c as int - '0' as int
}

/// The number that a sequence of digits writes, most significant first; the
/// empty sequence writes zero.
pub open spec fn digits_value(digits: Seq<char>) -> int
    decreases digits.len(),
{
    if digits.len() == 0 {
        0
    } else {
        digits_value(digits.drop_last()) * 10 + digit_value(digits.last())
    }
}

/// Whether every character of `s` is a digit.
pub open spec fn all_digits(s: Seq<char>) -> bool {
    forall|i: int| 0 <= i < s.len() ==> is_digit(#[trigger] s[i])
}

/// Position of the decimal point in a numeric part, or its length when it
/// holds none.
pub open spec fn point_index(numeric: Seq<char>) -> int {
    crate::text::first_index(numeric, '.')
}

/// The digits before the decimal point.
pub open spec fn whole_digits(numeric: Seq<char>) -> Seq<char> {
    numeric.take(point_index(numeric))
}

/// The digits after the decimal point; none where there is no point.
pub open spec fn fraction_digits(numeric: Seq<char>) -> Seq<char> {
    if point_index(numeric) < numeric.len() {
        numeric.skip(point_index(numeric) + 1)
    } else {
        Seq::empty()
    }
}

/// Whether a numeric part writes a decimal number: at most one point and at
/// least one digit.
pub open spec fn is_decimal(numeric: Seq<char>) -> bool {
    all_digits(fraction_digits(numeric)) && whole_digits(numeric).len() + fraction_digits(
        numeric,
    ).len() > 0
}

/// Whether `c` is the letter `upper` in either case.
pub open spec fn is_letter(c: char, upper: char, lower: char) -> bool {
    c == upper || c == lower
}

/// The power of 1024 that a unit's first letter stands for, if it is one of
/// K, M, G and T in either case.
pub open spec fn prefix_power(c: char) -> Option<nat> {
    if is_letter(c, 'K', 'k') {
        Some(1)
    } else if is_letter(c, 'M', 'm') {
        Some(2)
    } else if is_letter(c, 'G', 'g') {
        Some(3)
    } else if is_letter(c, 'T', 't') {
        Some(4)
    } else {
        None
    }
}

/// The power of 1024 that a unit stands for: K or KB is 1, M or MB is 2, G
/// or GB is 3, T or TB is 4, in either case; B, no unit and any other unit
/// are 0.
pub open spec fn unit_power(unit: Seq<char>) -> nat {
    if (unit.len() == 1 || (unit.len() == 2 && is_letter(unit[1], 'B', 'b'))) && prefix_power(
        unit[0],
    ) is Some {
        prefix_power(unit[0])->0
    } else {
        0
    }
}

/// 1024 to the power `power`.
pub open spec fn multiplier(power: nat) -> int
    decreases power,
{
    if power == 0 {
        1
    } else {
        1024 * multiplier((power - 1) as nat)
    }
}

/// The decimal number `whole.fraction` times `factor`, rounded down.
pub open spec fn scaled(whole: Seq<char>, fraction: Seq<char>, factor: int) -> int {
    (digits_value(whole + fraction) * factor) / pow10(fraction.len())
}

/// The decimal number `whole.fraction` times `factor`, rounded to the
/// nearest whole number; a half is rounded up.
pub open spec fn rounded(whole: Seq<char>, fraction: Seq<char>, factor: int) -> int {
    (2 * digits_value(whole + fraction) * factor + pow10(fraction.len())) / (2 * pow10(
        fraction.len(),
    ))
}

/// The value that a numeric part gives under a factor: its decimal number
/// times the factor, rounded to the nearest whole number and held to 64
/// bits; nothing where it writes no decimal number.
pub open spec fn scaled_decimal(numeric: Seq<char>, factor: int) -> Option<int> {
    if is_decimal(numeric) {
        let exact = rounded(whole_digits(numeric), fraction_digits(numeric), factor);
        if exact > u64::MAX {
            Some(u64::MAX as int)
        } else {
            Some(exact)
        }
    } else {
        None
    }
}

/// Whether a size without white space begins with a sign.
pub open spec fn has_sign(t: Seq<char>) -> bool {
    t.len() > 0 && (t[0] == '+' || t[0] == '-')
}

/// Whether a size without white space begins with a minus sign.
pub open spec fn is_negative(t: Seq<char>) -> bool {
    t.len() > 0 && t[0] == '-'
}

/// A size without white space and without its leading sign.
pub open spec fn unsigned_part(t: Seq<char>) -> Seq<char> {
    if has_sign(t) {
        t.skip(1)
    } else {
        t
    }
}

/// The number of bytes that a size string stands for. White space is of no
/// account. A sign may come first; then digits and the decimal point form
/// the number and every other character forms the unit. The number is
/// multiplied by 1024 to the power of the unit, rounded to the nearest byte
/// and held to 64 bits. A size below zero is held to zero, and so is a
/// string whose numeric part writes no decimal number.
pub open spec fn size_in_bytes(s: Seq<char>) -> int {
    let t = without_space(s);
    let u = unsigned_part(t);
    match scaled_decimal(numeric_part(u), multiplier(unit_power(unit_part(u)))) {
        Some(bytes) => if is_negative(t) {
            0
        } else {
            bytes
        },
        None => 0,
    }
}

/// Powers of ten are positive.
proof fn lemma_pow10_positive(k: nat)
    ensures
        pow10(k) > 0,
    decreases k,
{
    if k > 0 {
        lemma_pow10_positive((k - 1) as nat);
    }
}

/// Digits write a number that is not negative.
proof fn lemma_digits_nonnegative(digits: Seq<char>)
    requires
        all_digits(digits),
    ensures
        digits_value(digits) >= 0,
    decreases digits.len(),
{
    if digits.len() > 0 {
        assert(is_digit(digits[digits.len() - 1]));
        lemma_digits_nonnegative(digits.drop_last());
    }
}

/// Writing `b` behind `a` shifts `a` by as many decimal places as `b` has.
proof fn lemma_digits_concat(a: Seq<char>, b: Seq<char>)
    ensures
        digits_value(a + b) == digits_value(a) * pow10(b.len()) + digits_value(b),
    decreases b.len(),
{
    if b.len() == 0 {
        assert(a + b =~= a);
        assert(pow10(0) == 1);
        assert(digits_value(a) * 1 == digits_value(a));
    } else {
        let b0 = b.drop_last();
        assert((a + b).drop_last() =~= a + b0);
        assert((a + b).last() == b.last());
        lemma_digits_concat(a, b0);
        let p = pow10(b0.len());
        let va = digits_value(a);
        let q = pow10(b.len());
        assert(q == 10 * p);
        assert((va * p + digits_value(b0)) * 10 == va * q + digits_value(b0) * 10)
            by (nonlinear_arith)
            requires
                q == 10 * p,
        ;
    }
}

/// A number times a factor, divided by a power of ten, splits into its whole
/// part times the factor and the scaled fraction.
proof fn lemma_scaled_split(whole: Seq<char>, fraction: Seq<char>, factor: int)
    ensures
        scaled(whole, fraction, factor) == digits_value(whole) * factor + (digits_value(fraction)
            * factor) / pow10(fraction.len()),
{
    let p = pow10(fraction.len());
    let w = digits_value(whole);
    let f = digits_value(fraction);
    lemma_pow10_positive(fraction.len());
    lemma_digits_concat(whole, fraction);
    lemma_hoist_over_denominator(f * factor, w * factor, p as nat);
    assert((w * p + f) * factor == f * factor + (w * factor) * p) by (nonlinear_arith);
}

/// Rounding to the nearest whole number is rounding down at twice the
/// factor, adding one and halving.
proof fn lemma_rounded(whole: Seq<char>, fraction: Seq<char>, factor: int)
    requires
        digits_value(whole + fraction) >= 0,
        factor >= 0,
    ensures
        rounded(whole, fraction, factor) == (scaled(whole, fraction, 2 * factor) + 1) / 2,
{
    let p = pow10(fraction.len());
    let v = digits_value(whole + fraction);
    let n = v * (2 * factor);
    lemma_pow10_positive(fraction.len());
    assert(n == 2 * v * factor) by (nonlinear_arith)
        requires
            n == v * (2 * factor),
    ;
    assert(n >= 0) by (nonlinear_arith)
        requires
            n == v * (2 * factor),
            v >= 0,
            factor >= 0,
    ;
    lemma_div_denominator(n + p, p, 2);
    lemma_div_plus_one(n, p);
    assert(p * 2 == 2 * p);
    assert(p + n == n + p);
}

/// One step of scaling a fraction from its last digit towards its first:
/// the scaled value of `digits` follows from that of `digits` without its
/// first digit.
proof fn lemma_fraction_step(digits: Seq<char>, factor: int)
    requires
        digits.len() > 0,
        all_digits(digits),
        factor >= 0,
    ensures
        (digits_value(digits) * factor) / pow10(digits.len()) == (digit_value(digits[0]) * factor
            + (digits_value(digits.skip(1)) * factor) / pow10((digits.len() - 1) as nat)) / 10,
{
    let rest = digits.skip(1);
    let head = seq![digits[0]];
    let p = pow10(rest.len());
    let d = digit_value(digits[0]);
    let n = digits_value(rest) * factor;
    assert(digits =~= head + rest);
    assert(head.drop_last() =~= Seq::<char>::empty());
    assert(digits_value(head) == d) by {
        reveal_with_fuel(digits_value, 2);
    }
    lemma_digits_concat(head, rest);
    lemma_pow10_positive(rest.len());
    assert(all_digits(rest)) by {
        assert forall|i: int| 0 <= i < rest.len() implies is_digit(#[trigger] rest[i]) by {
            assert(rest[i] == digits[i + 1]);
        }
    }
    lemma_digits_nonnegative(rest);
    assert(is_digit(digits[0]));
    assert(n >= 0) by (nonlinear_arith)
        requires
            n == digits_value(rest) * factor,
            digits_value(rest) >= 0,
            factor >= 0,
    ;
    let a = d * factor;
    assert(a >= 0) by (nonlinear_arith)
        requires
            a == d * factor,
            d >= 0,
            factor >= 0,
    ;
    assert((d * p + digits_value(rest)) * factor == n + a * p) by (nonlinear_arith)
        requires
            n == digits_value(rest) * factor,
            a == d * factor,
    ;
    assert(a * p >= 0) by (nonlinear_arith)
        requires
            a >= 0,
            p > 0,
    ;
    lemma_hoist_over_denominator(n, a, p as nat);
    lemma_div_denominator(n + a * p, p, 10);
    assert(pow10(digits.len()) == 10 * p);
    assert(p * 10 == 10 * p);
}


/// Whether `c` is a decimal digit.
pub fn is_digit_char(c: char) -> (r: bool)
    ensures
        r == is_digit(c),
{
    '0' <= c && c <= '9'
}

/// The value of the digit `c`.
fn digit_of(c: char) -> (r: u64)
    requires
        is_digit(c),
    ensures
        r == digit_value(c),
{
    (c as u32 - '0' as u32) as u64
}

/// Sorts the characters from `start` on into the numeric part and the unit
/// part.
fn split_parts(body: &Vec<char>, start: usize) -> (r: (Vec<char>, Vec<char>))
    requires
        start <= body.len(),
    ensures
        r.0@ == numeric_part(body@.skip(start as int)),
        r.1@ == unit_part(body@.skip(start as int)),
        forall|i: int| 0 <= i < r.0@.len() ==> is_numeric(#[trigger] r.0@[i]),
{
    let mut numeric: Vec<char> = Vec::new();
    let mut unit: Vec<char> = Vec::new();
    let mut i: usize = start;
    assert(body@.subrange(start as int, start as int) =~= Seq::<char>::empty());
    while i < body.len()
        invariant
            start <= i <= body.len(),
            numeric@ == numeric_part(body@.subrange(start as int, i as int)),
            unit@ == unit_part(body@.subrange(start as int, i as int)),
            forall|j: int| 0 <= j < numeric@.len() ==> is_numeric(#[trigger] numeric@[j]),
        decreases body.len() - i,
    {
        let c = body[i];
        proof {
            let done = body@.subrange(start as int, i as int);
            assert(body@.subrange(start as int, i + 1) =~= done.push(c));
            done.lemma_filter_push(c, |c: char| is_numeric(c));
            done.lemma_filter_push(c, |c: char| is_unit(c));
        }
        if is_digit_char(c) || c == '.' {
            numeric.push(c);
        } else if !crate::text::is_space_char(c) {
            unit.push(c);
        }
        i = i + 1;
    }
    assert(body@.subrange(start as int, i as int) =~= body@.skip(start as int));
    (numeric, unit)
}

/// The power of 1024 that the first letter of a unit stands for.
fn prefix_power_of(c: char) -> (r: Option<u32>)
    ensures
        match r {
            Some(p) => prefix_power(c) == Some(p as nat) && 1 <= p <= 4,
            None => prefix_power(c) is None,
        },
{
    if c == 'K' || c == 'k' {
        Some(1)
    } else if c == 'M' || c == 'm' {
        Some(2)
    } else if c == 'G' || c == 'g' {
        Some(3)
    } else if c == 'T' || c == 't' {
        Some(4)
    } else {
        None
    }
}

/// The power of 1024 that a unit stands for.
fn unit_power_of(unit: &Vec<char>) -> (r: u32)
    ensures
        r == unit_power(unit@),
        r <= 4,
{
    if unit.len() == 1 || (unit.len() == 2 && (unit[1] == 'B' || unit[1] == 'b')) {
        match prefix_power_of(unit[0]) {
            Some(p) => p,
            None => 0,
        }
    } else {
        0
    }
}

/// 1024 to the power `power`.
fn multiplier_of(power: u32) -> (r: u64)
    requires
        power <= 4,
    ensures
        r == multiplier(power as nat),
        1 <= r <= 0x100_0000_0000,
{
    proof {
        reveal_with_fuel(multiplier, 5);
    }
    if power == 0 {
        1
    } else if power == 1 {
        1024
    } else if power == 2 {
        1024 * 1024
    } else if power == 3 {
        1024 * 1024 * 1024
    } else {
        1024 * 1024 * 1024 * 1024
    }
}

/// The number that the first `end` characters write, or nothing where it is
/// beyond 64 bits.
fn whole_value(digits: &Vec<char>, end: usize) -> (r: Option<u64>)
    requires
        end <= digits.len(),
        all_digits(digits@.take(end as int)),
    ensures
        match r {
            Some(v) => v == digits_value(digits@.take(end as int)),
            None => digits_value(digits@.take(end as int)) > u64::MAX,
        },
{
    let mut acc: u64 = 0;
    let mut i: usize = 0;
    assert(digits@.take(0) =~= Seq::<char>::empty());
    while i < end
        invariant
            i <= end <= digits.len(),
            all_digits(digits@.take(end as int)),
            acc == digits_value(digits@.take(i as int)),
        decreases end - i,
    {
        let c = digits[i];
        assert(digits@.take(end as int)[i as int] == c);
        let d = digit_of(c);
        proof {
            assert(digits@.take(i + 1).drop_last() =~= digits@.take(i as int));
            assert(digits@.take(i + 1).last() == c);
        }
        if acc > (u64::MAX - d) / 10 {
            proof {
                lemma_whole_grows(digits@.take(end as int), i + 1);
                assert(digits@.take(end as int).take(i + 1) =~= digits@.take(i + 1));
            }
            return None;
        }
        acc = acc * 10 + d;
        i = i + 1;
    }
    Some(acc)
}

/// A number is at least as large as any number that its leading digits
/// write.
proof fn lemma_whole_grows(digits: Seq<char>, n: int)
    requires
        all_digits(digits),
        0 <= n <= digits.len(),
    ensures
        digits_value(digits.take(n)) <= digits_value(digits),
    decreases digits.len() - n,
{
    if n == digits.len() {
        assert(digits.take(n) =~= digits);
    } else {
        lemma_whole_grows(digits, n + 1);
        assert(digits.take(n + 1).drop_last() =~= digits.take(n));
        assert(is_digit(digits[n]));
        assert(digits.take(n + 1).last() == digits[n]);
        assert(all_digits(digits.take(n))) by {
            assert forall|i: int| 0 <= i < n implies is_digit(#[trigger] digits.take(n)[i]) by {
                assert(digits.take(n)[i] == digits[i]);
            }
        }
        lemma_digits_nonnegative(digits.take(n));
    }
}


/// The fraction written by the characters from `start` on, times `factor`,
/// rounded down.
fn fraction_scaled(numeric: &Vec<char>, start: usize, factor: u64) -> (r: u64)
    requires
        start <= numeric.len(),
        all_digits(numeric@.skip(start as int)),
        1 <= factor <= 2 * MAX_FACTOR,
    ensures
        r == (digits_value(numeric@.skip(start as int)) * factor) / pow10(
            (numeric.len() - start) as nat,
        ),
        r < factor,
{
    let mut acc: u64 = 0;
    let mut j: usize = numeric.len();
    proof {
        assert(numeric@.skip(j as int) =~= Seq::<char>::empty());
        assert(digits_value(numeric@.skip(j as int)) * factor == 0);
        assert(pow10(0) == 1);
    }
    while j > start
        invariant
            start <= j <= numeric.len(),
            all_digits(numeric@.skip(start as int)),
            1 <= factor <= 2 * MAX_FACTOR,
            acc == (digits_value(numeric@.skip(j as int)) * factor) / pow10(
                (numeric.len() - j) as nat,
            ),
            acc < factor,
        decreases j,
    {
        j = j - 1;
        let c = numeric[j];
        proof {
            let tail = numeric@.skip(j as int);
            assert(numeric@.skip(start as int)[j - start] == c);
            assert(all_digits(tail)) by {
                assert forall|i: int| 0 <= i < tail.len() implies is_digit(#[trigger] tail[i]) by {
                    assert(tail[i] == numeric@.skip(start as int)[j - start + i]);
                }
            }
            assert(tail.skip(1) =~= numeric@.skip(j + 1));
            lemma_fraction_step(tail, factor as int);
        }
        let d = digit_of(c);
        assert(d * factor <= 9 * 1_000_000_000_000_000_000) by (nonlinear_arith)
            requires
                0 <= d <= 9,
                1 <= factor <= 1_000_000_000_000_000_000,
        ;
        assert(d * factor + acc < 10 * factor) by (nonlinear_arith)
            requires
                0 <= d <= 9,
                0 <= acc < factor,
        ;
        acc = (d * factor + acc) / 10;
    }
    acc
}

/// Reads a decimal number made of digits and at most one point, multiplies
/// it by `factor` and rounds to the nearest whole number; a result beyond
/// 64 bits is the largest 64-bit value.
pub(crate) fn scale_decimal(numeric: &Vec<char>, factor: u64) -> (r: Option<u64>)
    requires
        forall|i: int| 0 <= i < numeric@.len() ==> is_numeric(#[trigger] numeric@[i]),
        1 <= factor <= MAX_FACTOR,
    ensures
        match r {
            Some(v) => scaled_decimal(numeric@, factor as int) == Some(v as int),
            None => scaled_decimal(numeric@, factor as int) is None,
        },
{
    let mut point: usize = 0;
    while point < numeric.len() && numeric[point] != '.'
        invariant
            point <= numeric.len(),
            forall|j: int| 0 <= j < point ==> numeric@[j] != '.',
        decreases numeric.len() - point,
    {
        point = point + 1;
    }
    proof {
        crate::text::lemma_first_index_is(numeric@, '.', point as int);
    }
    let start: usize = if point < numeric.len() {
        point + 1
    } else {
        point
    };
    assert(fraction_digits(numeric@) =~= numeric@.skip(start as int));
    let mut k: usize = start;
    while k < numeric.len()
        invariant
            start <= k <= numeric.len(),
            fraction_digits(numeric@) == numeric@.skip(start as int),
            forall|j: int| start <= j < k ==> is_digit(numeric@[j]),
        decreases numeric.len() - k,
    {
        if !is_digit_char(numeric[k]) {
            assert(!is_digit(fraction_digits(numeric@)[k - start]));
            return None;
        }
        k = k + 1;
    }
    if point == 0 && start == numeric.len() {
        return None;
    }
    proof {
        assert forall|i: int| 0 <= i < point implies is_digit(
            #[trigger] numeric@.take(point as int)[i],
        ) by {
            assert(is_numeric(numeric@[i]));
        }
        assert forall|i: int| 0 <= i < numeric.len() - start implies is_digit(
            #[trigger] numeric@.skip(start as int)[i],
        ) by {
            assert(numeric@.skip(start as int)[i] == numeric@[start + i]);
        }
        assert(is_decimal(numeric@));
    }
    let ghost whole = whole_digits(numeric@);
    let ghost fraction = fraction_digits(numeric@);
    let double: u64 = 2 * factor;
    proof {
        let p = pow10(fraction.len());
        lemma_scaled_split(whole, fraction, double as int);
        lemma_digits_nonnegative(whole);
        lemma_digits_nonnegative(fraction);
        lemma_pow10_positive(fraction.len());
        lemma_digits_concat(whole, fraction);
        assert(digits_value(whole) * p >= 0) by (nonlinear_arith)
            requires
                digits_value(whole) >= 0,
                p > 0,
        ;
        lemma_rounded(whole, fraction, factor as int);
        assert((digits_value(fraction) * double) / p >= 0) by (nonlinear_arith)
            requires
                digits_value(fraction) >= 0,
                double >= 1,
                p > 0,
        ;
    }
    match whole_value(numeric, point) {
        Some(w) => {
            let scaled_fraction = fraction_scaled(numeric, start, double);
            assert(w * double <= 0xffff_ffff_ffff_ffff * 1_000_000_000_000_000_000)
                by (nonlinear_arith)
                requires
                    0 <= w <= 0xffff_ffff_ffff_ffff,
                    1 <= double <= 1_000_000_000_000_000_000,
            ;
            let twice: u128 = (w as u128) * (double as u128) + (scaled_fraction as u128);
            let exact: u128 = (twice + 1) / 2;
            if exact > u64::MAX as u128 {
                Some(u64::MAX)
            } else {
                Some(exact as u64)
            }
        },
        None => {
            assert(digits_value(whole) * double >= 2 * digits_value(whole)) by (nonlinear_arith)
                requires
                    digits_value(whole) >= 0,
                    double >= 2,
            ;
            Some(u64::MAX)
        },
    }
}

/// Parses a human-readable size such as `10MB`, `1.5 GB` or `+5MB` into
/// bytes.
///
/// White space is dropped. A sign may come first; then digits and the
/// decimal point form the number, every other character forms the unit. The
/// number is multiplied by 1024 to the power that the unit names and rounded
/// to the nearest byte; a result beyond 64 bits is the largest 64-bit value
/// and one below zero is zero. A missing or unknown unit means bytes; a
/// string without a decimal number gives zero.
pub fn parse_size(size_str: &str) -> (r: u64)
    ensures
        r == size_in_bytes(size_str@),
{
    let body = strip_space(size_str);
    let negative = body.len() > 0 && body[0] == '-';
    let start: usize = if body.len() > 0 && (body[0] == '+' || body[0] == '-') {
        1
    } else {
        0
    };
    assert(body@.skip(0) =~= body@);
    let (numeric, unit) = split_parts(&body, start);
    let factor = multiplier_of(unit_power_of(&unit));
    match scale_decimal(&numeric, factor) {
        Some(bytes) => if negative {
            0
        } else {
            bytes
        },
        None => 0,
    }
}


/// The upper-case form of an ASCII letter; any other character is itself.
pub open spec fn ascii_upper(c: char) -> char {
    if 'a' <= c <= 'z' {
        ((c as int) - 32) as char
    } else {
        c
    }
}

/// Unit matching does not depend on the case of the letters: a unit and its
/// upper-case form stand for the same power of 1024.
pub proof fn lemma_unit_ignores_case(unit: Seq<char>)
    ensures
        unit_power(unit.map_values(|c: char| ascii_upper(c))) == unit_power(unit),
{
    let upper = unit.map_values(|c: char| ascii_upper(c));
    assert(upper.len() == unit.len());
    if unit.len() >= 1 {
        assert(upper[0] == ascii_upper(unit[0]));
        assert(prefix_power(upper[0]) == prefix_power(unit[0]));
    }
    if unit.len() >= 2 {
        assert(upper[1] == ascii_upper(unit[1]));
        assert(is_letter(upper[1], 'B', 'b') == is_letter(unit[1], 'B', 'b'));
    }
}


/// Powers of 1024 are positive.
proof fn lemma_multiplier_positive(power: nat)
    ensures
        multiplier(power) >= 1,
    decreases power,
{
    if power > 0 {
        lemma_multiplier_positive((power - 1) as nat);
    }
}

/// A size in bytes is a 64-bit value, whatever the string.
pub proof fn lemma_size_fits(s: Seq<char>)
    ensures
        0 <= size_in_bytes(s) <= u64::MAX,
{
    let u = unsigned_part(without_space(s));
    let numeric = numeric_part(u);
    let factor = multiplier(unit_power(unit_part(u)));
    if is_decimal(numeric) {
        let whole = whole_digits(numeric);
        let fraction = fraction_digits(numeric);
        let p = pow10(fraction.len());
        let v = digits_value(whole + fraction);
        crate::text::lemma_first_index(numeric, '.');
        assert forall|i: int| 0 <= i < whole.len() implies is_digit(#[trigger] whole[i]) by {
            u.lemma_filter_pred(|c: char| is_numeric(c), i);
            assert(whole[i] == numeric[i]);
            assert(numeric[i] != '.');
        }
        assert forall|i: int| 0 <= i < (whole + fraction).len() implies is_digit(
            #[trigger] (whole + fraction)[i],
        ) by {
            if i < whole.len() {
                assert((whole + fraction)[i] == whole[i]);
            } else {
                assert((whole + fraction)[i] == fraction[i - whole.len()]);
            }
        }
        lemma_digits_nonnegative(whole + fraction);
        lemma_multiplier_positive(unit_power(unit_part(u)));
        lemma_pow10_positive(fraction.len());
        assert((2 * v * factor + p) / (2 * p) >= 0) by (nonlinear_arith)
            requires
                v >= 0,
                factor >= 1,
                p > 0,
        ;
    }
}

} // verus!
