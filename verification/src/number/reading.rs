//! The numbers that decimal texts write.
use vstd::arithmetic::power2::*;
use vstd::prelude::*;

use crate::number;
use crate::number::Format;
use crate::text;

verus! {

/// A decimal number: digits, times ten to the power of an exponent.
pub struct Decimal {
    pub negative: bool,
    pub digits: nat,
    pub exponent: int,
}

impl Decimal {
    /// The number above the line, where the decimal is written as a fraction.
    pub open spec fn above(self) -> nat {
        if self.exponent < 0 {
            self.digits
        } else {
            self.digits * number::ten(self.exponent as nat)
        }
    }

    /// The number below the line, where the decimal is written as a fraction.
    pub open spec fn below(self) -> nat {
        if self.exponent < 0 {
            number::ten((-self.exponent) as nat)
        } else {
            1
        }
    }
}

/// Whether a character is a decimal digit.
pub open spec fn is_digit(c: char) -> bool {
    '0' <= c <= '9'
}

/// Whether a text is of decimal digits, and of one at least.
pub open spec fn are_decimal_digits(chars: Seq<char>) -> bool {
    chars.len() > 0 && forall|i: int| 0 <= i < chars.len() ==> is_digit(#[trigger] chars[i])
}

/// The number that decimal digits write.
pub open spec fn digits_value(chars: Seq<char>) -> nat
    decreases chars.len(),
{
    if chars.len() == 0 {
        0
    } else {
        10 * digits_value(chars.drop_last()) + (chars.last() as int - '0' as int) as nat
    }
}

/// Whether a text starts with a minus sign, and what follows its sign.
pub open spec fn signed(chars: Seq<char>) -> (bool, Seq<char>) {
    if chars.len() > 0 && (chars[0] == '-' || chars[0] == '+') {
        (chars[0] == '-', chars.skip(1))
    } else {
        (false, chars)
    }
}

/// The exponent that a text writes: a sign, where there is one, and digits.
pub open spec fn exponent_of(chars: Seq<char>) -> Option<int> {
    let (negative, digits) = signed(chars);
    if are_decimal_digits(digits) {
        Some(
            if negative {
                -(digits_value(digits) as int)
            } else {
                digits_value(digits) as int
            },
        )
    } else {
        None
    }
}

/// The decimal number that a text writes: a sign, digits with or without a point, and `e` with an
/// exponent; all but one digit may be missing.
pub open spec fn decimal_of(chars: Seq<char>) -> Option<Decimal> {
    let (negative, unsigned) = signed(chars);
    let (mantissa, exponent) = match text::around(unsigned, 'e', 'E') {
        Some((mantissa, exponent)) => (mantissa, exponent_of(exponent)),
        None => (unsigned, Some(0int)),
    };
    let (whole, places) = match text::around(mantissa, '.', '.') {
        Some((whole, places)) => (whole, places),
        None => (mantissa, Seq::empty()),
    };
    match exponent {
        Some(exponent) if are_decimal_digits(whole + places) => Some(
            Decimal {
                negative,
                digits: digits_value(whole + places),
                exponent: exponent - places.len(),
            },
        ),
        _ => None,
    }
}

/// The bits of the number of 64 bits that a text writes, where it writes a finite one.
pub open spec fn double_of(chars: Seq<char>) -> Option<u64> {
    match decimal_of(chars) {
        Some(decimal) => {
            let bits = choose|bits: u64|
                #[trigger] number::double().is_read(bits as nat, decimal.above(), decimal.below());
            if bits == 0x7ff0_0000_0000_0000 {
                None
            } else if decimal.negative {
                Some((bits + 0x8000_0000_0000_0000) as u64)
            } else {
                Some(bits)
            }
        },
        None => None,
    }
}

/// The bits of the number of 32 bits that a text writes, where it writes a finite one.
pub open spec fn single_of(chars: Seq<char>) -> Option<u32> {
    match decimal_of(chars) {
        Some(decimal) => {
            let bits = choose|bits: u32|
                #[trigger] number::single().is_read(bits as nat, decimal.above(), decimal.below());
            if bits == 0x7f80_0000 {
                None
            } else if decimal.negative {
                Some((bits + 0x8000_0000) as u32)
            } else {
                Some(bits)
            }
        },
        None => None,
    }
}

/// A format, as the numbers that reading works with.
#[derive(Clone, Copy)]
struct Layout {
    fraction: u64,
    unit: u64,
    scale: u64,
    codes: u64,
}

impl Layout {
    spec fn format(self) -> Format {
        Format {
            fraction: self.fraction as nat,
            scale: self.scale as nat,
            codes: self.codes as nat,
        }
    }

    spec fn wf(self) -> bool {
        &&& self.format() == number::single() || self.format() == number::double()
        &&& self.unit == pow2(self.fraction as nat)
        &&& 2 <= self.unit <= 0x10_0000_0000_0000
        &&& self.codes * self.unit <= 0x7ff0_0000_0000_0000
        &&& self.codes * self.unit == self.format().infinite()
    }
}

fn single_layout() -> (layout: Layout)
    ensures
        layout.wf(),
        layout.format() == number::single(),
{
    proof {
        lemma2_to64();
    }
    Layout { fraction: 23, unit: 0x80_0000, scale: 149, codes: 255 }
}

fn double_layout() -> (layout: Layout)
    ensures
        layout.wf(),
        layout.format() == number::double(),
{
    proof {
        lemma2_to64_rest();
    }
    Layout { fraction: 52, unit: 0x10_0000_0000_0000, scale: 1074, codes: 2047 }
}

proof fn ten_is_positive(n: nat)
    ensures
        number::ten(n) > 0,
    decreases n,
{
    if n > 0 {
        ten_is_positive((n - 1) as nat);
    }
}

proof fn tens_add(a: nat, b: nat)
    ensures
        number::ten(a + b) == number::ten(a) * number::ten(b),
    decreases a,
{
    if a > 0 {
        tens_add((a - 1) as nat, b);
        let t = number::ten((a - 1) as nat);
        let u = number::ten(b);
        assert(10 * (t * u) == (10 * t) * u) by (nonlinear_arith);
    } else {
        assert(number::ten(0) == 1);
        assert(1 * number::ten(b) == number::ten(b)) by (nonlinear_arith);
    }
}

proof fn more_tens_are_more(a: nat, b: nat)
    requires
        a <= b,
    ensures
        number::ten(a) <= number::ten(b),
{
    let c = (b - a) as nat;
    tens_add(a, c);
    ten_is_positive(a);
    ten_is_positive(c);
    let t = number::ten(a);
    let u = number::ten(c);
    assert(t <= t * u) by (nonlinear_arith)
        requires
            u >= 1,
    ;
}

/// A power of ten is more than as many times three twos.
proof fn tens_are_more_than_twos(n: nat)
    ensures
        pow2(3 * n) <= number::ten(n),
    decreases n,
{
    lemma2_to64();
    if n > 0 {
        let m = (n - 1) as nat;
        tens_are_more_than_twos(m);
        lemma_pow2_adds(3 * m, 3);
        assert(3 * m + 3 == 3 * n);
    }
}

/// So many digits write less than the power of ten with as many zeros.
proof fn digits_are_bounded(digits: Seq<u8>)
    requires
        forall|i: int| 0 <= i < digits.len() ==> (#[trigger] digits[i]) < 10,
    ensures
        number::digits_number(digits) < number::ten(digits.len()),
    decreases digits.len(),
{
    if digits.len() > 0 {
        let rest = digits.drop_last();
        digits_are_bounded(rest);
        number::digit_is_put_before(rest, digits.last());
        assert(rest.push(digits.last()) =~= digits);
        let t = number::ten(rest.len());
        let d = digits.last();
        assert(d * t <= 9 * t) by (nonlinear_arith)
            requires
                d <= 9,
        ;
    }
}

/// So many digits, the first of which is not zero, write no less than the power of ten with as many
/// digits.
proof fn digits_reach(digits: Seq<u8>)
    requires
        number::are_digits(digits),
    ensures
        number::ten((digits.len() - 1) as nat) <= number::digits_number(digits),
{
    let rest = digits.drop_last();
    number::digit_is_put_before(rest, digits.last());
    assert(rest.push(digits.last()) =~= digits);
    let t = number::ten(rest.len());
    let d = digits.last();
    assert(t <= d * t) by (nonlinear_arith)
        requires
            d >= 1,
    ;
}

/// Of two numbers with as many digits, the first digit that differs tells which is less.
proof fn first_difference_counts(left: Seq<u8>, right: Seq<u8>, at: int)
    requires
        left.len() == right.len(),
        0 <= at < left.len(),
        forall|i: int| 0 <= i < left.len() ==> (#[trigger] left[i]) < 10,
        forall|i: int| 0 <= i < right.len() ==> (#[trigger] right[i]) < 10,
        forall|i: int| at < i < left.len() ==> #[trigger] left[i] == right[i],
        left[at] < right[at],
    ensures
        number::digits_number(left) < number::digits_number(right),
    decreases left.len(),
{
    let a = left.drop_last();
    let b = right.drop_last();
    number::digit_is_put_before(a, left.last());
    number::digit_is_put_before(b, right.last());
    assert(a.push(left.last()) =~= left);
    assert(b.push(right.last()) =~= right);
    let t = number::ten(a.len());
    if at == left.len() - 1 {
        digits_are_bounded(a);
        let d = left.last();
        let e = right.last();
        assert(d * t + t <= e * t) by (nonlinear_arith)
            requires
                d + 1 <= e,
        ;
    } else {
        first_difference_counts(a, b, at);
    }
}

/// How two numbers compare.
#[derive(Clone, Copy, PartialEq, Eq, Structural)]
enum Order {
    Less,
    Equal,
    Greater,
}

spec fn order_of(left: nat, right: nat) -> Order {
    if left < right {
        Order::Less
    } else if left == right {
        Order::Equal
    } else {
        Order::Greater
    }
}

fn compare_digits(left: &Vec<u8>, right: &Vec<u8>) -> (order: Order)
    requires
        number::are_digits(left@),
        number::are_digits(right@),
    ensures
        order == order_of(number::digits_number(left@), number::digits_number(right@)),
{
    proof {
        digits_are_bounded(left@);
        digits_are_bounded(right@);
        digits_reach(left@);
        digits_reach(right@);
    }
    if left.len() < right.len() {
        proof {
            more_tens_are_more(left@.len(), (right@.len() - 1) as nat);
        }
        return Order::Less;
    }
    if right.len() < left.len() {
        proof {
            more_tens_are_more(right@.len(), (left@.len() - 1) as nat);
        }
        return Order::Greater;
    }
    let mut i: usize = left.len();
    while i > 0
        invariant
            left@.len() == right@.len(),
            i <= left@.len(),
            number::are_digits(left@),
            number::are_digits(right@),
            forall|j: int| i <= j < left@.len() ==> #[trigger] left@[j] == right@[j],
        decreases i,
    {
        i -= 1;
        if left[i] < right[i] {
            proof {
                first_difference_counts(left@, right@, i as int);
            }
            return Order::Less;
        }
        if right[i] < left[i] {
            proof {
                first_difference_counts(right@, left@, i as int);
            }
            return Order::Greater;
        }
    }
    assert(left@ =~= right@);
    Order::Equal
}

proof fn zeros_shift(digits: Seq<u8>, n: nat)
    ensures
        number::digits_number(Seq::new(n, |i: int| 0u8) + digits) == number::digits_number(digits)
            * number::ten(n),
    decreases n,
{
    let shifted = Seq::new(n, |i: int| 0u8) + digits;
    if n == 0 {
        assert(shifted =~= digits);
        assert(number::ten(0) == 1);
        let k = number::digits_number(digits);
        assert(k * 1 == k) by (nonlinear_arith);
    } else {
        let m = (n - 1) as nat;
        zeros_shift(digits, m);
        assert(shifted.skip(1) =~= Seq::new(m, |i: int| 0u8) + digits);
        let k = number::digits_number(digits);
        let t = number::ten(m);
        assert(10 * (k * t) == k * (10 * t)) by (nonlinear_arith);
    }
}

/// The digits of a number times ten to the power of `exponent`.
fn times_power_of_ten(digits: &Vec<u8>, exponent: u128) -> (product: Vec<u8>)
    requires
        number::are_digits(digits@),
    ensures
        number::are_digits(product@),
        number::digits_number(product@) == number::digits_number(digits@) * number::ten(
            exponent as nat,
        ),
{
    let mut product: Vec<u8> = Vec::new();
    let mut i: u128 = 0;
    while i < exponent
        invariant
            i <= exponent,
            product@ =~= Seq::new(i as nat, |i: int| 0u8),
        decreases exponent - i,
    {
        product.push(0);
        i += 1;
    }
    let ghost zeros = product@;
    let mut j: usize = 0;
    while j < digits.len()
        invariant
            j <= digits@.len(),
            product@ =~= zeros + digits@.take(j as int),
        decreases digits@.len() - j,
    {
        product.push(digits[j]);
        j += 1;
    }
    proof {
        assert(digits@.take(j as int) =~= digits@);
        zeros_shift(digits@, exponent as nat);
        assert(product@.last() == digits@.last());
        assert forall|k: int| 0 <= k < product@.len() implies (#[trigger] product@[k]) < 10 by {
            if k >= zeros.len() {
                assert(product@[k] == digits@[k - zeros.len()]);
            }
        }
    }
    product
}

/// An exponent that is further from zero than any that a number comes near to.
const FAR: i128 = 0x1_0000_0000_0000_0000_0000;

/// The decimal number of digits, the last one first, and an exponent.
spec fn decimal(negative: bool, digits: Seq<u8>, exponent: int) -> Decimal {
    Decimal { negative, digits: number::digits_number(digits), exponent }
}

proof fn factor_keeps_order(left: nat, right: nat, factor: nat)
    requires
        factor > 0,
    ensures
        order_of(left * factor, right * factor) == order_of(left, right),
{
    if left < right {
        assert(left * factor < right * factor) by (nonlinear_arith)
            requires
                left < right,
                factor > 0,
        ;
    } else if right < left {
        assert(right * factor < left * factor) by (nonlinear_arith)
            requires
                right < left,
                factor > 0,
        ;
    }
}

/// How `m` times two to the power of `t` compares with a decimal number times two to the power of `s`.
fn compare(m: u64, t: u64, digits: &Vec<u8>, exponent: i128, s: u64) -> (order: Order)
    requires
        m > 0,
        number::are_digits(digits@),
        -FAR < exponent < FAR,
    ensures
        ({
            let number = decimal(false, digits@, exponent as int);
            order == order_of(
                m as nat * pow2(t as nat) * number.below(),
                number.above() * pow2(s as nat),
            )
        }),
{
    let ghost number = decimal(false, digits@, exponent as int);
    let ghost n = number::digits_number(digits@);
    let left = number::digits_of(m);
    let right = times_power_of_ten(
        digits,
        if exponent < 0 {
            0
        } else {
            exponent as u128
        },
    );
    let left = times_power_of_ten(
        &left,
        if exponent < 0 {
            (-exponent) as u128
        } else {
            0
        },
    );
    proof {
        assert(number::ten(0) == 1);
        assert(m as nat * 1 == m as nat) by (nonlinear_arith);
        assert(n * 1 == n) by (nonlinear_arith);
    }
    assert(number::digits_number(left@) == m as nat * number.below());
    assert(number::digits_number(right@) == number.above());
    let ghost a = number.above();
    let ghost b = number.below();
    if t >= s {
        let left = number::times_power_of_two(left, t - s);
        proof {
            let k = pow2((t - s) as nat);
            lemma_pow2_adds((t - s) as nat, s as nat);
            lemma_pow2_pos(s as nat);
            let f = pow2(s as nat);
            assert(m as nat * (k * f) * b == ((m as nat * b) * k) * f) by (nonlinear_arith);
            factor_keeps_order((m as nat * b) * k, a, f);
        }
        compare_digits(&left, &right)
    } else {
        let right = number::times_power_of_two(right, s - t);
        proof {
            let k = pow2((s - t) as nat);
            lemma_pow2_adds((s - t) as nat, t as nat);
            lemma_pow2_pos(t as nat);
            let f = pow2(t as nat);
            assert(m as nat * f * b == (m as nat * b) * f) by (nonlinear_arith);
            assert(a * (k * f) == (a * k) * f) by (nonlinear_arith);
            factor_keeps_order(m as nat * b, a * k, f);
        }
        compare_digits(&left, &right)
    }
}

/// What a number is made of: it is the first part times two to the power of the second.
fn made_of(layout: Layout, bits: u64) -> (parts: (u64, u64))
    requires
        layout.wf(),
        bits <= layout.format().infinite(),
    ensures
        layout.format().places(bits as nat) == parts.0 as nat * pow2(parts.1 as nat),
        layout.format().step(bits as nat) == pow2(parts.1 as nat),
        parts.0 < 2 * layout.unit,
        bits > 0 ==> parts.0 > 0,
{
    let code: u64 = bits / layout.unit;
    let fraction: u64 = bits % layout.unit;
    proof {
        lemma2_to64();
        assert(fraction as nat * 1 == fraction as nat) by (nonlinear_arith);
        if code == 0 && bits > 0 {
            vstd::arithmetic::div_mod::lemma_fundamental_div_mod(bits as int, layout.unit as int);
            assert(layout.unit * code == 0) by (nonlinear_arith)
                requires
                    code == 0,
            ;
        }
    }
    if code == 0 {
        (fraction, 0)
    } else {
        (layout.unit + fraction, code - 1)
    }
}

/// What is no less than the infinite number is read as it.
proof fn nothing_is_beyond(format: Format, n: nat, d: nat)
    requires
        d > 0,
        format.places(format.infinite()) * d <= n * format.one(),
    ensures
        format.is_read(format.infinite(), n, d),
{
    let top = format.infinite();
    assert forall|other: nat| other <= top && other != top implies {
        ||| (#[trigger] format.distance(other, n, d)) > format.distance(top, n, d)
        ||| format.distance(other, n, d) == format.distance(top, n, d) && top % 2 == 0
    } by {
        number::numbers_are_ordered_as_their_bits(format, other, top);
        let a = format.places(other);
        let b = format.places(top);
        assert(a * d < b * d) by (nonlinear_arith)
            requires
                a < b,
                d > 0,
        ;
    }
}

/// The bits as which a decimal number above zero is read.
fn nearest_bits(layout: Layout, digits: &Vec<u8>, exponent: i128) -> (bits: u64)
    requires
        layout.wf(),
        number::are_digits(digits@),
        -FAR < exponent < FAR,
    ensures
        ({
            let number = decimal(false, digits@, exponent as int);
            layout.format().is_read(bits as nat, number.above(), number.below())
        }),
{
    let ghost format = layout.format();
    let ghost number = decimal(false, digits@, exponent as int);
    let ghost n = number.above();
    let ghost d = number.below();
    proof {
        if exponent < 0 {
            ten_is_positive((-exponent) as nat);
        }
    }
    let top: u64 = layout.codes * layout.unit;
    let (m, t) = made_of(layout, top);
    assert(top > 0) by (nonlinear_arith)
        requires
            top == layout.codes * layout.unit,
            layout.codes >= 255,
            layout.unit >= 2,
    ;
    let order = compare(m, t, digits, exponent, layout.scale);
    if order != Order::Greater {
        proof {
            nothing_is_beyond(format, n, d);
        }
        return top;
    }
    let mut low: u64 = 0;
    let mut high: u64 = top;
    proof {
        zero_has_no_places(format);
        assert(0 * d == 0) by (nonlinear_arith);
    }
    while high - low > 1
        invariant
            layout.wf(),
            format == layout.format(),
            number::are_digits(digits@),
            -FAR < exponent < FAR,
            number == decimal(false, digits@, exponent as int),
            n == number.above(),
            d == number.below(),
            low < high <= top,
            top == format.infinite(),
            format.places(low as nat) * d <= n * format.one() < format.places(high as nat) * d,
        decreases high - low,
    {
        let middle: u64 = low + (high - low) / 2;
        let (m, t) = made_of(layout, middle);
        let order = compare(m, t, digits, exponent, layout.scale);
        if order == Order::Greater {
            high = middle;
        } else {
            low = middle;
        }
    }
    let (m, t) = made_of(layout, low);
    let order = compare(2 * m + 1, t, digits, exponent, layout.scale + 1);
    let bits: u64 = if order == Order::Less || (order == Order::Equal && low % 2 == 1) {
        low + 1
    } else {
        low
    };
    proof {
        let step = pow2(t as nat);
        number::next_is_a_step_further(format, low as nat);
        let here = format.places(low as nat);
        let next = format.places(low as nat + 1);
        let one = format.one();
        assert(here == m as nat * step);
        assert(next == here + step);
        lemma_pow2_unfold((layout.scale + 1) as nat);
        assert((2 * m + 1) as nat * step * d == here * d + next * d) by (nonlinear_arith)
            requires
                here == m as nat * step,
                next == here + step,
        ;
        assert(n * (2 * one) == 2 * (n * one)) by (nonlinear_arith);
        number::nearest_of_two(format, top as nat, low as nat, n, d, bits as nat);
    }
    bits
}

proof fn zero_has_no_places(format: Format)
    ensures
        format.places(0) == 0,
{
    lemma_pow2_pos(format.fraction);
    number::splits(0, pow2(format.fraction), 0, 0);
}

proof fn first_bits_are_one_place(format: Format)
    requires
        format.fraction > 0,
    ensures
        format.places(1) == 1,
{
    lemma2_to64();
    lemma_pow2_strictly_increases(0, format.fraction);
    number::splits(1, pow2(format.fraction), 0, 1);
}

/// What is less than half a place is read as zero.
proof fn little_is_zero(format: Format, n: nat, d: nat)
    requires
        format == number::single() || format == number::double(),
        2 * (n * format.one()) < d,
    ensures
        format.is_read(0, n, d),
{
    zero_has_no_places(format);
    first_bits_are_one_place(format);
    assert(0 * d == 0) by (nonlinear_arith);
    assert(1 * d == d) by (nonlinear_arith);
    assert(format.infinite() >= 1) by {
        lemma_pow2_pos(format.fraction);
        assert(format.codes * pow2(format.fraction) >= 1) by (nonlinear_arith)
            requires
                format.codes >= 1,
                pow2(format.fraction) >= 1,
        ;
    }
    number::nearest_of_two(format, format.infinite(), 0, n, d, 0);
}

/// A decimal number with more than four hundred digits before the point is read as infinite.
proof fn much_is_infinite(format: Format, digits: Seq<u8>, exponent: int)
    requires
        format == number::single() || format == number::double(),
        number::are_digits(digits),
        digits.len() + exponent > 400,
    ensures
        ({
            let number = decimal(false, digits, exponent);
            format.is_read(format.infinite(), number.above(), number.below())
        }),
{
    let number = decimal(false, digits, exponent);
    let n = number.above();
    let d = number.below();
    let most = number::ten(400);
    let k = (digits.len() - 1) as nat;
    digits_reach(digits);
    let size = number::digits_number(digits);
    if exponent < 0 {
        let e = (-exponent) as nat;
        ten_is_positive(e);
        more_tens_are_more(400 + e, k);
        tens_add(400, e);
    } else {
        let e = exponent as nat;
        ten_is_positive(e);
        tens_add(k, e);
        more_tens_are_more(400, k + e);
        let t = number::ten(e);
        let u = number::ten(k);
        assert(u * t <= size * t) by (nonlinear_arith)
            requires
                u <= size,
        ;
        assert(most * 1 == most) by (nonlinear_arith);
    }
    assert(n >= most * d);
    tens_are_more_than_twos(400);
    let p = pow2(format.fraction);
    let one = format.one();
    lemma_pow2_pos(format.fraction);
    lemma_pow2_pos(format.scale);
    assert(format.infinite() == format.codes * p + 0);
    number::splits(format.infinite(), p, format.codes, 0);
    let i = (format.codes - 1) as nat;
    assert(format.places(format.infinite()) == p * pow2(i)) by {
        assert(p + 0 == p);
    }
    lemma_pow2_adds(format.fraction, i);
    lemma_pow2_adds(1200, format.scale);
    assert(format.fraction + i < 1200 + format.scale);
    lemma_pow2_strictly_increases(format.fraction + i, 1200 + format.scale);
    let places = format.places(format.infinite());
    let twos = pow2(1200);
    assert(places * d <= n * one) by (nonlinear_arith)
        requires
            places <= twos * one,
            twos <= most,
            most * d <= n,
    ;
    nothing_is_beyond(format, n, d);
}

/// A decimal number with more than four hundred zeros after the point is read as zero.
proof fn less_is_zero(format: Format, digits: Seq<u8>, exponent: int)
    requires
        format == number::single() || format == number::double(),
        number::are_digits(digits),
        digits.len() + exponent < -400,
    ensures
        ({
            let number = decimal(false, digits, exponent);
            format.is_read(0, number.above(), number.below())
        }),
{
    let size = number::digits_number(digits);
    let k = digits.len();
    let e = (-exponent) as nat;
    digits_are_bounded(digits);
    more_tens_are_more(400 + k, e);
    tens_add(400, k);
    tens_are_more_than_twos(400);
    let t = number::ten(400);
    let u = number::ten(k);
    let one = format.one();
    lemma_pow2_pos(format.scale);
    lemma_pow2_unfold(format.scale + 1);
    lemma_pow2_strictly_increases(format.scale + 1, 1200);
    assert(2 * one < t);
    assert(2 * (size * one) < t * u) by (nonlinear_arith)
        requires
            2 * one < t,
            size < u,
            one > 0,
    ;
    little_is_zero(format, size, number::ten(e));
}

/// An exponent from which on digits are passed over.
const BEYOND: i128 = 0x10_0000_0000_0000_0000_0000_0000;

/// Whether an exponent is the one meant, or both are far away on the same side.
spec fn stands_for(exponent: int, meant: int) -> bool {
    ||| exponent == meant
    ||| exponent >= FAR && meant >= FAR
    ||| exponent <= -FAR && meant <= -FAR
}

/// A decimal number that was read from a text. The last digit comes first, and none before the others
/// is zero.
struct Written {
    negative: bool,
    digits: Vec<u8>,
    exponent: i128,
}

impl Written {
    spec fn is(self, decimal: Decimal) -> bool {
        &&& self.negative == decimal.negative
        &&& number::digits_number(self.digits@) == decimal.digits
        &&& self.digits@.len() > 0 ==> number::are_digits(self.digits@)
        &&& stands_for(self.exponent as int, decimal.exponent)
        &&& -16 * BEYOND < self.exponent < 16 * BEYOND
    }
}

fn split_sign<'a>(chars: &'a [char]) -> (parts: (bool, &'a [char]))
    ensures
        (parts.0, parts.1@) == signed(chars@),
{
    if chars.len() > 0 && (chars[0] == '-' || chars[0] == '+') {
        let (_, rest) = chars.split_at(1);
        assert(rest@ =~= chars@.skip(1));
        (chars[0] == '-', rest)
    } else {
        (false, chars)
    }
}

fn read_exponent(chars: &[char]) -> (exponent: Option<i128>)
    ensures
        match exponent_of(chars@) {
            Some(meant) => exponent matches Some(value) && -11 * BEYOND < value < 11 * BEYOND && (value
                == meant || (value >= BEYOND && meant >= BEYOND) || (value <= -BEYOND && meant
                <= -BEYOND)),
            None => exponent is None,
        },
{
    let (negative, digits) = split_sign(chars);
    if digits.len() == 0 {
        return None;
    }
    let mut value: i128 = 0;
    let mut i: usize = 0;
    while i < digits.len()
        invariant
            (negative, digits@) == signed(chars@),
            i <= digits@.len(),
            0 <= value < 11 * BEYOND,
            value == digits_value(digits@.take(i as int)) || (value >= BEYOND && digits_value(
                digits@.take(i as int),
            ) >= BEYOND),
            forall|j: int| 0 <= j < i ==> is_digit(#[trigger] digits@[j]),
        decreases digits@.len() - i,
    {
        let c = digits[i];
        if c < '0' || c > '9' {
            assert(!is_digit(digits@[i as int]));
            return None;
        }
        proof {
            let longer = digits@.take(i + 1);
            assert(longer.drop_last() =~= digits@.take(i as int));
            assert(longer.last() == c);
        }
        if value < BEYOND {
            value = 10 * value + (c as u32 - 48) as i128;
        }
        i += 1;
    }
    assert(digits@.take(i as int) =~= digits@);
    if negative {
        Some(-value)
    } else {
        Some(value)
    }
}

/// The digits of a number, the last one first, of texts with those before and after its point.
fn read_digits(whole: &[char], places: &[char]) -> (digits: Option<Vec<u8>>)
    ensures
        match digits {
            Some(digits) => {
                &&& are_decimal_digits(whole@ + places@)
                &&& number::digits_number(digits@) == digits_value(whole@ + places@)
                &&& digits@.len() > 0 ==> number::are_digits(digits@)
            },
            None => !are_decimal_digits(whole@ + places@),
        },
{
    let ghost all = whole@ + places@;
    if whole.len() == 0 && places.len() == 0 {
        return None;
    }
    let mut digits: Vec<u8> = Vec::new();
    proof {
        assert(all.take(all.len() as int) =~= all);
        assert(number::ten(0) == 1);
        let k = digits_value(all);
        assert(k * 1 == k) by (nonlinear_arith);
    }
    let mut i: usize = places.len();
    while i > 0
        invariant
            all == whole@ + places@,
            i <= places@.len(),
            digits@.len() == places@.len() - i,
            forall|j: int| 0 <= j < digits@.len() ==> (#[trigger] digits@[j]) < 10,
            forall|j: int| whole@.len() + i <= j < all.len() ==> is_digit(#[trigger] all[j]),
            digits_value(all) == digits_value(all.take(whole@.len() + i)) * number::ten(
                digits@.len(),
            ) + number::digits_number(digits@),
        decreases i,
    {
        i -= 1;
        let c = places[i];
        assert(all[whole@.len() + i] == c);
        if c < '0' || c > '9' {
            assert(!is_digit(all[whole@.len() + i]));
            return None;
        }
        let digit: u8 = (c as u32 - 48) as u8;
        proof {
            digit_moves_over(all, whole@.len() + i, digits@, digit);
        }
        digits.push(digit);
    }
    let mut i: usize = whole.len();
    while i > 0
        invariant
            all == whole@ + places@,
            i <= whole@.len(),
            digits@.len() == all.len() - i,
            forall|j: int| 0 <= j < digits@.len() ==> (#[trigger] digits@[j]) < 10,
            forall|j: int| i <= j < all.len() ==> is_digit(#[trigger] all[j]),
            digits_value(all) == digits_value(all.take(i as int)) * number::ten(digits@.len())
                + number::digits_number(digits@),
        decreases i,
    {
        i -= 1;
        let c = whole[i];
        assert(all[i as int] == c);
        if c < '0' || c > '9' {
            assert(!is_digit(all[i as int]));
            return None;
        }
        let digit: u8 = (c as u32 - 48) as u8;
        proof {
            digit_moves_over(all, i as int, digits@, digit);
        }
        digits.push(digit);
    }
    proof {
        assert(all.take(0) =~= Seq::empty());
        let t = number::ten(digits@.len());
        assert(0 * t == 0) by (nonlinear_arith);
    }
    while digits.len() > 0 && digits[digits.len() - 1] == 0
        invariant
            forall|j: int| 0 <= j < digits@.len() ==> (#[trigger] digits@[j]) < 10,
            number::digits_number(digits@) == digits_value(all),
        decreases digits@.len(),
    {
        let ghost before = digits@;
        digits.pop();
        proof {
            number::digit_is_put_before(digits@, 0);
            assert(digits@.push(0) =~= before);
            let t = number::ten(digits@.len());
            assert(0 * t == 0) by (nonlinear_arith);
        }
    }
    Some(digits)
}

/// A digit that is taken from the end of a text is put before those that were taken before.
proof fn digit_moves_over(all: Seq<char>, at: int, digits: Seq<u8>, digit: u8)
    requires
        0 <= at < all.len(),
        is_digit(all[at]),
        digit == all[at] as int - '0' as int,
        digits_value(all) == digits_value(all.take(at + 1)) * number::ten(digits.len())
            + number::digits_number(digits),
    ensures
        digits_value(all) == digits_value(all.take(at)) * number::ten(digits.len() + 1)
            + number::digits_number(digits.push(digit)),
{
    let longer = all.take(at + 1);
    assert(longer.drop_last() =~= all.take(at));
    assert(longer.last() == all[at]);
    number::digit_is_put_before(digits, digit);
    let t = number::ten(digits.len());
    let rest = digits_value(all.take(at));
    assert((10 * rest + digit) * t == rest * (10 * t) + digit * t) by (nonlinear_arith);
}

fn read_decimal(chars: &[char]) -> (written: Option<Written>)
    ensures
        match decimal_of(chars@) {
            Some(decimal) => written matches Some(written) && written.is(decimal),
            None => written is None,
        },
{
    let (negative, unsigned) = split_sign(chars);
    let mut mantissa = unsigned;
    let mut exponent: Option<i128> = Some(0);
    if let Some(at) = text::place_of_either(unsigned, 'e', 'E') {
        let (before, rest) = unsigned.split_at(at);
        let (_, after) = rest.split_at(1);
        assert(before@ =~= unsigned@.take(at as int));
        assert(after@ =~= unsigned@.skip(at + 1));
        mantissa = before;
        exponent = read_exponent(after);
    }
    let (mut whole, mut places) = mantissa.split_at(mantissa.len());
    assert(whole@ =~= mantissa@);
    assert(places@ =~= Seq::empty());
    if let Some(at) = text::place_of_either(mantissa, '.', '.') {
        let (before, rest) = mantissa.split_at(at);
        let (_, after) = rest.split_at(1);
        assert(before@ =~= mantissa@.take(at as int));
        assert(after@ =~= mantissa@.skip(at + 1));
        whole = before;
        places = after;
    }
    let digits = read_digits(whole, places);
    match (digits, exponent) {
        (Some(digits), Some(exponent)) => Some(
            Written { negative, digits, exponent: exponent - places.len() as i128 },
        ),
        _ => None,
    }
}

/// The bits as which a decimal number is read, without its sign.
fn read_bits(layout: Layout, written: &Written, Ghost(decimal): Ghost<Decimal>) -> (bits: u64)
    requires
        layout.wf(),
        written.is(decimal),
    ensures
        layout.format().is_read(bits as nat, decimal.above(), decimal.below()),
        bits <= layout.format().infinite(),
{
    let ghost format = layout.format();
    if written.digits.len() == 0 {
        proof {
            assert(decimal.digits == 0);
            if decimal.exponent < 0 {
                ten_is_positive((-decimal.exponent) as nat);
            } else {
                let t = number::ten(decimal.exponent as nat);
                assert(0 * t == 0) by (nonlinear_arith);
            }
            let one = format.one();
            assert(0 * one == 0) by (nonlinear_arith);
            little_is_zero(format, 0, decimal.below());
        }
        return 0;
    }
    let size: i128 = written.digits.len() as i128 + written.exponent;
    if size > 400 {
        proof {
            much_is_infinite(format, written.digits@, decimal.exponent);
        }
        return layout.codes * layout.unit;
    }
    if size < -400 {
        proof {
            less_is_zero(format, written.digits@, decimal.exponent);
        }
        return 0;
    }
    nearest_bits(layout, &written.digits, written.exponent)
}

/// The bits of the number of 64 bits that a text writes, where it writes a finite one.
pub fn read_double(value: &str) -> (bits: Option<u64>)
    ensures
        bits == double_of(value@),
{
    let chars = text::chars_of(value);
    let written = read_decimal(chars.as_slice())?;
    let ghost decimal = decimal_of(value@)->0;
    let layout = double_layout();
    let bits: u64 = read_bits(layout, &written, Ghost(decimal));
    proof {
        let chosen = choose|bits: u64|
            #[trigger] number::double().is_read(bits as nat, decimal.above(), decimal.below());
        below_is_positive(decimal);
        number::nearest_is_one(
            number::double(),
            number::double().infinite(),
            bits as nat,
            chosen as nat,
            decimal.above(),
            decimal.below(),
        );
        lemma2_to64_rest();
        assert(number::double().infinite() == 0x7ff0_0000_0000_0000);
    }
    if bits == 0x7ff0_0000_0000_0000 {
        None
    } else if written.negative {
        Some(bits + 0x8000_0000_0000_0000)
    } else {
        Some(bits)
    }
}

/// The bits of the number of 32 bits that a text writes, where it writes a finite one.
pub fn read_single(value: &str) -> (bits: Option<u32>)
    ensures
        bits == single_of(value@),
{
    let chars = text::chars_of(value);
    let written = read_decimal(chars.as_slice())?;
    let ghost decimal = decimal_of(value@)->0;
    let layout = single_layout();
    let bits: u64 = read_bits(layout, &written, Ghost(decimal));
    proof {
        lemma2_to64();
        assert(number::single().infinite() == 0x7f80_0000);
    }
    let bits: u32 = bits as u32;
    proof {
        let chosen = choose|bits: u32|
            #[trigger] number::single().is_read(bits as nat, decimal.above(), decimal.below());
        below_is_positive(decimal);
        number::nearest_is_one(
            number::single(),
            number::single().infinite(),
            bits as nat,
            chosen as nat,
            decimal.above(),
            decimal.below(),
        );
    }
    if bits == 0x7f80_0000 {
        None
    } else if written.negative {
        Some(bits + 0x8000_0000)
    } else {
        Some(bits)
    }
}

proof fn below_is_positive(decimal: Decimal)
    ensures
        decimal.below() > 0,
{
    if decimal.exponent < 0 {
        ten_is_positive((-decimal.exponent) as nat);
    }
}

/// Something is the nearest to every fraction.
proof fn something_is_read(format: Format, n: nat, d: nat) -> (bits: nat)
    requires
        d > 0,
    ensures
        format.is_read(bits, n, d),
{
    let top = format.infinite();
    if format.places(top) * d <= n * format.one() {
        nothing_is_beyond(format, n, d);
        top
    } else {
        let low = largest_below(format, top, n, d);
        let here = n * format.one() - format.places(low) * d;
        let next = format.places(low + 1) * d - n * format.one();
        let bits = if here > next || (here == next && low % 2 == 1) {
            low + 1
        } else {
            low
        };
        number::nearest_of_two(format, top, low, n, d, bits);
        bits
    }
}

proof fn largest_below(format: Format, high: nat, n: nat, d: nat) -> (low: nat)
    requires
        n * format.one() < format.places(high) * d,
    ensures
        low < high,
        format.places(low) * d <= n * format.one() < format.places(low + 1) * d,
    decreases high,
{
    zero_has_no_places(format);
    assert(0 * d == 0) by (nonlinear_arith);
    let low = (high - 1) as nat;
    if format.places(low) * d <= n * format.one() {
        low
    } else {
        largest_below(format, low, n, d)
    }
}

/// What is read of a fraction that is no larger than the largest number is the nearest number.
proof fn read_in_range_is_nearest(format: Format, bits: nat, n: nat, d: nat)
    requires
        d > 0,
        format.codes > 0,
        format.is_read(bits, n, d),
        n * format.one() <= format.places((format.infinite() - 1) as nat) * d,
    ensures
        format.is_nearest(bits, n, d),
{
    let top = format.infinite();
    number::nearest_is_up_to_largest(format, bits, n, d);
    lemma_pow2_pos(format.fraction);
    assert(top > 0) by (nonlinear_arith)
        requires
            top == format.codes * pow2(format.fraction),
            format.codes > 0,
            pow2(format.fraction) > 0,
    ;
    let last = (top - 1) as nat;
    if bits == top {
        number::numbers_are_ordered_as_their_bits(format, last, top);
        let a = format.places(last);
        let b = format.places(top);
        assert(a * d < b * d) by (nonlinear_arith)
            requires
                a < b,
                d > 0,
        ;
        assert(format.distance(last, n, d) < format.distance(top, n, d));
    }
}

/// The digits of a number write it.
proof fn decimal_digits_write(n: nat)
    ensures
        are_decimal_digits(text::decimal(n)),
        digits_value(text::decimal(n)) == n,
    decreases n,
{
    if n < 10 {
        assert(text::decimal(n).drop_last() =~= Seq::empty());
        assert(digits_value(text::decimal(n).drop_last()) == 0);
    } else {
        decimal_digits_write(n / 10);
        let chars = text::decimal(n);
        assert(chars.drop_last() =~= text::decimal(n / 10));
        assert forall|i: int| 0 <= i < chars.len() implies is_digit(#[trigger] chars[i]) by {
            if i < chars.len() - 1 {
                assert(chars[i] == chars.drop_last()[i]);
            }
        }
    }
}

/// Digits with a point write a decimal number with as many places as there are digits after it.
proof fn point_is_read(whole: Seq<char>, places: Seq<char>)
    requires
        are_decimal_digits(whole),
        forall|i: int| 0 <= i < places.len() ==> is_digit(#[trigger] places[i]),
    ensures
        decimal_of(whole.push('.') + places) == Some(
            Decimal {
                negative: false,
                digits: digits_value(whole + places),
                exponent: -(places.len() as int),
            },
        ),
{
    let chars = whole.push('.') + places;
    assert(chars[0] == whole[0]);
    assert forall|i: int| 0 <= i < chars.len() implies chars[i] != 'e' && chars[i] != 'E' by {
        if i < whole.len() {
            assert(chars[i] == whole[i]);
        } else if i > whole.len() {
            assert(chars[i] == places[i - whole.len() - 1]);
        }
    }
    text::stays_whole(chars, 'e', 'E');
    assert forall|i: int| 0 <= i < whole.len() implies chars[i] != '.' by {
        assert(chars[i] == whole[i]);
    }
    text::splits_at_first(chars, '.', '.', whole.len() as int);
    assert(chars.take(whole.len() as int) =~= whole);
    assert(chars.skip(whole.len() as int + 1) =~= places);
    let all = whole + places;
    assert forall|i: int| 0 <= i < all.len() implies is_digit(#[trigger] all[i]) by {
        if i < whole.len() {
            assert(all[i] == whole[i]);
        } else {
            assert(all[i] == places[i - whole.len()]);
        }
    }
}

/// A number of thousandths is read from its text.
pub proof fn thousandths_are_read(n: nat)
    ensures
        decimal_of(number::thousandths(n)) == Some(
            Decimal { negative: false, digits: n, exponent: -3 },
        ),
{
    let whole = text::decimal(n / 1000);
    let places = seq![
        text::digit(n / 100 % 10),
        text::digit(n / 10 % 10),
        text::digit(n % 10),
    ];
    decimal_digits_write(n / 1000);
    assert(number::thousandths(n) =~= whole.push('.') + places);
    point_is_read(whole, places);
    let all = whole + places;
    assert(all.drop_last().drop_last().drop_last() =~= whole);
    assert(digits_value(all) == n) by {
        let one = all.drop_last();
        let two = one.drop_last();
        assert(all.last() == places[2] && one.last() == places[1] && two.last() == places[0]);
        assert(digits_value(two) == n / 100);
        assert(digits_value(one) == n / 10);
    }
}

/// A number of hundredths is read from its text.
pub proof fn hundredths_are_read(n: nat)
    ensures
        decimal_of(number::hundredths(n)) == Some(
            Decimal { negative: false, digits: n, exponent: -2 },
        ),
{
    let whole = text::decimal(n / 100);
    let places = seq![text::digit(n / 10 % 10), text::digit(n % 10)];
    decimal_digits_write(n / 100);
    assert(number::hundredths(n) =~= whole.push('.') + places);
    point_is_read(whole, places);
    let all = whole + places;
    assert(all.drop_last().drop_last() =~= whole);
    assert(digits_value(all) == n) by {
        let one = all.drop_last();
        assert(all.last() == places[1] && one.last() == places[0]);
        assert(digits_value(one) == n / 10);
    }
}

proof fn tens_of_places()
    ensures
        number::ten(3) == 1000,
        number::ten(2) == 100,
{
    reveal_with_fuel(number::ten, 4);
}

/// A number of 64 bits that a decimal of three places writes is read back from the text that rounds it
/// to three places.
pub proof fn written_double_is_read_back(bits: u64, n: nat)
    requires
        number::double().is_nearest(bits as nat, n, 1000),
    ensures
        double_of(number::thousandths(number::double_thousandths(bits))) == Some(bits),
{
    let format = number::double();
    let h = number::double_thousandths(bits);
    thousandths_are_read(h);
    tens_of_places();
    lemma2_to64_rest();
    assert(format.infinite() == 0x7ff0_0000_0000_0000);
    let some = something_is_read(format, h, 1000) as u64;
    assert(format.is_read(some as nat, h, 1000));
    let read = choose|bits: u64| #[trigger] format.is_read(bits as nat, h, 1000);
    number::written_number_is_in_range(format, bits as nat, 1000);
    read_in_range_is_nearest(format, read as nat, h, 1000);
    number::written_number_is_read_back(format, bits as nat, n, 1000, read as nat);
}

/// A number of 32 bits that a decimal of two places writes is read back from the text that rounds it to
/// two places.
pub proof fn written_single_is_read_back(bits: u32, n: nat)
    requires
        number::single().is_nearest(bits as nat, n, 100),
    ensures
        single_of(number::hundredths(number::single_hundredths(bits))) == Some(bits),
{
    let format = number::single();
    let h = number::single_hundredths(bits);
    hundredths_are_read(h);
    tens_of_places();
    lemma2_to64();
    assert(format.infinite() == 0x7f80_0000);
    let some = something_is_read(format, h, 100) as u32;
    assert(format.is_read(some as nat, h, 100));
    let read = choose|bits: u32| #[trigger] format.is_read(bits as nat, h, 100);
    number::written_number_is_in_range(format, bits as nat, 100);
    read_in_range_is_nearest(format, read as nat, h, 100);
    number::written_number_is_read_back(format, bits as nat, n, 100, read as nat);
}

} // verus!
