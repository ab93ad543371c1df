//! Numbers of binary floating point, as the bits that stand for them.
use vstd::arithmetic::power2::*;
use vstd::prelude::*;

use crate::text;

pub mod laws;
pub mod reading;

verus! {

/// How the bits of a number stand for it: so many bits of fraction, a code for the power of two above
/// them, and a smallest place of two to the minus `scale`.
pub struct Format {
    pub fraction: nat,
    pub scale: nat,
    pub codes: nat,
}

/// Numbers of 32 bits.
pub open spec fn single() -> Format {
    Format { fraction: 23, scale: 149, codes: 255 }
}

/// Numbers of 64 bits.
pub open spec fn double() -> Format {
    Format { fraction: 52, scale: 1074, codes: 2047 }
}

impl Format {
    /// Whether the bits stand for a number that is finite and not negative.
    pub open spec fn is_number(self, bits: nat) -> bool {
        bits < self.codes * pow2(self.fraction)
    }

    /// The smallest places in one whole.
    pub open spec fn one(self) -> nat {
        pow2(self.scale)
    }

    /// A number that is not negative, counted in its smallest places.
    pub open spec fn places(self, bits: nat) -> nat {
        let code = bits / pow2(self.fraction);
        let fraction = bits % pow2(self.fraction);
        if code == 0 {
            fraction
        } else {
            (pow2(self.fraction) + fraction) * pow2((code - 1) as nat)
        }
    }

    /// How far a number is from `n / d`, in `d`-ths of the smallest places.
    pub open spec fn distance(self, bits: nat, n: nat, d: nat) -> nat {
        let number = self.places(bits) * d;
        let wanted = n * self.one();
        if number < wanted {
            (wanted - number) as nat
        } else {
            (number - wanted) as nat
        }
    }

    /// Whether no number is nearer to `n / d`. Of two that are as near it is the one whose last bit is
    /// not set.
    pub open spec fn is_nearest(self, bits: nat, n: nat, d: nat) -> bool {
        &&& self.is_number(bits)
        &&& forall|other: nat|
            self.is_number(other) && other != bits ==> {
                ||| (#[trigger] self.distance(other, n, d)) > self.distance(bits, n, d)
                ||| self.distance(other, n, d) == self.distance(bits, n, d) && bits % 2 == 0
            }
    }

    /// Whether nothing is nearer to `n / d` of what bits up to `top` stand for. Of two that are as near
    /// it is the one whose last bit is not set.
    pub open spec fn is_nearest_up_to(self, top: nat, bits: nat, n: nat, d: nat) -> bool {
        &&& bits <= top
        &&& forall|other: nat|
            other <= top && other != bits ==> {
                ||| (#[trigger] self.distance(other, n, d)) > self.distance(bits, n, d)
                ||| self.distance(other, n, d) == self.distance(bits, n, d) && bits % 2 == 0
            }
    }

    /// The bits of the infinite number, which come after those of the largest number.
    pub open spec fn infinite(self) -> nat {
        self.codes * pow2(self.fraction)
    }

    /// Whether a decimal of the value `n / d` is read as these bits: those nearest to it, where the
    /// infinite number counts as one step more than the largest number.
    pub open spec fn is_read(self, bits: nat, n: nat, d: nat) -> bool {
        self.is_nearest_up_to(self.infinite(), bits, n, d)
    }

    /// The step from a number to the next larger one, in smallest places.
    pub open spec fn step(self, bits: nat) -> nat {
        let code = bits / pow2(self.fraction);
        if code == 0 {
            1
        } else {
            pow2((code - 1) as nat)
        }
    }
}

/// The whole number nearest to `n / d`; halves go to the even one.
pub open spec fn rounded(n: nat, d: nat) -> nat {
    let whole = n / d;
    let rest = n % d;
    if 2 * rest > d || (2 * rest == d && whole % 2 == 1) {
        whole + 1
    } else {
        whole
    }
}

/// The number of 32 bits that is nearest to `n / d`.
pub open spec fn single_near(n: nat, d: nat) -> u32 {
    choose|bits: u32| #[trigger] single().is_nearest(bits as nat, n, d)
}

proof fn splits(n: nat, d: nat, q: nat, r: nat)
    requires
        n == q * d + r,
        r < d,
    ensures
        n / d == q,
        n % d == r,
{
    vstd::arithmetic::div_mod::lemma_fundamental_div_mod_converse(
        n as int,
        d as int,
        q as int,
        r as int,
    );
}

/// The next larger bits stand for the number one step further.
proof fn next_is_a_step_further(format: Format, bits: nat)
    ensures
        format.places(bits + 1) == format.places(bits) + format.step(bits),
        format.step(bits) > 0,
        format.step(bits) <= format.step(bits + 1),
{
    let p = pow2(format.fraction);
    lemma_pow2_pos(format.fraction);
    let code = bits / p;
    let fraction = bits % p;
    assert(bits == code * p + fraction) by {
        vstd::arithmetic::div_mod::lemma_fundamental_div_mod(bits as int, p as int);
        assert(p * code == code * p) by (nonlinear_arith);
    }
    if code > 0 {
        lemma_pow2_pos((code - 1) as nat);
    }
    if fraction + 1 < p {
        splits(bits + 1, p, code, fraction + 1);
        if code > 0 {
            let g = pow2((code - 1) as nat);
            assert((p + (fraction + 1)) * g == (p + fraction) * g + g) by (nonlinear_arith);
        }
    } else {
        assert(bits + 1 == (code + 1) * p + 0) by (nonlinear_arith)
            requires
                bits == code * p + fraction,
                fraction + 1 == p,
        ;
        splits(bits + 1, p, code + 1, 0);
        if code == 0 {
            lemma2_to64();
            assert((p + 0) * 1 == p);
        } else {
            let g = pow2((code - 1) as nat);
            lemma_pow2_unfold(code);
            assert((p + 0) * (2 * g) == (p + (p - 1)) * g + g) by (nonlinear_arith);
        }
    }
}

/// Larger bits stand for larger numbers.
pub proof fn numbers_are_ordered_as_their_bits(format: Format, smaller: nat, larger: nat)
    requires
        smaller < larger,
    ensures
        format.places(smaller) < format.places(larger),
    decreases larger,
{
    let before = (larger - 1) as nat;
    next_is_a_step_further(format, before);
    if smaller < before {
        numbers_are_ordered_as_their_bits(format, smaller, before);
    }
}

/// The nearest of the two numbers around `n / d` is the nearest of all.
proof fn nearest_of_two(format: Format, top: nat, below: nat, n: nat, d: nat, bits: nat)
    requires
        d > 0,
        below + 1 <= top,
        format.places(below) * d <= n * format.one() < format.places(below + 1) * d,
        ({
            let low = n * format.one() - format.places(below) * d;
            let high = format.places(below + 1) * d - n * format.one();
            ||| bits == below && (low < high || (low == high && below % 2 == 0))
            ||| bits == below + 1 && (high < low || (low == high && below % 2 == 1))
        }),
    ensures
        format.is_nearest_up_to(top, bits, n, d),
{
    assert forall|other: nat| other <= top && other != bits implies {
        ||| (#[trigger] format.distance(other, n, d)) > format.distance(bits, n, d)
        ||| format.distance(other, n, d) == format.distance(bits, n, d) && bits % 2 == 0
    } by {
        if other < below {
            numbers_are_ordered_as_their_bits(format, other, below);
            assert(format.places(other) * d < format.places(below) * d) by (nonlinear_arith)
                requires
                    format.places(other) < format.places(below),
                    d > 0,
            ;
        } else if other > below + 1 {
            numbers_are_ordered_as_their_bits(format, below + 1, other);
            assert(format.places(other) * d > format.places(below + 1) * d) by (nonlinear_arith)
                requires
                    format.places(other) > format.places(below + 1),
                    d > 0,
            ;
        }
    }
}

/// What is nearest of all bits before the infinite number is the nearest number.
proof fn nearest_is_up_to_largest(format: Format, bits: nat, n: nat, d: nat)
    requires
        format.codes > 0,
    ensures
        format.is_nearest(bits, n, d) <==> format.is_nearest_up_to(
            (format.infinite() - 1) as nat,
            bits,
            n,
            d,
        ),
{
    lemma_pow2_pos(format.fraction);
    assert(format.infinite() > 0) by (nonlinear_arith)
        requires
            format.infinite() == format.codes * pow2(format.fraction),
            format.codes > 0,
            pow2(format.fraction) > 0,
    ;
    let top = (format.infinite() - 1) as nat;
    assert forall|other: nat| format.is_number(other) <==> other <= top by {}
    if format.is_nearest(bits, n, d) {
        assert forall|other: nat| other <= top && other != bits implies {
            ||| (#[trigger] format.distance(other, n, d)) > format.distance(bits, n, d)
            ||| format.distance(other, n, d) == format.distance(bits, n, d) && bits % 2 == 0
        } by {
            assert(format.is_number(other));
        }
    }
}

/// There is no more than one nearest number.
pub proof fn nearest_number_is_one(format: Format, first: nat, second: nat, n: nat, d: nat)
    requires
        d > 0,
        format.codes > 0,
        format.is_nearest(first, n, d),
        format.is_nearest(second, n, d),
    ensures
        first == second,
{
    nearest_is_up_to_largest(format, first, n, d);
    nearest_is_up_to_largest(format, second, n, d);
    nearest_is_one(format, (format.infinite() - 1) as nat, first, second, n, d);
}

proof fn nearest_is_one(format: Format, top: nat, first: nat, second: nat, n: nat, d: nat)
    requires
        d > 0,
        format.is_nearest_up_to(top, first, n, d),
        format.is_nearest_up_to(top, second, n, d),
    ensures
        first == second,
{
    if first < second {
        nearest_is_not_two(format, top, first, second, n, d);
    } else if second < first {
        nearest_is_not_two(format, top, second, first, n, d);
    }
}

proof fn nearest_is_not_two(format: Format, top: nat, first: nat, second: nat, n: nat, d: nat)
    requires
        d > 0,
        first < second,
        format.is_nearest_up_to(top, first, n, d),
    ensures
        !format.is_nearest_up_to(top, second, n, d),
{
    if format.is_nearest_up_to(top, second, n, d) {
        assert(format.distance(first, n, d) == format.distance(second, n, d));
        assert(first % 2 == 0 && second % 2 == 0);
        let between = first + 1;
        assert(between < second);
        numbers_are_ordered_as_their_bits(format, first, between);
        numbers_are_ordered_as_their_bits(format, between, second);
        let a = format.places(first);
        let b = format.places(between);
        let c = format.places(second);
        assert(a * d < b * d < c * d) by (nonlinear_arith)
            requires
                a < b < c,
                d > 0,
        ;
        assert(format.distance(between, n, d) >= format.distance(first, n, d));
    }
}

/// A rounded number is off by no more than a half, and no whole number is nearer.
proof fn rounding_is_near(n: nat, d: nat, other: nat)
    requires
        d > 0,
    ensures
        ({
            let off = n - rounded(n, d) * d;
            let away = n - other * d;
            &&& -d <= 2 * off <= d
            &&& off <= away || off <= -away
            &&& -off <= away || -off <= -away
        }),
{
    let q = n / d;
    let r = n % d;
    assert(n == q * d + r) by {
        vstd::arithmetic::div_mod::lemma_fundamental_div_mod(n as int, d as int);
        assert(d * q == q * d) by (nonlinear_arith);
    }
    assert((q + 1) * d == q * d + d) by (nonlinear_arith);
    if other <= q {
        assert(other * d <= q * d) by (nonlinear_arith)
            requires
                other <= q,
        ;
    } else {
        assert(other * d >= (q + 1) * d) by (nonlinear_arith)
            requires
                other >= q + 1,
        ;
    }
}

/// Whether no power of two, taken so many times, is a power of two.
spec fn is_uneven(d: nat) -> bool {
    forall|i: nat, j: nat| d * #[trigger] pow2(i) != #[trigger] pow2(j)
}

proof fn decimal_counts_are_uneven()
    ensures
        is_uneven(1000),
        is_uneven(100),
{
    assert forall|i: nat, j: nat| 1000 * #[trigger] pow2(i) != #[trigger] pow2(j) by {
        powers_skip(1000, 9, i, j);
    }
    assert forall|i: nat, j: nat| 100 * #[trigger] pow2(i) != #[trigger] pow2(j) by {
        powers_skip(100, 6, i, j);
    }
}

proof fn powers_skip(d: nat, k: nat, i: nat, j: nat)
    requires
        k == 9 && d == 1000 || k == 6 && d == 100,
    ensures
        d * pow2(i) != pow2(j),
{
    lemma2_to64();
    lemma_pow2_pos(i);
    if j <= i + k {
        lemma_pow2_adds(i, k);
        if j < i + k {
            lemma_pow2_strictly_increases(j, i + k);
        }
        assert(pow2(i) * pow2(k) < d * pow2(i)) by (nonlinear_arith)
            requires
                pow2(k) < d,
                pow2(i) > 0,
        ;
    } else {
        lemma_pow2_adds(i, k + 1);
        if i + k + 1 < j {
            lemma_pow2_strictly_increases(i + k + 1, j);
        }
        assert(pow2(i) * pow2(k + 1) > d * pow2(i)) by (nonlinear_arith)
            requires
                pow2(k + 1) > d,
                pow2(i) > 0,
        ;
    }
}

/// A whole number is rounded to itself.
proof fn whole_numbers_stay(n: nat, d: nat)
    requires
        d > 0,
    ensures
        rounded(n * d, d) == n,
{
    splits(n * d, d, n, 0);
}

/// Where the steps at a number are wholes, or it is the first of a run of such steps, the number is
/// whole.
proof fn long_steps_are_whole(format: Format, m: nat, i: nat)
    requires
        i >= format.scale,
    ensures
        exists|w: nat| m * pow2(i) == #[trigger] (w * format.one()),
{
    let k = (i - format.scale) as nat;
    lemma_pow2_adds(k, format.scale);
    assert(m * (pow2(k) * pow2(format.scale)) == (m * pow2(k)) * pow2(format.scale))
        by (nonlinear_arith);
    assert(m * pow2(i) == (m * pow2(k)) * format.one());
}

/// A whole number is written as it is, and read back.
proof fn whole_number_is_read_back(format: Format, bits: nat, w: nat, d: nat, read: nat)
    requires
        d > 0,
        format.is_number(bits),
        format.places(bits) == w * format.one(),
        format.is_nearest(read, rounded(format.places(bits) * d, format.one()), d),
    ensures
        read == bits,
{
    let s = format.one();
    lemma_pow2_pos(format.scale);
    let h = rounded(format.places(bits) * d, s);
    assert((w * s) * d == (w * d) * s) by (nonlinear_arith);
    whole_numbers_stay(w * d, s);
    assert(h == w * d);
    assert(format.distance(bits, h, d) == 0);
    assert(format.distance(read, h, d) == 0);
    let a = format.places(read);
    let b = format.places(bits);
    assert(a == b) by (nonlinear_arith)
        requires
            a * d == b * d,
            d > 0,
    ;
    if read < bits {
        numbers_are_ordered_as_their_bits(format, read, bits);
    } else if bits < read {
        numbers_are_ordered_as_their_bits(format, bits, read);
    }
}

/// The number before the first of a code is half a step of that code away, and the steps before any
/// other are as long as the ones after it.
proof fn steps_around(format: Format, bits: nat)
    requires
        bits > 0,
    ensures
        ({
            let before = format.step((bits - 1) as nat);
            let after = format.step(bits);
            &&& format.places(bits) == format.places((bits - 1) as nat) + before
            &&& before == after || (after == 2 * before && format.places(bits) == pow2(
                format.fraction,
            ) * after)
        }),
{
    let before = (bits - 1) as nat;
    next_is_a_step_further(format, before);
    let p = pow2(format.fraction);
    lemma_pow2_pos(format.fraction);
    let code = before / p;
    let fraction = before % p;
    assert(before == code * p + fraction) by {
        vstd::arithmetic::div_mod::lemma_fundamental_div_mod(before as int, p as int);
        assert(p * code == code * p) by (nonlinear_arith);
    }
    if fraction + 1 < p {
        splits(bits, p, code, fraction + 1);
    } else {
        assert(bits == (code + 1) * p + 0) by (nonlinear_arith)
            requires
                bits == code * p + fraction + 1,
                fraction + 1 == p,
        ;
        splits(bits, p, code + 1, 0);
        lemma2_to64();
        if code > 0 {
            lemma_pow2_unfold(code);
        }
    }
}

/// A number that some decimal of so many places writes is read back from the text that rounds it to
/// those places.
pub proof fn written_number_is_read_back(format: Format, bits: nat, n: nat, d: nat, read: nat)
    requires
        format == single() || format == double(),
        d == 100 || d == 1000,
        format.is_nearest(bits, n, d),
        format.is_nearest(read, rounded(format.places(bits) * d, format.one()), d),
    ensures
        read == bits,
{
    if rounded(format.places(bits) * d, format.one()) == n {
        nearest_number_is_one(format, read, bits, n, d);
    } else if bits / pow2(format.fraction) > format.scale {
        number_of_long_steps_is_read_back(format, bits, d, read);
    } else {
        nothing_above_is_read(format, bits, n, d, read);
        nothing_below_is_read(format, bits, n, d, read);
    }
}

/// Whether a number that the decimal `n / d` writes is rounded to another decimal, and that one is read
/// as `read`.
spec fn is_written_otherwise(format: Format, bits: nat, n: nat, d: nat, read: nat) -> bool {
    let other = rounded(format.places(bits) * d, format.one());
    &&& format == single() || format == double()
    &&& d == 100 || d == 1000
    &&& format.is_nearest(bits, n, d)
    &&& format.is_nearest(read, other, d)
    &&& other != n
}

/// A number from which the steps are wholes is whole, and read back.
proof fn number_of_long_steps_is_read_back(format: Format, bits: nat, d: nat, read: nat)
    requires
        d > 0,
        format.is_number(bits),
        bits / pow2(format.fraction) > format.scale,
        format.is_nearest(read, rounded(format.places(bits) * d, format.one()), d),
    ensures
        read == bits,
{
    let p = pow2(format.fraction);
    let i = (bits / p - 1) as nat;
    long_steps_are_whole(format, (p + bits % p) as nat, i);
    let w = choose|w: nat| (p + bits % p) as nat * pow2(i) == #[trigger] (w * format.one());
    whole_number_is_read_back(format, bits, w, d, read);
}

/// A hundred or a thousand steps are never one whole.
proof fn steps_do_not_make_one(format: Format, bits: nat, d: nat)
    requires
        d == 100 || d == 1000,
    ensures
        format.step(bits) * d != format.one(),
        format.step(bits) > 0,
{
    let code = bits / pow2(format.fraction);
    let i = if code == 0 {
        0nat
    } else {
        (code - 1) as nat
    };
    lemma2_to64();
    lemma_pow2_pos(i);
    decimal_counts_are_uneven();
    assert(d * pow2(i) != pow2(format.scale));
    assert(d * pow2(i) == pow2(i) * d) by (nonlinear_arith);
}

/// How far the decimals are off.
proof fn decimals_are_off(format: Format, bits: nat, n: nat, d: nat, read: nat)
    requires
        is_written_otherwise(format, bits, n, d, read),
    ensures
        ({
            let other = rounded(format.places(bits) * d, format.one());
            &&& 2 * format.distance(bits, n, d) >= format.one()
            &&& 2 * format.distance(bits, other, d) <= format.one()
            &&& format.distance(read, other, d) <= format.distance(bits, other, d)
            &&& format.one() > 0
        }),
{
    let s = format.one();
    lemma_pow2_pos(format.scale);
    let v = format.places(bits);
    let h = rounded(v * d, s);
    rounding_is_near(v * d, s, n);
    assert(h * s - n * s >= s || n * s - h * s >= s) by (nonlinear_arith)
        requires
            h != n,
    ;
    if read != bits {
        assert(format.distance(bits, h, d) >= format.distance(read, h, d));
    }
}

/// Where the steps are shorter than a whole, the next bits stand for a number.
proof fn short_step_is_not_the_last(format: Format, bits: nat)
    requires
        format == single() || format == double(),
        bits / pow2(format.fraction) <= format.scale,
    ensures
        format.is_number(bits + 1),
{
    let p = pow2(format.fraction);
    lemma_pow2_pos(format.fraction);
    let code = bits / p;
    vstd::arithmetic::div_mod::lemma_fundamental_div_mod(bits as int, p as int);
    assert(p * code == code * p) by (nonlinear_arith);
    assert((code + 1) * p == code * p + p) by (nonlinear_arith);
    assert((code + 1) * p < format.codes * p) by (nonlinear_arith)
        requires
            code + 2 <= format.codes,
            p > 0,
    ;
}

/// Zero is no decimal's number but that of zero.
proof fn zero_is_written_as_zero(format: Format, n: nat, d: nat)
    requires
        2 * format.distance(0, n, d) >= format.one(),
        format.one() > 0,
    ensures
        n * format.one() > format.places(0) * d,
{
    lemma_pow2_pos(format.fraction);
    splits(0, pow2(format.fraction), 0, 0);
    assert(format.places(0) == 0);
    assert(0 * d == 0) by (nonlinear_arith);
}

proof fn nothing_above_is_read(format: Format, bits: nat, n: nat, d: nat, read: nat)
    requires
        is_written_otherwise(format, bits, n, d, read),
        bits / pow2(format.fraction) <= format.scale,
    ensures
        read <= bits,
{
    if read > bits {
        let h = rounded(format.places(bits) * d, format.one());
        decimals_are_off(format, bits, n, d, read);
        steps_do_not_make_one(format, bits, d);
        reached_step_is_short(format, bits, read, h, d);
        if n * format.one() > format.places(bits) * d {
            short_step_is_not_the_last(format, bits);
            not_reached_by_next(format, bits, n, d);
        } else {
            if bits == 0 {
                zero_is_written_as_zero(format, n, d);
            }
            not_reached_by_last(format, bits, n, d);
            steps_around(format, bits);
            let before = format.step((bits - 1) as nat);
            let after = format.step(bits);
            assert(before * d <= after * d) by (nonlinear_arith)
                requires
                    before <= after,
            ;
        }
    }
}

proof fn nothing_below_is_read(format: Format, bits: nat, n: nat, d: nat, read: nat)
    requires
        is_written_otherwise(format, bits, n, d, read),
        bits / pow2(format.fraction) <= format.scale,
    ensures
        read >= bits,
{
    if read < bits {
        let h = rounded(format.places(bits) * d, format.one());
        decimals_are_off(format, bits, n, d, read);
        steps_do_not_make_one(format, (bits - 1) as nat, d);
        reached_last_step_is_short(format, bits, read, h, d);
        if n * format.one() > format.places(bits) * d {
            short_step_is_not_the_last(format, bits);
            not_reached_by_next(format, bits, n, d);
            steps_around(format, bits);
            first_of_a_code_is_read_back(format, bits, d, read);
        } else {
            not_reached_by_last(format, bits, n, d);
        }
    }
}

/// The first number of a code with steps of about a decimal is whole, and read back.
proof fn first_of_a_code_is_read_back(format: Format, bits: nat, d: nat, read: nat)
    requires
        format == single() || format == double(),
        d == 100 || d == 1000,
        format.is_number(bits),
        format.places(bits) == pow2(format.fraction) * format.step(bits),
        format.step(bits) * d >= format.one(),
        format.is_nearest(read, rounded(format.places(bits) * d, format.one()), d),
    ensures
        read == bits,
{
    let code = bits / pow2(format.fraction);
    let i = if code == 0 {
        0nat
    } else {
        (code - 1) as nat
    };
    let step = format.step(bits);
    lemma2_to64();
    lemma_pow2_pos(i);
    assert(step == pow2(i));
    lemma_pow2_adds(i, 10);
    assert(step * d < step * 1024) by (nonlinear_arith)
        requires
            d < 1024,
            step > 0,
    ;
    assert(pow2(format.scale) < pow2(i + 10));
    if i + 10 < format.scale {
        lemma_pow2_strictly_increases(i + 10, format.scale);
    }
    lemma_pow2_adds(format.fraction, i);
    long_steps_are_whole(format, 1, format.fraction + i);
    let w = choose|w: nat| 1 * pow2(format.fraction + i) == #[trigger] (w * format.one());
    whole_number_is_read_back(format, bits, w, d, read);
}

proof fn not_reached_by_next(format: Format, bits: nat, n: nat, d: nat)
    requires
        d > 0,
        format.is_nearest(bits, n, d),
        format.is_number(bits + 1),
        n * format.one() > format.places(bits) * d,
        2 * format.distance(bits, n, d) >= format.one(),
    ensures
        format.step(bits) * d >= format.one(),
{
    next_is_a_step_further(format, bits);
    let v = format.places(bits);
    let g = format.step(bits);
    assert((v + g) * d == v * d + g * d) by (nonlinear_arith);
    assert(g * d > 0) by (nonlinear_arith)
        requires
            g > 0,
            d > 0,
    ;
    assert(format.distance(bits + 1, n, d) >= format.distance(bits, n, d));
}

proof fn not_reached_by_last(format: Format, bits: nat, n: nat, d: nat)
    requires
        d > 0,
        bits > 0,
        format.is_nearest(bits, n, d),
        n * format.one() <= format.places(bits) * d,
        2 * format.distance(bits, n, d) >= format.one(),
    ensures
        format.step((bits - 1) as nat) * d >= format.one(),
{
    let last = (bits - 1) as nat;
    next_is_a_step_further(format, last);
    let v = format.places(last);
    let g = format.step(last);
    assert((v + g) * d == v * d + g * d) by (nonlinear_arith);
    assert(g * d > 0) by (nonlinear_arith)
        requires
            g > 0,
            d > 0,
    ;
    lemma_pow2_pos(format.scale);
    assert(format.is_number(last));
    assert(format.distance(last, n, d) >= format.distance(bits, n, d));
}

proof fn reached_step_is_short(format: Format, bits: nat, read: nat, h: nat, d: nat)
    requires
        d > 0,
        bits < read,
        2 * format.distance(bits, h, d) <= format.one(),
        format.distance(read, h, d) <= format.distance(bits, h, d),
    ensures
        format.step(bits) * d <= format.one(),
{
    next_is_a_step_further(format, bits);
    if bits + 1 < read {
        numbers_are_ordered_as_their_bits(format, bits + 1, read);
    }
    let v = format.places(bits);
    let g = format.step(bits);
    let far = format.places(read);
    assert((v + g) * d == v * d + g * d) by (nonlinear_arith);
    assert((v + g) * d <= far * d) by (nonlinear_arith)
        requires
            v + g <= far,
    ;
}

proof fn reached_last_step_is_short(format: Format, bits: nat, read: nat, h: nat, d: nat)
    requires
        d > 0,
        read < bits,
        2 * format.distance(bits, h, d) <= format.one(),
        format.distance(read, h, d) <= format.distance(bits, h, d),
    ensures
        format.step((bits - 1) as nat) * d <= format.one(),
{
    let last = (bits - 1) as nat;
    next_is_a_step_further(format, last);
    if read < last {
        numbers_are_ordered_as_their_bits(format, read, last);
    }
    let v = format.places(last);
    let g = format.step(last);
    let far = format.places(read);
    assert((v + g) * d == v * d + g * d) by (nonlinear_arith);
    assert(v * d >= far * d) by (nonlinear_arith)
        requires
            v >= far,
    ;
}

/// A rounded number of so many places is no larger than the largest number there is.
pub proof fn written_number_is_in_range(format: Format, bits: nat, d: nat)
    requires
        format == single() || format == double(),
        format.is_number(bits),
    ensures
        rounded(format.places(bits) * d, format.one()) * format.one() <= format.places(
            (format.codes * pow2(format.fraction) - 1) as nat,
        ) * d,
{
    let s = format.one();
    let p = pow2(format.fraction);
    lemma_pow2_pos(format.scale);
    lemma_pow2_pos(format.fraction);
    let largest = (format.codes * p - 1) as nat;
    assert(largest == (format.codes - 1) * p + (p - 1)) by (nonlinear_arith)
        requires
            largest == format.codes * p - 1,
    ;
    splits(largest, p, (format.codes - 1) as nat, (p - 1) as nat);
    long_steps_are_whole(format, (2 * p - 1) as nat, (format.codes - 2) as nat);
    let w = choose|w: nat|
        (2 * p - 1) as nat * pow2((format.codes - 2) as nat) == #[trigger] (w * format.one());
    assert(format.places(largest) == w * s);
    if bits < largest {
        numbers_are_ordered_as_their_bits(format, bits, largest);
    }
    let v = format.places(bits);
    assert((w * s) * d == (w * d) * s) by (nonlinear_arith);
    assert(v * d <= (w * s) * d) by (nonlinear_arith)
        requires
            v <= w * s,
    ;
    rounding_is_near(v * d, s, w * d);
    let h = rounded(v * d, s);
    if h > w * d {
        assert(h * s > (w * d) * s) by (nonlinear_arith)
            requires
                h > w * d,
                s > 0,
        ;
    } else {
        assert(h * s <= (w * d) * s) by (nonlinear_arith)
            requires
                h <= w * d,
        ;
    }
}

/// A common factor does not change what a fraction is rounded to.
proof fn factor_goes(n: nat, d: nat, k: nat)
    requires
        d > 0,
        k > 0,
    ensures
        rounded(n * k, d * k) == rounded(n, d),
{
    let q = n / d;
    let r = n % d;
    assert(n == q * d + r) by {
        vstd::arithmetic::div_mod::lemma_fundamental_div_mod(n as int, d as int);
        assert(d * q == q * d) by (nonlinear_arith);
    }
    assert(n * k == q * (d * k) + r * k) by (nonlinear_arith)
        requires
            n == q * d + r,
    ;
    assert(r * k < d * k) by (nonlinear_arith)
        requires
            r < d,
            k > 0,
    ;
    splits(n * k, d * k, q, r * k);
    assert(2 * (r * k) > d * k <==> 2 * r > d) by (nonlinear_arith)
        requires
            k > 0,
    ;
    assert(2 * (r * k) == d * k <==> 2 * r == d) by (nonlinear_arith)
        requires
            k > 0,
    ;
}

/// The whole number nearest to `n` over two to the power of `exponent`.
fn whole_near(n: u64, exponent: u64) -> (whole: u64)
    requires
        n < 0x8000_0000_0000_0000,
    ensures
        whole == rounded(n as nat, pow2(exponent as nat)),
{
    proof {
        lemma2_to64();
        lemma2_to64_rest();
    }
    if exponent >= 64 {
        proof {
            if exponent > 64 {
                lemma_pow2_strictly_increases(64, exponent as nat);
            }
            splits(n as nat, pow2(exponent as nat), 0, n as nat);
        }
        return 0;
    }
    let unit: u64 = 1u64 << exponent;
    proof {
        vstd::bits::lemma_u64_pow2_no_overflow(exponent as nat);
        vstd::bits::lemma_u64_shl_is_mul(1, exponent);
        lemma_pow2_pos(exponent as nat);
    }
    assert(unit == pow2(exponent as nat));
    let whole: u64 = n / unit;
    let rest: u64 = n % unit;
    if rest > unit - rest || (rest == unit - rest && whole % 2 == 1) {
        whole + 1
    } else {
        whole
    }
}

/// Whether bits stand for a number from a quarter to thirty-two.
pub open spec fn is_medium(bits: u32) -> bool {
    0x3e80_0000 <= bits <= 0x4200_0000
}

/// What a number of 32 bits is made of: the bits of its fraction with the one above them, and the code
/// of its power of two.
proof fn medium_is_made_of(bits: u32)
    requires
        is_medium(bits),
    ensures
        125 <= bits / 0x80_0000 <= 132,
        single().places(bits as nat) == (0x80_0000 + bits % 0x80_0000) * pow2(
            (bits / 0x80_0000 - 1) as nat,
        ),
        single().is_number(bits as nat + 1),
{
    lemma2_to64();
    assert(pow2(23) == 0x80_0000);
}

/// A number from a quarter to thirty-two, times `d`, rounded to a whole number.
pub fn single_rounded(bits: u32, d: u64) -> (whole: u64)
    requires
        is_medium(bits),
        d <= 1000,
    ensures
        whole == rounded(single().places(bits as nat) * d as nat, single().one()),
{
    let code: u32 = bits / 0x80_0000;
    let significand: u64 = 0x80_0000 + (bits % 0x80_0000) as u64;
    proof {
        medium_is_made_of(bits);
    }
    assert(significand * d <= 0x100_0000 * 1000) by (nonlinear_arith)
        requires
            significand <= 0x100_0000,
            d <= 1000,
    ;
    let exponent: u64 = 150 - code as u64;
    proof {
        let k = pow2((code - 1) as nat);
        lemma_pow2_pos((code - 1) as nat);
        lemma_pow2_pos(exponent as nat);
        lemma_pow2_adds(exponent as nat, (code - 1) as nat);
        assert((significand * k) * d == (significand * d) * k) by (nonlinear_arith);
        factor_goes((significand * d) as nat, pow2(exponent as nat), k);
    }
    whole_near(significand * d, exponent)
}

/// The parts that one is counted in where numbers from a quarter to thirty-two are added: all of these
/// are whole numbers of such parts.
pub const PARTS: u64 = 0x800_0000;

/// A number from a quarter to thirty-two, counted in parts.
pub open spec fn parts_of(bits: u32) -> nat {
    single().places(bits as nat) / pow2(122)
}

/// A number from a quarter to thirty-two is a whole number of parts.
pub proof fn parts_make_up(bits: u32)
    requires
        is_medium(bits),
    ensures
        single().places(bits as nat) == parts_of(bits) * pow2(122),
        parts_of(bits) == (0x80_0000 + bits % 0x80_0000) * pow2((bits / 0x80_0000 - 123) as nat),
        parts_of(bits) <= 0x1_0000_0000,
        parts_of(bits) >= 0x200_0000,
{
    medium_is_made_of(bits);
    let t = (bits / 0x80_0000 - 123) as nat;
    let m = (0x80_0000 + bits % 0x80_0000) as nat;
    lemma2_to64();
    lemma_pow2_adds(t, 122);
    lemma_pow2_pos(122);
    assert(m * (pow2(t) * pow2(122)) == (m * pow2(t)) * pow2(122)) by (nonlinear_arith);
    splits(single().places(bits as nat), pow2(122), m * pow2(t), 0);
    if t > 2 {
        lemma_pow2_strictly_increases(2, t);
    }
    assert(m * pow2(t) >= 0x80_0000 * 4) by (nonlinear_arith)
        requires
            m >= 0x80_0000,
            pow2(t) >= 4,
    ;
    if t < 9 {
        if t < 8 {
            lemma_pow2_strictly_increases(t, 8);
        }
        assert(m * pow2(t) <= 0x100_0000 * 256) by (nonlinear_arith)
            requires
                m <= 0x100_0000,
                pow2(t) <= 256,
        ;
    } else {
        assert(m == 0x80_0000);
    }
}

/// The parts of a number from a quarter to thirty-two.
fn count_parts(bits: u32) -> (parts: u64)
    requires
        is_medium(bits),
    ensures
        parts == parts_of(bits),
        parts <= 0x1_0000_0000,
        parts >= 0x200_0000,
{
    let shift: u64 = (bits / 0x80_0000) as u64 - 123;
    let significand: u64 = 0x80_0000 + (bits % 0x80_0000) as u64;
    proof {
        parts_make_up(bits);
        vstd::bits::lemma_u64_shl_is_mul(significand, shift);
    }
    significand << shift
}

/// Whether two numbers are nearer to each other than the step that follows one.
pub open spec fn is_close(a: u32, b: u32) -> bool {
    -16 < parts_of(a) - parts_of(b) < 16
}

/// Whether two numbers are nearer to each other than the step that follows one.
pub fn close(a: u32, b: u32) -> (is: bool)
    requires
        is_medium(a),
        is_medium(b),
    ensures
        is == is_close(a, b),
{
    let a: u64 = count_parts(a);
    let b: u64 = count_parts(b);
    if a < b {
        b - a < 16
    } else {
        a - b < 16
    }
}

/// A number with so many parts more, as the nearest number to it, within bounds.
pub open spec fn sum_within(bits: u32, delta: int, low: u32, high: u32) -> u32 {
    let sum = parts_of(bits) + delta;
    if sum <= parts_of(low) {
        low
    } else if sum >= parts_of(high) {
        high
    } else {
        single_near(sum as nat, PARTS as nat)
    }
}

/// The number nearest to so many parts.
fn single_of_parts(parts: u64) -> (bits: u32)
    requires
        0x200_0000 <= parts < 0x1_0000_0000,
    ensures
        single().is_nearest(bits as nat, parts as nat, PARTS as nat),
        bits == single_near(parts as nat, PARTS as nat),
        is_medium(bits),
{
    let mut top: u64 = 0x400_0000;
    let mut shift: u32 = 2;
    proof {
        lemma2_to64();
    }
    while parts >= top
        invariant
            2 <= shift <= 8,
            top == pow2((24 + shift) as nat),
            top <= 2 * parts,
            pow2(32) == 0x1_0000_0000,
            parts < 0x1_0000_0000,
            top <= 0x1_0000_0000,
        decreases 8 - shift,
    {
        proof {
            if shift >= 8 {
                lemma2_to64();
            }
            lemma_pow2_unfold((25 + shift) as nat);
            if shift == 7 {
                lemma2_to64();
            } else {
                lemma_pow2_strictly_increases((25 + shift) as nat, 32);
            }
        }
        top = top * 2;
        shift = shift + 1;
    }
    let unit: u64 = top / 0x100_0000;
    proof {
        lemma_pow2_adds(24, shift as nat);
        splits(top as nat, 0x100_0000, pow2(shift as nat), 0);
        lemma_pow2_pos(shift as nat);
        lemma2_to64();
        if shift < 8 {
            lemma_pow2_strictly_increases(shift as nat, 8);
        }
    }
    assert(unit == pow2(shift as nat));
    let whole: u64 = parts / unit;
    let rest: u64 = parts % unit;
    assert(parts == whole * unit + rest) by {
        vstd::arithmetic::div_mod::lemma_fundamental_div_mod(parts as int, unit as int);
        assert(unit * whole == whole * unit) by (nonlinear_arith);
    }
    assert(0x80_0000 <= whole < 0x100_0000) by (nonlinear_arith)
        requires
            parts == whole * unit + rest,
            rest < unit,
            0x80_0000 * unit <= parts < 0x100_0000 * unit,
            unit > 0,
    ;
    let below: u32 = (shift + 123) * 0x80_0000 + (whole as u32 - 0x80_0000);
    let ghost wanted = parts as nat * single().one();
    proof {
        let code = (shift + 123) as nat;
        splits(below as nat, 0x80_0000, code, (whole - 0x80_0000) as nat);
        let step = pow2((code - 1) as nat);
        assert(single().step(below as nat) == step);
        next_is_a_step_further(single(), below as nat);
        let first = single().places(below as nat);
        assert(first == whole * step);
        let one = single().one();
        // One part is so many smallest places, and a unit of parts is a step.
        lemma_pow2_adds(shift as nat, 122);
        lemma_pow2_adds(27, 122);
        assert(first * 0x800_0000 == (whole * unit) * one) by (nonlinear_arith)
            requires
                first == whole * step,
                step == unit * pow2(122),
                one == 0x800_0000 * pow2(122),
        ;
        assert((first + step) * 0x800_0000 == (whole * unit + unit) * one) by (nonlinear_arith)
            requires
                first == whole * step,
                step == unit * pow2(122),
                one == 0x800_0000 * pow2(122),
        ;
        lemma_pow2_pos(149);
        assert(wanted == (whole * unit + rest) * one);
        assert(wanted == (whole * unit) * one + rest * one) by (nonlinear_arith)
            requires
                wanted == (whole * unit + rest) * one,
        ;
        assert((whole * unit + unit) * one == (whole * unit) * one + unit * one) by (nonlinear_arith);
        assert(rest * one < unit * one) by (nonlinear_arith)
            requires
                rest < unit,
                one > 0,
        ;
        assert(rest * one - (unit - rest) * one == (2 * rest - unit) * one) by (nonlinear_arith);
        assert((unit - rest) * one == unit * one - rest * one) by (nonlinear_arith);
        assert(((2 * rest - unit) * one > 0 <==> 2 * rest > unit) && ((2 * rest - unit) * one == 0
            <==> 2 * rest == unit)) by (nonlinear_arith)
            requires
                one > 0,
        ;
        assert(single().is_number(below as nat + 1));
    }
    let bits: u32 = if rest > unit - rest || (rest == unit - rest && below % 2 == 1) {
        below + 1
    } else {
        below
    };
    proof {
        nearest_of_two(
            single(),
            (single().infinite() - 1) as nat,
            below as nat,
            parts as nat,
            0x800_0000,
            bits as nat,
        );
        nearest_is_up_to_largest(single(), bits as nat, parts as nat, 0x800_0000);
        nearest_number_is_one(
            single(),
            bits as nat,
            single_near(parts as nat, PARTS as nat) as nat,
            parts as nat,
            0x800_0000,
        );
    }
    bits
}

/// A number with so many parts more, as the nearest number to it, within bounds.
pub fn add_within(bits: u32, delta: i64, low: u32, high: u32) -> (sum: u32)
    requires
        is_medium(bits),
        is_medium(low),
        is_medium(high),
        low <= high,
    ensures
        sum == sum_within(bits, delta as int, low, high),
        low <= sum <= high,
{
    let parts: i128 = count_parts(bits) as i128 + delta as i128;
    let least: u64 = count_parts(low);
    let most: u64 = count_parts(high);
    if parts <= least as i128 {
        low
    } else if parts >= most as i128 {
        high
    } else {
        let sum: u32 = single_of_parts(parts as u64);
        proof {
            nearest_is_within(sum, parts as nat, low, high);
        }
        sum
    }
}

/// What is nearest to a number between two others is no further than these.
proof fn nearest_is_within(bits: u32, parts: nat, low: u32, high: u32)
    requires
        single().is_nearest(bits as nat, parts, PARTS as nat),
        is_medium(low),
        is_medium(high),
        parts_of(low) < parts < parts_of(high),
    ensures
        low <= bits <= high,
{
    let one = single().one();
    lemma_pow2_adds(27, 122);
    lemma2_to64();
    lemma_pow2_pos(122);
    parts_make_up(low);
    parts_make_up(high);
    medium_is_made_of(low);
    medium_is_made_of(high);
    let least = parts_of(low);
    let most = parts_of(high);
    let unit = pow2(122);
    assert((least * unit) * 0x800_0000 < parts * one) by (nonlinear_arith)
        requires
            least < parts,
            one == 0x800_0000 * unit,
            unit > 0,
    ;
    assert((most * unit) * 0x800_0000 > parts * one) by (nonlinear_arith)
        requires
            most > parts,
            one == 0x800_0000 * unit,
            unit > 0,
    ;
    if bits < low {
        numbers_are_ordered_as_their_bits(single(), bits as nat, low as nat);
        assert(single().distance(low as nat, parts, 0x800_0000) >= single().distance(
            bits as nat,
            parts,
            0x800_0000,
        ));
    } else if bits > high {
        numbers_are_ordered_as_their_bits(single(), high as nat, bits as nat);
        assert(single().distance(high as nat, parts, 0x800_0000) >= single().distance(
            bits as nat,
            parts,
            0x800_0000,
        ));
    }
}

/// A number of thousandths with three places.
pub open spec fn thousandths(n: nat) -> Seq<char> {
    text::decimal(n / 1000) + seq![
        '.',
        text::digit(n / 100 % 10),
        text::digit(n / 10 % 10),
        text::digit(n % 10),
    ]
}

/// A number of hundredths with two places.
pub open spec fn hundredths(n: nat) -> Seq<char> {
    text::decimal(n / 100) + seq!['.', text::digit(n / 10 % 10), text::digit(n % 10)]
}

fn push_digit(out: &mut String, n: u64)
    requires
        n < 10,
    ensures
        final(out)@ == old(out)@.push(text::digit(n as nat)),
{
    out.push((48u8 + n as u8) as char);
}

/// Appends a number of thousandths with three places.
pub fn push_thousandths(out: &mut String, n: u64)
    ensures
        final(out)@ == old(out)@ + thousandths(n as nat),
{
    let ghost before = out@;
    text::push_decimal(out, n / 1000);
    out.push('.');
    push_digit(out, n / 100 % 10);
    push_digit(out, n / 10 % 10);
    push_digit(out, n % 10);
    assert(out@ =~= before + thousandths(n as nat));
}

/// Appends a number of hundredths with two places.
pub fn push_hundredths(out: &mut String, n: u64)
    ensures
        final(out)@ == old(out)@ + hundredths(n as nat),
{
    let ghost before = out@;
    text::push_decimal(out, n / 100);
    out.push('.');
    push_digit(out, n / 10 % 10);
    push_digit(out, n % 10);
    assert(out@ =~= before + hundredths(n as nat));
}

/// The number that decimal digits write, the last digit first.
spec fn digits_number(digits: Seq<u8>) -> nat
    decreases digits.len(),
{
    if digits.len() == 0 {
        0
    } else {
        digits[0] as nat + 10 * digits_number(digits.skip(1))
    }
}

/// Ten to a power.
pub open spec fn ten(n: nat) -> nat
    decreases n,
{
    if n == 0 {
        1
    } else {
        10 * ten((n - 1) as nat)
    }
}

/// Whether these are digits, with none that is zero before the others.
spec fn are_digits(digits: Seq<u8>) -> bool {
    &&& digits.len() > 0
    &&& digits.last() > 0
    &&& forall|i: int| 0 <= i < digits.len() ==> (#[trigger] digits[i]) < 10
}

proof fn digit_is_put_before(digits: Seq<u8>, digit: u8)
    ensures
        digits_number(digits.push(digit)) == digits_number(digits) + digit * ten(digits.len()),
    decreases digits.len(),
{
    let more = digits.push(digit);
    if digits.len() == 0 {
        assert(more.skip(1) =~= Seq::empty());
        assert(digits_number(more.skip(1)) == 0);
        assert(ten(0) == 1);
        assert(digit * 1 == digit);
    } else {
        assert(more[0] == digits[0]);
        assert(more.skip(1) =~= digits.skip(1).push(digit));
        digit_is_put_before(digits.skip(1), digit);
        let t = ten((digits.len() - 1) as nat);
        assert(10 * (digit * t) == digit * (10 * t)) by (nonlinear_arith);
    }
}

proof fn digits_write_something(digits: Seq<u8>)
    requires
        are_digits(digits),
    ensures
        digits_number(digits) > 0,
    decreases digits.len(),
{
    if digits.len() > 1 {
        assert(digits.skip(1).last() == digits.last());
        digits_write_something(digits.skip(1));
    }
}

proof fn digits_are_the_decimal(digits: Seq<u8>)
    requires
        are_digits(digits),
    ensures
        text::decimal(digits_number(digits)) == Seq::new(
            digits.len(),
            |i: int| text::digit(digits[digits.len() - 1 - i] as nat),
        ),
    decreases digits.len(),
{
    let rest = digits.skip(1);
    let chars = Seq::new(digits.len(), |i: int| text::digit(digits[digits.len() - 1 - i] as nat));
    if digits.len() == 1 {
        assert(digits_number(rest) == 0);
        assert(text::decimal(digits_number(digits)) =~= chars);
    } else {
        assert(rest.last() == digits.last());
        digits_are_the_decimal(rest);
        digits_write_something(rest);
        assert(text::decimal(digits_number(digits)) =~= chars);
    }
}

/// The digits of a number, the last one first.
fn digits_of(n: u64) -> (digits: Vec<u8>)
    requires
        n > 0,
    ensures
        are_digits(digits@),
        digits_number(digits@) == n,
{
    let mut digits: Vec<u8> = Vec::new();
    let mut left: u64 = n;
    assert(left * ten(0) == n) by (nonlinear_arith)
        requires
            ten(0) == 1,
            left == n,
    ;
    while left > 0
        invariant
            digits_number(digits@) + left * ten(digits@.len()) == n,
            forall|i: int| 0 <= i < digits@.len() ==> (#[trigger] digits@[i]) < 10,
            left == 0 ==> digits@.len() > 0 && digits@.last() > 0,
            n > 0,
        decreases left,
    {
        let ghost before = digits@;
        let digit: u8 = (left % 10) as u8;
        digits.push(digit);
        proof {
            digit_is_put_before(before, digit);
            let t = ten(before.len());
            let rest = left / 10;
            assert(left * t == digit * t + rest * (10 * t)) by (nonlinear_arith)
                requires
                    left == 10 * rest + digit,
            ;
        }
        left = left / 10;
    }
    digits
}

/// The digits of twice a number.
fn doubled(digits: &Vec<u8>) -> (twice: Vec<u8>)
    requires
        are_digits(digits@),
    ensures
        are_digits(twice@),
        digits_number(twice@) == 2 * digits_number(digits@),
{
    let mut twice: Vec<u8> = Vec::new();
    let mut carry: u8 = 0;
    let mut i: usize = 0;
    assert(digits@.take(0) =~= Seq::empty());
    while i < digits.len()
        invariant
            are_digits(digits@),
            i <= digits@.len(),
            twice@.len() == i,
            carry <= 1,
            forall|j: int| 0 <= j < i ==> (#[trigger] twice@[j]) < 10,
            digits_number(twice@) + carry * ten(i as nat) == 2 * digits_number(digits@.take(i as int)),
            i > 0 && carry == 0 ==> twice@[i - 1] >= digits@[i - 1],
        decreases digits@.len() - i,
    {
        let ghost before = twice@;
        let sum: u8 = 2 * digits[i] + carry;
        let digit: u8 = sum % 10;
        twice.push(digit);
        proof {
            assert(digits@.take(i + 1) =~= digits@.take(i as int).push(digits@[i as int]));
            digit_is_put_before(digits@.take(i as int), digits@[i as int]);
            digit_is_put_before(before, digit);
            let t = ten(i as nat);
            let d = digits@[i as int];
            let more = sum / 10;
            assert(digit * t + more * (10 * t) == 2 * (d * t) + carry * t) by (nonlinear_arith)
                requires
                    10 * more + digit == 2 * d + carry,
            ;
        }
        carry = sum / 10;
        i += 1;
    }
    assert(digits@.take(i as int) =~= digits@);
    if carry > 0 {
        proof {
            digit_is_put_before(twice@, 1);
        }
        twice.push(1);
    }
    twice
}

/// The digits of a number times two to the power of `exponent`.
fn times_power_of_two(digits: Vec<u8>, exponent: u64) -> (product: Vec<u8>)
    requires
        are_digits(digits@),
    ensures
        are_digits(product@),
        digits_number(product@) == digits_number(digits@) * pow2(exponent as nat),
{
    let ghost n = digits_number(digits@);
    let mut product = digits;
    let mut i: u64 = 0;
    proof {
        lemma2_to64();
    }
    while i < exponent
        invariant
            i <= exponent,
            are_digits(product@),
            digits_number(product@) == n * pow2(i as nat),
        decreases exponent - i,
    {
        product = doubled(&product);
        proof {
            lemma_pow2_unfold((i + 1) as nat);
            assert(2 * (n * pow2(i as nat)) == n * (2 * pow2(i as nat))) by (nonlinear_arith);
        }
        i += 1;
    }
    product
}

/// Appends the decimal digits of `n` times two to the power of `exponent`.
fn push_large(out: &mut String, n: u64, exponent: u64)
    requires
        n > 0,
    ensures
        final(out)@ == old(out)@ + text::decimal(n as nat * pow2(exponent as nat)),
{
    let digits = times_power_of_two(digits_of(n), exponent);
    proof {
        digits_are_the_decimal(digits@);
    }
    let ghost before = out@;
    let ghost chars = text::decimal(digits_number(digits@));
    let mut left: usize = digits.len();
    while left > 0
        invariant
            left <= digits@.len(),
            are_digits(digits@),
            chars == Seq::new(
                digits@.len(),
                |i: int| text::digit(digits@[digits@.len() - 1 - i] as nat),
            ),
            out@ == before + chars.take(digits@.len() - left),
        decreases left,
    {
        left = left - 1;
        push_digit(out, digits[left] as u64);
        assert(out@ =~= before + chars.take(digits@.len() - left));
    }
    assert(chars.take(digits@.len() as int) =~= chars);
}

/// A number of 64 bits, rounded to thousandths.
pub open spec fn double_thousandths(bits: u64) -> nat {
    rounded(double().places(bits as nat) * 1000, double().one())
}

/// A number of 32 bits, rounded to hundredths.
pub open spec fn single_hundredths(bits: u32) -> nat {
    rounded(single().places(bits as nat) * 100, single().one())
}

/// A number of 32 bits, rounded to a whole number.
pub open spec fn single_whole(bits: u32) -> nat {
    rounded(single().places(bits as nat) * 1, single().one())
}

/// Whether bits stand for a number that is finite and above zero.
pub open spec fn is_positive(bits: u64) -> bool {
    0 < bits < 0x7ff0_0000_0000_0000
}

/// Appends a number above zero, rounded to three places.
pub fn push_double(out: &mut String, bits: u64)
    requires
        is_positive(bits),
    ensures
        final(out)@ == old(out)@ + thousandths(double_thousandths(bits)),
{
    let code: u64 = bits / 0x10_0000_0000_0000;
    let fraction: u64 = bits % 0x10_0000_0000_0000;
    let significand: u64 = if code == 0 {
        fraction
    } else {
        0x10_0000_0000_0000 + fraction
    };
    let power: u64 = if code == 0 {
        0
    } else {
        code - 1
    };
    let ghost k = pow2(power as nat);
    proof {
        lemma2_to64();
        lemma2_to64_rest();
        lemma_pow2_pos(power as nat);
        lemma_pow2_pos(1074);
        assert(pow2(52) == 0x10_0000_0000_0000);
        assert(bits as nat / pow2(52) == code && bits as nat % pow2(52) == fraction);
        assert(double().places(bits as nat) == significand * k);
        assert((significand * k) * 1000 == (significand * 1000) * k) by (nonlinear_arith);
    }
    if power <= 1074 {
        let exponent: u64 = 1074 - power;
        proof {
            lemma_pow2_pos(exponent as nat);
            lemma_pow2_adds(exponent as nat, power as nat);
            factor_goes((significand * 1000) as nat, pow2(exponent as nat), k);
        }
        let n: u64 = whole_near(significand * 1000, exponent);
        push_thousandths(out, n);
    } else {
        let exponent: u64 = power - 1074;
        let ghost whole = significand as nat * pow2(exponent as nat);
        proof {
            lemma_pow2_adds(exponent as nat, 1074);
            assert((significand * 1000) * (pow2(exponent as nat) * pow2(1074)) == (whole * 1000)
                * pow2(1074)) by (nonlinear_arith)
                requires
                    whole == significand as nat * pow2(exponent as nat),
            ;
            whole_numbers_stay(whole * 1000, pow2(1074));
            assert(double_thousandths(bits) == whole * 1000);
            splits(whole * 1000, 1000, whole, 0);
        }
        let ghost before = out@;
        push_large(out, significand, exponent);
        push_no_thousandths(out);
        assert(out@ =~= before + thousandths(whole * 1000));
    }
}

/// Appends three places that are zero.
fn push_no_thousandths(out: &mut String)
    ensures
        final(out)@ == old(out)@ + seq!['.', '0', '0', '0'],
{
    let ghost before = out@;
    out.push('.');
    out.push('0');
    out.push('0');
    out.push('0');
    assert(out@ =~= before + seq!['.', '0', '0', '0']);
}

/// Appends a number from a quarter to thirty-two, rounded to two places.
pub fn push_single(out: &mut String, bits: u32)
    requires
        is_medium(bits),
    ensures
        final(out)@ == old(out)@ + hundredths(single_hundredths(bits)),
{
    push_hundredths(out, single_rounded(bits, 100));
}

} // verus!
