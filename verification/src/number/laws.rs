//! What holds of all numbers that are rounded, written and added.
use vstd::prelude::*;

use crate::number;
use crate::number::reading;
use crate::text;

verus! {

/// A rounded number is no further than a half from what it was rounded from, and even where it is just
/// as far.
pub proof fn rounding_is_to_the_nearest(n: nat, d: nat)
    requires
        d > 0,
    ensures
        ({
            let twice = 2 * (number::rounded(n, d) * d);
            &&& 2 * n - d <= twice <= 2 * n + d
            &&& twice == 2 * n - d || twice == 2 * n + d ==> number::rounded(n, d) % 2 == 0
        }),
{
    let whole = n / d;
    let rest = n % d;
    vstd::arithmetic::div_mod::lemma_fundamental_div_mod(n as int, d as int);
    assert(n == d * whole + rest);
    assert(rest < d) by {
        vstd::arithmetic::div_mod::lemma_mod_bound(n as int, d as int);
    }
    assert((whole + 1) * d == d * whole + d) by (nonlinear_arith);
    assert(whole * d == d * whole) by (nonlinear_arith);
}

/// Two numbers are close where they are less than the step that follows one apart, which is one by two
/// to the 23rd: sixteen of the parts, of which one has two to the 27th.
pub proof fn close_numbers_are_a_step_apart(a: u32, b: u32)
    ensures
        number::PARTS == 134_217_728,
        number::is_close(a, b) == ((number::parts_of(a) - number::parts_of(b)) * 8_388_608
            < number::PARTS && (number::parts_of(b) - number::parts_of(a)) * 8_388_608
            < number::PARTS),
        number::is_close(a, a),
        number::is_close(a, b) == number::is_close(b, a),
{
}

/// A number with a part more or less, within bounds, is the bound where it would be beyond it, and
/// otherwise the number of 32 bits that no other is nearer to.
pub proof fn sums_stay_within_bounds(bits: u32, delta: int, low: u32, high: u32)
    requires
        number::parts_of(low) < number::parts_of(high),
    ensures
        number::parts_of(bits) + delta <= number::parts_of(low) ==> number::sum_within(
            bits,
            delta,
            low,
            high,
        ) == low,
        number::parts_of(bits) + delta >= number::parts_of(high) ==> number::sum_within(
            bits,
            delta,
            low,
            high,
        ) == high,
        number::parts_of(low) < number::parts_of(bits) + delta < number::parts_of(high)
            ==> forall|near: u32| #[trigger]
            number::single().is_nearest(
                near as nat,
                (number::parts_of(bits) + delta) as nat,
                134_217_728,
            ) ==> number::single().is_nearest(
                number::sum_within(bits, delta, low, high) as nat,
                (number::parts_of(bits) + delta) as nat,
                134_217_728,
            ),
{
}

/// What a text writes, without the point before its last places.
pub open spec fn without_point(chars: Seq<char>, places: int) -> Seq<char> {
    chars.take(chars.len() - places - 1) + chars.skip(chars.len() - places)
}

proof fn value_of_decimal(n: nat)
    ensures
        reading::digits_value(text::decimal(n)) == n,
        text::decimal(n).len() > 0,
        n > 0 ==> text::decimal(n)[0] != '0',
    decreases n,
{
    if n >= 10 {
        value_of_decimal(n / 10);
        assert(text::decimal(n).drop_last() =~= text::decimal(n / 10));
    } else {
        assert(text::decimal(n).drop_last() =~= Seq::empty());
        assert(reading::digits_value(text::decimal(n).drop_last()) == 0);
    }
}

proof fn digit_is_appended(chars: Seq<char>, n: nat)
    requires
        n < 10,
    ensures
        reading::digits_value(chars.push(text::digit(n))) == 10 * reading::digits_value(chars) + n,
{
    assert(chars.push(text::digit(n)).drop_last() =~= chars);
}

/// A number of thousandths is written with a point before its last three digits, and one of hundredths
/// with a point before its last two. Without the point the digits write the number, and there is no
/// zero before the others but one before the point.
pub proof fn places_stand_behind_the_point(n: nat)
    ensures
        ({
            let three = number::thousandths(n);
            let two = number::hundredths(n);
            &&& three.len() >= 5 && three[three.len() - 4] == '.'
            &&& reading::digits_value(without_point(three, 3)) == n
            &&& three[0] == '0' ==> three.len() == 5
            &&& two.len() >= 4 && two[two.len() - 3] == '.'
            &&& reading::digits_value(without_point(two, 2)) == n
            &&& two[0] == '0' ==> two.len() == 4
        }),
{
    let three = number::thousandths(n);
    let two = number::hundredths(n);
    let thousands = text::decimal(n / 1000);
    let hundreds = text::decimal(n / 100);
    value_of_decimal(n / 1000);
    value_of_decimal(n / 100);
    let a = thousands.push(text::digit(n / 100 % 10));
    let b = a.push(text::digit(n / 10 % 10));
    let c = b.push(text::digit(n % 10));
    digit_is_appended(thousands, n / 100 % 10);
    digit_is_appended(a, n / 10 % 10);
    digit_is_appended(b, n % 10);
    assert(without_point(three, 3) =~= c);
    let d = hundreds.push(text::digit(n / 10 % 10));
    let e = d.push(text::digit(n % 10));
    digit_is_appended(hundreds, n / 10 % 10);
    digit_is_appended(d, n % 10);
    assert(without_point(two, 2) =~= e);
}

/// What is shown of a number of 32 bits and kept of one of 64 bits is the nearest whole number of
/// hundredths, of ones or of thousandths.
pub proof fn shown_numbers_are_nearest(single: u32, double: u64)
    ensures
        ({
            let one = number::single().one();
            let places = number::single().places(single as nat);
            let many = number::double().one();
            let more = number::double().places(double as nat);
            &&& 2 * (places * 100) - one <= 2 * (number::single_hundredths(single) * one) <= 2 * (places
                * 100) + one
            &&& 2 * places - one <= 2 * (number::single_whole(single) * one) <= 2 * places + one
            &&& 2 * (more * 1000) - many <= 2 * (number::double_thousandths(double) * many) <= 2 * (
            more * 1000) + many
        }),
{
    vstd::arithmetic::power2::lemma_pow2_pos(149);
    vstd::arithmetic::power2::lemma_pow2_pos(1074);
    rounding_is_to_the_nearest(
        number::single().places(single as nat) * 100,
        number::single().one(),
    );
    rounding_is_to_the_nearest(number::single().places(single as nat) * 1, number::single().one());
    rounding_is_to_the_nearest(
        number::double().places(double as nat) * 1000,
        number::double().one(),
    );
}

/// Bits stand for a finite number above zero where the sign is not set, not all bits are zero and the
/// code is not the last one.
pub proof fn positive_numbers_have_a_code(bits: u64)
    ensures
        number::is_positive(bits) == (bits != 0 && bits < 0x8000_0000_0000_0000 && bits
            / 0x10_0000_0000_0000 != 2047),
        number::is_medium(0x3e80_0000) && number::is_medium(0x4200_0000),
        !number::is_medium(0x3e7f_ffff) && !number::is_medium(0x4200_0001),
{
}

/// A decimal is read with its sign, its digits and the places behind its point, and a power of ten after
/// it counts them up or down.
pub proof fn decimals_are_read(whole: Seq<char>, places: Seq<char>)
    requires
        reading::are_decimal_digits(whole),
        reading::are_decimal_digits(places),
    ensures
        ({
            let plain = reading::decimal_of(whole);
            let pointed = reading::decimal_of(whole + seq!['.'] + places);
            let negative = reading::decimal_of(seq!['-'] + whole);
            let positive = reading::decimal_of(seq!['+'] + whole);
            let value = reading::digits_value(whole);
            &&& plain == Some(reading::Decimal { negative: false, digits: value, exponent: 0 })
            &&& positive == plain
            &&& negative == Some(reading::Decimal { negative: true, digits: value, exponent: 0 })
            &&& pointed == Some(
                reading::Decimal {
                    negative: false,
                    digits: reading::digits_value(whole + places),
                    exponent: -(places.len() as int),
                },
            )
        }),
{
    let nothing = Seq::<char>::empty();
    assert(whole + nothing =~= whole);
    assert(reading::is_digit(whole[0]));
    digits_hold_no_letter(whole);
    assert((seq!['-'] + whole).skip(1) =~= whole);
    assert((seq!['+'] + whole).skip(1) =~= whole);
    let all = whole + seq!['.'] + places;
    assert forall|i: int| 0 <= i < all.len() implies all[i] != 'e' && all[i] != 'E' by {
        if i < whole.len() {
            assert(reading::is_digit(whole[i]));
        } else if i > whole.len() {
            assert(reading::is_digit(places[i - whole.len() - 1]));
        }
    }
    text::stays_whole(all, 'e', 'E');
    assert forall|i: int| 0 <= i < whole.len() implies all[i] != '.' by {
        assert(reading::is_digit(whole[i]));
    }
    text::splits_at_first(all, '.', '.', whole.len() as int);
    assert(all.take(whole.len() as int) =~= whole);
    assert(all.skip(whole.len() as int + 1) =~= places);
    assert forall|i: int| 0 <= i < (whole + places).len() implies reading::is_digit(
        #[trigger] (whole + places)[i],
    ) by {
        if i < whole.len() {
            assert(reading::is_digit(whole[i]));
        } else {
            assert(reading::is_digit(places[i - whole.len()]));
        }
    }
}

proof fn digits_hold_no_letter(whole: Seq<char>)
    requires
        reading::are_decimal_digits(whole),
    ensures
        text::around(whole, 'e', 'E') is None,
        text::around(whole, '.', '.') is None,
{
    assert forall|i: int| 0 <= i < whole.len() implies whole[i] != 'e' && whole[i] != 'E' && whole[i]
        != '.' by {
        assert(reading::is_digit(whole[i]));
    }
    text::stays_whole(whole, 'e', 'E');
    text::stays_whole(whole, '.', '.');
}

/// A power of ten after an `e` of either case is added to the places of the decimal before it.
pub proof fn powers_of_ten_are_read(mantissa: Seq<char>, exponent: Seq<char>, e: char)
    requires
        reading::are_decimal_digits(mantissa),
        reading::are_decimal_digits(exponent),
        e == 'e' || e == 'E',
    ensures
        ({
            let value = reading::digits_value(mantissa);
            let power = reading::digits_value(exponent) as int;
            &&& reading::decimal_of(mantissa.push(e) + exponent) == Some(
                reading::Decimal { negative: false, digits: value, exponent: power },
            )
            &&& reading::decimal_of(mantissa.push(e).push('-') + exponent) == Some(
                reading::Decimal { negative: false, digits: value, exponent: -power },
            )
            &&& reading::decimal_of(mantissa.push(e).push('+') + exponent) == Some(
                reading::Decimal { negative: false, digits: value, exponent: power },
            )
        }),
{
    let nothing = Seq::<char>::empty();
    assert(mantissa + nothing =~= mantissa);
    assert(reading::is_digit(mantissa[0]));
    assert(reading::is_digit(exponent[0]));
    digits_hold_no_letter(mantissa);
    let one = mantissa.push(e) + exponent;
    let two = mantissa.push(e).push('-') + exponent;
    let three = mantissa.push(e).push('+') + exponent;
    let len = mantissa.len() as int;
    assert forall|i: int| 0 <= i < len implies one[i] != 'e' && one[i] != 'E' && two[i] != 'e'
        && two[i] != 'E' && three[i] != 'e' && three[i] != 'E' by {
        assert(reading::is_digit(mantissa[i]));
    }
    text::splits_at_first(one, 'e', 'E', len);
    text::splits_at_first(two, 'e', 'E', len);
    text::splits_at_first(three, 'e', 'E', len);
    assert(one.take(len) =~= mantissa && one.skip(len + 1) =~= exponent);
    assert(two.take(len) =~= mantissa && two.skip(len + 1) =~= seq!['-'] + exponent);
    assert(three.take(len) =~= mantissa && three.skip(len + 1) =~= seq!['+'] + exponent);
    assert((seq!['-'] + exponent).skip(1) =~= exponent);
    assert((seq!['+'] + exponent).skip(1) =~= exponent);
}

/// Ten to a power has that many tens as factors, and a decimal is its digits times that power, above or
/// below the line.
pub proof fn powers_have_tens_as_factors(n: nat, decimal: reading::Decimal)
    ensures
        number::ten(0) == 1,
        number::ten(n + 1) == 10 * number::ten(n),
        decimal.exponent >= 0 ==> decimal.above() == decimal.digits * number::ten(
            decimal.exponent as nat,
        ) && decimal.below() == 1,
        decimal.exponent < 0 ==> decimal.above() == decimal.digits && decimal.below() == number::ten(
            (-decimal.exponent) as nat,
        ),
{
}

/// The bits of the infinite numbers come behind those of all numbers.
pub proof fn infinite_bits_come_last(bits: nat)
    ensures
        number::single().infinite() == 0x7f80_0000,
        number::double().infinite() == 0x7ff0_0000_0000_0000,
        number::single().is_number(bits) == (bits < 0x7f80_0000),
        number::double().is_number(bits) == (bits < 0x7ff0_0000_0000_0000),
{
    vstd::arithmetic::power2::lemma2_to64();
    assert(vstd::arithmetic::power2::pow2(52) == 0x10_0000_0000_0000) by {
        vstd::arithmetic::power2::lemma2_to64_rest();
    }
    assert(vstd::arithmetic::power2::pow2(23) == 0x80_0000);
}

} // verus!
