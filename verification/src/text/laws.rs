//! What holds of all numbers, pieces and words of a text.
use vstd::prelude::*;
use vstd::utf8::*;

use crate::text;

verus! {

/// The decimal digits of a number are digits, one at least, and the first is no zero unless the number
/// is.
pub proof fn decimal_is_digits(n: nat)
    ensures
        text::decimal(n).len() > 0,
        forall|i: int|
            0 <= i < text::decimal(n).len() ==> '0' <= #[trigger] text::decimal(n)[i] <= '9',
        n > 0 ==> text::decimal(n)[0] != '0',
    decreases n,
{
    if n >= 10 {
        decimal_is_digits(n / 10);
    }
}

/// The decimal digits of a number are characters of ASCII.
pub proof fn decimal_is_ascii(n: nat)
    ensures
        is_ascii_chars(text::decimal(n)),
{
    decimal_is_digits(n);
}

proof fn value_of_decimal(n: nat, bytes: Seq<u8>)
    requires
        bytes.len() == text::decimal(n).len(),
        forall|i: int| 0 <= i < bytes.len() ==> #[trigger] bytes[i] == text::decimal(n)[i] as u8,
    ensures
        text::digits_value(bytes) == n,
    decreases n,
{
    decimal_is_digits(n);
    if n >= 10 {
        decimal_is_digits(n / 10);
        value_of_decimal(n / 10, bytes.drop_last());
    } else {
        assert(text::digits_value(bytes.drop_last()) == 0);
    }
}

/// The decimal digits of a number are read as that number: they are all digits, without a zero before
/// the others, and no other number is read from them.
pub proof fn decimal_is_read_back(n: nat, max: int)
    ensures
        text::is_number(encode_utf8(text::decimal(n))),
        text::digits_value(encode_utf8(text::decimal(n))) == n,
        n > 0 ==> encode_utf8(text::decimal(n))[0] != 0x30,
        n <= max ==> text::parsed_unsigned(encode_utf8(text::decimal(n)), max) == Some(n as int),
        n > max ==> text::parsed_unsigned(encode_utf8(text::decimal(n)), max) is None,
        forall|i: int|
            0 <= i < encode_utf8(text::decimal(n)).len() ==> 0x30 <= #[trigger] encode_utf8(
                text::decimal(n),
            )[i] <= 0x39,
{
    decimal_is_digits(n);
    assert(is_ascii_chars(text::decimal(n)));
    is_ascii_chars_encode_utf8(text::decimal(n));
    let bytes = encode_utf8(text::decimal(n));
    assert forall|i: int| 0 <= i < bytes.len() implies 0x30 <= #[trigger] bytes[i] <= 0x39 by {
        assert(text::decimal(n)[i] as u8 == bytes[i]);
    }
    assert forall|i: int| 0 <= i < bytes.len() implies #[trigger] bytes[i] == text::decimal(
        n,
    )[i] as u8 by {
        assert(text::decimal(n)[i] as u8 == bytes[i]);
    }
    value_of_decimal(n, bytes);
}

/// A number with its sign is read back where it is in range, and a number with a plus sign is read as
/// without.
pub proof fn signed_decimal_is_read_back(n: int, max: int)
    requires
        max >= 0,
    ensures
        -max - 1 <= n <= max ==> text::parsed_signed(
            encode_utf8(text::signed_decimal(n)),
            max,
        ) == Some(n),
        n < -max - 1 || n > max ==> text::parsed_signed(
            encode_utf8(text::signed_decimal(n)),
            max,
        ) is None,
        0 <= n <= max ==> text::parsed_unsigned(
            seq![0x2bu8] + encode_utf8(text::decimal(n as nat)),
            max,
        ) == Some(n),
        0 <= n <= max ==> text::parsed_signed(
            seq![0x2bu8] + encode_utf8(text::decimal(n as nat)),
            max,
        ) == Some(n),
{
    let size = if n < 0 {
        (-n) as nat
    } else {
        n as nat
    };
    decimal_is_read_back(size, max);
    let digits = encode_utf8(text::decimal(size));
    assert((seq![0x2bu8] + digits).skip(1) =~= digits);
    if n < 0 {
        let written = text::signed_decimal(n);
        assert(written.drop_first() =~= text::decimal(size));
        assert(encode_utf8(written) =~= seq![0x2du8] + digits) by {
            assert(encode_scalar('-' as u32) =~= seq![0x2du8]) by {
                let dash = seq!['-'];
                assert(is_ascii_chars(dash));
                is_ascii_chars_encode_utf8(dash);
                assert(dash.drop_first() =~= Seq::empty());
                assert(encode_utf8(dash) =~= encode_scalar(dash[0] as u32));
            }
        }
        assert((seq![0x2du8] + digits).skip(1) =~= digits);
    }
}

/// Nothing else than digits is read as a number, apart from one sign before them.
pub proof fn only_digits_are_numbers(bytes: Seq<u8>, at: int, max: int)
    requires
        0 <= at < bytes.len(),
        bytes[at] < 0x30 || bytes[at] > 0x39,
        at > 0 || bytes.len() == 1 || (bytes[0] != 0x2b && bytes[0] != 0x2d),
    ensures
        text::parsed_unsigned(bytes, max) is None,
        text::parsed_signed(bytes, max) is None,
{
    if at > 0 {
        assert(bytes.skip(1)[at - 1] == bytes[at]);
    }
    assert(!text::is_digit(bytes[at]));
}

/// What joins pieces with a separator between them.
pub open spec fn joined(pieces: Seq<Seq<u8>>, separator: u8) -> Seq<u8>
    decreases pieces.len(),
{
    if pieces.len() == 0 {
        Seq::empty()
    } else if pieces.len() == 1 {
        pieces[0]
    } else {
        joined(pieces.drop_last(), separator).push(separator) + pieces.last()
    }
}

/// The pieces of a text hold no separator, and joined with separators they are the text.
pub proof fn pieces_join_to_the_text(bytes: Seq<u8>, separator: u8)
    ensures
        text::pieces(bytes, separator).len() > 0,
        joined(text::pieces(bytes, separator), separator) == bytes,
        forall|i: int, j: int|
            0 <= i < text::pieces(bytes, separator).len() && 0 <= j < text::pieces(
                bytes,
                separator,
            )[i].len() ==> #[trigger] text::pieces(bytes, separator)[i][j] != separator,
    decreases bytes.len(),
{
    let all = text::pieces(bytes, separator);
    if bytes.len() == 0 {
        assert(joined(all, separator) =~= bytes);
    } else {
        let before = text::pieces(bytes.drop_last(), separator);
        pieces_join_to_the_text(bytes.drop_last(), separator);
        if bytes.last() == separator {
            assert(all.drop_last() =~= before);
            assert(joined(all, separator) =~= bytes);
        } else {
            assert(all.drop_last() =~= before.drop_last());
            assert(bytes.drop_last().push(bytes.last()) =~= bytes);
            assert(all.last() == before.last().push(bytes.last()));
            if before.len() == 1 {
                assert(joined(before, separator) == before[0]);
                assert(joined(all, separator) =~= bytes);
            } else {
                let start = joined(before.drop_last(), separator).push(separator);
                assert(joined(before, separator) == start + before.last());
                assert(start + all.last() =~= (start + before.last()).push(bytes.last()));
                assert(joined(all, separator) =~= bytes);
            }
        }
        assert forall|i: int, j: int| 0 <= i < all.len() && 0 <= j < all[i].len() implies
            #[trigger] all[i][j] != separator by {
            if i < before.len() && j < before[i].len() {
                assert(before[i][j] != separator);
            }
        }
    }
}

/// Whether white space of ASCII separates words at a byte: a blank, a tab or the end of a line or page.
pub open spec fn separates(byte: u8) -> bool {
    seq![0x09u8, 0x0a, 0x0c, 0x0d, 0x20].contains(byte)
}

proof fn separators_are_ascii_space(byte: u8)
    ensures
        separates(byte) == text::is_ascii_space(byte),
{
    let all = seq![0x09u8, 0x0a, 0x0c, 0x0d, 0x20];
    assert(all[0] == 0x09 && all[1] == 0x0a && all[2] == 0x0c && all[3] == 0x0d && all[4] == 0x20);
}

/// A byte that separates words adds none.
pub proof fn space_adds_no_word(bytes: Seq<u8>, space: u8)
    requires
        separates(space),
    ensures
        text::words(bytes.push(space)) == text::words(bytes),
{
    separators_are_ascii_space(space);
    assert(bytes.push(space).drop_last() =~= bytes);
}

/// After nothing or after a byte that separates words, a run of other bytes is one more word.
pub proof fn run_is_a_word(before: Seq<u8>, run: Seq<u8>)
    requires
        before.len() == 0 || separates(before.last()),
        run.len() > 0,
        forall|i: int| 0 <= i < run.len() ==> !separates(#[trigger] run[i]),
    ensures
        text::words(before + run) == text::words(before).push(run),
    decreases run.len(),
{
    let all = before + run;
    separators_are_ascii_space(run.last());
    assert(!separates(run[run.len() - 1]));
    assert(all.drop_last() =~= before + run.drop_last());
    if run.len() == 1 {
        assert(before + run.drop_last() =~= before);
        if before.len() > 0 {
            separators_are_ascii_space(before.last());
        }
        assert(seq![run.last()] =~= run);
    } else {
        assert(!separates(run[run.len() - 2]));
        separators_are_ascii_space(run[run.len() - 2]);
        run_is_a_word(before, run.drop_last());
        assert(text::words(before).push(run.drop_last()).drop_last() =~= text::words(before));
        assert(run.drop_last().push(run.last()) =~= run);
    }
}

/// The white space of Unicode.
pub open spec fn unicode_space() -> Seq<char> {
    seq![
        '\u{9}',
        '\u{a}',
        '\u{b}',
        '\u{c}',
        '\u{d}',
        '\u{20}',
        '\u{85}',
        '\u{a0}',
        '\u{1680}',
        '\u{2000}',
        '\u{2001}',
        '\u{2002}',
        '\u{2003}',
        '\u{2004}',
        '\u{2005}',
        '\u{2006}',
        '\u{2007}',
        '\u{2008}',
        '\u{2009}',
        '\u{200a}',
        '\u{2028}',
        '\u{2029}',
        '\u{202f}',
        '\u{205f}',
        '\u{3000}',
    ]
}

/// White space is that of Unicode, and no other.
pub proof fn space_is_of_unicode(c: char)
    ensures
        text::is_white_space(c) == unicode_space().contains(c),
{
    let all = unicode_space();
    if text::is_white_space(c) {
        let code = c as u32;
        let at = if code <= 0xd {
            code - 9
        } else if code == 0x20 {
            5
        } else if code == 0x85 {
            6
        } else if code == 0xa0 {
            7
        } else if code == 0x1680 {
            8
        } else if code <= 0x200a {
            code - 0x2000 + 9
        } else if code == 0x2028 {
            20
        } else if code == 0x2029 {
            21
        } else if code == 0x202f {
            22
        } else if code == 0x205f {
            23
        } else {
            24
        };
        assert(all[at] == c);
    }
}

proof fn start_is_trimmed(chars: Seq<char>) -> (count: int)
    ensures
        0 <= count <= chars.len(),
        text::trimmed_start(chars) == chars.skip(count),
        forall|i: int| 0 <= i < count ==> text::is_white_space(#[trigger] chars[i]),
        count < chars.len() ==> !text::is_white_space(chars[count]),
    decreases chars.len(),
{
    if chars.len() > 0 && text::is_white_space(chars[0]) {
        let count = start_is_trimmed(chars.skip(1));
        assert(chars.skip(1).skip(count) =~= chars.skip(count + 1));
        assert forall|i: int| 0 <= i < count + 1 implies text::is_white_space(#[trigger] chars[i]) by {
            if i > 0 {
                assert(chars.skip(1)[i - 1] == chars[i]);
            }
        }
        count + 1
    } else {
        assert(chars.skip(0) =~= chars);
        0
    }
}

proof fn end_is_trimmed(chars: Seq<char>) -> (len: int)
    ensures
        0 <= len <= chars.len(),
        text::trimmed_end(chars) == chars.take(len),
        forall|i: int| len <= i < chars.len() ==> text::is_white_space(#[trigger] chars[i]),
        len > 0 ==> !text::is_white_space(chars[len - 1]),
    decreases chars.len(),
{
    if chars.len() > 0 && text::is_white_space(chars.last()) {
        let len = end_is_trimmed(chars.drop_last());
        assert(chars.drop_last().take(len) =~= chars.take(len));
        assert forall|i: int| len <= i < chars.len() implies text::is_white_space(
            #[trigger] chars[i],
        ) by {
            if i < chars.len() - 1 {
                assert(chars.drop_last()[i] == chars[i]);
            }
        }
        len
    } else {
        assert(chars.take(chars.len() as int) =~= chars);
        chars.len() as int
    }
}

/// A trimmed text is what is left between the white space around it: all that was taken away is white
/// space, and no white space is left at either end.
pub proof fn trimming_takes_the_space_around(chars: Seq<char>) -> (from: int)
    ensures
        ({
            let left = text::trimmed(chars);
            &&& 0 <= from <= from + left.len() <= chars.len()
            &&& left == chars.subrange(from, from + left.len())
            &&& forall|i: int| 0 <= i < from ==> unicode_space().contains(#[trigger] chars[i])
            &&& forall|i: int|
                from + left.len() <= i < chars.len() ==> unicode_space().contains(#[trigger] chars[i])
            &&& left.len() > 0 ==> !unicode_space().contains(left[0])
                && !unicode_space().contains(left.last())
        }),
{
    let from = start_is_trimmed(chars);
    let rest = chars.skip(from);
    let len = end_is_trimmed(rest);
    let left = text::trimmed(chars);
    assert(left =~= chars.subrange(from, from + len));
    assert forall|i: int| 0 <= i < from implies unicode_space().contains(#[trigger] chars[i]) by {
        space_is_of_unicode(chars[i]);
    }
    assert forall|i: int| from + len <= i < chars.len() implies unicode_space().contains(
        #[trigger] chars[i],
    ) by {
        assert(rest[i - from] == chars[i]);
        space_is_of_unicode(chars[i]);
    }
    if len > 0 {
        assert(rest[0] == chars[from]);
        space_is_of_unicode(left[0]);
        space_is_of_unicode(left.last());
    }
    from
}

/// Two texts are the same but for case where they are as long, and at each place hold the same
/// character or the capital and the small form of one letter from A to Z.
pub proof fn case_is_of_letters(left: Seq<char>, right: Seq<char>)
    ensures
        text::same_but_case(left, right) == (left.len() == right.len() && forall|i: int|
            0 <= i < left.len() ==> {
                ||| #[trigger] left[i] == right[i]
                ||| 'A' <= left[i] <= 'Z' && right[i] as u32 == left[i] as u32 + 32
                ||| 'A' <= right[i] <= 'Z' && left[i] as u32 == right[i] as u32 + 32
            }),
{
    if text::same_but_case(left, right) {
        assert forall|i: int| 0 <= i < left.len() implies {
            ||| #[trigger] left[i] == right[i]
            ||| 'A' <= left[i] <= 'Z' && right[i] as u32 == left[i] as u32 + 32
            ||| 'A' <= right[i] <= 'Z' && left[i] as u32 == right[i] as u32 + 32
        } by {
            assert(text::ascii_lower(left[i]) == text::ascii_lower(right[i]));
        }
    }
}

} // verus!
