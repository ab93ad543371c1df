//! Text: concatenation, decimal numbers and conversions from bytes.
use vstd::prelude::*;
use vstd::utf8::*;

pub mod laws;

verus! {

/// `String::push` appends one character.
pub assume_specification[ String::push ](s: &mut String, c: char)
    ensures
        final(s)@ == old(s)@.push(c),
;

/// `String::push_str` appends a string slice.
pub assume_specification[ String::push_str ](s: &mut String, t: &str)
    ensures
        final(s)@ == old(s)@ + t@,
;

/// What `String::from_utf8_lossy` makes of a byte string.
pub uninterp spec fn lossy(bytes: Seq<u8>) -> Seq<char>;

/// `String::from_utf8_lossy`: bytes that are valid UTF-8 are decoded as they are; what it puts in
/// the place of invalid bytes is only named.
#[verifier::external_body]
pub(crate) fn lossy_text(bytes: &[u8]) -> (text: String)
    ensures
        text@ == lossy(bytes@),
        valid_utf8(bytes@) ==> text@ == decode_utf8(bytes@),
{
    String::from_utf8_lossy(bytes).into_owned()
}

/// `String::from_utf8`: succeeds on valid UTF-8, and on nothing else, with the text that the bytes
/// encode.
#[verifier::external_body]
pub(crate) fn utf8_text(bytes: Vec<u8>) -> (text: Option<String>)
    ensures
        text is Some <==> valid_utf8(bytes@),
        text is Some ==> text->0@ == decode_utf8(bytes@),
{
    String::from_utf8(bytes).ok()
}

/// The decimal digits of `n`, without leading zeros.
pub open spec fn decimal(n: nat) -> Seq<char>
    decreases n,
{
    if n < 10 {
        seq![digit(n)]
    } else {
        decimal(n / 10).push(digit(n % 10))
    }
}

/// The character of a decimal digit.
pub open spec fn digit(n: nat) -> char {
    (n + '0' as int) as char
}

/// `a` followed by `b`.
pub fn concat(a: &str, b: &str) -> (text: String)
    ensures
        text@ == a@ + b@,
{
    let mut text = a.to_owned();
    text.push_str(b);
    text
}

/// Appends the decimal digits of `n` to `out`.
pub fn push_decimal(out: &mut String, n: u64)
    ensures
        final(out)@ == old(out)@ + decimal(n as nat),
    decreases n,
{
    let ghost before = out@;
    if n >= 10 {
        push_decimal(out, n / 10);
    }
    let last: u8 = (n % 10) as u8;
    out.push((48u8 + last) as char);
    assert(out@ =~= before + decimal(n as nat));
}

/// The decimal digits of `n`.
pub fn decimal_text(n: u64) -> (text: String)
    ensures
        text@ == decimal(n as nat),
{
    let mut text = String::new();
    push_decimal(&mut text, n);
    assert(text@ =~= decimal(n as nat));
    text
}

/// The decimal digits of `n`, after a minus sign where it is negative.
pub open spec fn signed_decimal(n: int) -> Seq<char> {
    if n < 0 {
        seq!['-'] + decimal((-n) as nat)
    } else {
        decimal(n as nat)
    }
}

/// Appends the decimal digits of `n` to `out`, after a minus sign where it is negative.
pub fn push_signed_decimal(out: &mut String, n: i32)
    ensures
        final(out)@ == old(out)@ + signed_decimal(n as int),
{
    if n < 0 {
        out.push('-');
        push_decimal(out, (-(n as i64)) as u64);
        assert(out@ =~= old(out)@ + signed_decimal(n as int));
    } else {
        push_decimal(out, n as u64);
    }
}

/// Whether `c` is a decimal digit.
pub open spec fn is_digit(c: u8) -> bool {
    0x30 <= c <= 0x39
}

/// The number that decimal digits write.
pub open spec fn digits_value(digits: Seq<u8>) -> int
    decreases digits.len(),
{
    if digits.len() == 0 {
        0
    } else {
        digits_value(digits.drop_last()) * 10 + (digits.last() - 0x30)
    }
}

/// Whether `bytes` is one decimal digit or more, and nothing else.
pub open spec fn is_number(bytes: Seq<u8>) -> bool {
    bytes.len() > 0 && forall|i: int| 0 <= i < bytes.len() ==> is_digit(#[trigger] bytes[i])
}

/// The number up to `max` that `bytes` writes in decimal, with or without a `+`.
pub open spec fn parsed_unsigned(bytes: Seq<u8>, max: int) -> Option<int> {
    let digits = if bytes.len() > 0 && bytes[0] == 0x2b {
        bytes.skip(1)
    } else {
        bytes
    };
    if is_number(digits) && digits_value(digits) <= max {
        Some(digits_value(digits))
    } else {
        None
    }
}

/// The number from `-max - 1` to `max` that `bytes` writes in decimal, with or without a sign.
pub open spec fn parsed_signed(bytes: Seq<u8>, max: int) -> Option<int> {
    if bytes.len() > 0 && bytes[0] == 0x2d {
        let digits = bytes.skip(1);
        if is_number(digits) && digits_value(digits) <= max + 1 {
            Some(-digits_value(digits))
        } else {
            None
        }
    } else {
        parsed_unsigned(bytes, max)
    }
}

/// A longer digit string writes no smaller a number.
proof fn digits_value_grows(digits: Seq<u8>, len: int)
    requires
        0 <= len <= digits.len(),
        forall|i: int| 0 <= i < digits.len() ==> is_digit(#[trigger] digits[i]),
    ensures
        0 <= digits_value(digits.take(len)) <= digits_value(digits),
    decreases digits.len(),
{
    if len == digits.len() {
        assert(digits.take(len) =~= digits);
        if len > 0 {
            digits_value_grows(digits.drop_last(), len - 1);
        }
    } else {
        digits_value_grows(digits.drop_last(), len);
        assert(digits.drop_last().take(len) =~= digits.take(len));
    }
}

/// The number up to `max` that a digit string writes.
fn number_from(bytes: &[u8], from: usize, max: u64) -> (value: Option<u64>)
    requires
        from <= bytes@.len(),
    ensures
        value is Some <==> is_number(bytes@.skip(from as int)) && digits_value(
            bytes@.skip(from as int),
        ) <= max,
        value is Some ==> value->0 == digits_value(bytes@.skip(from as int)),
{
    let ghost digits = bytes@.skip(from as int);
    if from == bytes.len() {
        return None;
    }
    let mut value: u64 = 0;
    let mut too_large = false;
    let mut i: usize = from;
    while i < bytes.len()
        invariant
            from <= i <= bytes@.len(),
            digits == bytes@.skip(from as int),
            forall|j: int| 0 <= j < i - from ==> is_digit(#[trigger] digits[j]),
            !too_large ==> value == digits_value(digits.take(i - from)) && value <= max,
            too_large ==> digits_value(digits.take(i - from)) > max,
        decreases bytes@.len() - i,
    {
        let byte = bytes[i];
        proof {
            assert(digits[i - from] == byte);
            assert(digits.take(i - from + 1).drop_last() =~= digits.take(i - from));
        }
        if byte < 0x30 || byte > 0x39 {
            assert(!is_number(digits));
            return None;
        }
        let digit: u64 = (byte - 0x30) as u64;
        proof {
            let longer = digits.take(i - from + 1);
            assert forall|j: int| 0 <= j < longer.len() implies is_digit(#[trigger] longer[j]) by {
                assert(longer[j] == digits[j]);
            }
            digits_value_grows(longer, i - from);
            assert(longer.take(i - from) =~= digits.take(i - from));
        }
        if !too_large {
            match value.checked_mul(10) {
                Some(shifted) => match shifted.checked_add(digit) {
                    Some(sum) => {
                        value = sum;
                        too_large = sum > max;
                    },
                    None => {
                        too_large = true;
                    },
                },
                None => {
                    too_large = true;
                },
            }
        }
        i += 1;
    }
    assert(digits.take(digits.len() as int) =~= digits);
    if too_large {
        None
    } else {
        Some(value)
    }
}

/// The number up to `max` that `bytes` writes in decimal.
pub fn parse_unsigned(bytes: &[u8], max: u64) -> (value: Option<u64>)
    ensures
        match parsed_unsigned(bytes@, max as int) {
            Some(expected) => value is Some && value->0 == expected,
            None => value is None,
        },
{
    if bytes.len() > 0 && bytes[0] == 0x2b {
        number_from(bytes, 1, max)
    } else {
        assert(bytes@.skip(0) =~= bytes@);
        number_from(bytes, 0, max)
    }
}

/// The number of 32 bits that `bytes` writes in decimal.
pub fn parse_i32(bytes: &[u8]) -> (value: Option<i32>)
    ensures
        match parsed_signed(bytes@, i32::MAX as int) {
            Some(expected) => value is Some && value->0 == expected,
            None => value is None,
        },
{
    if bytes.len() > 0 && bytes[0] == 0x2d {
        match number_from(bytes, 1, 0x8000_0000) {
            Some(value) => {
                proof {
                    digits_value_grows(bytes@.skip(1), 0);
                }
                Some((-(value as i64)) as i32)
            },
            None => None,
        }
    } else {
        match parse_unsigned(bytes, 0x7fff_ffff) {
            Some(value) => Some(value as i32),
            None => None,
        }
    }
}

/// Whether a byte is ASCII white space.
pub open spec fn is_ascii_space(byte: u8) -> bool {
    byte == 0x20 || byte == 0x09 || byte == 0x0a || byte == 0x0c || byte == 0x0d
}

/// The pieces of `bytes` between bytes equal to `separator`, empty ones included.
pub open spec fn pieces(bytes: Seq<u8>, separator: u8) -> Seq<Seq<u8>>
    decreases bytes.len(),
{
    if bytes.len() == 0 {
        seq![Seq::empty()]
    } else {
        let before = pieces(bytes.drop_last(), separator);
        if bytes.last() == separator {
            before.push(Seq::empty())
        } else {
            before.drop_last().push(before.last().push(bytes.last()))
        }
    }
}

/// The words of `bytes`, between ASCII white space.
pub open spec fn words(bytes: Seq<u8>) -> Seq<Seq<u8>>
    decreases bytes.len(),
{
    if bytes.len() == 0 {
        Seq::empty()
    } else {
        let before = words(bytes.drop_last());
        if is_ascii_space(bytes.last()) {
            before
        } else if bytes.len() == 1 || is_ascii_space(bytes[bytes.len() - 2]) {
            before.push(seq![bytes.last()])
        } else {
            before.drop_last().push(before.last().push(bytes.last()))
        }
    }
}

/// Splits `bytes` at every `separator`.
pub fn split(bytes: &[u8], separator: u8) -> (out: Vec<Vec<u8>>)
    ensures
        crate::bytes::views(out@) == pieces(bytes@, separator),
        out@.len() > 0,
{
    let mut out: Vec<Vec<u8>> = Vec::new();
    let mut last: Vec<u8> = Vec::new();
    let mut i: usize = 0;
    assert(crate::bytes::views(out@).push(last@) =~= pieces(bytes@.take(0), separator));
    while i < bytes.len()
        invariant
            i <= bytes@.len(),
            crate::bytes::views(out@).push(last@) == pieces(bytes@.take(i as int), separator),
        decreases bytes@.len() - i,
    {
        let ghost done = crate::bytes::views(out@);
        let ghost open = last@;
        proof {
            assert(bytes@.take(i + 1).drop_last() =~= bytes@.take(i as int));
            assert(done.push(open).drop_last() =~= done);
        }
        if bytes[i] == separator {
            out.push(last);
            last = Vec::new();
            assert(crate::bytes::views(out@) =~= done.push(open));
            assert(last@ =~= Seq::empty());
        } else {
            last.push(bytes[i]);
        }
        i += 1;
    }
    let ghost done = crate::bytes::views(out@);
    let ghost open = last@;
    out.push(last);
    proof {
        assert(crate::bytes::views(out@) =~= done.push(open));
        assert(bytes@.take(i as int) =~= bytes@);
    }
    out
}

/// Splits `bytes` into its words.
pub fn split_words(bytes: &[u8]) -> (out: Vec<Vec<u8>>)
    ensures
        crate::bytes::views(out@) == words(bytes@),
{
    let mut out: Vec<Vec<u8>> = Vec::new();
    let mut last: Vec<u8> = Vec::new();
    let mut i: usize = 0;
    assert(crate::bytes::views(out@) =~= words(bytes@.take(0)));
    while i < bytes.len()
        invariant
            i <= bytes@.len(),
            last@.len() > 0 <==> i > 0 && !is_ascii_space(bytes@[i - 1]),
            words(bytes@.take(i as int)) == if last@.len() > 0 {
                crate::bytes::views(out@).push(last@)
            } else {
                crate::bytes::views(out@)
            },
        decreases bytes@.len() - i,
    {
        let ghost done = crate::bytes::views(out@);
        let ghost open = last@;
        let byte = bytes[i];
        proof {
            assert(bytes@.take(i + 1).drop_last() =~= bytes@.take(i as int));
            assert(done.push(open).drop_last() =~= done);
        }
        if byte == 0x20 || byte == 0x09 || byte == 0x0a || byte == 0x0c || byte == 0x0d {
            if last.len() > 0 {
                out.push(last);
                last = Vec::new();
                assert(crate::bytes::views(out@) =~= done.push(open));
            }
        } else {
            last.push(byte);
            assert(open.len() == 0 ==> last@ =~= seq![byte]);
        }
        i += 1;
    }
    let ghost done = crate::bytes::views(out@);
    let ghost open = last@;
    assert(bytes@.take(i as int) =~= bytes@);
    if last.len() > 0 {
        out.push(last);
        assert(crate::bytes::views(out@) =~= done.push(open));
    }
    out
}

/// Whether a character is white space: the Unicode property of that name.
pub open spec fn is_white_space(c: char) -> bool {
    let code = c as u32;
    ||| 0x9 <= code <= 0xd
    ||| code == 0x20
    ||| code == 0x85
    ||| code == 0xa0
    ||| code == 0x1680
    ||| 0x2000 <= code <= 0x200a
    ||| code == 0x2028
    ||| code == 0x2029
    ||| code == 0x202f
    ||| code == 0x205f
    ||| code == 0x3000
}

/// Whether a character is white space.
pub fn white_space(c: char) -> (space: bool)
    ensures
        space == is_white_space(c),
{
    let code: u32 = c as u32;
    (0x9 <= code && code <= 0xd) || code == 0x20 || code == 0x85 || code == 0xa0 || code == 0x1680
        || (0x2000 <= code && code <= 0x200a) || code == 0x2028 || code == 0x2029 || code == 0x202f
        || code == 0x205f || code == 0x3000
}

/// `chars` without the white space at its start.
pub open spec fn trimmed_start(chars: Seq<char>) -> Seq<char>
    decreases chars.len(),
{
    if chars.len() > 0 && is_white_space(chars[0]) {
        trimmed_start(chars.skip(1))
    } else {
        chars
    }
}

/// `chars` without the white space at its end.
pub open spec fn trimmed_end(chars: Seq<char>) -> Seq<char>
    decreases chars.len(),
{
    if chars.len() > 0 && is_white_space(chars.last()) {
        trimmed_end(chars.drop_last())
    } else {
        chars
    }
}

/// `chars` without the white space around it.
pub open spec fn trimmed(chars: Seq<char>) -> Seq<char> {
    trimmed_end(trimmed_start(chars))
}

/// The characters of `text`.
pub fn chars_of(text: &str) -> (chars: Vec<char>)
    ensures
        chars@ == text@,
{
    let mut chars: Vec<char> = Vec::new();
    for c in iter: text.chars()
        invariant
            iter.seq() == text@,
            chars@ == text@.take(iter.index() as int),
    {
        chars.push(c);
        assert(text@.take(iter.index() + 1) =~= text@.take(iter.index() as int).push(c));
    }
    assert(text@.take(text@.len() as int) =~= text@);
    chars
}

/// The text of `chars`.
pub fn text_of(chars: &[char]) -> (text: String)
    ensures
        text@ == chars@,
{
    let mut text = String::new();
    let mut i: usize = 0;
    while i < chars.len()
        invariant
            i <= chars@.len(),
            text@ == chars@.take(i as int),
        decreases chars@.len() - i,
    {
        text.push(chars[i]);
        i += 1;
        assert(chars@.take(i as int) =~= chars@.take(i - 1).push(chars@[i - 1]));
    }
    assert(chars@.take(i as int) =~= chars@);
    text
}

/// `chars` without the white space around it.
pub fn trim<'a>(chars: &'a [char]) -> (out: &'a [char])
    ensures
        out@ == trimmed(chars@),
{
    let mut start: usize = 0;
    assert(chars@.skip(0) =~= chars@);
    while start < chars.len() && white_space(chars[start])
        invariant
            start <= chars@.len(),
            trimmed_start(chars@) == trimmed_start(chars@.skip(start as int)),
        decreases chars@.len() - start,
    {
        assert(chars@.skip(start as int).skip(1) =~= chars@.skip(start + 1));
        start += 1;
    }
    let ghost rest = chars@.skip(start as int);
    let mut end: usize = chars.len();
    assert(rest =~= chars@.subrange(start as int, end as int));
    while end > start && white_space(chars[end - 1])
        invariant
            start <= end <= chars@.len(),
            trimmed_end(rest) == trimmed_end(chars@.subrange(start as int, end as int)),
        decreases end,
    {
        assert(chars@.subrange(start as int, end as int).drop_last() =~= chars@.subrange(
            start as int,
            end - 1,
        ));
        end -= 1;
    }
    vstd::slice::slice_subrange(chars, start, end)
}

/// An ASCII capital as the small letter, any other character as it is.
pub open spec fn ascii_lower(c: char) -> char {
    if 'A' <= c <= 'Z' {
        (c as u32 + 32) as char
    } else {
        c
    }
}

/// Whether two texts are the same but for the case of ASCII letters.
pub open spec fn same_but_case(left: Seq<char>, right: Seq<char>) -> bool {
    &&& left.len() == right.len()
    &&& forall|i: int| 0 <= i < left.len() ==> ascii_lower(left[i]) == ascii_lower(right[i])
}

fn lower(c: char) -> (small: char)
    ensures
        small == ascii_lower(c),
{
    if 'A' <= c && c <= 'Z' {
        let code: u8 = c as u8;
        (code + 32) as char
    } else {
        c
    }
}

/// Whether two texts are the same but for the case of ASCII letters.
pub fn equals_ignoring_case(left: &[char], right: &[char]) -> (same: bool)
    ensures
        same == same_but_case(left@, right@),
{
    if left.len() != right.len() {
        return false;
    }
    let mut i: usize = 0;
    while i < left.len()
        invariant
            i <= left@.len() == right@.len(),
            forall|j: int| 0 <= j < i ==> ascii_lower(left@[j]) == ascii_lower(right@[j]),
        decreases left@.len() - i,
    {
        if lower(left[i]) != lower(right[i]) {
            return false;
        }
        i += 1;
    }
    true
}

/// Whether two slices hold the same characters.
pub fn same_chars(left: &[char], right: &[char]) -> (same: bool)
    ensures
        same == (left@ == right@),
{
    if left.len() != right.len() {
        return false;
    }
    let mut i: usize = 0;
    while i < left.len()
        invariant
            i <= left@.len() == right@.len(),
            forall|j: int| 0 <= j < i ==> left@[j] == right@[j],
        decreases left@.len() - i,
    {
        if left[i] != right[i] {
            return false;
        }
        i += 1;
    }
    assert(left@ =~= right@);
    true
}

/// Whether `chars` are the characters of `text`.
pub fn is_text(chars: &[char], text: &str) -> (same: bool)
    ensures
        same == (chars@ == text@),
{
    let expected = chars_of(text);
    same_chars(chars, expected.as_slice())
}

/// Whether two texts are the same.
pub fn same_text(left: &str, right: &str) -> (same: bool)
    ensures
        same == (left@ == right@),
{
    let chars = chars_of(left);
    is_text(chars.as_slice(), right)
}

/// What stands before and after the first character that is one of two.
pub open spec fn around(chars: Seq<char>, one: char, other: char) -> Option<(Seq<char>, Seq<char>)>
    decreases chars.len(),
{
    if chars.len() == 0 {
        None
    } else if chars[0] == one || chars[0] == other {
        Some((Seq::empty(), chars.skip(1)))
    } else {
        match around(chars.skip(1), one, other) {
            Some((before, after)) => Some((seq![chars[0]] + before, after)),
            None => None,
        }
    }
}

/// A text is split at the first character that is one of two.
pub proof fn splits_at_first(chars: Seq<char>, one: char, other: char, at: int)
    requires
        0 <= at < chars.len(),
        chars[at] == one || chars[at] == other,
        forall|i: int| 0 <= i < at ==> chars[i] != one && chars[i] != other,
    ensures
        around(chars, one, other) == Some((chars.take(at), chars.skip(at + 1))),
    decreases at,
{
    if at > 0 {
        splits_at_first(chars.skip(1), one, other, at - 1);
        assert(seq![chars[0]] + chars.skip(1).take(at - 1) =~= chars.take(at));
        assert(chars.skip(1).skip(at) =~= chars.skip(at + 1));
    } else {
        assert(chars.take(0) =~= Seq::empty());
    }
}

/// A text without either character is not split.
pub proof fn stays_whole(chars: Seq<char>, one: char, other: char)
    requires
        forall|i: int| 0 <= i < chars.len() ==> chars[i] != one && chars[i] != other,
    ensures
        around(chars, one, other) is None,
    decreases chars.len(),
{
    if chars.len() > 0 {
        stays_whole(chars.skip(1), one, other);
    }
}

/// The place of the first character that is one of two.
pub fn place_of_either(chars: &[char], one: char, other: char) -> (at: Option<usize>)
    ensures
        match at {
            Some(at) => at < chars@.len() && around(chars@, one, other) == Some(
                (chars@.take(at as int), chars@.skip(at + 1)),
            ),
            None => around(chars@, one, other) is None,
        },
{
    let mut i: usize = 0;
    while i < chars.len()
        invariant
            i <= chars@.len(),
            forall|j: int| 0 <= j < i ==> chars@[j] != one && chars@[j] != other,
        decreases chars@.len() - i,
    {
        if chars[i] == one || chars[i] == other {
            proof {
                splits_at_first(chars@, one, other, i as int);
            }
            return Some(i);
        }
        i += 1;
    }
    proof {
        stays_whole(chars@, one, other);
    }
    None
}

} // verus!
