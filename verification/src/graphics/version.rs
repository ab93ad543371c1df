//! The version of the graphics library and what it lets the renderer do.
use vstd::prelude::*;

use crate::automation::screen;
use crate::text;

verus! {

/// What the graphics library says of itself.
#[derive(Debug)]
pub struct GraphicsDiagnostics {
    /// Who made the driver.
    pub vendor: String,
    /// The device that draws.
    pub renderer: String,
    /// The version of the library.
    pub version: String,
    /// The version of its shading language.
    pub shading_language: String,
}

/// Whether a character is a decimal digit.
pub open spec fn is_digit(c: char) -> bool {
    '0' <= c <= '9'
}

/// How many digits stand at the start of `chars`.
pub open spec fn digit_run(chars: Seq<char>) -> int
    decreases chars.len(),
{
    if chars.len() > 0 && is_digit(chars[0]) {
        1 + digit_run(chars.skip(1))
    } else {
        0
    }
}

/// The number that digits write.
pub open spec fn number(digits: Seq<char>) -> int
    decreases digits.len(),
{
    if digits.len() == 0 {
        0
    } else {
        number(digits.drop_last()) * 10 + (digits.last() as int - '0' as int)
    }
}

/// The number of eight bits that the digits at the start of `chars` write, if there are any.
pub open spec fn leading_number(chars: Seq<char>) -> Option<int> {
    let run = digit_run(chars);
    let value = number(chars.take(run));
    if run > 0 && value <= u8::MAX {
        Some(value)
    } else {
        None
    }
}

/// Where the first word that starts with a digit starts, from a place on.
pub open spec fn version_start(chars: Seq<char>, from: int) -> Option<int>
    decreases chars.len() - from,
{
    if from < 0 || from >= chars.len() {
        None
    } else if is_digit(chars[from]) && (from == 0 || text::is_white_space(chars[from - 1])) {
        Some(from)
    } else {
        version_start(chars, from + 1)
    }
}

/// The two numbers of a version: those around the first dot of the first word that starts with a
/// digit.
pub open spec fn graphics_version(chars: Seq<char>) -> Option<(int, int)> {
    match version_start(chars, 0) {
        None => None,
        Some(start) => {
            let word = chars.skip(start);
            let dot = digit_run(word);
            if dot < word.len() && word[dot] == '.' {
                match (leading_number(word), leading_number(word.skip(dot + 1))) {
                    (Some(major), Some(minor)) => Some((major, minor)),
                    _ => None,
                }
            } else {
                None
            }
        },
    }
}

/// Whether a version of the graphics library will do.
pub open spec fn supported(version: Option<(int, int)>, is_gles: bool) -> bool {
    match version {
        Some((major, minor)) => major > 3 || major == 3 && (is_gles || minor >= 3),
        None => false,
    }
}

/// A run of digits ends within the text, behind digits and before none.
proof fn run_is_digits(chars: Seq<char>)
    ensures
        0 <= digit_run(chars) <= chars.len(),
        forall|i: int| 0 <= i < digit_run(chars) ==> is_digit(#[trigger] chars[i]),
        digit_run(chars) < chars.len() ==> !is_digit(chars[digit_run(chars)]),
    decreases chars.len(),
{
    if chars.len() > 0 && is_digit(chars[0]) {
        let rest = chars.skip(1);
        run_is_digits(rest);
        assert forall|i: int| 0 <= i < digit_run(chars) implies is_digit(#[trigger] chars[i]) by {
            if i > 0 {
                assert(rest[i - 1] == chars[i]);
            }
        }
        if digit_run(chars) < chars.len() {
            assert(rest[digit_run(rest)] == chars[digit_run(chars)]);
        }
    }
}

/// The digits before the first character that is none are the run.
proof fn run_ends(chars: Seq<char>, end: int)
    requires
        0 <= end <= chars.len(),
        forall|i: int| 0 <= i < end ==> is_digit(#[trigger] chars[i]),
        end == chars.len() || !is_digit(chars[end]),
    ensures
        digit_run(chars) == end,
{
    run_is_digits(chars);
    let run = digit_run(chars);
    if run < end {
        assert(is_digit(chars[run]));
    }
    if end < run {
        assert(is_digit(chars[end]));
    }
}

/// More digits write no smaller a number.
proof fn number_grows(digits: Seq<char>, len: int)
    requires
        0 <= len <= digits.len(),
        forall|i: int| 0 <= i < digits.len() ==> is_digit(#[trigger] digits[i]),
    ensures
        0 <= number(digits.take(len)) <= number(digits),
    decreases digits.len(),
{
    if len == digits.len() {
        assert(digits.take(len) =~= digits);
        if len > 0 {
            number_grows(digits.drop_last(), len - 1);
        }
    } else {
        number_grows(digits.drop_last(), len);
        assert(digits.drop_last().take(len) =~= digits.take(len));
    }
}

/// Reads the digits from a place on: where they end, and the number that they write.
fn read_number(chars: &[char], from: usize) -> (read: (usize, Option<u8>))
    requires
        from <= chars@.len(),
    ensures
        read.0 == from + digit_run(chars@.skip(from as int)),
        from <= read.0 <= chars@.len(),
        match leading_number(chars@.skip(from as int)) {
            Some(value) => read.1 is Some && read.1->0 == value,
            None => read.1 is None,
        },
{
    let ghost rest = chars@.skip(from as int);
    let mut at: usize = from;
    let mut value: u32 = 0;
    while at < chars.len() && '0' <= chars[at] && chars[at] <= '9'
        invariant
            from <= at <= chars@.len(),
            rest == chars@.skip(from as int),
            forall|i: int| 0 <= i < at - from ==> is_digit(#[trigger] rest[i]),
            value <= u8::MAX ==> value == number(rest.take(at - from)),
            value > u8::MAX ==> number(rest.take(at - from)) > u8::MAX,
            value <= 2559,
        decreases chars@.len() - at,
    {
        let digit: u32 = chars[at] as u32 - 48;
        proof {
            let longer = rest.take(at - from + 1);
            assert(rest[at - from] == chars@[at as int]);
            assert(longer.drop_last() =~= rest.take(at - from));
            assert(longer.take(at - from) =~= rest.take(at - from));
            number_grows(longer, at - from);
        }
        if value <= 255 {
            value = value * 10 + digit;
        }
        at += 1;
    }
    proof {
        let run = at - from;
        if at < chars@.len() {
            assert(rest[run] == chars@[at as int]);
        }
        run_ends(rest, run);
    }
    if at == from || value > 255 {
        (at, None)
    } else {
        (at, Some(value as u8))
    }
}

/// Reads the two numbers of a version.
pub fn parse_graphics_version(version: &str) -> (parsed: Option<(u8, u8)>)
    ensures
        match graphics_version(version@) {
            Some((major, minor)) => parsed matches Some((first, second)) && first == major
                && second == minor,
            None => parsed is None,
        },
{
    let chars = text::chars_of(version);
    let mut start: usize = 0;
    while start < chars.len() && !('0' <= chars[start] && chars[start] <= '9' && (start == 0
        || text::white_space(chars[start - 1])))
        invariant
            start <= chars@.len(),
            version_start(chars@, 0) == version_start(chars@, start as int),
        decreases chars@.len() - start,
    {
        start += 1;
    }
    if start == chars.len() {
        return None;
    }
    let ghost word = chars@.skip(start as int);
    let (dot, major) = read_number(chars.as_slice(), start);
    if dot == chars.len() || chars[dot] != '.' {
        return None;
    }
    assert(word[dot - start] == '.');
    assert(word.skip(dot - start + 1) =~= chars@.skip(dot + 1));
    let (_, minor) = read_number(chars.as_slice(), dot + 1);
    match (major, minor) {
        (Some(major), Some(minor)) => Some((major, minor)),
        _ => None,
    }
}

/// Whether the graphics library is new enough: 3.3, or 3.0 of the embedded kind.
pub fn graphics_version_supported(version: &str, is_gles: bool) -> (enough: bool)
    ensures
        enough == supported(graphics_version(version@), is_gles),
{
    match parse_graphics_version(version) {
        Some((major, minor)) => major > 3 || (major == 3 && (is_gles || minor >= 3)),
        None => false,
    }
}

/// The first lines of every shader of the embedded kind.
pub const GLES_PREAMBLE: &'static str =
    "#version 300 es\nprecision highp float;\nprecision highp int;\n";

/// The first line of every other shader.
pub const DESKTOP_PREAMBLE: &'static str = "#version 330 core\n";

/// Whether the graphics library is of the embedded kind.
pub open spec fn is_embedded(diagnostics: GraphicsDiagnostics) -> bool {
    screen::holds(diagnostics.version@, "OpenGL ES"@)
}

/// What is said of a graphics library that is too old.
pub open spec fn requirement_text(diagnostics: GraphicsDiagnostics) -> Seq<char> {
    let needed = if is_embedded(diagnostics) {
        "OpenGL ES 3.0"@
    } else {
        "OpenGL 3.3"@
    };
    needed + " or newer is required; detected "@ + diagnostics.version@ + " ("@
        + diagnostics.renderer@ + ")"@
}

/// The first lines of the shaders for a graphics library, or why it will not do.
pub fn shader_preamble(diagnostics: &GraphicsDiagnostics) -> (preamble: Result<
    &'static str,
    String,
>)
    ensures
        preamble is Ok <==> supported(
            graphics_version(diagnostics.version@),
            is_embedded(*diagnostics),
        ),
        preamble matches Ok(lines) ==> lines@ == if is_embedded(*diagnostics) {
            GLES_PREAMBLE@
        } else {
            DESKTOP_PREAMBLE@
        },
        preamble matches Err(message) ==> message@ == requirement_text(*diagnostics),
{
    let version = text::chars_of(diagnostics.version.as_str());
    let embedded = text::chars_of("OpenGL ES");
    let is_gles = screen::contains_text(version.as_slice(), embedded.as_slice());
    if graphics_version_supported(diagnostics.version.as_str(), is_gles) {
        return Ok(if is_gles { GLES_PREAMBLE } else { DESKTOP_PREAMBLE });
    }
    let mut message = if is_gles { "OpenGL ES 3.0".to_owned() } else { "OpenGL 3.3".to_owned() };
    message.push_str(" or newer is required; detected ");
    message.push_str(diagnostics.version.as_str());
    message.push_str(" (");
    message.push_str(diagnostics.renderer.as_str());
    message.push_str(")");
    Err(message)
}

/// What the embedded kind needs is less: where the other kind of a version will do, so does the
/// embedded kind, and so does every later version.
pub proof fn later_versions_will_do(major: int, minor: int, later: (int, int), is_gles: bool)
    requires
        supported(Some((major, minor)), false),
        later.0 > major || later.0 == major && later.1 >= minor,
    ensures
        supported(Some((major, minor)), true),
        supported(Some(later), is_gles),
{
}

} // verus!
