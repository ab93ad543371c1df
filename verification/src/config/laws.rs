//! What holds of all colours, values and files of settings.
use vstd::prelude::*;

use crate::config;
use crate::config::{AppConfig, ConfigValues, RgbColor};
use crate::number;
use crate::text;

verus! {

/// The digits of a colour.
pub open spec fn hex_digits() -> Seq<char> {
    seq!['0', '1', '2', '3', '4', '5', '6', '7', '8', '9', 'A', 'B', 'C', 'D', 'E', 'F']
}

/// A colour is written as `#` and the two digits of red, then of green, then of blue, the higher digit
/// first.
pub proof fn colour_is_written_red_first(color: RgbColor)
    ensures
        ({
            let written = config::hex_text(color);
            &&& written.len() == 7
            &&& written[0] == '#'
            &&& written[1] == hex_digits()[color.red as int / 16]
            &&& written[2] == hex_digits()[color.red as int % 16]
            &&& written[3] == hex_digits()[color.green as int / 16]
            &&& written[4] == hex_digits()[color.green as int % 16]
            &&& written[5] == hex_digits()[color.blue as int / 16]
            &&& written[6] == hex_digits()[color.blue as int % 16]
        }),
{
    digit_of(color.red as int / 16);
    digit_of(color.red as int % 16);
    digit_of(color.green as int / 16);
    digit_of(color.green as int % 16);
    digit_of(color.blue as int / 16);
    digit_of(color.blue as int % 16);
}

proof fn digit_of(n: int)
    requires
        0 <= n < 16,
    ensures
        config::hex_digit(n) == hex_digits()[n],
        config::hex_value(hex_digits()[n]) == Some(n),
{
}

/// A colour is read from `#` and six digits of either case, and from nothing else; it is written with
/// the same digits again.
pub proof fn colour_is_six_digits(chars: Seq<char>)
    ensures
        config::hex_color(chars) is Some <==> chars.len() == 7 && chars[0] == '#' && (forall|i: int|
            1 <= i < 7 ==> ('0' <= #[trigger] chars[i] <= '9') || ('a' <= chars[i] <= 'f') || ('A'
                <= chars[i] <= 'F')),
        config::hex_color(chars) is Some ==> text::same_but_case(
            config::hex_text(config::hex_color(chars)->0),
            chars,
        ),
{
    if config::is_hex_color(chars) {
        config::color_keeps_its_digits(chars);
        assert forall|i: int| 1 <= i < 7 implies ('0' <= #[trigger] chars[i] <= '9') || ('a'
            <= chars[i] <= 'f') || ('A' <= chars[i] <= 'F') by {
            assert(config::hex_value(chars[i]) is Some);
        }
    } else if chars.len() == 7 && chars[0] == '#' {
        let i = choose|i: int| 1 <= i < 7 && !(config::hex_value(#[trigger] chars[i]) is Some);
        assert(!('0' <= chars[i] <= '9'));
    }
}

/// A size of text below 10 is read as 10 and one above 32 as 32, and one that is no finite number as 16;
/// the others stay. A sensitivity is kept from a quarter to 3 in the same way, with 1 for what is no
/// finite number. The bits of numbers that are not negative stand in the order of the numbers, and those
/// of negative ones come after all others.
pub proof fn values_are_kept_within_bounds(value: u32)
    ensures
        ({
            let finite = value % 0x8000_0000 < 0x7f80_0000;
            let negative = value >= 0x8000_0000;
            let size = config::font_size_for(value);
            let sensitivity = config::sensitivity_for(value);
            &&& !finite ==> size == 0x4180_0000 && sensitivity == 0x3f80_0000
            &&& finite && (negative || value < 0x4120_0000) ==> size == 0x4120_0000
            &&& 0x4120_0000 <= value <= 0x4200_0000 ==> size == value
            &&& finite && !negative && value > 0x4200_0000 ==> size == 0x4200_0000
            &&& finite && (negative || value < 0x3e80_0000) ==> sensitivity == 0x3e80_0000
            &&& 0x3e80_0000 <= value <= 0x4040_0000 ==> sensitivity == value
            &&& finite && !negative && value > 0x4040_0000 ==> sensitivity == 0x4040_0000
        }),
{
}

/// A width or height that was given is kept where it is a finite number above zero; a size of text and
/// a sensitivity that were given are brought within their bounds. What was not given is 1100 by 720, 16
/// and 1, on the colour #282A36.
pub proof fn missing_values_are_the_defaults(values: ConfigValues)
    ensures
        ({
            let read = config::config_for(values);
            &&& values.window_width is None || !number::is_positive(values.window_width->0)
                ==> read.window_width == 0x4091_3000_0000_0000
            &&& values.window_width matches Some(width) ==> number::is_positive(width)
                ==> read.window_width == width
            &&& values.window_height is None || !number::is_positive(values.window_height->0)
                ==> read.window_height == 0x4086_8000_0000_0000
            &&& values.window_height matches Some(height) ==> number::is_positive(height)
                ==> read.window_height == height
            &&& read.terminal_font_size == match values.terminal_font_size {
                Some(size) => config::font_size_for(size),
                None => 0x4180_0000,
            }
            &&& read.scroll_sensitivity == match values.scroll_sensitivity {
                Some(sensitivity) => config::sensitivity_for(sensitivity),
                None => 0x3f80_0000,
            }
            &&& read.terminal_background == (RgbColor { red: 0x28, green: 0x2a, blue: 0x36 })
        }),
        config::default_config() == (AppConfig {
            window_width: 0x4091_3000_0000_0000,
            window_height: 0x4086_8000_0000_0000,
            terminal_font_size: 0x4180_0000,
            scroll_sensitivity: 0x3f80_0000,
            terminal_background: RgbColor { red: 0x28, green: 0x2a, blue: 0x36 },
        }),
{
}

/// A click changes the size of the text by one and the sensitivity by the number of 32 bits nearest to a
/// tenth, and neither leaves its bounds.
pub proof fn clicks_change_by_a_step(size: u32, sensitivity: u32, delta: int)
    ensures
        config::TERMINAL_FONT_SIZE_STEP == number::PARTS,
        config::SCROLL_SENSITIVITY_STEP * 10 - number::PARTS == 2,
        number::parts_of(size) + delta <= number::parts_of(0x4120_0000) ==> config::size_with(
            size,
            delta,
        ) == 0x4120_0000,
        number::parts_of(0x4120_0000) < number::parts_of(size) + delta && number::parts_of(size)
            + delta >= number::parts_of(0x4200_0000) ==> config::size_with(size, delta)
            == 0x4200_0000,
        number::parts_of(0x4120_0000) < number::parts_of(size) + delta < number::parts_of(0x4200_0000)
            ==> config::size_with(size, delta) == number::single_near(
            (number::parts_of(size) + delta) as nat,
            0x800_0000,
        ),
        number::parts_of(sensitivity) + delta <= number::parts_of(0x3e80_0000)
            ==> config::sensitivity_with(sensitivity, delta) == 0x3e80_0000,
        number::parts_of(0x3e80_0000) < number::parts_of(sensitivity) + delta && number::parts_of(
            sensitivity,
        ) + delta >= number::parts_of(0x4040_0000) ==> config::sensitivity_with(sensitivity, delta)
            == 0x4040_0000,
        number::parts_of(0x3e80_0000) < number::parts_of(sensitivity) + delta < number::parts_of(
            0x4040_0000,
        ) ==> config::sensitivity_with(sensitivity, delta) == number::single_near(
            (number::parts_of(sensitivity) + delta) as nat,
            0x800_0000,
        ),
{
}

/// What joins lines with a line break between them.
pub open spec fn joined_lines(lines: Seq<Seq<char>>) -> Seq<char>
    decreases lines.len(),
{
    if lines.len() == 0 {
        Seq::empty()
    } else if lines.len() == 1 {
        lines[0]
    } else {
        joined_lines(lines.drop_last()).push('\n') + lines.last()
    }
}

/// The lines of a text hold no line break, and joined with line breaks they are the text.
pub proof fn lines_join_to_the_text(chars: Seq<char>)
    ensures
        config::lines(chars).len() > 0,
        joined_lines(config::lines(chars)) == chars,
        forall|i: int, j: int|
            0 <= i < config::lines(chars).len() && 0 <= j < config::lines(chars)[i].len()
                ==> #[trigger] config::lines(chars)[i][j] != '\n',
    decreases chars.len(),
{
    let all = config::lines(chars);
    if chars.len() == 0 {
        assert(joined_lines(all) =~= chars);
    } else {
        let before = config::lines(chars.drop_last());
        lines_join_to_the_text(chars.drop_last());
        assert(chars.drop_last().push(chars.last()) =~= chars);
        if chars.last() == '\n' {
            assert(all.drop_last() =~= before);
            assert(joined_lines(all) =~= chars);
        } else {
            assert(all.drop_last() =~= before.drop_last());
            assert(all.last() == before.last().push(chars.last()));
            if before.len() == 1 {
                assert(joined_lines(before) == before[0]);
                assert(joined_lines(all) =~= chars);
            } else {
                let start = joined_lines(before.drop_last()).push('\n');
                assert(joined_lines(before) == start + before.last());
                assert(start + all.last() =~= (start + before.last()).push(chars.last()));
                assert(joined_lines(all) =~= chars);
            }
        }
        assert forall|i: int, j: int| 0 <= i < all.len() && 0 <= j < all[i].len() implies
            #[trigger] all[i][j] != '\n' by {
            if i < before.len() && j < before[i].len() {
                assert(before[i][j] != '\n');
            }
        }
    }
}

/// A line gives a setting what stands behind its first `=`, where its name stands before it, both
/// without the white space around them; a line without `=` gives nothing.
pub proof fn line_gives_what_stands_behind(line: Seq<char>, key: Seq<char>, at: int)
    requires
        0 <= at < text::trimmed(line).len(),
        text::trimmed(line)[at] == '=',
        forall|i: int| 0 <= i < at ==> text::trimmed(line)[i] != '=',
    ensures
        ({
            let trimmed = text::trimmed(line);
            config::line_value(line, key) == if text::trimmed(trimmed.take(at)) == key {
                Some(text::trimmed(trimmed.skip(at + 1)))
            } else {
                None
            }
        }),
{
    text::splits_at_first(text::trimmed(line), '=', '=', at);
}

/// A line without `=` gives nothing to any setting.
pub proof fn line_without_equals_gives_nothing(line: Seq<char>, key: Seq<char>)
    requires
        forall|i: int| 0 <= i < text::trimmed(line).len() ==> text::trimmed(line)[i] != '=',
    ensures
        config::line_value(line, key) is None,
{
    text::stays_whole(text::trimmed(line), '=', '=');
}

/// Of several lines that give a setting a value, the last one counts.
pub proof fn last_line_counts(lines: Seq<Seq<char>>, key: Seq<char>, at: int)
    requires
        0 <= at < lines.len(),
        config::line_value(lines[at], key) is Some,
        forall|i: int| at < i < lines.len() ==> config::line_value(#[trigger] lines[i], key) is None,
    ensures
        config::last_value(lines, key) == config::line_value(lines[at], key),
    decreases lines.len(),
{
    if at < lines.len() - 1 {
        assert(config::line_value(lines[lines.len() - 1], key) is None);
        let rest = lines.drop_last();
        assert forall|i: int| at < i < rest.len() implies config::line_value(
            #[trigger] rest[i],
            key,
        ) is None by {
            assert(rest[i] == lines[i]);
        }
        last_line_counts(rest, key, at);
    }
}

/// The file has a line for the width, the height, the size of the text and the sensitivity, in this
/// order and under these names; the first two have three places, the others two.
pub proof fn file_has_four_lines(config: AppConfig)
    ensures
        config::config_text(config) == "window_width="@ + number::thousandths(
            number::double_thousandths(config.window_width),
        ) + "\nwindow_height="@ + number::thousandths(
            number::double_thousandths(config.window_height),
        ) + "\nterminal_font_size="@ + number::hundredths(
            number::single_hundredths(config.terminal_font_size),
        ) + "\nscroll_sensitivity="@ + number::hundredths(
            number::single_hundredths(config.scroll_sensitivity),
        ) + "\n"@,
{
    reveal_strlit("window_width");
    reveal_strlit("window_width=");
    reveal_strlit("window_height");
    reveal_strlit("\nwindow_height=");
    reveal_strlit("terminal_font_size");
    reveal_strlit("\nterminal_font_size=");
    reveal_strlit("scroll_sensitivity");
    reveal_strlit("\nscroll_sensitivity=");
    reveal_strlit("\n");
    assert("window_width"@.push('=') =~= "window_width="@);
    assert(seq!['\n'] + "window_height"@.push('=') =~= "\nwindow_height="@);
    assert(seq!['\n'] + "terminal_font_size"@.push('=') =~= "\nterminal_font_size="@);
    assert(seq!['\n'] + "scroll_sensitivity"@.push('=') =~= "\nscroll_sensitivity="@);
    assert("\n"@ =~= seq!['\n']);
    let a = number::thousandths(number::double_thousandths(config.window_width));
    let b = number::thousandths(number::double_thousandths(config.window_height));
    let c = number::hundredths(number::single_hundredths(config.terminal_font_size));
    let d = number::hundredths(number::single_hundredths(config.scroll_sensitivity));
    let w = "window_width"@;
    let h = "window_height"@;
    let f = "terminal_font_size"@;
    let s = "scroll_sensitivity"@;
    let one = config::setting(w, a).push('\n');
    let two = config::setting(h, b).push('\n');
    let three = config::setting(f, c).push('\n');
    let four = config::setting(s, d).push('\n');
    assert(one + two =~= w.push('=') + a + (seq!['\n'] + h.push('=')) + b.push('\n'));
    assert(one + two + three =~= w.push('=') + a + (seq!['\n'] + h.push('=')) + b + (seq!['\n']
        + f.push('=')) + c.push('\n'));
    assert(one + two + three + four =~= w.push('=') + a + (seq!['\n'] + h.push('=')) + b + (seq![
        '\n',
    ] + f.push('=')) + c + (seq!['\n'] + s.push('=')) + d + seq!['\n']);
}

} // verus!
