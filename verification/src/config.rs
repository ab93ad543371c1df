//! The settings that are kept from run to run, and the file that keeps them.
use vstd::arithmetic::power2::*;
use vstd::prelude::*;
use vstd::utf8::*;

use crate::launch;
use crate::number;
use crate::number::reading;
use crate::text;

pub mod laws;

verus! {

/// The width of a new window: 1100, as the bits of a number of 64 bits.
pub const DEFAULT_WINDOW_WIDTH: u64 = 0x4091_3000_0000_0000;

/// The height of a new window: 720, as the bits of a number of 64 bits.
pub const DEFAULT_WINDOW_HEIGHT: u64 = 0x4086_8000_0000_0000;

/// The size of the terminal's text: 16, as the bits of a number of 32 bits.
pub const DEFAULT_TERMINAL_FONT_SIZE: u32 = 0x4180_0000;

/// The smallest size of the terminal's text: 10.
pub const MIN_TERMINAL_FONT_SIZE: u32 = 0x4120_0000;

/// The largest size of the terminal's text: 32.
pub const MAX_TERMINAL_FONT_SIZE: u32 = 0x4200_0000;

/// What a click changes the size of the terminal's text by: one, in parts.
pub const TERMINAL_FONT_SIZE_STEP: i64 = 0x800_0000;

/// How far the wheel scrolls: 1, as the bits of a number of 32 bits.
pub const DEFAULT_SCROLL_SENSITIVITY: u32 = 0x3f80_0000;

/// The least that the wheel scrolls: a quarter.
pub const MIN_SCROLL_SENSITIVITY: u32 = 0x3e80_0000;

/// The most that the wheel scrolls: 3.
pub const MAX_SCROLL_SENSITIVITY: u32 = 0x4040_0000;

/// What a click changes the scrolling by: the number of 32 bits that is nearest to a tenth, in parts.
pub const SCROLL_SENSITIVITY_STEP: i64 = 13_421_773;

/// A colour.
#[derive(Clone, Copy, Debug, PartialEq, Eq, Structural)]
pub struct RgbColor {
    pub red: u8,
    pub green: u8,
    pub blue: u8,
}

/// The character of a hexadecimal digit.
pub open spec fn hex_digit(n: int) -> char {
    if n < 10 {
        (n + '0' as int) as char
    } else {
        (n - 10 + 'A' as int) as char
    }
}

/// The number of a hexadecimal digit of either case.
pub open spec fn hex_value(c: char) -> Option<int> {
    if '0' <= c <= '9' {
        Some(c as int - '0' as int)
    } else if 'a' <= c <= 'f' {
        Some(c as int - 'a' as int + 10)
    } else if 'A' <= c <= 'F' {
        Some(c as int - 'A' as int + 10)
    } else {
        None
    }
}

/// A colour in hexadecimal digits: `#`, then two for each of red, green and blue.
pub open spec fn hex_text(color: RgbColor) -> Seq<char> {
    seq![
        '#',
        hex_digit(color.red as int / 16),
        hex_digit(color.red as int % 16),
        hex_digit(color.green as int / 16),
        hex_digit(color.green as int % 16),
        hex_digit(color.blue as int / 16),
        hex_digit(color.blue as int % 16),
    ]
}

/// Whether a text is `#` and six hexadecimal digits.
pub open spec fn is_hex_color(chars: Seq<char>) -> bool {
    &&& chars.len() == 7
    &&& chars[0] == '#'
    &&& forall|i: int| 1 <= i < 7 ==> hex_value(#[trigger] chars[i]) is Some
}

/// The number that two hexadecimal digits write.
pub open spec fn hex_byte(high: char, low: char) -> int {
    hex_value(high)->0 * 16 + hex_value(low)->0
}

/// The colour that a text writes.
pub open spec fn hex_color(chars: Seq<char>) -> Option<RgbColor> {
    if is_hex_color(chars) {
        Some(
            RgbColor {
                red: hex_byte(chars[1], chars[2]) as u8,
                green: hex_byte(chars[3], chars[4]) as u8,
                blue: hex_byte(chars[5], chars[6]) as u8,
            },
        )
    } else {
        None
    }
}

fn hex_number(c: char) -> (value: Option<u8>)
    ensures
        match hex_value(c) {
            Some(expected) => value is Some && value->0 == expected && 0 <= expected < 16,
            None => value is None,
        },
{
    if '0' <= c && c <= '9' {
        Some(c as u8 - 48)
    } else if 'a' <= c && c <= 'f' {
        Some(c as u8 - 97 + 10)
    } else if 'A' <= c && c <= 'F' {
        Some(c as u8 - 65 + 10)
    } else {
        None
    }
}

fn hex_char(n: u8) -> (c: char)
    requires
        n < 16,
    ensures
        c == hex_digit(n as int),
{
    if n < 10 {
        (n + 48) as char
    } else {
        (n - 10 + 65) as char
    }
}

impl RgbColor {
    pub fn new(red: u8, green: u8, blue: u8) -> (color: Self)
        ensures
            color == (RgbColor { red, green, blue }),
    {
        RgbColor { red, green, blue }
    }

    /// The background of a terminal where none was chosen.
    pub fn default_background() -> (color: Self)
        ensures
            color == default_background_color(),
    {
        RgbColor { red: 0x28, green: 0x2a, blue: 0x36 }
    }

    /// The colour that `#` and six hexadecimal digits write.
    pub fn parse_hex(value: &str) -> (color: Option<Self>)
        ensures
            color == hex_color(value@),
    {
        let chars = text::chars_of(value);
        if chars.len() != 7 || chars[0] != '#' {
            return None;
        }
        match (
            hex_number(chars[1]),
            hex_number(chars[2]),
            hex_number(chars[3]),
            hex_number(chars[4]),
            hex_number(chars[5]),
            hex_number(chars[6]),
        ) {
            (Some(a), Some(b), Some(c), Some(d), Some(e), Some(f)) => {
                assert(is_hex_color(value@));
                Some(RgbColor { red: a * 16 + b, green: c * 16 + d, blue: e * 16 + f })
            },
            _ => {
                assert(!is_hex_color(value@)) by {
                    assert(hex_value(value@[1]) is None || hex_value(value@[2]) is None || hex_value(
                        value@[3],
                    ) is None || hex_value(value@[4]) is None || hex_value(value@[5]) is None
                        || hex_value(value@[6]) is None);
                }
                None
            },
        }
    }

    /// The colour as `#` and six hexadecimal digits.
    pub fn to_hex(&self) -> (value: String)
        ensures
            value@ == hex_text(*self),
    {
        let mut value = String::new();
        value.push('#');
        value.push(hex_char(self.red / 16));
        value.push(hex_char(self.red % 16));
        value.push(hex_char(self.green / 16));
        value.push(hex_char(self.green % 16));
        value.push(hex_char(self.blue / 16));
        value.push(hex_char(self.blue % 16));
        assert(value@ =~= hex_text(*self));
        value
    }
}

/// The background of a terminal where none was chosen.
pub open spec fn default_background_color() -> RgbColor {
    RgbColor { red: 0x28, green: 0x2a, blue: 0x36 }
}

/// A colour is read back from its digits.
pub proof fn color_round_trips(color: RgbColor)
    ensures
        hex_color(hex_text(color)) == Some(color),
{
    let chars = hex_text(color);
    assert forall|i: int| 1 <= i < 7 implies hex_value(#[trigger] chars[i]) is Some by {
        assert(i == 1 || i == 2 || i == 3 || i == 4 || i == 5 || i == 6);
    }
}

proof fn digits_of_byte(high: char, low: char)
    requires
        hex_value(high) is Some,
        hex_value(low) is Some,
    ensures
        0 <= hex_byte(high, low) < 256,
        text::ascii_lower(hex_digit(hex_byte(high, low) / 16)) == text::ascii_lower(high),
        text::ascii_lower(hex_digit(hex_byte(high, low) % 16)) == text::ascii_lower(low),
{
    assert(0 <= hex_value(high)->0 < 16);
    assert(0 <= hex_value(low)->0 < 16);
    assert(hex_byte(high, low) / 16 == hex_value(high)->0);
    assert(hex_byte(high, low) % 16 == hex_value(low)->0);
}

/// A colour that was read is written with the same digits, but for their case.
pub proof fn color_keeps_its_digits(chars: Seq<char>)
    requires
        is_hex_color(chars),
    ensures
        text::same_but_case(hex_text(hex_color(chars)->0), chars),
{
    assert(hex_value(chars[1]) is Some && hex_value(chars[2]) is Some && hex_value(chars[3]) is Some
        && hex_value(chars[4]) is Some && hex_value(chars[5]) is Some && hex_value(chars[6]) is Some);
    digits_of_byte(chars[1], chars[2]);
    digits_of_byte(chars[3], chars[4]);
    digits_of_byte(chars[5], chars[6]);
    let canonical = hex_text(hex_color(chars)->0);
    assert(canonical.len() == 7);
    assert forall|i: int| 0 <= i < 7 implies text::ascii_lower(canonical[i]) == text::ascii_lower(
        chars[i],
    ) by {
        assert(i == 0 || i == 1 || i == 2 || i == 3 || i == 4 || i == 5 || i == 6);
    }
}

/// A number of 32 bits kept within bounds that are above zero; the default where it is not finite.
pub open spec fn bounded(value: u32, low: u32, high: u32, default: u32) -> u32 {
    if value % 0x8000_0000 >= 0x7f80_0000 {
        default
    } else if value >= 0x8000_0000 || value < low {
        low
    } else if value > high {
        high
    } else {
        value
    }
}

fn bound(value: u32, low: u32, high: u32, default: u32) -> (out: u32)
    ensures
        out == bounded(value, low, high, default),
{
    if value % 0x8000_0000 >= 0x7f80_0000 {
        default
    } else if value >= 0x8000_0000 || value < low {
        low
    } else if value > high {
        high
    } else {
        value
    }
}

/// A size of text that the terminal can have, for one that was asked for.
pub open spec fn font_size_for(value: u32) -> u32 {
    bounded(value, MIN_TERMINAL_FONT_SIZE, MAX_TERMINAL_FONT_SIZE, DEFAULT_TERMINAL_FONT_SIZE)
}

/// A size of text that the terminal can have, for the bits of one that was asked for.
pub fn normalize_terminal_font_size(value: u32) -> (size: u32)
    ensures
        size == font_size_for(value),
{
    bound(value, MIN_TERMINAL_FONT_SIZE, MAX_TERMINAL_FONT_SIZE, DEFAULT_TERMINAL_FONT_SIZE)
}

/// A sensitivity that scrolling can have, for one that was asked for.
pub open spec fn sensitivity_for(value: u32) -> u32 {
    bounded(value, MIN_SCROLL_SENSITIVITY, MAX_SCROLL_SENSITIVITY, DEFAULT_SCROLL_SENSITIVITY)
}

/// A sensitivity that scrolling can have, for the bits of one that was asked for.
pub fn normalize_scroll_sensitivity(value: u32) -> (sensitivity: u32)
    ensures
        sensitivity == sensitivity_for(value),
{
    bound(value, MIN_SCROLL_SENSITIVITY, MAX_SCROLL_SENSITIVITY, DEFAULT_SCROLL_SENSITIVITY)
}

/// The bits of the bounds and the defaults stand for the numbers that are meant.
pub proof fn bounds_are_as_meant()
    ensures
        number::double().places(DEFAULT_WINDOW_WIDTH as nat) == 1100 * number::double().one(),
        number::double().places(DEFAULT_WINDOW_HEIGHT as nat) == 720 * number::double().one(),
        number::parts_of(DEFAULT_TERMINAL_FONT_SIZE) == 16 * number::PARTS,
        number::parts_of(MIN_TERMINAL_FONT_SIZE) == 10 * number::PARTS,
        number::parts_of(MAX_TERMINAL_FONT_SIZE) == 32 * number::PARTS,
        number::parts_of(DEFAULT_SCROLL_SENSITIVITY) == number::PARTS,
        number::parts_of(MIN_SCROLL_SENSITIVITY) * 4 == number::PARTS,
        number::parts_of(MAX_SCROLL_SENSITIVITY) == 3 * number::PARTS,
{
    lemma2_to64();
    lemma2_to64_rest();
    lemma_pow2_adds(42, 1032);
    lemma_pow2_adds(43, 1031);
    let a = pow2(1032);
    let b = pow2(1031);
    assert(4837851162214400 * a == 1100 * (0x400_0000_0000 * a)) by (nonlinear_arith);
    assert(6333186975989760 * b == 720 * (0x800_0000_0000 * b)) by (nonlinear_arith);
    places_counted(DEFAULT_WINDOW_WIDTH, 4837851162214400, 1032);
    places_counted(DEFAULT_WINDOW_HEIGHT, 6333186975989760, 1031);
    parts_counted(DEFAULT_TERMINAL_FONT_SIZE, 0x80_0000, 8);
    parts_counted(MIN_TERMINAL_FONT_SIZE, 0xa0_0000, 7);
    parts_counted(MAX_TERMINAL_FONT_SIZE, 0x80_0000, 9);
    parts_counted(DEFAULT_SCROLL_SENSITIVITY, 0x80_0000, 4);
    parts_counted(MIN_SCROLL_SENSITIVITY, 0x80_0000, 2);
    parts_counted(MAX_SCROLL_SENSITIVITY, 0xc0_0000, 5);
}

proof fn places_counted(bits: u64, significand: nat, power: nat)
    requires
        bits / 0x10_0000_0000_0000 == power + 1,
        0x10_0000_0000_0000 + bits % 0x10_0000_0000_0000 == significand,
    ensures
        number::double().places(bits as nat) == significand * pow2(power),
{
    lemma2_to64_rest();
    assert(pow2(52) == 0x10_0000_0000_0000);
    assert(bits as nat / pow2(52) == power + 1);
    assert(bits as nat % pow2(52) == bits % 0x10_0000_0000_0000);
}

proof fn parts_counted(bits: u32, significand: nat, power: nat)
    requires
        number::is_medium(bits),
        bits / 0x80_0000 == power + 123,
        0x80_0000 + bits % 0x80_0000 == significand,
    ensures
        number::parts_of(bits) == significand * pow2(power),
{
    number::parts_make_up(bits);
}

/// The settings that are kept from run to run.
#[derive(Clone, Copy, Debug, PartialEq, Eq, Structural)]
pub struct AppConfig {
    /// The width of the window, as the bits of a number of 64 bits.
    pub window_width: u64,
    /// The height of the window, as the bits of a number of 64 bits.
    pub window_height: u64,
    /// The size of the terminal's text, as the bits of a number of 32 bits.
    pub terminal_font_size: u32,
    /// How far the wheel scrolls, as the bits of a number of 32 bits.
    pub scroll_sensitivity: u32,
    /// The background of the terminal.
    pub terminal_background: RgbColor,
}

/// The settings where none were chosen.
pub open spec fn default_config() -> AppConfig {
    AppConfig {
        window_width: DEFAULT_WINDOW_WIDTH,
        window_height: DEFAULT_WINDOW_HEIGHT,
        terminal_font_size: DEFAULT_TERMINAL_FONT_SIZE,
        scroll_sensitivity: DEFAULT_SCROLL_SENSITIVITY,
        terminal_background: default_background_color(),
    }
}

impl Default for AppConfig {
    fn default() -> (config: Self)
        ensures
            config == default_config(),
    {
        AppConfig {
            window_width: DEFAULT_WINDOW_WIDTH,
            window_height: DEFAULT_WINDOW_HEIGHT,
            terminal_font_size: DEFAULT_TERMINAL_FONT_SIZE,
            scroll_sensitivity: DEFAULT_SCROLL_SENSITIVITY,
            terminal_background: RgbColor::default_background(),
        }
    }
}

/// The values that a file of settings gives, as the bits of the finite numbers that its texts write.
#[derive(Clone, Copy, Debug, PartialEq, Eq)]
pub struct ConfigValues {
    pub window_width: Option<u64>,
    pub window_height: Option<u64>,
    pub terminal_font_size: Option<u32>,
    pub scroll_sensitivity: Option<u32>,
}

/// A width or height, where what was given is a number above zero that is finite.
pub open spec fn dimension_for(value: Option<u64>, default: u64) -> u64 {
    match value {
        Some(value) if number::is_positive(value) => value,
        _ => default,
    }
}

fn valid_window_dimension(value: u64) -> (valid: bool)
    ensures
        valid == number::is_positive(value),
{
    0 < value && value < 0x7ff0_0000_0000_0000
}

fn dimension(value: Option<u64>, default: u64) -> (out: u64)
    ensures
        out == dimension_for(value, default),
{
    match value {
        Some(value) => if valid_window_dimension(value) {
            value
        } else {
            default
        },
        None => default,
    }
}

/// The settings for the values of a file.
pub open spec fn config_for(values: ConfigValues) -> AppConfig {
    AppConfig {
        window_width: dimension_for(values.window_width, DEFAULT_WINDOW_WIDTH),
        window_height: dimension_for(values.window_height, DEFAULT_WINDOW_HEIGHT),
        terminal_font_size: match values.terminal_font_size {
            Some(value) => font_size_for(value),
            None => DEFAULT_TERMINAL_FONT_SIZE,
        },
        scroll_sensitivity: match values.scroll_sensitivity {
            Some(value) => sensitivity_for(value),
            None => DEFAULT_SCROLL_SENSITIVITY,
        },
        terminal_background: default_background_color(),
    }
}

impl AppConfig {
    /// Whether the values are ones that the settings can have.
    pub open spec fn wf(self) -> bool {
        &&& number::is_positive(self.window_width)
        &&& number::is_positive(self.window_height)
        &&& MIN_TERMINAL_FONT_SIZE <= self.terminal_font_size <= MAX_TERMINAL_FONT_SIZE
        &&& MIN_SCROLL_SENSITIVITY <= self.scroll_sensitivity <= MAX_SCROLL_SENSITIVITY
    }

    /// The settings for the values of a file. What the file does not give, or gives wrongly, is as by
    /// default, and what is out of bounds is brought within them.
    pub fn from_values(values: &ConfigValues) -> (config: Self)
        ensures
            config == config_for(*values),
            config.wf(),
    {
        AppConfig {
            window_width: dimension(values.window_width, DEFAULT_WINDOW_WIDTH),
            window_height: dimension(values.window_height, DEFAULT_WINDOW_HEIGHT),
            terminal_font_size: match values.terminal_font_size {
                Some(value) => normalize_terminal_font_size(value),
                None => DEFAULT_TERMINAL_FONT_SIZE,
            },
            scroll_sensitivity: match values.scroll_sensitivity {
                Some(value) => normalize_scroll_sensitivity(value),
                None => DEFAULT_SCROLL_SENSITIVITY,
            },
            terminal_background: RgbColor::default_background(),
        }
    }

    /// Takes over the size of the window. Whether it changed: one that is no finite number above zero is
    /// not taken over.
    pub fn set_window_size(&mut self, width: u64, height: u64) -> (changed: bool)
        ensures
            changed == (number::is_positive(width) && number::is_positive(height) && (width != old(
                self,
            ).window_width || height != old(self).window_height)),
            *final(self) == if changed {
                AppConfig { window_width: width, window_height: height, ..*old(self) }
            } else {
                *old(self)
            },
    {
        if !valid_window_dimension(width) || !valid_window_dimension(height) {
            return false;
        }
        if self.window_width == width && self.window_height == height {
            return false;
        }
        self.window_width = width;
        self.window_height = height;
        true
    }

    /// Changes the size of the text by so many parts, within its bounds. Whether it changed.
    pub fn adjust_terminal_font_size(&mut self, delta: i64) -> (changed: bool)
        requires
            old(self).wf(),
        ensures
            ({
                let next = size_with(old(self).terminal_font_size, delta as int);
                &&& changed == !number::is_close(next, old(self).terminal_font_size)
                &&& *final(self) == if changed {
                    AppConfig { terminal_font_size: next, ..*old(self) }
                } else {
                    *old(self)
                }
            }),
            final(self).wf(),
    {
        let next: u32 = number::add_within(
            self.terminal_font_size,
            delta,
            MIN_TERMINAL_FONT_SIZE,
            MAX_TERMINAL_FONT_SIZE,
        );
        if number::close(next, self.terminal_font_size) {
            return false;
        }
        self.terminal_font_size = next;
        true
    }

    /// Changes the sensitivity of scrolling by so many parts, within its bounds. Whether it changed.
    pub fn adjust_scroll_sensitivity(&mut self, delta: i64) -> (changed: bool)
        requires
            old(self).wf(),
        ensures
            ({
                let next = sensitivity_with(old(self).scroll_sensitivity, delta as int);
                &&& changed == !number::is_close(next, old(self).scroll_sensitivity)
                &&& *final(self) == if changed {
                    AppConfig { scroll_sensitivity: next, ..*old(self) }
                } else {
                    *old(self)
                }
            }),
            final(self).wf(),
    {
        let next: u32 = number::add_within(
            self.scroll_sensitivity,
            delta,
            MIN_SCROLL_SENSITIVITY,
            MAX_SCROLL_SENSITIVITY,
        );
        if number::close(next, self.scroll_sensitivity) {
            return false;
        }
        self.scroll_sensitivity = next;
        true
    }
}

/// A size of the text with so many parts more, within its bounds.
pub open spec fn size_with(size: u32, delta: int) -> u32 {
    number::sum_within(size, delta, MIN_TERMINAL_FONT_SIZE, MAX_TERMINAL_FONT_SIZE)
}

/// A sensitivity of scrolling with so many parts more, within its bounds.
pub open spec fn sensitivity_with(sensitivity: u32, delta: int) -> u32 {
    number::sum_within(sensitivity, delta, MIN_SCROLL_SENSITIVITY, MAX_SCROLL_SENSITIVITY)
}

/// The file that keeps the settings, below the home of configuration files where there is one.
pub fn config_path(config_home: Option<Vec<u8>>) -> (path: Option<Vec<u8>>)
    ensures
        path is Some <==> config_home is Some,
        path is Some ==> path->0@ == launch::joined(
            launch::joined(config_home->0@, encode_utf8("ronsole"@)),
            encode_utf8("config"@),
        ),
{
    match config_home {
        Some(root) => Some(
            launch::join_path(
                launch::join_path(root.as_slice(), "ronsole".as_bytes()).as_slice(),
                "config".as_bytes(),
            ),
        ),
        None => None,
    }
}

/// The lines of a text.
pub open spec fn lines(chars: Seq<char>) -> Seq<Seq<char>>
    decreases chars.len(),
{
    if chars.len() == 0 {
        seq![Seq::empty()]
    } else {
        let before = lines(chars.drop_last());
        if chars.last() == '\n' {
            before.push(Seq::empty())
        } else {
            before.drop_last().push(before.last().push(chars.last()))
        }
    }
}

/// What stands before and after the first `=` of a line.
pub open spec fn around_equals(line: Seq<char>) -> Option<(Seq<char>, Seq<char>)> {
    text::around(line, '=', '=')
}

/// The value that a line gives to a setting.
pub open spec fn line_value(line: Seq<char>, key: Seq<char>) -> Option<Seq<char>> {
    match around_equals(text::trimmed(line)) {
        Some((name, value)) => if text::trimmed(name) == key {
            Some(text::trimmed(value))
        } else {
            None
        },
        None => None,
    }
}

/// The value that lines give to a setting: the last one.
pub open spec fn last_value(lines: Seq<Seq<char>>, key: Seq<char>) -> Option<Seq<char>>
    decreases lines.len(),
{
    if lines.len() == 0 {
        None
    } else {
        match line_value(lines.last(), key) {
            Some(value) => Some(value),
            None => last_value(lines.drop_last(), key),
        }
    }
}

/// What a file of settings says of each, as it is written there.
#[derive(Debug, PartialEq, Eq)]
pub struct ConfigEntries {
    pub window_width: Option<String>,
    pub window_height: Option<String>,
    pub terminal_font_size: Option<String>,
    pub scroll_sensitivity: Option<String>,
}

/// The contents of an optional text.
pub open spec fn text_view(value: Option<String>) -> Option<Seq<char>> {
    match value {
        Some(value) => Some(value@),
        None => None,
    }
}

impl ConfigEntries {
    /// Whether these are the values that lines give.
    pub open spec fn given_by(self, lines: Seq<Seq<char>>) -> bool {
        &&& text_view(self.window_width) == last_value(lines, "window_width"@)
        &&& text_view(self.window_height) == last_value(lines, "window_height"@)
        &&& text_view(self.terminal_font_size) == last_value(lines, "terminal_font_size"@)
        &&& text_view(self.scroll_sensitivity) == last_value(lines, "scroll_sensitivity"@)
    }

    /// Takes over what a line says.
    fn read_line(&mut self, line: &[char], Ghost(before): Ghost<Seq<Seq<char>>>)
        requires
            old(self).given_by(before),
        ensures
            final(self).given_by(before.push(line@)),
    {
        let ghost after = before.push(line@);
        assert(after.drop_last() =~= before);
        let content = text::trim(line);
        let at: Option<usize> = equals_at(content);
        let at: usize = match at {
            Some(at) => at,
            None => {
                return ;
            },
        };
        let (before_equals, rest) = content.split_at(at);
        let (_, after_equals) = rest.split_at(1);
        assert(before_equals@ =~= content@.take(at as int));
        assert(after_equals@ =~= content@.skip(at + 1));
        let name = text::trim(before_equals);
        let value = text::text_of(text::trim(after_equals));
        proof {
            keys_differ();
        }
        if text::is_text(name, "window_width") {
            self.window_width = Some(value);
        } else if text::is_text(name, "window_height") {
            self.window_height = Some(value);
        } else if text::is_text(name, "terminal_font_size") {
            self.terminal_font_size = Some(value);
        } else if text::is_text(name, "scroll_sensitivity") {
            self.scroll_sensitivity = Some(value);
        }
    }
}

proof fn keys_differ()
    ensures
        "window_width"@ != "window_height"@,
        "window_width"@ != "terminal_font_size"@,
        "window_width"@ != "scroll_sensitivity"@,
        "window_height"@ != "terminal_font_size"@,
        "window_height"@ != "scroll_sensitivity"@,
        "terminal_font_size"@ != "scroll_sensitivity"@,
{
    reveal_strlit("window_width");
    reveal_strlit("window_height");
    reveal_strlit("terminal_font_size");
    reveal_strlit("scroll_sensitivity");
    assert("window_width"@.len() == 12);
    assert("window_height"@.len() == 13);
    assert("terminal_font_size"@.len() == 18 && "terminal_font_size"@[0] == 't');
    assert("scroll_sensitivity"@.len() == 18 && "scroll_sensitivity"@[0] == 's');
}

/// The place of the first `=` of a line.
pub(crate) fn equals_at(line: &[char]) -> (at: Option<usize>)
    ensures
        match at {
            Some(at) => at < line@.len() && around_equals(line@) == Some(
                (line@.take(at as int), line@.skip(at + 1)),
            ),
            None => around_equals(line@) is None,
        },
{
    text::place_of_either(line, '=', '=')
}

/// What a file of settings says of each. Lines without `=` and settings with other names are passed
/// over.
pub fn config_entries(content: &str) -> (entries: ConfigEntries)
    ensures
        entries.given_by(lines(content@)),
{
    let chars = text::chars_of(content);
    let mut entries = ConfigEntries {
        window_width: None,
        window_height: None,
        terminal_font_size: None,
        scroll_sensitivity: None,
    };
    let mut line: Vec<char> = Vec::new();
    let ghost mut read: Seq<Seq<char>> = Seq::empty();
    let mut i: usize = 0;
    assert(read.push(line@) =~= lines(chars@.take(0)));
    while i < chars.len()
        invariant
            i <= chars@.len(),
            entries.given_by(read),
            read.push(line@) == lines(chars@.take(i as int)),
        decreases chars@.len() - i,
    {
        let ghost before = lines(chars@.take(i as int));
        assert(chars@.take(i + 1).drop_last() =~= chars@.take(i as int));
        assert(before.drop_last() =~= read);
        let c = chars[i];
        if c == '\n' {
            entries.read_line(line.as_slice(), Ghost(read));
            proof {
                read = read.push(line@);
            }
            line = Vec::new();
            assert(line@ =~= Seq::empty());
        } else {
            line.push(c);
        }
        i += 1;
    }
    assert(chars@.take(i as int) =~= chars@);
    entries.read_line(line.as_slice(), Ghost(read));
    entries
}

/// The bits of a number of 64 bits, where a text writes a finite one.
pub open spec fn double_given(value: Option<Seq<char>>) -> Option<u64> {
    match value {
        Some(chars) => reading::double_of(chars),
        None => None,
    }
}

/// The bits of a number of 32 bits, where a text writes a finite one.
pub open spec fn single_given(value: Option<Seq<char>>) -> Option<u32> {
    match value {
        Some(chars) => reading::single_of(chars),
        None => None,
    }
}

/// The settings that lines give.
pub open spec fn config_kept(lines: Seq<Seq<char>>) -> AppConfig {
    config_for(
        ConfigValues {
            window_width: double_given(last_value(lines, "window_width"@)),
            window_height: double_given(last_value(lines, "window_height"@)),
            terminal_font_size: single_given(last_value(lines, "terminal_font_size"@)),
            scroll_sensitivity: single_given(last_value(lines, "scroll_sensitivity"@)),
        },
    )
}

fn read_double(value: &Option<String>) -> (bits: Option<u64>)
    ensures
        bits == double_given(text_view(*value)),
{
    match value {
        Some(value) => reading::read_double(value.as_str()),
        None => None,
    }
}

fn read_single(value: &Option<String>) -> (bits: Option<u32>)
    ensures
        bits == single_given(text_view(*value)),
{
    match value {
        Some(value) => reading::read_single(value.as_str()),
        None => None,
    }
}

/// The settings that a text keeps. What it does not give, or gives wrongly, is as by default, and what
/// is out of bounds is brought within them.
pub fn parse_config_content(content: &str) -> (config: AppConfig)
    ensures
        config == config_kept(lines(content@)),
        config.wf(),
{
    let entries = config_entries(content);
    AppConfig::from_values(
        &ConfigValues {
            window_width: read_double(&entries.window_width),
            window_height: read_double(&entries.window_height),
            terminal_font_size: read_single(&entries.terminal_font_size),
            scroll_sensitivity: read_single(&entries.scroll_sensitivity),
        },
    )
}

/// The line that gives a value to a setting.
pub open spec fn setting(key: Seq<char>, value: Seq<char>) -> Seq<char> {
    key.push('=') + value
}

/// The text that keeps settings.
pub open spec fn config_text(config: AppConfig) -> Seq<char> {
    setting("window_width"@, number::thousandths(number::double_thousandths(config.window_width))).push('\n') + setting(
        "window_height"@,
        number::thousandths(number::double_thousandths(config.window_height)),
    ).push('\n') + setting(
        "terminal_font_size"@,
        number::hundredths(number::single_hundredths(config.terminal_font_size)),
    ).push('\n') + setting(
        "scroll_sensitivity"@,
        number::hundredths(number::single_hundredths(config.scroll_sensitivity)),
    ).push('\n')
}

/// The text that keeps the settings.
pub fn format_config_content(config: &AppConfig) -> (content: String)
    requires
        config.wf(),
    ensures
        content@ == config_text(*config),
{
    let mut content = String::new();
    content.push_str("window_width");
    content.push('=');
    number::push_double(&mut content, config.window_width);
    content.push('\n');
    content.push_str("window_height");
    content.push('=');
    number::push_double(&mut content, config.window_height);
    content.push('\n');
    content.push_str("terminal_font_size");
    content.push('=');
    number::push_single(&mut content, config.terminal_font_size);
    content.push('\n');
    content.push_str("scroll_sensitivity");
    content.push('=');
    number::push_single(&mut content, config.scroll_sensitivity);
    content.push('\n');
    assert(content@ =~= config_text(*config));
    content
}

/// Whether a text has no characters but digits and points.
spec fn is_plain(chars: Seq<char>) -> bool {
    &&& chars.len() > 0
    &&& forall|i: int| 0 <= i < chars.len() ==> ('0' <= (#[trigger] chars[i]) <= '9') || chars[i] == '.'
}

proof fn decimal_is_plain(n: nat)
    ensures
        is_plain(text::decimal(n)),
    decreases n,
{
    if n >= 10 {
        decimal_is_plain(n / 10);
    }
}

proof fn decimals_are_plain(n: nat)
    ensures
        is_plain(number::thousandths(n)),
        is_plain(number::hundredths(n)),
{
    decimal_is_plain(n / 1000);
    decimal_is_plain(n / 100);
}

proof fn line_grows(chars: Seq<char>, more: Seq<char>)
    requires
        forall|i: int| 0 <= i < more.len() ==> more[i] != '\n',
    ensures
        lines(chars).len() > 0,
        lines(chars + more) == lines(chars).drop_last().push(lines(chars).last() + more),
    decreases more.len(),
{
    lines_are_some(chars);
    if more.len() == 0 {
        assert(chars + more =~= chars);
        assert(lines(chars).last() + more =~= lines(chars).last());
        assert(lines(chars).drop_last().push(lines(chars).last()) =~= lines(chars));
    } else {
        line_grows(chars, more.drop_last());
        assert((chars + more).drop_last() =~= chars + more.drop_last());
        assert((chars + more).last() == more.last());
        let before = lines(chars + more.drop_last());
        assert(before.drop_last() =~= lines(chars).drop_last());
        assert(before.last().push(more.last()) =~= lines(chars).last() + more);
    }
}

proof fn lines_are_some(chars: Seq<char>)
    ensures
        lines(chars).len() > 0,
    decreases chars.len(),
{
    if chars.len() > 0 {
        lines_are_some(chars.drop_last());
    }
}

proof fn line_is_added(chars: Seq<char>, line: Seq<char>)
    requires
        lines(chars).len() > 0,
        lines(chars).last().len() == 0,
        forall|i: int| 0 <= i < line.len() ==> line[i] != '\n',
    ensures
        lines(chars + line.push('\n')) == lines(chars).drop_last().push(line).push(Seq::empty()),
{
    line_grows(chars, line);
    assert(lines(chars).last() + line =~= line);
    assert((chars + line.push('\n')).drop_last() =~= chars + line);
}

/// Whether a name has neither white space nor `=`.
spec fn is_name(chars: Seq<char>) -> bool {
    &&& chars.len() > 0
    &&& forall|i: int|
        0 <= i < chars.len() ==> ('a' <= (#[trigger] chars[i]) <= 'z') || chars[i] == '_'
}

proof fn setting_is_read(key: Seq<char>, value: Seq<char>, asked: Seq<char>)
    requires
        is_name(key),
        is_plain(value),
    ensures
        line_value(setting(key, value), asked) == if key == asked {
            Some(value)
        } else {
            None
        },
        forall|i: int| 0 <= i < setting(key, value).len() ==> setting(key, value)[i] != '\n',
{
    let line = setting(key, value);
    assert(line[0] == key[0]);
    assert(line.last() == value.last());
    assert(text::trimmed(line) == line);
    assert(line[key.len() as int] == '=');
    assert forall|i: int| 0 <= i < key.len() implies line[i] != '=' by {
        assert(line[i] == key[i]);
    }
    text::splits_at_first(line, '=', '=', key.len() as int);
    assert(line.take(key.len() as int) =~= key);
    assert(line.skip(key.len() as int + 1) =~= value);
    assert(text::trimmed(key) == key);
    assert(text::trimmed(value) == value);
}

/// What is kept of the settings is found again, each as it was written.
proof fn settings_are_found_again(config: AppConfig)
    ensures
        ({
            let kept = lines(config_text(config));
            &&& last_value(kept, "window_width"@) == Some(number::thousandths(number::double_thousandths(config.window_width)))
            &&& last_value(kept, "window_height"@) == Some(number::thousandths(number::double_thousandths(config.window_height)))
            &&& last_value(kept, "terminal_font_size"@) == Some(
                number::hundredths(number::single_hundredths(config.terminal_font_size)),
            )
            &&& last_value(kept, "scroll_sensitivity"@) == Some(
                number::hundredths(number::single_hundredths(config.scroll_sensitivity)),
            )
        }),
{
    keys_differ();
    keys_are_names();
    let width = number::thousandths(number::double_thousandths(config.window_width));
    let height = number::thousandths(number::double_thousandths(config.window_height));
    let size = number::hundredths(number::single_hundredths(config.terminal_font_size));
    let sensitivity = number::hundredths(number::single_hundredths(config.scroll_sensitivity));
    decimals_are_plain(number::double_thousandths(config.window_width));
    decimals_are_plain(number::double_thousandths(config.window_height));
    decimals_are_plain(number::single_hundredths(config.terminal_font_size));
    decimals_are_plain(number::single_hundredths(config.scroll_sensitivity));
    let first = setting("window_width"@, width);
    let second = setting("window_height"@, height);
    let third = setting("terminal_font_size"@, size);
    let fourth = setting("scroll_sensitivity"@, sensitivity);
    assert forall|asked: Seq<char>|
        #![trigger last_value(lines(config_text(config)), asked)]
        is_name(asked) implies last_value(lines(config_text(config)), asked) == if asked
        == "scroll_sensitivity"@ {
        Some(sensitivity)
    } else if asked == "terminal_font_size"@ {
        Some(size)
    } else if asked == "window_height"@ {
        Some(height)
    } else if asked == "window_width"@ {
        Some(width)
    } else {
        None
    } by {
        setting_is_read("window_width"@, width, asked);
        setting_is_read("window_height"@, height, asked);
        setting_is_read("terminal_font_size"@, size, asked);
        setting_is_read("scroll_sensitivity"@, sensitivity, asked);
        let none = Seq::<char>::empty();
        assert(lines(none) =~= seq![Seq::<char>::empty()]);
        line_is_added(none, first);
        let one = none + first.push('\n');
        line_is_added(one, second);
        let two = one + second.push('\n');
        line_is_added(two, third);
        let three = two + third.push('\n');
        line_is_added(three, fourth);
        assert(three + fourth.push('\n') =~= config_text(config));
        let kept = seq![first, second, third, fourth, Seq::<char>::empty()];
        assert(lines(config_text(config)) =~= kept);
        assert(text::trimmed(Seq::<char>::empty()) =~= Seq::empty());
        assert(kept.drop_last() =~= seq![first, second, third, fourth]);
        assert(kept.drop_last().drop_last() =~= seq![first, second, third]);
        assert(kept.drop_last().drop_last().drop_last() =~= seq![first, second]);
        assert(kept.drop_last().drop_last().drop_last().drop_last() =~= seq![first]);
        reveal_with_fuel(last_value, 6);
    }
}

proof fn keys_are_names()
    ensures
        is_name("window_width"@),
        is_name("window_height"@),
        is_name("terminal_font_size"@),
        is_name("scroll_sensitivity"@),
{
    reveal_strlit("window_width");
    reveal_strlit("window_height");
    reveal_strlit("terminal_font_size");
    reveal_strlit("scroll_sensitivity");
}

/// Whether a decimal with three places writes the number.
pub open spec fn has_three_places(bits: u64) -> bool {
    exists|n: nat| #[trigger] number::double().is_nearest(bits as nat, n, 1000)
}

/// Whether a decimal with two places writes the number.
pub open spec fn has_two_places(bits: u32) -> bool {
    exists|n: nat| #[trigger] number::single().is_nearest(bits as nat, n, 100)
}

/// Settings that are kept are read back the same: a width and a height with no more than three places,
/// a size of text and a sensitivity with no more than two. The background is not kept.
pub proof fn settings_are_read_back(config: AppConfig)
    requires
        config.wf(),
        has_three_places(config.window_width),
        has_three_places(config.window_height),
        has_two_places(config.terminal_font_size),
        has_two_places(config.scroll_sensitivity),
    ensures
        config_kept(lines(config_text(config))) == (AppConfig {
            terminal_background: default_background_color(),
            ..config
        }),
{
    settings_are_found_again(config);
    let width = choose|n: nat|
        #[trigger] number::double().is_nearest(config.window_width as nat, n, 1000);
    reading::written_double_is_read_back(config.window_width, width);
    let height = choose|n: nat|
        #[trigger] number::double().is_nearest(config.window_height as nat, n, 1000);
    reading::written_double_is_read_back(config.window_height, height);
    let size = choose|n: nat|
        #[trigger] number::single().is_nearest(config.terminal_font_size as nat, n, 100);
    reading::written_single_is_read_back(config.terminal_font_size, size);
    let sensitivity = choose|n: nat|
        #[trigger] number::single().is_nearest(config.scroll_sensitivity as nat, n, 100);
    reading::written_single_is_read_back(config.scroll_sensitivity, sensitivity);
}

} // verus!
