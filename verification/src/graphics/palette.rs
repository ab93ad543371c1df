//! The colour that the desktop selects text with.
use vstd::prelude::*;

use crate::config;
use crate::number::reading;
use crate::text;

verus! {

/// The name of the group that a line opens, without the white space around both.
pub open spec fn group_name(line: Seq<char>) -> Option<Seq<char>> {
    let line = text::trimmed(line);
    if line.len() >= 2 && line[0] == '[' && line.last() == ']' {
        Some(text::trimmed(line.subrange(1, line.len() - 1)))
    } else {
        None
    }
}

/// The group that is open behind the first `count` lines.
pub open spec fn open_group(lines: Seq<Seq<char>>, count: int) -> Option<Seq<char>>
    decreases count,
{
    if count <= 0 {
        None
    } else {
        match group_name(lines[count - 1]) {
            Some(name) => Some(name),
            None => open_group(lines, count - 1),
        }
    }
}

/// The value that a line gives to a key: what follows its first `=`.
pub open spec fn key_value(line: Seq<char>, key: Seq<char>) -> Option<Seq<char>> {
    match config::around_equals(text::trimmed(line)) {
        Some((name, value)) => if group_name(line) is None && text::trimmed(name) == key {
            Some(value)
        } else {
            None
        },
        None => None,
    }
}

/// The first value that the first `count` lines give to a key of a group.
pub open spec fn first_value(
    lines: Seq<Seq<char>>,
    count: int,
    group: Seq<char>,
    key: Seq<char>,
) -> Option<Seq<char>>
    decreases count,
{
    if count <= 0 {
        None
    } else {
        match first_value(lines, count - 1, group, key) {
            Some(value) => Some(value),
            None => if open_group(lines, count - 1) == Some(group) {
                key_value(lines[count - 1], key)
            } else {
                None
            },
        }
    }
}

/// The parts of a text between commas.
pub open spec fn comma_parts(chars: Seq<char>) -> Seq<Seq<char>>
    decreases chars.len(),
{
    if chars.len() == 0 {
        seq![Seq::empty()]
    } else {
        let before = comma_parts(chars.drop_last());
        if chars.last() == ',' {
            before.push(Seq::empty())
        } else {
            before.drop_last().push(before.last().push(chars.last()))
        }
    }
}

/// The contents of optional characters.
pub open spec fn chars_view(value: Option<Vec<char>>) -> Option<Seq<char>> {
    match value {
        Some(chars) => Some(chars@),
        None => None,
    }
}

/// How far a file was read.
struct GroupReader {
    group: Option<Vec<char>>,
    value: Option<Vec<char>>,
}

/// More lines behind the first do not change what the first say.
proof fn earlier_lines_stand(
    lines: Seq<Seq<char>>,
    line: Seq<char>,
    count: int,
    group: Seq<char>,
    key: Seq<char>,
)
    requires
        0 <= count <= lines.len(),
    ensures
        open_group(lines.push(line), count) == open_group(lines, count),
        first_value(lines.push(line), count, group, key) == first_value(lines, count, group, key),
    decreases count,
{
    if count > 0 {
        earlier_lines_stand(lines, line, count - 1, group, key);
        assert(lines.push(line)[count - 1] == lines[count - 1]);
    }
}

impl GroupReader {
    spec fn has_read(self, lines: Seq<Seq<char>>, group: Seq<char>, key: Seq<char>) -> bool {
        &&& chars_view(self.group) == open_group(lines, lines.len() as int)
        &&& chars_view(self.value) == first_value(lines, lines.len() as int, group, key)
    }

    fn read_line(
        &mut self,
        line: &[char],
        group: &[char],
        key: &[char],
        Ghost(before): Ghost<Seq<Seq<char>>>,
    )
        requires
            old(self).has_read(before, group@, key@),
        ensures
            final(self).has_read(before.push(line@), group@, key@),
    {
        proof {
            earlier_lines_stand(before, line@, before.len() as int, group@, key@);
            assert(before.push(line@)[before.len() as int] == line@);
        }
        let content = text::trim(line);
        let len: usize = content.len();
        if len >= 2 && content[0] == '[' && content[len - 1] == ']' {
            let name = text::trim(vstd::slice::slice_subrange(content, 1, len - 1));
            self.group = Some(copy_of(name));
            return ;
        }
        if self.value.is_some() {
            return ;
        }
        let in_group = match &self.group {
            Some(open) => text::same_chars(open.as_slice(), group),
            None => false,
        };
        if !in_group {
            return ;
        }
        match config::equals_at(content) {
            Some(at) => {
                let (name, rest) = content.split_at(at);
                let (_, value) = rest.split_at(1);
                assert(name@ =~= content@.take(at as int));
                assert(value@ =~= content@.skip(at + 1));
                if text::same_chars(text::trim(name), key) {
                    self.value = Some(copy_of(value));
                }
            },
            None => {},
        }
    }
}

fn copy_of(chars: &[char]) -> (out: Vec<char>)
    ensures
        out@ == chars@,
{
    let mut out: Vec<char> = Vec::new();
    let mut i: usize = 0;
    while i < chars.len()
        invariant
            i <= chars@.len(),
            out@ == chars@.take(i as int),
        decreases chars@.len() - i,
    {
        out.push(chars[i]);
        i += 1;
        assert(chars@.take(i as int) =~= chars@.take(i - 1).push(chars@[i - 1]));
    }
    assert(chars@.take(i as int) =~= chars@);
    out
}

/// The contents of the parts of a text.
pub open spec fn parts_view(parts: Seq<Vec<char>>) -> Seq<Seq<char>> {
    Seq::new(parts.len(), |i: int| parts[i]@)
}

fn split_at_commas(chars: &[char]) -> (parts: Vec<Vec<char>>)
    ensures
        parts_view(parts@) == comma_parts(chars@),
{
    let mut parts: Vec<Vec<char>> = Vec::new();
    let mut last: Vec<char> = Vec::new();
    let mut i: usize = 0;
    assert(parts_view(parts@).push(last@) =~= comma_parts(chars@.take(0)));
    while i < chars.len()
        invariant
            i <= chars@.len(),
            parts_view(parts@).push(last@) == comma_parts(chars@.take(i as int)),
        decreases chars@.len() - i,
    {
        let ghost done = parts_view(parts@);
        let ghost open = last@;
        proof {
            assert(chars@.take(i + 1).drop_last() =~= chars@.take(i as int));
            assert(done.push(open).drop_last() =~= done);
        }
        if chars[i] == ',' {
            parts.push(last);
            last = Vec::new();
            assert(parts_view(parts@) =~= done.push(open));
            assert(last@ =~= Seq::empty());
        } else {
            last.push(chars[i]);
        }
        i += 1;
    }
    let ghost done = parts_view(parts@);
    let ghost open = last@;
    parts.push(last);
    assert(parts_view(parts@) =~= done.push(open));
    assert(chars@.take(i as int) =~= chars@);
    parts
}

/// The three parts of a colour as they are written, without the white space around them.
#[derive(Debug, PartialEq, Eq)]
pub struct ColorParts {
    pub red: String,
    pub green: String,
    pub blue: String,
}

/// The parts of a colour that a value writes: three, between commas.
pub open spec fn color_parts(value: Option<Seq<char>>) -> Option<(Seq<char>, Seq<char>, Seq<char>)> {
    match value {
        Some(chars) => {
            let parts = comma_parts(chars);
            if parts.len() == 3 {
                Some((text::trimmed(parts[0]), text::trimmed(parts[1]), text::trimmed(parts[2])))
            } else {
                None
            }
        },
        None => None,
    }
}

/// The parts of the colour that a settings file of the desktop gives to a key of a group: those of
/// the first value that it gives.
pub fn kde_color_parts(content: &str, group: &str, key: &str) -> (parts: Option<ColorParts>)
    ensures
        match color_parts(
            first_value(
                config::lines(content@),
                config::lines(content@).len() as int,
                group@,
                key@,
            ),
        ) {
            Some((red, green, blue)) => parts matches Some(out) && out.red@ == red && out.green@
                == green && out.blue@ == blue,
            None => parts is None,
        },
{
    let chars = text::chars_of(content);
    let group = text::chars_of(group);
    let key = text::chars_of(key);
    let mut reader = GroupReader { group: None, value: None };
    let mut line: Vec<char> = Vec::new();
    let ghost mut read: Seq<Seq<char>> = Seq::empty();
    let mut i: usize = 0;
    assert(read.push(line@) =~= config::lines(chars@.take(0)));
    while i < chars.len()
        invariant
            i <= chars@.len(),
            reader.has_read(read, group@, key@),
            read.push(line@) == config::lines(chars@.take(i as int)),
        decreases chars@.len() - i,
    {
        assert(chars@.take(i + 1).drop_last() =~= chars@.take(i as int));
        assert(config::lines(chars@.take(i as int)).drop_last() =~= read);
        let c = chars[i];
        if c == '\n' {
            reader.read_line(line.as_slice(), group.as_slice(), key.as_slice(), Ghost(read));
            proof {
                read = read.push(line@);
            }
            line = Vec::new();
            assert(line@ =~= Seq::empty());
        } else {
            line.push(c);
        }
        i += 1;
    }
    assert(chars@.take(i as int) =~= chars@);
    reader.read_line(line.as_slice(), group.as_slice(), key.as_slice(), Ghost(read));
    match reader.value {
        Some(value) => {
            let parts = split_at_commas(value.as_slice());
            assert(parts@.len() == parts_view(parts@).len());
            if parts.len() != 3 {
                return None;
            }
            Some(
                ColorParts {
                    red: text::text_of(text::trim(parts[0].as_slice())),
                    green: text::text_of(text::trim(parts[1].as_slice())),
                    blue: text::text_of(text::trim(parts[2].as_slice())),
                },
            )
        },
        None => None,
    }
}

/// A colour: for each part the bits of a number of 32 bits, out of 255.
#[derive(Clone, Copy, Debug, PartialEq, Eq, Structural)]
pub struct PartsOf255 {
    pub red: u32,
    pub green: u32,
    pub blue: u32,
}

/// The colour where the desktop gives none: 114, 89 and 175.
pub open spec fn default_accent() -> PartsOf255 {
    PartsOf255 { red: 0x42e4_0000, green: 0x42b2_0000, blue: 0x432f_0000 }
}

/// The part of a colour that a text writes, where it writes a number from zero to 255.
pub open spec fn color_part(chars: Seq<char>) -> Option<u32> {
    match reading::single_of(chars) {
        Some(bits) if bits <= 0x437f_0000 || bits == 0x8000_0000 => Some(bits),
        _ => None,
    }
}

/// The colour that three parts write.
pub open spec fn color_of(parts: Option<(Seq<char>, Seq<char>, Seq<char>)>) -> Option<PartsOf255> {
    match parts {
        Some((red, green, blue)) => match (color_part(red), color_part(green), color_part(blue)) {
            (Some(red), Some(green), Some(blue)) => Some(PartsOf255 { red, green, blue }),
            _ => None,
        },
        None => None,
    }
}

/// The colour that a settings file of the desktop gives to a key of a group.
pub open spec fn kde_color(content: Seq<char>, group: Seq<char>, key: Seq<char>) -> Option<PartsOf255> {
    let lines = config::lines(content);
    color_of(color_parts(first_value(lines, lines.len() as int, group, key)))
}

fn read_part(value: &str) -> (part: Option<u32>)
    ensures
        part == color_part(value@),
{
    match reading::read_single(value) {
        Some(bits) => if bits <= 0x437f_0000 || bits == 0x8000_0000 {
            Some(bits)
        } else {
            None
        },
        None => None,
    }
}

/// The colour that a settings file of the desktop gives to a key of a group.
pub fn parse_kde_color(content: &str, group: &str, key: &str) -> (color: Option<PartsOf255>)
    ensures
        color == kde_color(content@, group@, key@),
{
    let parts = kde_color_parts(content, group, key)?;
    match (
        read_part(parts.red.as_str()),
        read_part(parts.green.as_str()),
        read_part(parts.blue.as_str()),
    ) {
        (Some(red), Some(green), Some(blue)) => Some(PartsOf255 { red, green, blue }),
        _ => None,
    }
}

/// The colour of what is selected, by the settings file of the desktop where there is one.
pub fn terminal_accent_from_kde_content(content: Option<&str>) -> (color: PartsOf255)
    ensures
        color == match content {
            Some(content) => match kde_color(content@, "Colors:Selection"@, "BackgroundNormal"@) {
                Some(color) => color,
                None => default_accent(),
            },
            None => default_accent(),
        },
{
    let default = PartsOf255 { red: 0x42e4_0000, green: 0x42b2_0000, blue: 0x432f_0000 };
    match content {
        Some(content) => match parse_kde_color(content, "Colors:Selection", "BackgroundNormal") {
            Some(color) => color,
            None => default,
        },
        None => default,
    }
}

/// A value counts only in its group: lines before the group was opened give nothing.
pub proof fn values_need_their_group(
    lines: Seq<Seq<char>>,
    count: int,
    group: Seq<char>,
    key: Seq<char>,
)
    requires
        0 <= count <= lines.len(),
        forall|i: int| 0 <= i < count ==> group_name(#[trigger] lines[i]) != Some(group),
    ensures
        first_value(lines, count, group, key) is None,
        open_group(lines, count) != Some(group),
    decreases count,
{
    if count > 0 {
        values_need_their_group(lines, count - 1, group, key);
        assert(group_name(lines[count - 1]) != Some(group));
    }
}

} // verus!
