//! What holds of all pictures, rows, versions and colours.
use vstd::prelude::*;

use super::atlas;
use super::atlas::{AtlasCursor, AtlasRect};
use super::context;
use super::context::{ContextPriority, GlContextPlan, GlContextPriorityRequest};
use super::glyphs;
use super::glyphs::{GlyphModel, GlyphOutcome, Raster, RasterImage};
use super::palette;
use super::palette::PartsOf255;
use super::rows;
use super::rows::CellBackground;
use super::version;
use super::version::GraphicsDiagnostics;
use crate::number::reading;
use crate::search::TerminalSearchMatch;
use crate::terminal::Cell;
use crate::text;

verus! {

/// A picture that fits the row stands two pixels behind the last one in it. One that does not starts the
/// next row, two pixels below the highest of this one; and one that does not fit there either starts the
/// emptied texture, two pixels from its edges. The texture has 1024 pixels each way.
pub proof fn pictures_stand_side_by_side(cursor: AtlasCursor, width: i32, height: i32)
    requires
        cursor.wf(),
        width > 0,
        height > 0,
    ensures
        ({
            let (placement, after) = atlas::placed(cursor, width, height);
            let in_row = cursor.x + width + 2 <= 1024;
            let below = cursor.y + cursor.row_height + 2;
            let y = if in_row {
                cursor.y as int
            } else {
                below
            };
            let fits = y + height + 2 <= 1024;
            &&& placement.emptied == !fits
            &&& fits && in_row ==> placement.rect == Some(
                AtlasRect { x: cursor.x, y: cursor.y, width, height },
            ) && after.y == cursor.y && after.x == cursor.x + width + 2
            &&& fits && !in_row && width <= 1020 ==> placement.rect == Some(
                AtlasRect { x: 2, y: below as i32, width, height },
            ) && after.y == below && after.x == width + 4
            &&& !fits && width <= 1020 && height <= 1020 ==> placement.rect == Some(
                AtlasRect { x: 2, y: 2, width, height },
            ) && after == (AtlasCursor { x: (width + 4) as i32, y: 2, row_height: height })
            &&& width > 1020 || height > 1020 ==> placement.rect is None
            &&& placement.rect is Some ==> after.row_height >= height
            &&& fits && in_row ==> after.row_height == if cursor.row_height < height {
                height
            } else {
                cursor.row_height
            }
            &&& fits && !in_row && width <= 1020 ==> after.row_height == height
        }),
        atlas::empty_atlas() == (AtlasCursor { x: 2, y: 2, row_height: 0 }),
        atlas::PRIMARY_ATLAS_INTERNAL_FORMAT == 0x8229,
        atlas::PRIMARY_ATLAS_UPLOAD_FORMAT == 0x1903,
{
}

/// The characters that are emojis where nothing else is said, from and to.
pub open spec fn emoji_ranges() -> Seq<(u32, u32)> {
    seq![
        (0x231a, 0x231b),
        (0x23e9, 0x23f3),
        (0x25fb, 0x25fe),
        (0x2614, 0x2615),
        (0x2648, 0x2653),
        (0x267f, 0x267f),
        (0x2693, 0x2693),
        (0x26a1, 0x26a1),
        (0x26aa, 0x26ab),
        (0x26bd, 0x26be),
        (0x26c4, 0x26c5),
        (0x26ce, 0x26ce),
        (0x26d4, 0x26d4),
        (0x26ea, 0x26ea),
        (0x26f2, 0x26f3),
        (0x26f5, 0x26f5),
        (0x26fa, 0x26fa),
        (0x26fd, 0x26fd),
        (0x2705, 0x2705),
        (0x270a, 0x270b),
        (0x2728, 0x2728),
        (0x274c, 0x274c),
        (0x274e, 0x274e),
        (0x2753, 0x2755),
        (0x2757, 0x2757),
        (0x2795, 0x2797),
        (0x27b0, 0x27b0),
        (0x27bf, 0x27bf),
        (0x2b07, 0x2b07),
        (0x2b1b, 0x2b1c),
        (0x2b50, 0x2b50),
        (0x2b55, 0x2b55),
        (0x1f000, 0x1faff),
        (0x1fc00, 0x1ffff),
    ]
}

/// A character is an emoji where it lies in one of the ranges, and only there.
pub proof fn emojis_lie_in_ranges(c: char)
    ensures
        glyphs::is_emoji(c) <==> exists|i: int|
            0 <= i < emoji_ranges().len() && (#[trigger] emoji_ranges()[i]).0 <= c as u32
                <= emoji_ranges()[i].1,
{
    let all = emoji_ranges();
    let code = c as u32;
    if glyphs::is_emoji(c) {
        let i: int = if 0x231a <= code <= 0x231b {
            0
        } else if 0x23e9 <= code <= 0x23f3 {
            1
        } else if 0x25fb <= code <= 0x25fe {
            2
        } else if 0x2614 <= code <= 0x2615 {
            3
        } else if 0x2648 <= code <= 0x2653 {
            4
        } else if 0x267f <= code <= 0x267f {
            5
        } else if 0x2693 <= code <= 0x2693 {
            6
        } else if 0x26a1 <= code <= 0x26a1 {
            7
        } else if 0x26aa <= code <= 0x26ab {
            8
        } else if 0x26bd <= code <= 0x26be {
            9
        } else if 0x26c4 <= code <= 0x26c5 {
            10
        } else if 0x26ce <= code <= 0x26ce {
            11
        } else if 0x26d4 <= code <= 0x26d4 {
            12
        } else if 0x26ea <= code <= 0x26ea {
            13
        } else if 0x26f2 <= code <= 0x26f3 {
            14
        } else if 0x26f5 <= code <= 0x26f5 {
            15
        } else if 0x26fa <= code <= 0x26fa {
            16
        } else if 0x26fd <= code <= 0x26fd {
            17
        } else if 0x2705 <= code <= 0x2705 {
            18
        } else if 0x270a <= code <= 0x270b {
            19
        } else if 0x2728 <= code <= 0x2728 {
            20
        } else if 0x274c <= code <= 0x274c {
            21
        } else if 0x274e <= code <= 0x274e {
            22
        } else if 0x2753 <= code <= 0x2755 {
            23
        } else if 0x2757 <= code <= 0x2757 {
            24
        } else if 0x2795 <= code <= 0x2797 {
            25
        } else if 0x27b0 <= code <= 0x27b0 {
            26
        } else if 0x27bf <= code <= 0x27bf {
            27
        } else if 0x2b07 <= code <= 0x2b07 {
            28
        } else if 0x2b1b <= code <= 0x2b1c {
            29
        } else if 0x2b50 <= code <= 0x2b50 {
            30
        } else if 0x2b55 <= code <= 0x2b55 {
            31
        } else if 0x1f000 <= code <= 0x1faff {
            32
        } else {
            33
        };
        assert(all[i].0 <= code <= all[i].1);
    }
    if exists|i: int| 0 <= i < all.len() && (#[trigger] all[i]).0 <= code <= all[i].1 {
        let i = choose|i: int| 0 <= i < all.len() && (#[trigger] all[i]).0 <= code <= all[i].1;
        assert(0 <= i < 34);
    }
}

/// A character without a picture is missing or empty, white space is always empty, and a picture with
/// pixels is put into the texture in colour only where it has colour, colour is preferred and there is
/// such a texture; one that has not four bytes for each pixel there, or one byte elsewhere, is missing.
pub proof fn pictures_go_to_their_texture(
    model: GlyphModel,
    c: char,
    image: RasterImage,
    prefer_color: bool,
    texture: bool,
)
    requires
        image.width <= 0x7fff_ffff,
        image.height <= 0x7fff_ffff,
    ensures
        ({
            let (outcome, after) = model.finished(
                c,
                Some(Raster { image: Some(image) }),
                prefer_color,
                texture,
            );
            let color = image.color && prefer_color;
            let drawn = !text::laws::unicode_space().contains(c) && image.width > 0 && image.height > 0;
            let size = image.width * image.height;
            let whole = if color {
                image.bytes == size * 4
            } else {
                image.bytes == size
            };
            let width = image.width as i32;
            let height = image.height as i32;
            &&& !drawn ==> outcome is Empty && after == model
            &&& drawn && (!whole || color && !texture) ==> outcome is Missing && after == model
            &&& drawn && whole && color && texture ==> {
                let (placement, cursor) = atlas::placed(model.color, width, height);
                &&& after.color == cursor && after.alpha == model.alpha
                &&& after.icons == model.icons
                &&& placement.rect matches Some(rect) ==> outcome == GlyphOutcome::Color(rect)
                &&& placement.rect is None ==> outcome is Missing
                &&& placement.emptied ==> after.terminal == glyphs::no_glyphs() && after.ui
                    == glyphs::no_glyphs()
                &&& !placement.emptied ==> after.terminal == model.terminal && after.ui == model.ui
            }
            &&& drawn && whole && !color ==> {
                let (placement, cursor) = atlas::placed(model.alpha, width, height);
                &&& after.alpha == cursor
                &&& placement.rect matches Some(rect) ==> outcome == GlyphOutcome::Alpha(rect)
                &&& placement.rect is None ==> outcome is Missing
                &&& placement.emptied ==> after.terminal == glyphs::no_glyphs() && after.ui
                    == glyphs::no_glyphs() && after.icons == glyphs::no_icons() && after.color
                    == atlas::empty_atlas()
                &&& !placement.emptied ==> after == (GlyphModel { alpha: cursor, ..model })
            }
        }),
        model.finished(c, None, prefer_color, texture) == (GlyphOutcome::Missing, model),
        model.finished(c, Some(Raster { image: None }), prefer_color, texture) == (
            GlyphOutcome::Empty,
            model,
        ),
        glyphs::no_icons().len() == 4,
        glyphs::MAX_VERTICES == 32_768,
{
    text::laws::space_is_of_unicode(c);
    let size = image.width * image.height;
    assert(image.width * image.height * 4 == size * 4);
    assert(image.width * image.height * 1 == size);
}

/// Drawing ends so many rows above the last as the terminal is scrolled, and starts as many rows before
/// it as can be seen and one more, or with the first.
pub proof fn drawn_rows_end_at_the_view(total: int, visible: int, scrolled: int)
    requires
        total > 0,
        visible > 0,
        scrolled >= 0,
    ensures
        ({
            let (start, end) = rows::visible_rows_of(total, visible, scrolled);
            &&& scrolled < total ==> end + scrolled == total
            &&& scrolled >= total ==> end == 1
            &&& end > visible ==> start + visible + 1 == end
            &&& end <= visible ==> start == 0
        }),
        rows::visible_rows_of(0, visible, scrolled) == (0int, 0int),
        rows::visible_rows_of(total, 0, scrolled) == (0int, 0int),
{
}

/// A selection is the same from either end: it holds both of its cells, every cell of the rows between
/// them, and in their rows the cells on the inner side; nothing outside.
pub proof fn selection_runs_from_cell_to_cell(
    sx: usize,
    sy: usize,
    ex: usize,
    ey: usize,
    column: int,
    row: int,
)
    ensures
        rows::is_selected(Some((sx, sy, ex, ey)), column, row) == rows::is_selected(
            Some((ex, ey, sx, sy)),
            column,
            row,
        ),
        rows::is_selected(Some((sx, sy, ex, ey)), sx as int, sy as int),
        rows::is_selected(Some((sx, sy, ex, ey)), ex as int, ey as int),
        sy < row < ey ==> rows::is_selected(Some((sx, sy, ex, ey)), column, row),
        (row < sy && row < ey) || (row > sy && row > ey) ==> !rows::is_selected(
            Some((sx, sy, ex, ey)),
            column,
            row,
        ),
        sy < ey ==> (rows::is_selected(Some((sx, sy, ex, ey)), column, sy as int) <==> column >= sx),
        sy < ey ==> (rows::is_selected(Some((sx, sy, ex, ey)), column, ey as int) <==> column <= ex),
        sy == ey ==> (rows::is_selected(Some((sx, sy, ex, ey)), column, sy as int) <==> (sx <= column
            <= ex || ex <= column <= sx)),
        !rows::is_selected(None, column, row),
{
}

proof fn first_reaching_is_first(
    results: Seq<TerminalSearchMatch>,
    from: int,
    to: int,
    column: int,
)
    requires
        0 <= from <= to <= results.len(),
    ensures
        from <= rows::first_reaching(results, from, to, column) <= to,
        forall|i: int|
            from <= i < rows::first_reaching(results, from, to, column) ==> (
            #[trigger] results[i]).end_x < column,
        rows::first_reaching(results, from, to, column) < to ==> results[rows::first_reaching(
            results,
            from,
            to,
            column,
        )].end_x >= column,
    decreases to - from,
{
    if from < to && results[from].end_x < column {
        first_reaching_is_first(results, from + 1, to, column);
    }
}

/// Where the results of a row follow each other, a cell is drawn on the colour of a result where one
/// covers it, on that of the active one where it is that, and otherwise by the selection. The second
/// cell of a wide character goes with the first.
pub proof fn results_are_drawn_over_the_selection(
    row: Seq<Cell>,
    column: int,
    y: int,
    selection: Option<(usize, usize, usize, usize)>,
    results: Seq<TerminalSearchMatch>,
    range: (int, int),
    active: Option<TerminalSearchMatch>,
    i: int,
)
    requires
        0 <= range.0 <= range.1 <= results.len(),
        range.0 <= i < range.1,
        forall|a: int, b: int|
            range.0 <= a < b < range.1 ==> (#[trigger] results[a]).end_x < (
            #[trigger] results[b]).start_x,
        forall|a: int|
            range.0 <= a < range.1 ==> (#[trigger] results[a]).start_x <= results[a].end_x,
    ensures
        ({
            let background = rows::background_of(
                row,
                column,
                y,
                selection,
                results,
                range,
                active,
            );
            let x = if row[column].wide_spacer && column > 0 {
                column - 1
            } else {
                column
            };
            &&& results[i].start_x <= x <= results[i].end_x ==> background == if active == Some(
                results[i],
            ) {
                CellBackground::ActiveMatch
            } else {
                CellBackground::Match
            }
            &&& background is Match || background is ActiveMatch ==> exists|k: int|
                range.0 <= k < range.1 && (#[trigger] results[k]).start_x <= x <= results[k].end_x
            &&& background is Selected ==> rows::is_selected(selection, x, y)
            &&& background is Own ==> !rows::is_selected(selection, x, y)
        }),
{
    let x = rows::logical_column(row, column);
    first_reaching_is_first(results, range.0, range.1, x);
    let found = rows::first_reaching(results, range.0, range.1, x);
    if results[i].start_x <= x <= results[i].end_x {
        if found < i {
            assert(results[found].end_x < results[i].start_x);
        }
        assert(found == i);
    }
    if found < range.1 && results[found].start_x <= x {
        assert(results[found].start_x <= x <= results[found].end_x);
    }
}

/// Without results of the row the selection decides alone.
pub proof fn selection_is_drawn_without_results(
    row: Seq<Cell>,
    column: int,
    y: int,
    selection: Option<(usize, usize, usize, usize)>,
    results: Seq<TerminalSearchMatch>,
    at: int,
    active: Option<TerminalSearchMatch>,
)
    requires
        !row[column].wide_spacer,
    ensures
        rows::background_of(row, column, y, selection, results, (at, at), active)
            == if rows::is_selected(selection, column, y) {
            CellBackground::Selected
        } else {
            CellBackground::Own
        },
{
}

/// The count shows the place of the active result, counted from one, and how many there are; without
/// results it says so to a query where there is room, and otherwise nothing.
pub proof fn count_shows_the_place(query: int, results: nat, current: usize, room: bool)
    ensures
        results > 0 ==> rows::counter_text(query, results as int, Some(current), room)
            == text::decimal((current + 1) as nat) + seq!['/'] + text::decimal(results),
        results > 0 ==> rows::counter_text(query, results as int, None, room) == text::decimal(1)
            + seq!['/'] + text::decimal(results),
        query > 0 ==> rows::counter_text(query, 0, None, true) == seq!['Н', 'е', 'т'],
        rows::counter_text(query, 0, None, false).len() == 0,
        rows::counter_text(0, 0, None, room).len() == 0,
{
    reveal_strlit("/");
    reveal_strlit("Нет");
    assert("/"@ =~= seq!['/']);
    assert("Нет"@ =~= seq!['Н', 'е', 'т']);
}

/// A text without white space at its ends stays as it is when it is trimmed.
proof fn trimmed_stays(chars: Seq<char>)
    requires
        chars.len() > 0,
        !text::laws::unicode_space().contains(chars[0]),
        !text::laws::unicode_space().contains(chars.last()),
    ensures
        text::trimmed(chars) == chars,
{
    let from = text::laws::trimming_takes_the_space_around(chars);
    let left = text::trimmed(chars);
    if from > 0 {
        assert(text::laws::unicode_space().contains(chars[0]));
    }
    if from + left.len() < chars.len() {
        assert(text::laws::unicode_space().contains(chars[chars.len() - 1]));
    }
    assert(left =~= chars);
}

proof fn brackets_are_no_space()
    ensures
        !text::laws::unicode_space().contains('['),
        !text::laws::unicode_space().contains(']'),
{
    let all = text::laws::unicode_space();
    if all.contains('[') {
        let i = choose|i: int| 0 <= i < all.len() && all[i] == '[';
        assert(0 <= i < 25);
    }
    if all.contains(']') {
        let i = choose|i: int| 0 <= i < all.len() && all[i] == ']';
        assert(0 <= i < 25);
    }
}

/// A name in square brackets opens its group, without the white space around the name; a line that does
/// not begin and end with them opens none.
pub proof fn brackets_open_a_group(name: Seq<char>, line: Seq<char>)
    ensures
        palette::group_name(seq!['['] + name + seq![']']) == Some(text::trimmed(name)),
        text::trimmed(line).len() == 0 || text::trimmed(line)[0] != '[' || text::trimmed(line).last()
            != ']' ==> palette::group_name(line) is None,
        palette::group_name(seq!['[']) is None,
{
    brackets_are_no_space();
    let whole = seq!['['] + name + seq![']'];
    trimmed_stays(whole);
    assert(whole.subrange(1, whole.len() - 1) =~= name);
    trimmed_stays(seq!['[']);
}

/// The group that is open is that of the last line that opened one.
pub proof fn last_group_is_open(lines: Seq<Seq<char>>, at: int, count: int)
    requires
        0 <= at < count <= lines.len(),
        palette::group_name(lines[at]) is Some,
        forall|i: int| at < i < count ==> palette::group_name(#[trigger] lines[i]) is None,
    ensures
        palette::open_group(lines, count) == palette::group_name(lines[at]),
    decreases count,
{
    if at < count - 1 {
        assert(palette::group_name(lines[count - 1]) is None);
        last_group_is_open(lines, at, count - 1);
    }
}

/// The value of a key is that of the first line in its group that gives one, whatever comes after it.
pub proof fn first_value_counts(
    lines: Seq<Seq<char>>,
    at: int,
    count: int,
    group: Seq<char>,
    key: Seq<char>,
)
    requires
        0 <= at < count <= lines.len(),
        palette::open_group(lines, at) == Some(group),
        palette::key_value(lines[at], key) is Some,
        palette::first_value(lines, at, group, key) is None,
    ensures
        palette::first_value(lines, count, group, key) == palette::key_value(lines[at], key),
    decreases count,
{
    if at < count - 1 {
        first_value_counts(lines, at, count - 1, group, key);
    }
}

/// A line gives a key what stands behind its first `=`, where the key stands before it; the white space
/// around the line goes, and around the name.
pub proof fn key_stands_before_equals(line: Seq<char>, key: Seq<char>, at: int)
    requires
        0 <= at < text::trimmed(line).len(),
        text::trimmed(line)[at] == '=',
        forall|i: int| 0 <= i < at ==> text::trimmed(line)[i] != '=',
        palette::group_name(line) is None,
    ensures
        palette::key_value(line, key) == if text::trimmed(text::trimmed(line).take(at)) == key {
            Some(text::trimmed(line).skip(at + 1))
        } else {
            None
        },
{
    text::splits_at_first(text::trimmed(line), '=', '=', at);
}

/// What joins parts with a comma between them.
pub open spec fn joined_parts(parts: Seq<Seq<char>>) -> Seq<char>
    decreases parts.len(),
{
    if parts.len() == 0 {
        Seq::empty()
    } else if parts.len() == 1 {
        parts[0]
    } else {
        joined_parts(parts.drop_last()).push(',') + parts.last()
    }
}

/// The parts between commas hold none, and joined with commas they are the text.
pub proof fn parts_join_to_the_text(chars: Seq<char>)
    ensures
        palette::comma_parts(chars).len() > 0,
        joined_parts(palette::comma_parts(chars)) == chars,
        forall|i: int, j: int|
            0 <= i < palette::comma_parts(chars).len() && 0 <= j < palette::comma_parts(
                chars,
            )[i].len() ==> #[trigger] palette::comma_parts(chars)[i][j] != ',',
    decreases chars.len(),
{
    let all = palette::comma_parts(chars);
    if chars.len() == 0 {
        assert(joined_parts(all) =~= chars);
    } else {
        let before = palette::comma_parts(chars.drop_last());
        parts_join_to_the_text(chars.drop_last());
        assert(chars.drop_last().push(chars.last()) =~= chars);
        if chars.last() == ',' {
            assert(all.drop_last() =~= before);
            assert(joined_parts(all) =~= chars);
        } else {
            assert(all.drop_last() =~= before.drop_last());
            assert(all.last() == before.last().push(chars.last()));
            if before.len() == 1 {
                assert(joined_parts(before) == before[0]);
                assert(joined_parts(all) =~= chars);
            } else {
                let start = joined_parts(before.drop_last()).push(',');
                assert(joined_parts(before) == start + before.last());
                assert(start + all.last() =~= (start + before.last()).push(chars.last()));
                assert(joined_parts(all) =~= chars);
            }
        }
        assert forall|i: int, j: int| 0 <= i < all.len() && 0 <= j < all[i].len() implies
            #[trigger] all[i][j] != ',' by {
            if i < before.len() && j < before[i].len() {
                assert(before[i][j] != ',');
            }
        }
    }
}

/// A colour has three parts, red, green and blue in this order, each a number from 0 to 255; with a part
/// that is none there is no colour. Without a colour what is selected is 114, 89, 175.
pub proof fn colours_have_three_parts(value: Seq<char>)
    ensures
        ({
            let parts = palette::comma_parts(value);
            let read = palette::color_of(palette::color_parts(Some(value)));
            &&& parts.len() != 3 ==> read is None
            &&& parts.len() == 3 ==> {
                let red = palette::color_part(text::trimmed(parts[0]));
                let green = palette::color_part(text::trimmed(parts[1]));
                let blue = palette::color_part(text::trimmed(parts[2]));
                &&& red is None || green is None || blue is None ==> read is None
                &&& red is Some && green is Some && blue is Some ==> read == Some(
                    PartsOf255 { red: red->0, green: green->0, blue: blue->0 },
                )
            }
        }),
        palette::color_of(palette::color_parts(None)) is None,
        match reading::single_of(value) {
            Some(bits) => if bits <= 0x437f_0000 || bits == 0x8000_0000 {
                palette::color_part(value) == Some(bits)
            } else {
                palette::color_part(value) is None
            },
            None => palette::color_part(value) is None,
        },
        palette::default_accent() == (PartsOf255 {
            red: 0x42e4_0000,
            green: 0x42b2_0000,
            blue: 0x432f_0000,
        }),
{
}

proof fn digits_make_a_run(digits: Seq<char>, rest: Seq<char>)
    requires
        forall|i: int| 0 <= i < digits.len() ==> '0' <= #[trigger] digits[i] <= '9',
        rest.len() == 0 || !('0' <= rest[0] <= '9'),
    ensures
        version::digit_run(digits + rest) == digits.len(),
    decreases digits.len(),
{
    let all = digits + rest;
    if digits.len() > 0 {
        assert(all[0] == digits[0]);
        assert(all.skip(1) =~= digits.skip(1) + rest);
        assert forall|i: int| 0 <= i < digits.skip(1).len() implies '0' <= #[trigger] digits.skip(
            1,
        )[i] <= '9' by {
            assert(digits.skip(1)[i] == digits[i + 1]);
        }
        digits_make_a_run(digits.skip(1), rest);
    } else {
        assert(all =~= rest);
    }
}

proof fn number_of_decimal(n: nat)
    ensures
        version::number(text::decimal(n)) == n,
    decreases n,
{
    if n >= 10 {
        number_of_decimal(n / 10);
        assert(text::decimal(n).drop_last() =~= text::decimal(n / 10));
    } else {
        assert(text::decimal(n).drop_last() =~= Seq::empty());
        assert(version::number(text::decimal(n).drop_last()) == 0);
    }
}

proof fn decimal_leads(n: nat, rest: Seq<char>)
    requires
        rest.len() == 0 || !('0' <= rest[0] <= '9'),
    ensures
        version::digit_run(text::decimal(n) + rest) == text::decimal(n).len(),
        text::decimal(n).len() > 0,
        version::leading_number(text::decimal(n) + rest) == if n <= 255 {
            Some(n as int)
        } else {
            None
        },
{
    text::laws::decimal_is_digits(n);
    digits_make_a_run(text::decimal(n), rest);
    number_of_decimal(n);
    assert((text::decimal(n) + rest).take(text::decimal(n).len() as int) =~= text::decimal(n));
}

/// Two numbers of eight bits with a point between them are read as a version, whatever follows them, at
/// the start or behind words that begin with no digit.
pub proof fn version_is_two_numbers(before: Seq<char>, major: nat, minor: nat, rest: Seq<char>)
    requires
        before.len() == 0 || text::is_white_space(before.last()),
        forall|i: int|
            0 <= i < before.len() && '0' <= #[trigger] before[i] <= '9' ==> i > 0
                && !text::is_white_space(before[i - 1]),
        rest.len() == 0 || !('0' <= rest[0] <= '9'),
    ensures
        version::graphics_version(
            before + (text::decimal(major) + (seq!['.'] + (text::decimal(minor) + rest))),
        ) == if major <= 255 && minor <= 255 {
            Some((major as int, minor as int))
        } else {
            None
        },
{
    let tail = text::decimal(minor) + rest;
    let word = text::decimal(major) + (seq!['.'] + tail);
    let chars = before + word;
    decimal_leads(major, seq!['.'] + tail);
    decimal_leads(minor, rest);
    text::laws::decimal_is_digits(major);
    assert forall|i: int| 0 <= i < before.len() implies !(version::is_digit(#[trigger] chars[i]) && (i
        == 0 || text::is_white_space(chars[i - 1]))) by {
        assert(chars[i] == before[i]);
        if i > 0 {
            assert(chars[i - 1] == before[i - 1]);
        }
    }
    assert(chars[before.len() as int] == text::decimal(major)[0]);
    version_starts_there(chars, 0, before.len() as int);
    assert(chars.skip(before.len() as int) =~= word);
    let dot = text::decimal(major).len() as int;
    assert(word[dot] == '.');
    assert(word.skip(dot + 1) =~= tail);
}

/// Without digits on both sides of a point there is no version, and none in a text whose words begin with
/// no digit.
pub proof fn version_needs_both_numbers(before: Seq<char>, major: nat, rest: Seq<char>)
    requires
        before.len() == 0 || text::is_white_space(before.last()),
        forall|i: int|
            0 <= i < before.len() && '0' <= #[trigger] before[i] <= '9' ==> i > 0
                && !text::is_white_space(before[i - 1]),
        rest.len() == 0 || !('0' <= rest[0] <= '9'),
    ensures
        version::graphics_version(before + (text::decimal(major) + (seq!['.'] + rest))) is None,
        rest.len() == 0 || rest[0] != '.' ==> version::graphics_version(
            before + (text::decimal(major) + rest),
        ) is None,
        version::graphics_version(before) is None,
{
    let pointed = text::decimal(major) + (seq!['.'] + rest);
    let bare = text::decimal(major) + rest;
    let dot = text::decimal(major).len() as int;
    decimal_leads(major, seq!['.'] + rest);
    decimal_leads(major, rest);
    text::laws::decimal_is_digits(major);
    assert forall|i: int| 0 <= i < before.len() implies !(version::is_digit(
        #[trigger] (before + pointed)[i],
    ) && (i == 0 || text::is_white_space((before + pointed)[i - 1]))) by {
        assert((before + pointed)[i] == before[i]);
        if i > 0 {
            assert((before + pointed)[i - 1] == before[i - 1]);
        }
    }
    assert forall|i: int| 0 <= i < before.len() implies !(version::is_digit(
        #[trigger] (before + bare)[i],
    ) && (i == 0 || text::is_white_space((before + bare)[i - 1]))) by {
        assert((before + bare)[i] == before[i]);
        if i > 0 {
            assert((before + bare)[i - 1] == before[i - 1]);
        }
    }
    assert((before + pointed)[before.len() as int] == text::decimal(major)[0]);
    assert((before + bare)[before.len() as int] == text::decimal(major)[0]);
    version_starts_there(before + pointed, 0, before.len() as int);
    version_starts_there(before + bare, 0, before.len() as int);
    assert((before + pointed).skip(before.len() as int) =~= pointed);
    assert((before + bare).skip(before.len() as int) =~= bare);
    assert(pointed.skip(dot + 1) =~= rest);
    let nothing = Seq::<char>::empty();
    digits_make_a_run(nothing, rest);
    assert(nothing + rest =~= rest);
    assert(version::digit_run(rest) == 0);
    if rest.len() > 0 {
        assert(bare[dot] == rest[0]);
    }
    version_starts_nowhere(before, 0);
}

proof fn version_starts_nowhere(chars: Seq<char>, from: int)
    requires
        0 <= from <= chars.len(),
        forall|i: int|
            0 <= i < chars.len() && '0' <= #[trigger] chars[i] <= '9' ==> i > 0
                && !text::is_white_space(chars[i - 1]),
    ensures
        version::version_start(chars, from) is None,
    decreases chars.len() - from,
{
    if from < chars.len() {
        version_starts_nowhere(chars, from + 1);
    }
}

proof fn version_starts_there(chars: Seq<char>, from: int, at: int)
    requires
        0 <= from <= at < chars.len(),
        version::is_digit(chars[at]),
        at == 0 || text::is_white_space(chars[at - 1]),
        forall|i: int|
            from <= i < at ==> !(version::is_digit(#[trigger] chars[i]) && (i == 0
                || text::is_white_space(chars[i - 1]))),
    ensures
        version::version_start(chars, from) == Some(at),
    decreases at - from,
{
    if from < at {
        assert(!(version::is_digit(chars[from]) && (from == 0 || text::is_white_space(
            chars[from - 1],
        ))));
        version_starts_there(chars, from + 1, at);
    }
}

/// A version will do from 3.3 on, and from 3.0 on where it is of the embedded kind; one that cannot be
/// read will not.
pub proof fn version_three_will_do(major: int, minor: int)
    requires
        minor >= 0,
    ensures
        version::supported(Some((major, minor)), false) == (major >= 4 || (major == 3 && minor >= 3)),
        version::supported(Some((major, minor)), true) == (major >= 3),
        !version::supported(None, false) && !version::supported(None, true),
{
}

/// What is said of a library that is too old names the version that its kind needs, the one that was
/// found and its device.
pub proof fn too_old_libraries_are_named(gl: GraphicsDiagnostics)
    ensures
        version::is_embedded(gl) ==> version::requirement_text(gl) == "OpenGL ES 3.0"@
            + " or newer is required; detected "@ + gl.version@ + " ("@ + gl.renderer@ + ")"@,
        !version::is_embedded(gl) ==> version::requirement_text(gl) == "OpenGL 3.3"@
            + " or newer is required; detected "@ + gl.version@ + " ("@ + gl.renderer@ + ")"@,
        version::GLES_PREAMBLE@ == "#version 300 es\nprecision highp float;\nprecision highp int;\n"@,
        version::DESKTOP_PREAMBLE@ == "#version 330 core\n"@,
        forall|at: int|
            #![trigger gl.version@.subrange(at, at + 9)]
            0 <= at && at + 9 <= gl.version@.len() && gl.version@.subrange(at, at + 9)
                == "OpenGL ES"@ ==> version::is_embedded(gl),
{
    reveal_strlit("OpenGL ES");
    assert forall|at: int|
        #![trigger gl.version@.subrange(at, at + 9)]
        0 <= at && at + 9 <= gl.version@.len() && gl.version@.subrange(at, at + 9)
            == "OpenGL ES"@ implies version::is_embedded(gl) by {
        assert(crate::automation::screen::holds_at(gl.version@, "OpenGL ES"@, at));
    }
}

/// Contexts are asked for in this order: 4.1 and 3.3 of the core profile, then 3.0 of the embedded kind,
/// each with the high priority before the default one.
pub proof fn contexts_are_asked_for_in_order()
    ensures
        context::ATTEMPTS == 6,
        context::attempt(0) == (
            GlContextPlan::Desktop { major: 4, minor: 1 },
            GlContextPriorityRequest::High,
        ),
        context::attempt(1) == (
            GlContextPlan::Desktop { major: 4, minor: 1 },
            GlContextPriorityRequest::Default,
        ),
        context::attempt(2) == (
            GlContextPlan::Desktop { major: 3, minor: 3 },
            GlContextPriorityRequest::High,
        ),
        context::attempt(3) == (
            GlContextPlan::Desktop { major: 3, minor: 3 },
            GlContextPriorityRequest::Default,
        ),
        context::attempt(4) == (
            GlContextPlan::Gles { major: 3, minor: 0 },
            GlContextPriorityRequest::High,
        ),
        context::attempt(5) == (
            GlContextPlan::Gles { major: 3, minor: 0 },
            GlContextPriorityRequest::Default,
        ),
{
}

/// Plans, priorities and flags have these names.
pub proof fn contexts_have_names(plan: GlContextPlan)
    ensures
        context::plan_label(GlContextPlan::Desktop { major: 4, minor: 1 }) == "OpenGL 4.1 Core"@,
        context::plan_label(GlContextPlan::Desktop { major: 3, minor: 3 }) == "OpenGL 3.3 Core"@,
        context::plan_label(GlContextPlan::Gles { major: 3, minor: 0 }) == "OpenGL ES 3.0"@,
        plan != (GlContextPlan::Desktop { major: 4, minor: 1 }) && plan != (GlContextPlan::Desktop {
            major: 3,
            minor: 3,
        }) && plan != (GlContextPlan::Gles { major: 3, minor: 0 }) ==> context::plan_label(plan)
            == "unsupported graphics plan"@,
        context::request_label(GlContextPriorityRequest::High) == "High"@,
        context::request_label(GlContextPriorityRequest::Default) == "Default"@,
        context::priority_text(ContextPriority::Low) == "Low"@,
        context::priority_text(ContextPriority::Medium) == "Medium"@,
        context::priority_text(ContextPriority::High) == "High"@,
        context::priority_text(ContextPriority::Realtime) == "Realtime"@,
        context::flag(true) == "true"@,
        context::flag(false) == "false"@,
        context::known_flag(Some(true)) == "Some(true)"@,
        context::known_flag(Some(false)) == "Some(false)"@,
        context::known_flag(None) == "None"@,
{
}

/// The report shows each value behind its name.
pub proof fn report_names_its_values(
    report: context::ContextReport,
    gl: GraphicsDiagnostics,
    scale: Seq<char>,
    error: Seq<char>,
)
    ensures
        context::context_lines(report) == "Context request: "@ + context::plan_label(report.plan)
            + " / "@ + context::request_label(report.request)
            + " priority\nActual context priority: "@ + context::priority_text(report.priority),
        context::library_lines(gl) == "\nOpenGL: "@ + gl.version@ + "\nGLSL: "@
            + gl.shading_language@ + "\nGPU: "@ + gl.vendor@ + " / "@ + gl.renderer@,
        context::framebuffer_line(report) == "\nFramebuffer: hardware="@ + context::flag(
            report.hardware_accelerated,
        ) + " samples="@ + text::decimal(report.num_samples as nat) + " depth="@ + text::decimal(
            report.depth_size as nat,
        ) + " stencil="@ + text::decimal(report.stencil_size as nat) + " alpha="@ + text::decimal(
            report.alpha_size as nat,
        ) + " srgb="@ + context::flag(report.srgb_capable) + " transparent="@ + context::known_flag(
            report.transparency,
        ),
        context::window_lines(report, scale) == "\nFramebuffer size: "@ + text::decimal(
            report.width as nat,
        ) + "x"@ + text::decimal(report.height as nat) + "\nScale factor: "@ + scale
            + "\nSwap interval: Wait(1), applied="@ + context::flag(report.swap_interval_applied),
        context::error_line((report.plan, report.request), error) == context::plan_label(report.plan)
            + " / "@ + context::request_label(report.request) + " priority: "@ + error + "\n"@,
{
}

/// Of two framebuffers one that hardware draws into ranks first, and of two alike the one with fewer
/// samples.
pub proof fn hardware_ranks_before_samples(
    config: context::FramebufferConfig,
    other: context::FramebufferConfig,
)
    ensures
        config.hardware_accelerated && !other.hardware_accelerated ==> context::ranks_before(
            config,
            other,
        ),
        config.hardware_accelerated == other.hardware_accelerated ==> context::ranks_before(
            config,
            other,
        ) == (config.num_samples < other.num_samples),
        !config.hardware_accelerated && other.hardware_accelerated ==> !context::ranks_before(
            config,
            other,
        ),
{
}

/// The vendor that a setting names is read without regard to case; another name leaves the choice to the
/// system, and no setting to the program.
pub proof fn vendors_are_named(chars: Seq<char>)
    ensures
        ({
            let name = text::trimmed(chars);
            let read = crate::egl::egl_preference(Some(chars));
            &&& text::same_but_case(name, seq!['a', 'u', 't', 'o']) <==> read is Auto
            &&& text::same_but_case(name, seq!['n', 'v', 'i', 'd', 'i', 'a']) <==> read is Nvidia
            &&& text::same_but_case(name, seq!['m', 'e', 's', 'a']) <==> read is Mesa
        }),
        crate::egl::egl_preference(None) is Auto,
        crate::egl::NVIDIA_EGL_VENDOR@ == "/usr/share/glvnd/egl_vendor.d/10_nvidia.json"@,
        crate::egl::MESA_EGL_VENDOR@ == "/usr/share/glvnd/egl_vendor.d/50_mesa.json"@,
{
    reveal_strlit("auto");
    reveal_strlit("nvidia");
    reveal_strlit("mesa");
    let auto = seq!['a', 'u', 't', 'o'];
    let mesa = seq!['m', 'e', 's', 'a'];
    assert("auto"@ =~= auto);
    assert("nvidia"@ =~= seq!['n', 'v', 'i', 'd', 'i', 'a']);
    assert("mesa"@ =~= mesa);
    let name = text::trimmed(chars);
    if text::same_but_case(name, auto) && text::same_but_case(name, mesa) {
        assert(text::ascii_lower(name[0]) == text::ascii_lower(auto[0]));
        assert(text::ascii_lower(name[0]) == text::ascii_lower(mesa[0]));
    }
}

/// A tab is touched on its close button or on the rest of it.
pub proof fn tabs_are_touched_on_either_part(tab: rows::TabContact)
    ensures
        tab.close ==> rows::is_touched(tab),
        tab.body ==> rows::is_touched(tab),
        !tab.close && !tab.body ==> !rows::is_touched(tab),
{
}

} // verus!
