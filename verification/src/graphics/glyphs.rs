//! Which picture a character is drawn with.
use vstd::prelude::*;

use super::atlas;
use super::atlas::{AtlasCursor, AtlasRect};
use crate::text;
use rustc_hash::FxHashMap;

verus! {

/// How many corners of triangles are drawn at once.
pub const MAX_VERTICES: usize = 32_768;

/// Whether what was collected is drawn before `additional` corners join it.
pub fn batch_is_full(collected: usize, additional: usize) -> (full: bool)
    ensures
        full == (collected + additional > MAX_VERTICES),
{
    collected > MAX_VERTICES || additional > MAX_VERTICES - collected
}

/// Whether a character is drawn as an emoji where nothing else is said.
pub open spec fn is_emoji(c: char) -> bool {
    let code = c as u32;
    ||| 0x231a <= code <= 0x231b
    ||| 0x23e9 <= code <= 0x23f3
    ||| 0x25fb <= code <= 0x25fe
    ||| 0x2614 <= code <= 0x2615
    ||| 0x2648 <= code <= 0x2653
    ||| code == 0x267f
    ||| code == 0x2693
    ||| code == 0x26a1
    ||| 0x26aa <= code <= 0x26ab
    ||| 0x26bd <= code <= 0x26be
    ||| 0x26c4 <= code <= 0x26c5
    ||| code == 0x26ce
    ||| code == 0x26d4
    ||| code == 0x26ea
    ||| 0x26f2 <= code <= 0x26f3
    ||| code == 0x26f5
    ||| code == 0x26fa
    ||| code == 0x26fd
    ||| code == 0x2705
    ||| 0x270a <= code <= 0x270b
    ||| code == 0x2728
    ||| code == 0x274c
    ||| code == 0x274e
    ||| 0x2753 <= code <= 0x2755
    ||| code == 0x2757
    ||| 0x2795 <= code <= 0x2797
    ||| code == 0x27b0
    ||| code == 0x27bf
    ||| code == 0x2b07
    ||| 0x2b1b <= code <= 0x2b1c
    ||| code == 0x2b50
    ||| code == 0x2b55
    ||| 0x1f000 <= code <= 0x1faff
    ||| 0x1fc00 <= code <= 0x1ffff
}

/// Whether a character is drawn as an emoji where nothing else is said.
pub fn default_emoji_presentation(c: char) -> (emoji: bool)
    ensures
        emoji == is_emoji(c),
{
    let code: u32 = c as u32;
    if code < 0x26aa {
        (0x231a <= code && code <= 0x231b) || (0x23e9 <= code && code <= 0x23f3) || (0x25fb <= code
            && code <= 0x25fe) || (0x2614 <= code && code <= 0x2615) || (0x2648 <= code && code
            <= 0x2653) || code == 0x267f || code == 0x2693 || code == 0x26a1
    } else if code < 0x2705 {
        code <= 0x26ab || (0x26bd <= code && code <= 0x26be) || (0x26c4 <= code && code <= 0x26c5)
            || code == 0x26ce || code == 0x26d4 || code == 0x26ea || (0x26f2 <= code && code
            <= 0x26f3) || code == 0x26f5 || code == 0x26fa || code == 0x26fd
    } else if code < 0x2b07 {
        code == 0x2705 || (0x270a <= code && code <= 0x270b) || code == 0x2728 || code == 0x274c
            || code == 0x274e || (0x2753 <= code && code <= 0x2755) || code == 0x2757 || (0x2795
            <= code && code <= 0x2797) || code == 0x27b0 || code == 0x27bf
    } else {
        code == 0x2b07 || (0x2b1b <= code && code <= 0x2b1c) || code == 0x2b50 || code == 0x2b55
            || (0x1f000 <= code && code <= 0x1faff) || (0x1fc00 <= code && code <= 0x1ffff)
    }
}

/// Whether the terminal draws a character as text whatever else is said: the check marks.
pub fn terminal_force_text_presentation(c: char) -> (forced: bool)
    ensures
        forced == (c == '\u{2714}' || c == '\u{2713}'),
{
    c == '\u{2714}' || c == '\u{2713}'
}

/// How a cell of the terminal wants its character.
#[derive(Clone, Copy, Debug, PartialEq, Eq, Structural)]
pub enum CellPresentation {
    /// As the character is by itself.
    Auto,
    /// As text.
    Text,
    /// As an emoji.
    Emoji,
}

/// Whether a character of a cell is asked for in colour, in one colour, or as it is by itself.
pub fn terminal_color_wish(c: char, presentation: CellPresentation) -> (wish: Option<bool>)
    ensures
        wish == if c == '\u{2714}' || c == '\u{2713}' {
            Some(false)
        } else {
            match presentation {
                CellPresentation::Text => Some(false),
                CellPresentation::Emoji => Some(true),
                CellPresentation::Auto => None,
            }
        },
{
    if terminal_force_text_presentation(c) {
        Some(false)
    } else {
        match presentation {
            CellPresentation::Text => Some(false),
            CellPresentation::Emoji => Some(true),
            CellPresentation::Auto => None,
        }
    }
}

/// Whether a character takes no room in a line of the window: line ends and what only chooses a
/// form.
pub fn one_line_ui_char_is_zero_width(c: char) -> (zero: bool)
    ensures
        zero == (c == '\n' || c == '\r' || c == '\u{FE0E}' || c == '\u{FE0F}' || c == '\u{200D}'),
{
    c == '\n' || c == '\r' || c == '\u{FE0E}' || c == '\u{FE0F}' || c == '\u{200D}'
}

/// The number of a wish for colour.
pub open spec fn wish_code(wish: Option<bool>) -> int {
    match wish {
        None => 0,
        Some(color) => if color {
            2
        } else {
            1
        },
    }
}

/// The key of a character of the terminal.
pub open spec fn glyph_key(c: char, wish: Option<bool>) -> u64 {
    (c as u32 * 4 + wish_code(wish)) as u64
}

/// The key of a character of the window.
pub open spec fn ui_key(c: char) -> u64 {
    c as u64
}

fn key_of(c: char, wish: Option<bool>) -> (key: u64)
    ensures
        key == glyph_key(c, wish),
{
    let code: u64 = match wish {
        None => 0,
        Some(color) => if color {
            2
        } else {
            1
        },
    };
    c as u64 * 4 + code
}

/// Characters and wishes that differ have keys that differ.
pub proof fn keys_tell_apart(c: char, wish: Option<bool>, other: char, other_wish: Option<bool>)
    ensures
        glyph_key(c, wish) == glyph_key(other, other_wish) <==> c == other && wish == other_wish,
{
}

/// What a map of `rustc_hash` holds.
pub uninterp spec fn contents(map: FxHashMap<u64, u64>) -> Map<u64, u64>;

/// A map that holds nothing.
pub open spec fn no_glyphs() -> Map<u64, u64> {
    Map::empty()
}

/// `rustc_hash::FxBuildHasher`, the hasher of a `FxHashMap`.
#[verifier::external_type_specification]
#[verifier::external_body]
pub struct ExFxBuildHasher(rustc_hash::FxBuildHasher);

/// `FxHashMap::default` makes a map that holds nothing.
#[verifier::external_body]
fn empty_map() -> (made: FxHashMap<u64, u64>)
    ensures
        contents(made) == no_glyphs(),
{
    FxHashMap::default()
}

/// `FxHashMap::get` gives what the map holds for a key, and nothing where it holds nothing.
#[verifier::external_body]
fn find(map: &FxHashMap<u64, u64>, key: u64) -> (found: Option<u64>)
    ensures
        found == if contents(*map).contains_key(key) {
            Some(contents(*map)[key])
        } else {
            None
        },
{
    map.get(&key).copied()
}

/// `FxHashMap::insert` makes the map hold a value for a key, in place of what it held for it, and
/// leaves the rest as it is.
#[verifier::external_body]
fn keep(map: &mut FxHashMap<u64, u64>, key: u64, value: u64)
    ensures
        contents(*final(map)) == contents(*old(map)).insert(key, value),
{
    map.insert(key, value);
}

/// `FxHashMap::clear` leaves nothing in the map.
#[verifier::external_body]
fn forget(map: &mut FxHashMap<u64, u64>)
    ensures
        contents(*final(map)) == no_glyphs(),
{
    map.clear();
}

/// How many icons the search field has.
pub const ICONS: usize = 4;

/// The pictures that the textures hold, each under a number by which the renderer knows it.
pub struct GlyphCache {
    terminal: FxHashMap<u64, u64>,
    ui: FxHashMap<u64, u64>,
    icons: Vec<Option<u64>>,
    alpha: AtlasCursor,
    color: AtlasCursor,
}

/// The pictures that the textures hold.
#[verifier::ext_equal]
pub struct GlyphModel {
    /// Those of the terminal, by character and wish.
    pub terminal: Map<u64, u64>,
    /// Those of the window, by character.
    pub ui: Map<u64, u64>,
    /// Those of the search field.
    pub icons: Seq<Option<u64>>,
    /// The texture of one colour.
    pub alpha: AtlasCursor,
    /// The texture in colour.
    pub color: AtlasCursor,
}

/// No icon has a picture.
pub open spec fn no_icons() -> Seq<Option<u64>> {
    Seq::new(ICONS as nat, |i: int| None)
}

/// Both textures are empty.
pub open spec fn no_pictures() -> GlyphModel {
    GlyphModel {
        terminal: no_glyphs(),
        ui: no_glyphs(),
        icons: no_icons(),
        alpha: atlas::empty_atlas(),
        color: atlas::empty_atlas(),
    }
}

/// The picture of a character as a font gave it.
#[derive(Clone, Copy, Debug, PartialEq, Eq, Structural)]
pub struct Raster {
    /// The picture, where the font gave one.
    pub image: Option<RasterImage>,
}

/// The pixels of a picture.
#[derive(Clone, Copy, Debug, PartialEq, Eq, Structural)]
pub struct RasterImage {
    /// The width.
    pub width: u32,
    /// The height.
    pub height: u32,
    /// Whether it is in colour.
    pub color: bool,
    /// How many bytes it has.
    pub bytes: usize,
}

/// What a character is drawn with.
#[derive(Clone, Copy, Debug, PartialEq, Eq, Structural)]
pub enum GlyphOutcome {
    /// Nothing: no font has it, or its picture cannot be held.
    Missing,
    /// Nothing, but it takes its room.
    Empty,
    /// The picture at a place of the texture of one colour.
    Alpha(AtlasRect),
    /// The picture at a place of the texture in colour.
    Color(AtlasRect),
}

/// Whether a picture has pixels to draw.
pub open spec fn has_pixels(c: char, image: RasterImage) -> bool {
    !text::is_white_space(c) && 0 < image.width <= i32::MAX && 0 < image.height <= i32::MAX
}

/// Whether a picture has as many bytes as its pixels need.
pub open spec fn is_whole(image: RasterImage, color: bool) -> bool {
    image.bytes == image.width * image.height * if color {
        4int
    } else {
        1
    }
}

impl GlyphModel {
    /// With both textures emptied.
    pub open spec fn emptied(self) -> GlyphModel {
        no_pictures()
    }

    /// With the texture in colour emptied: the pictures of characters are drawn anew, the icons are
    /// kept.
    pub open spec fn color_emptied(self) -> GlyphModel {
        GlyphModel {
            terminal: no_glyphs(),
            ui: no_glyphs(),
            color: atlas::empty_atlas(),
            ..self
        }
    }

    /// With a picture put into the texture of one colour.
    pub open spec fn alpha_placed(self, width: i32, height: i32) -> (Option<AtlasRect>, GlyphModel) {
        let (placement, cursor) = atlas::placed(self.alpha, width, height);
        let base = if placement.emptied {
            self.emptied()
        } else {
            self
        };
        (placement.rect, GlyphModel { alpha: cursor, ..base })
    }

    /// With a picture put into the texture in colour.
    pub open spec fn color_placed(self, width: i32, height: i32) -> (Option<AtlasRect>, GlyphModel) {
        let (placement, cursor) = atlas::placed(self.color, width, height);
        let base = if placement.emptied {
            self.color_emptied()
        } else {
            self
        };
        (placement.rect, GlyphModel { color: cursor, ..base })
    }

    /// With the picture of a character put where it belongs, `texture` telling whether there is a
    /// texture in colour.
    pub open spec fn finished(
        self,
        c: char,
        raster: Option<Raster>,
        prefer_color: bool,
        texture: bool,
    ) -> (GlyphOutcome, GlyphModel) {
        match raster {
            None => (GlyphOutcome::Missing, self),
            Some(found) => match found.image {
                None => (GlyphOutcome::Empty, self),
                Some(image) => {
                    let color = image.color && prefer_color;
                    if !has_pixels(c, image) {
                        (GlyphOutcome::Empty, self)
                    } else if !is_whole(image, color) || color && !texture {
                        (GlyphOutcome::Missing, self)
                    } else if color {
                        let (rect, after) = self.color_placed(
                            image.width as i32,
                            image.height as i32,
                        );
                        match rect {
                            Some(rect) => (GlyphOutcome::Color(rect), after),
                            None => (GlyphOutcome::Missing, after),
                        }
                    } else {
                        let (rect, after) = self.alpha_placed(
                            image.width as i32,
                            image.height as i32,
                        );
                        match rect {
                            Some(rect) => (GlyphOutcome::Alpha(rect), after),
                            None => (GlyphOutcome::Missing, after),
                        }
                    }
                },
            },
        }
    }
}

impl View for GlyphCache {
    type V = GlyphModel;

    closed spec fn view(&self) -> GlyphModel {
        GlyphModel {
            terminal: contents(self.terminal),
            ui: contents(self.ui),
            icons: self.icons@,
            alpha: self.alpha,
            color: self.color,
        }
    }
}

impl GlyphModel {
    /// Whether the textures and the icons are in order.
    pub open spec fn wf(self) -> bool {
        self.alpha.wf() && self.color.wf() && self.icons.len() == ICONS
    }
}

fn blank_icons() -> (icons: Vec<Option<u64>>)
    ensures
        icons@ == no_icons(),
{
    let mut icons: Vec<Option<u64>> = Vec::new();
    let mut i: usize = 0;
    while i < ICONS
        invariant
            i <= ICONS,
            icons@.len() == i,
            forall|j: int| 0 <= j < i ==> icons@[j] is None,
        decreases ICONS - i,
    {
        icons.push(None);
        i += 1;
    }
    assert(icons@ =~= no_icons());
    icons
}

impl GlyphCache {
    /// Both textures are empty.
    pub fn new() -> (cache: Self)
        ensures
            cache@ == no_pictures(),
            cache@.wf(),
    {
        GlyphCache {
            terminal: empty_map(),
            ui: empty_map(),
            icons: blank_icons(),
            alpha: AtlasCursor::new(),
            color: AtlasCursor::new(),
        }
    }

    /// Empties both textures.
    pub fn reset_atlases(&mut self)
        ensures
            final(self)@ == no_pictures(),
            final(self)@.wf(),
    {
        forget(&mut self.terminal);
        forget(&mut self.ui);
        self.icons = blank_icons();
        self.alpha = AtlasCursor::new();
        self.color = AtlasCursor::new();
    }

    /// Empties the texture in colour.
    pub fn reset_color_atlas(&mut self)
        requires
            old(self)@.wf(),
        ensures
            final(self)@ == old(self)@.color_emptied(),
            final(self)@.wf(),
    {
        forget(&mut self.terminal);
        forget(&mut self.ui);
        self.color = AtlasCursor::new();
    }

    /// The picture of a character of the terminal.
    pub fn glyph(&self, c: char, wish: Option<bool>) -> (glyph: Option<u64>)
        ensures
            glyph == if self@.terminal.contains_key(glyph_key(c, wish)) {
                Some(self@.terminal[glyph_key(c, wish)])
            } else {
                None
            },
    {
        find(&self.terminal, key_of(c, wish))
    }

    /// Keeps the picture of a character of the terminal.
    pub fn keep_glyph(&mut self, c: char, wish: Option<bool>, glyph: u64)
        requires
            old(self)@.wf(),
        ensures
            final(self)@ == (GlyphModel {
                terminal: old(self)@.terminal.insert(glyph_key(c, wish), glyph),
                ..old(self)@
            }),
            final(self)@.wf(),
    {
        keep(&mut self.terminal, key_of(c, wish), glyph);
    }

    /// The picture of a character of the window.
    pub fn ui_glyph(&self, c: char) -> (glyph: Option<u64>)
        ensures
            glyph == if self@.ui.contains_key(ui_key(c)) {
                Some(self@.ui[ui_key(c)])
            } else {
                None
            },
    {
        find(&self.ui, c as u64)
    }

    /// Keeps the picture of a character of the window.
    pub fn keep_ui_glyph(&mut self, c: char, glyph: u64)
        requires
            old(self)@.wf(),
        ensures
            final(self)@ == (GlyphModel {
                ui: old(self)@.ui.insert(ui_key(c), glyph),
                ..old(self)@
            }),
            final(self)@.wf(),
    {
        keep(&mut self.ui, c as u64, glyph);
    }

    /// The picture of an icon of the search field.
    pub fn icon(&self, index: usize) -> (glyph: Option<u64>)
        requires
            self@.wf(),
            index < ICONS,
        ensures
            glyph == self@.icons[index as int],
    {
        self.icons[index]
    }

    /// Keeps the picture of an icon of the search field.
    pub fn keep_icon(&mut self, index: usize, glyph: u64)
        requires
            old(self)@.wf(),
            index < ICONS,
        ensures
            final(self)@ == (GlyphModel {
                icons: old(self)@.icons.update(index as int, Some(glyph)),
                ..old(self)@
            }),
            final(self)@.wf(),
    {
        self.icons.set(index, Some(glyph));
    }

    /// Finds a place for a picture in the texture of one colour, where it has a byte for each pixel.
    pub fn place_alpha(&mut self, width: i32, height: i32, bytes: usize) -> (rect: Option<AtlasRect>)
        requires
            old(self)@.wf(),
        ensures
            (rect, final(self)@) == if width > 0 && height > 0 && bytes == width * height {
                old(self)@.alpha_placed(width, height)
            } else {
                (None, old(self)@)
            },
            final(self)@.wf(),
    {
        if width <= 0 || height <= 0 {
            return None;
        }
        assert(0 <= width * height <= 0x7fff_ffff * 0x7fff_ffff) by (nonlinear_arith)
            requires
                0 < width <= 0x7fff_ffff,
                0 < height <= 0x7fff_ffff,
        ;
        if bytes as u64 != width as u64 * height as u64 {
            return None;
        }
        let placement = self.alpha.place(width, height);
        if placement.emptied {
            let cursor = self.alpha;
            self.reset_atlases();
            self.alpha = cursor;
        }
        placement.rect
    }

    /// Finds a place for a picture in the texture in colour, where it has four bytes for each pixel
    /// and there is such a texture.
    pub fn place_color(&mut self, width: i32, height: i32, bytes: usize, texture: bool) -> (rect:
        Option<AtlasRect>)
        requires
            old(self)@.wf(),
        ensures
            (rect, final(self)@) == if width > 0 && height > 0 && bytes == width * height * 4
                && texture {
                old(self)@.color_placed(width, height)
            } else {
                (None, old(self)@)
            },
            final(self)@.wf(),
    {
        if width <= 0 || height <= 0 || !texture {
            return None;
        }
        assert(0 <= width * height <= 0x7fff_ffff * 0x7fff_ffff) by (nonlinear_arith)
            requires
                0 < width <= 0x7fff_ffff,
                0 < height <= 0x7fff_ffff,
        ;
        if bytes as u128 != width as u128 * height as u128 * 4 {
            return None;
        }
        let placement = self.color.place(width, height);
        if placement.emptied {
            let cursor = self.color;
            self.reset_color_atlas();
            self.color = cursor;
        }
        placement.rect
    }

    /// Finds a place for the picture of a character, `texture` telling whether there is a texture in
    /// colour.
    pub fn finish_rasterized_glyph(
        &mut self,
        c: char,
        raster: Option<Raster>,
        prefer_color: bool,
        texture: bool,
    ) -> (outcome: GlyphOutcome)
        requires
            old(self)@.wf(),
        ensures
            (outcome, final(self)@) == old(self)@.finished(c, raster, prefer_color, texture),
            final(self)@.wf(),
    {
        match raster {
            None => GlyphOutcome::Missing,
            Some(found) => match found.image {
                None => GlyphOutcome::Empty,
                Some(image) => {
                    if text::white_space(c) || image.width == 0 || image.width > 0x7fff_ffff
                        || image.height == 0 || image.height > 0x7fff_ffff {
                        return GlyphOutcome::Empty;
                    }
                    let width: i32 = image.width as i32;
                    let height: i32 = image.height as i32;
                    if image.color && prefer_color {
                        match self.place_color(width, height, image.bytes, texture) {
                            Some(rect) => GlyphOutcome::Color(rect),
                            None => GlyphOutcome::Missing,
                        }
                    } else {
                        match self.place_alpha(width, height, image.bytes) {
                            Some(rect) => GlyphOutcome::Alpha(rect),
                            None => GlyphOutcome::Missing,
                        }
                    }
                },
            },
        }
    }

    /// What to do for a character of the terminal.
    pub fn next_step(&self, c: char, wish: Option<bool>) -> (step: GlyphStep)
        ensures
            step == if self@.terminal.contains_key(glyph_key(c, wish)) {
                GlyphStep::Draw(self@.terminal[glyph_key(c, wish)])
            } else {
                GlyphStep::Rasterize(
                    match wish {
                        Some(color) => color,
                        None => is_emoji(c),
                    },
                )
            },
    {
        match self.glyph(c, wish) {
            Some(glyph) => GlyphStep::Draw(glyph),
            None => GlyphStep::Rasterize(
                match wish {
                    Some(color) => color,
                    None => default_emoji_presentation(c),
                },
            ),
        }
    }

    /// Keeps the picture that was made for a character of the terminal, under its number; without
    /// one the box stands in, unless the character is the box itself.
    pub fn settle(&mut self, c: char, wish: Option<bool>, made: Option<u64>) -> (step: GlyphStep)
        requires
            old(self)@.wf(),
        ensures
            step == match made {
                Some(glyph) => GlyphStep::Draw(glyph),
                None => if c == BOX {
                    GlyphStep::Skip
                } else {
                    GlyphStep::Substitute
                },
            },
            final(self)@ == match made {
                Some(glyph) => GlyphModel {
                    terminal: old(self)@.terminal.insert(glyph_key(c, wish), glyph),
                    ..old(self)@
                },
                None => old(self)@,
            },
            final(self)@.wf(),
    {
        match made {
            Some(glyph) => {
                self.keep_glyph(c, wish, glyph);
                GlyphStep::Draw(glyph)
            },
            None => if c == BOX {
                GlyphStep::Skip
            } else {
                GlyphStep::Substitute
            },
        }
    }
}

/// What stands in for a character that no font has; it is drawn as text.
pub const BOX: char = '\u{25a1}';

/// What to do for a character of the terminal.
#[derive(Clone, Copy, Debug, PartialEq, Eq, Structural)]
pub enum GlyphStep {
    /// Draw the picture with a number.
    Draw(u64),
    /// Make its picture, in colour or not.
    Rasterize(bool),
    /// Draw the box, and keep its picture for the character.
    Substitute,
    /// Draw nothing.
    Skip,
}

/// The font to try in a step: from the last on for a picture in colour, else from the first on.
pub fn font_at(fonts: usize, prefer_color: bool, step: usize) -> (font: Option<usize>)
    ensures
        font == if step >= fonts {
            None
        } else if prefer_color {
            Some((fonts - 1 - step) as usize)
        } else {
            Some(step)
        },
{
    if step >= fonts {
        None
    } else if prefer_color {
        Some(fonts - 1 - step)
    } else {
        Some(step)
    }
}

/// Every font is tried once, whichever end comes first.
pub proof fn every_font_is_tried(fonts: usize, prefer_color: bool, font: int) -> (step: int)
    requires
        0 <= font < fonts,
    ensures
        0 <= step < fonts,
        font == if prefer_color {
            fonts - 1 - step
        } else {
            step
        },
{
    if prefer_color {
        fonts - 1 - font
    } else {
        font
    }
}

/// Whether a font has a character: a number but zero, which no white space needs.
pub fn has_glyph(glyph_id: u16, c: char) -> (has: bool)
    ensures
        has == (glyph_id != 0 || text::is_white_space(c)),
{
    glyph_id != 0 || text::white_space(c)
}

/// What is taken of the picture that a font gave for a character.
#[derive(Clone, Copy, Debug, PartialEq, Eq, Structural)]
pub enum RasterUse {
    /// Nothing: the next font is tried.
    Refused,
    /// The room, without the picture.
    Room,
    /// The picture.
    Image,
}

/// What is taken of the picture of a character, `image` telling whether there is one and whether it
/// is in colour. A picture in colour is taken only where one is wanted, and only white space goes
/// without.
pub fn raster_use(c: char, image: Option<bool>, prefer_color: bool) -> (used: RasterUse)
    ensures
        used == if image matches Some(color) && (!color || prefer_color) {
            RasterUse::Image
        } else if text::is_white_space(c) {
            RasterUse::Room
        } else {
            RasterUse::Refused
        },
{
    let kept = match image {
        Some(color) => !color || prefer_color,
        None => false,
    };
    if kept {
        RasterUse::Image
    } else if text::white_space(c) {
        RasterUse::Room
    } else {
        RasterUse::Refused
    }
}

/// The last of each four bytes: how opaque each pixel is.
pub fn alpha_channel(pixels: &[u8]) -> (alpha: Vec<u8>)
    ensures
        alpha@.len() == pixels@.len() / 4,
        forall|i: int| 0 <= i < alpha@.len() ==> #[trigger] alpha@[i] == pixels@[4 * i + 3],
{
    let mut alpha: Vec<u8> = Vec::new();
    let len: usize = pixels.len();
    let count: usize = len / 4;
    let mut i: usize = 0;
    while i < count
        invariant
            i <= count,
            len == pixels@.len(),
            count == len / 4,
            alpha@.len() == i,
            forall|j: int| 0 <= j < i ==> #[trigger] alpha@[j] == pixels@[4 * j + 3],
        decreases count - i,
    {
        alpha.push(pixels[4 * i + 3]);
        i += 1;
    }
    alpha
}

/// A picture that was kept is found again until its texture is emptied, and other characters keep
/// theirs.
pub proof fn kept_pictures_are_found(
    model: GlyphModel,
    c: char,
    wish: Option<bool>,
    glyph: u64,
    other: char,
    other_wish: Option<bool>,
)
    ensures
        ({
            let after = GlyphModel {
                terminal: model.terminal.insert(glyph_key(c, wish), glyph),
                ..model
            };
            &&& after.terminal.contains_key(glyph_key(c, wish))
            &&& after.terminal[glyph_key(c, wish)] == glyph
            &&& c != other || wish != other_wish ==> {
                let key = glyph_key(other, other_wish);
                &&& after.terminal.contains_key(key) == model.terminal.contains_key(key)
                &&& after.terminal[key] == model.terminal[key]
            }
        }),
{
    keys_tell_apart(c, wish, other, other_wish);
}

/// No picture outlives its place: whenever a place that was given is given again, the textures were
/// emptied in between and every character is drawn anew.
pub proof fn emptied_textures_forget_pictures(
    model: GlyphModel,
    c: char,
    raster: Option<Raster>,
    prefer_color: bool,
    texture: bool,
    earlier: AtlasRect,
)
    requires
        model.wf(),
        atlas::is_filled(model.alpha, earlier),
    ensures
        ({
            let (outcome, after) = model.finished(c, raster, prefer_color, texture);
            outcome matches GlyphOutcome::Alpha(rect) ==> {
                ||| atlas::apart(rect, earlier) && atlas::is_filled(after.alpha, earlier)
                ||| after.terminal == no_glyphs() && after.ui == no_glyphs() && after.icons
                    == no_icons()
            }
        }),
{
    match raster {
        Some(found) => match found.image {
            Some(image) => {
                if has_pixels(c, image) {
                    atlas::pictures_stay_apart(
                        model.alpha,
                        image.width as i32,
                        image.height as i32,
                        earlier,
                    );
                }
            },
            None => {},
        },
        None => {},
    }
}

} // verus!
