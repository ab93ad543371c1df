//! Where pictures of characters are put in a texture.
use vstd::prelude::*;

verus! {

/// The width of a texture that holds pictures of characters.
pub const ATLAS_SIZE_W: i32 = 1024;

/// Its height.
pub const ATLAS_SIZE_H: i32 = 1024;

/// The pixels that are left free before, between and behind pictures.
pub const ATLAS_MARGIN: i32 = 2;

/// How the texture of the pictures without colour is kept: one byte for each pixel.
pub const PRIMARY_ATLAS_INTERNAL_FORMAT: u32 = 0x8229;

/// How pictures without colour are handed over: one byte of red for each pixel.
pub const PRIMARY_ATLAS_UPLOAD_FORMAT: u32 = 0x1903;

/// A rectangle of a texture.
#[derive(Clone, Copy, Debug, PartialEq, Eq, Structural)]
pub struct AtlasRect {
    /// The left edge.
    pub x: i32,
    /// The upper edge.
    pub y: i32,
    /// The width.
    pub width: i32,
    /// The height.
    pub height: i32,
}

/// Whether a rectangle lies in a texture, with the margin around it.
pub open spec fn in_atlas(rect: AtlasRect) -> bool {
    &&& ATLAS_MARGIN <= rect.x
    &&& rect.x + rect.width + ATLAS_MARGIN <= ATLAS_SIZE_W
    &&& ATLAS_MARGIN <= rect.y
    &&& rect.y + rect.height + ATLAS_MARGIN <= ATLAS_SIZE_H
}

/// Whether the margin is free between two rectangles, so that neither is drawn with pixels of the
/// other.
pub open spec fn apart(rect: AtlasRect, other: AtlasRect) -> bool {
    ||| rect.x + rect.width + ATLAS_MARGIN <= other.x
    ||| other.x + other.width + ATLAS_MARGIN <= rect.x
    ||| rect.y + rect.height + ATLAS_MARGIN <= other.y
    ||| other.y + other.height + ATLAS_MARGIN <= rect.y
}

/// A texture that is filled in rows, from the left and from the top.
#[derive(Clone, Copy, Debug, PartialEq, Eq, Structural)]
pub struct AtlasCursor {
    /// Where the next picture starts.
    pub x: i32,
    /// Where the row starts.
    pub y: i32,
    /// The height of the row.
    pub row_height: i32,
}

/// What became of a picture.
#[derive(Clone, Copy, Debug, PartialEq, Eq, Structural)]
pub struct AtlasPlacement {
    /// Whether the texture was emptied for it.
    pub emptied: bool,
    /// Where it was put, if it fits the texture.
    pub rect: Option<AtlasRect>,
}

/// An empty texture.
pub open spec fn empty_atlas() -> AtlasCursor {
    AtlasCursor { x: ATLAS_MARGIN, y: ATLAS_MARGIN, row_height: 0 }
}

/// Whether a width fits the rest of the row.
pub open spec fn fits_row(cursor: AtlasCursor, width: int) -> bool {
    cursor.x + width + ATLAS_MARGIN <= ATLAS_SIZE_W
}

/// Whether a height fits the rest of the texture.
pub open spec fn fits_rest(cursor: AtlasCursor, height: int) -> bool {
    cursor.y + height + ATLAS_MARGIN <= ATLAS_SIZE_H
}

/// The texture at the start of the next row.
pub open spec fn next_row(cursor: AtlasCursor) -> AtlasCursor {
    AtlasCursor {
        x: ATLAS_MARGIN,
        y: (cursor.y + cursor.row_height + ATLAS_MARGIN) as i32,
        row_height: 0,
    }
}

/// The texture where a picture is put: in the row if its width fits there, else in the next one;
/// and there if its height fits, else in the emptied texture.
pub open spec fn place_of(cursor: AtlasCursor, width: int, height: int) -> (bool, AtlasCursor) {
    let row = if fits_row(cursor, width) {
        cursor
    } else {
        next_row(cursor)
    };
    if fits_rest(row, height) {
        (false, row)
    } else {
        (true, empty_atlas())
    }
}

/// What placing a picture does.
pub open spec fn placed(cursor: AtlasCursor, width: i32, height: i32) -> (
    AtlasPlacement,
    AtlasCursor,
) {
    let (emptied, row) = place_of(cursor, width as int, height as int);
    if fits_row(row, width as int) && fits_rest(row, height as int) {
        (
            AtlasPlacement { emptied, rect: Some(AtlasRect { x: row.x, y: row.y, width, height }) },
            AtlasCursor {
                x: (row.x + width + ATLAS_MARGIN) as i32,
                y: row.y,
                row_height: if row.row_height < height {
                    height
                } else {
                    row.row_height
                },
            },
        )
    } else {
        (AtlasPlacement { emptied, rect: None }, row)
    }
}

impl AtlasCursor {
    /// Whether the row lies in the texture.
    pub open spec fn wf(self) -> bool {
        &&& ATLAS_MARGIN <= self.x <= ATLAS_SIZE_W
        &&& ATLAS_MARGIN <= self.y
        &&& 0 <= self.row_height
        &&& self.y + self.row_height + ATLAS_MARGIN <= ATLAS_SIZE_H
    }

    /// An empty texture.
    pub fn new() -> (cursor: Self)
        ensures
            cursor == empty_atlas(),
            cursor.wf(),
    {
        AtlasCursor { x: ATLAS_MARGIN, y: ATLAS_MARGIN, row_height: 0 }
    }

    /// Finds a place for a picture.
    pub fn place(&mut self, width: i32, height: i32) -> (placement: AtlasPlacement)
        requires
            old(self).wf(),
            width > 0,
            height > 0,
        ensures
            (placement, *final(self)) == placed(*old(self), width, height),
            final(self).wf(),
    {
        let mut emptied = false;
        if width > ATLAS_SIZE_W - ATLAS_MARGIN - self.x {
            self.x = ATLAS_MARGIN;
            self.y = self.y + self.row_height + ATLAS_MARGIN;
            self.row_height = 0;
        }
        if height > ATLAS_SIZE_H - ATLAS_MARGIN - self.y {
            self.x = ATLAS_MARGIN;
            self.y = ATLAS_MARGIN;
            self.row_height = 0;
            emptied = true;
        }
        if width > ATLAS_SIZE_W - ATLAS_MARGIN - self.x || height > ATLAS_SIZE_H - ATLAS_MARGIN
            - self.y {
            return AtlasPlacement { emptied, rect: None };
        }
        let rect = AtlasRect { x: self.x, y: self.y, width, height };
        self.x = self.x + width + ATLAS_MARGIN;
        if self.row_height < height {
            self.row_height = height;
        }
        AtlasPlacement { emptied, rect: Some(rect) }
    }
}

/// Whether a rectangle lies where the texture is filled: in an earlier row, or left in this one.
pub open spec fn is_filled(cursor: AtlasCursor, rect: AtlasRect) -> bool {
    ||| rect.y + rect.height + ATLAS_MARGIN <= cursor.y
    ||| rect.y == cursor.y && rect.height <= cursor.row_height && rect.x + rect.width + ATLAS_MARGIN
        <= cursor.x
}

/// Pictures stay in the texture and apart: each is put inside it with its margin, apart from
/// everything that it already holds, and what it holds stays until it is emptied.
pub proof fn pictures_stay_apart(cursor: AtlasCursor, width: i32, height: i32, earlier: AtlasRect)
    requires
        cursor.wf(),
        width > 0,
        height > 0,
        is_filled(cursor, earlier),
    ensures
        ({
            let (placement, after) = placed(cursor, width, height);
            &&& placement.rect matches Some(rect) ==> {
                &&& in_atlas(rect)
                &&& rect.width == width
                &&& rect.height == height
                &&& is_filled(after, rect)
                &&& !placement.emptied ==> apart(rect, earlier)
            }
            &&& !placement.emptied ==> is_filled(after, earlier)
        }),
{
}

/// Every picture that fits an empty texture is put somewhere, and only such a picture.
pub proof fn fitting_pictures_are_placed(cursor: AtlasCursor, width: i32, height: i32)
    requires
        cursor.wf(),
        width > 0,
        height > 0,
    ensures
        placed(cursor, width, height).0.rect is Some <==> in_atlas(
            AtlasRect { x: ATLAS_MARGIN, y: ATLAS_MARGIN, width, height },
        ),
{
}

} // verus!
