//! The atlas layout: its extent, its ordered sections and the optional
//! lookup from source textures to section indices.
use vstd::prelude::*;

use crate::geometry::{Rect, Vec2};
use crate::grid::{
    axis_cells_fit, cell_start, extent_fits, fits_i64, gap_before, grid_fits, grid_height, grid_index, grid_width,
    height_gap, is_grid_cell, lemma_cell_start_from_running_gap, lemma_earlier_row_index, or_zero,
    width_gap,
};
use crate::texture_index::{TextureId, TextureIndexMap};

verus! {

/// Maps a layout for a texture: the atlas extent, the sections of it that
/// sprites are drawn from, and optionally which source texture each
/// section came from.
#[derive(Debug)]
pub struct TextureAtlasLayout {
    pub size: Vec2,
    /// The areas of the atlas where each texture can be found, by index.
    pub textures: Vec<Rect>,
    /// Source texture to section index, set by whatever packed the atlas.
    pub texture_handles: Option<TextureIndexMap>,
}

impl TextureAtlasLayout {
    /// A layout of extent `dimensions` with no sections and no lookup.
    pub fn new_empty(dimensions: Vec2) -> (r: Self)
        ensures
            r.size == dimensions,
            r.textures@ == Seq::<Rect>::empty(),
            r.texture_handles is None,
    {
        TextureAtlasLayout { size: dimensions, textures: Vec::new(), texture_handles: None }
    }

    /// A layout cut into `columns` by `rows` cells of `tile_size`, with
    /// `padding` between neighbouring cells and the whole grid moved by
    /// `offset`. Cells are indexed left to right, top to bottom.
    pub fn from_grid(
        tile_size: Vec2,
        columns: usize,
        rows: usize,
        padding: Option<Vec2>,
        offset: Option<Vec2>,
    ) -> (r: Self)
        requires
            grid_fits(tile_size, columns as int, rows as int, or_zero(padding), or_zero(offset)),
        ensures
            r.textures@.len() == columns * rows,
            forall|x: int, y: int|
                0 <= x < columns && 0 <= y < rows ==> is_grid_cell(
                    #[trigger] r.textures@[grid_index(columns as int, x, y)],
                    tile_size,
                    or_zero(padding),
                    or_zero(offset),
                    x,
                    y,
                ),
            r.size.x == grid_width(tile_size, columns as int, rows as int, or_zero(padding)),
            r.size.y == grid_height(tile_size, rows as int, or_zero(padding)),
            r.texture_handles is None,
    {
        let pad = match padding {
            Some(p) => p,
            None => Vec2 { x: 0, y: 0 },
        };
        let off = match offset {
            Some(o) => o,
            None => Vec2 { x: 0, y: 0 },
        };
        let ghost c = columns as int;
        let mut sprites: Vec<Rect> = Vec::new();
        let mut current_padding = Vec2 { x: 0, y: 0 };

        assert(0 * c == 0);
        for y in 0..rows
            invariant
                pad == or_zero(padding),
                off == or_zero(offset),
                c == columns,
                grid_fits(tile_size, c, rows as int, pad, off),
                sprites@.len() == y * c,
                forall|xx: int, yy: int|
                    0 <= xx < c && 0 <= yy < y ==> is_grid_cell(
                        #[trigger] sprites@[grid_index(c, xx, yy)],
                        tile_size,
                        pad,
                        off,
                        xx,
                        yy,
                    ),
                current_padding.x == width_gap(pad, c, y as int),
                current_padding.y == height_gap(pad, y as int),
        {
            if y > 0 {
                current_padding.y = pad.y;
            }
            for x in 0..columns
                invariant
                    pad == or_zero(padding),
                    off == or_zero(offset),
                    c == columns,
                    0 <= y < rows,
                    grid_fits(tile_size, c, rows as int, pad, off),
                    sprites@.len() == y * c + x,
                    forall|xx: int, yy: int|
                        0 <= xx < c && 0 <= yy < y ==> is_grid_cell(
                            #[trigger] sprites@[grid_index(c, xx, yy)],
                            tile_size,
                            pad,
                            off,
                            xx,
                            yy,
                        ),
                    forall|xx: int|
                        0 <= xx < x ==> is_grid_cell(
                            #[trigger] sprites@[grid_index(c, xx, y as int)],
                            tile_size,
                            pad,
                            off,
                            xx,
                            y as int,
                        ),
                    current_padding.x == (if (y > 0 && c > 1) || x > 1 {
                        pad.x as int
                    } else {
                        0
                    }),
                    current_padding.y == gap_before(pad.y, y as int),
            {
                if x > 0 {
                    current_padding.x = pad.x;
                }
                let ghost sx = cell_start(tile_size.x, pad.x, off.x, x as int);
                let ghost sy = cell_start(tile_size.y, pad.y, off.y, y as int);
                assert(fits_i64(sx) && fits_i64(sx + tile_size.x));
                assert(fits_i64(sy) && fits_i64(sy + tile_size.y));
                proof {
                    lemma_cell_start_from_running_gap(tile_size.x, pad.x, off.x, current_padding.x, x as int);
                    lemma_cell_start_from_running_gap(tile_size.y, pad.y, off.y, current_padding.y, y as int);
                }
                let wide_x: i128 = (tile_size.x as i128 + current_padding.x as i128) * (x as i128)
                    + off.x as i128;
                let wide_y: i128 = (tile_size.y as i128 + current_padding.y as i128) * (y as i128)
                    + off.y as i128;
                let rect_min = Vec2 { x: wide_x as i64, y: wide_y as i64 };
                let rect = Rect {
                    min: rect_min,
                    max: Vec2 { x: rect_min.x + tile_size.x, y: rect_min.y + tile_size.y },
                };
                let ghost before = sprites@;
                sprites.push(rect);
                assert forall|xx: int, yy: int| 0 <= xx < c && 0 <= yy < y implies is_grid_cell(
                    #[trigger] sprites@[grid_index(c, xx, yy)],
                    tile_size,
                    pad,
                    off,
                    xx,
                    yy,
                ) by {
                    lemma_earlier_row_index(c, xx, yy, y as int);
                    assert(sprites@[grid_index(c, xx, yy)] == before[grid_index(c, xx, yy)]);
                }
                assert(sprites@[grid_index(c, x as int, y as int)] == rect);
            }
            assert((y + 1) * c == y * c + c) by (nonlinear_arith);
        }
        assert(rows * c == c * rows) by (nonlinear_arith);

        let gap_x: i128 = current_padding.x as i128;
        let gap_y: i128 = current_padding.y as i128;
        let width: i128 = (tile_size.x as i128 + gap_x) * (columns as i128) - gap_x;
        let height: i128 = (tile_size.y as i128 + gap_y) * (rows as i128) - gap_y;
        TextureAtlasLayout {
            size: Vec2 { x: width as i64, y: height as i64 },
            textures: sprites,
            texture_handles: None,
        }
    }

    /// Whether `from_grid` can lay out this grid: every coordinate of it, and
    /// its extent, fits in `i64`.
    pub fn grid_in_range(
        tile_size: Vec2,
        columns: usize,
        rows: usize,
        padding: Option<Vec2>,
        offset: Option<Vec2>,
    ) -> (r: bool)
        ensures
            r == grid_fits(tile_size, columns as int, rows as int, or_zero(padding), or_zero(offset)),
    {
        let pad = match padding {
            Some(p) => p,
            None => Vec2 { x: 0, y: 0 },
        };
        let off = match offset {
            Some(o) => o,
            None => Vec2 { x: 0, y: 0 },
        };
        let gap_x: i64 = if rows > 0 && columns > 1 {
            pad.x
        } else {
            0
        };
        let gap_y: i64 = if rows > 1 {
            pad.y
        } else {
            0
        };
        (rows == 0 || axis_cells_fit(tile_size.x, pad.x, off.x, columns)) && (columns == 0
            || axis_cells_fit(tile_size.y, pad.y, off.y, rows)) && extent_fits(tile_size.x, gap_x, columns)
            && extent_fits(tile_size.y, gap_y, rows)
    }

    /// Appends `rect` as a new section and returns its index.
    pub fn add_texture(&mut self, rect: Rect) -> (r: usize)
        ensures
            r == old(self).textures@.len(),
            final(self).textures@ == old(self).textures@.push(rect),
            final(self).size == old(self).size,
            final(self).texture_handles == old(self).texture_handles,
    {
        self.textures.push(rect);
        self.textures.len() - 1
    }

    /// The number of sections.
    pub fn len(&self) -> (r: usize)
        ensures
            r == self.textures@.len(),
    {
        self.textures.len()
    }

    /// Whether the layout has no section.
    pub fn is_empty(&self) -> (r: bool)
        ensures
            r == (self.textures@.len() == 0),
    {
        self.textures.len() == 0
    }

    /// The section index recorded for `texture`: none where no lookup is
    /// attached or where the lookup does not hold `texture`.
    pub open spec fn texture_index_of(&self, texture: TextureId) -> Option<usize> {
        match self.texture_handles {
            None => None,
            Some(m) => if m@.contains_key(texture.key()) {
                Some(m@[texture.key()])
            } else {
                None
            },
        }
    }

    /// Retrieves the section index of the given `texture`, where the layout
    /// carries a lookup that holds it.
    pub fn get_texture_index(&self, texture: &TextureId) -> (r: Option<usize>)
        ensures
            r == self.texture_index_of(*texture),
    {
        match &self.texture_handles {
            None => None,
            Some(m) => m.get(texture),
        }
    }
}

} // verus!
