//! The canvas store: the one raster that every client paints on.
//!
//! The store is a plain value. Whoever shares it between tasks puts it behind
//! a lock, holds the lock for one call, and hands out copies made by
//! [`Canvas::snapshot`].

use crate::grid::Grid;
use crate::point::{Color, Point};
use crate::raster::{
    raster_columns, raster_copy, raster_get, raster_height, raster_new, raster_pixel, raster_put,
    raster_rows, raster_width, Raster,
};
use vstd::prelude::*;

verus! {

/// The authoritative pixel grid.
pub struct Canvas {
    raster: Raster,
}

impl View for Canvas {
    type V = Grid;

    closed spec fn view(&self) -> Grid {
        self.raster@
    }
}

/// Whether a raster of the given size, at three bytes a pixel, fits in
/// memory that one vector can address.
pub open spec fn fits_in_memory(width: u32, height: u32) -> bool {
    3 * width <= usize::MAX && 3 * width * height <= isize::MAX
}

impl Canvas {
    /// A white canvas of the given size, or `None` when a raster of that size
    /// cannot be addressed.
    pub fn new(width: u32, height: u32) -> (made: Option<Canvas>)
        ensures
            made is Some <==> fits_in_memory(width, height),
            made matches Some(canvas) ==> canvas@ == Grid::filled(
                width as nat,
                height as nat,
                Color::white(),
            ),
    {
        assert(3 * width * height <= 3 * 0x1_0000_0000 * 0x1_0000_0000) by (nonlinear_arith)
            requires
                width <= 0x1_0000_0000,
                height <= 0x1_0000_0000,
        ;
        let row: u128 = 3u128 * (width as u128);
        let bytes: u128 = row * (height as u128);
        if row > usize::MAX as u128 || bytes > isize::MAX as u128 {
            return None;
        }
        let mut raster = raster_new(width, height);
        let mut x: u32 = 0;
        while x < width
            invariant
                x <= width,
                raster_width(raster) == width,
                raster_height(raster) == height,
                forall|i: nat, j: nat|
                    i < x && j < height ==> #[trigger] raster_pixel(raster, i, j) == (
                        255u8,
                        255u8,
                        255u8,
                    ),
            decreases width - x,
        {
            let mut y: u32 = 0;
            while y < height
                invariant
                    x < width,
                    y <= height,
                    raster_width(raster) == width,
                    raster_height(raster) == height,
                    forall|i: nat, j: nat|
                        (i < x && j < height) || (i == x && j < y) ==> #[trigger] raster_pixel(
                            raster,
                            i,
                            j,
                        ) == (255u8, 255u8, 255u8),
                decreases height - y,
            {
                raster_put(&mut raster, x, y, (255, 255, 255));
                y += 1;
            }
            x += 1;
        }
        let canvas = Canvas { raster };
        assert(canvas@ =~= Grid::filled(width as nat, height as nat, Color::white()));
        Some(canvas)
    }

    /// The number of columns.
    pub fn width(&self) -> (width: u32)
        ensures
            width == self@.width,
    {
        raster_columns(&self.raster)
    }

    /// The number of rows.
    pub fn height(&self) -> (height: u32)
        ensures
            height == self@.height,
    {
        raster_rows(&self.raster)
    }

    /// The colour at column `x`, row `y`, or `None` outside the canvas.
    pub fn get(&self, x: u32, y: u32) -> (color: Option<Color>)
        ensures
            color == if self@.holds(x as nat, y as nat) {
                Some(self@.at(x as nat, y as nat))
            } else {
                None
            },
    {
        self.raster.get(x, y)
    }

    /// Writes one pixel. A write outside the canvas is dropped without a
    /// word: the canvas stays as it was.
    pub fn set(&mut self, x: u32, y: u32, color: Color)
        ensures
            final(self)@ == old(self)@.put(x as nat, y as nat, color),
            x >= old(self)@.width || y >= old(self)@.height ==> final(self)@ == old(self)@,
    {
        if x >= raster_columns(&self.raster) || y >= raster_rows(&self.raster) {
            return ;
        }
        raster_put(&mut self.raster, x, y, (color.r, color.g, color.b));
        assert(self@ =~= old(self)@.put(x as nat, y as nat, color));
    }

    /// Applies a write that came off the wire and tells whether it was
    /// committed, that is, whether it landed inside the canvas. Only a
    /// committed write is to be published to the other clients.
    pub fn apply(&mut self, write: &Point) -> (committed: bool)
        ensures
            committed == old(self)@.holds(write.x as nat, write.y as nat),
            final(self)@ == old(self)@.apply(*write),
            !committed ==> final(self)@ == old(self)@,
    {
        if write.x >= raster_columns(&self.raster) || write.y >= raster_rows(&self.raster) {
            return false;
        }
        self.set(write.x, write.y, write.color);
        true
    }

    /// Lays `loaded` over the canvas, corner on corner. Where the two
    /// overlap the canvas takes the pixels of `loaded`; the rest of the canvas
    /// keeps what it had, and the size of the canvas does not change.
    pub fn load_from(&mut self, loaded: &Raster)
        ensures
            final(self)@ == old(self)@.overlay(loaded@),
    {
        let own_width: u32 = raster_columns(&self.raster);
        let own_height: u32 = raster_rows(&self.raster);
        let loaded_width: u32 = raster_columns(loaded);
        let loaded_height: u32 = raster_rows(loaded);
        let width: u32 = if own_width < loaded_width {
            own_width
        } else {
            loaded_width
        };
        let height: u32 = if own_height < loaded_height {
            own_height
        } else {
            loaded_height
        };
        let ghost before = self.raster;
        let mut x: u32 = 0;
        while x < width
            invariant
                x <= width,
                width <= own_width,
                width <= loaded_width,
                height <= own_height,
                height <= loaded_height,
                raster_width(self.raster) == own_width,
                raster_height(self.raster) == own_height,
                raster_width(*loaded) == loaded_width,
                raster_height(*loaded) == loaded_height,
                forall|i: nat, j: nat|
                    i < own_width && j < own_height ==> #[trigger] raster_pixel(self.raster, i, j)
                        == if i < x && j < height {
                        raster_pixel(*loaded, i, j)
                    } else {
                        raster_pixel(before, i, j)
                    },
            decreases width - x,
        {
            let mut y: u32 = 0;
            while y < height
                invariant
                    x < width,
                    y <= height,
                    width <= own_width,
                    width <= loaded_width,
                    height <= own_height,
                    height <= loaded_height,
                    raster_width(self.raster) == own_width,
                    raster_height(self.raster) == own_height,
                    raster_width(*loaded) == loaded_width,
                    raster_height(*loaded) == loaded_height,
                    forall|i: nat, j: nat|
                        i < own_width && j < own_height ==> #[trigger] raster_pixel(
                            self.raster,
                            i,
                            j,
                        ) == if (i < x && j < height) || (i == x && j < y) {
                            raster_pixel(*loaded, i, j)
                        } else {
                            raster_pixel(before, i, j)
                        },
                decreases height - y,
            {
                let rgb = raster_get(loaded, x, y);
                raster_put(&mut self.raster, x, y, rgb);
                y += 1;
            }
            x += 1;
        }
        assert(self@ =~= old(self)@.overlay(loaded@));
    }

    /// A full copy of the canvas as it is now.
    pub fn snapshot(&self) -> (copy: Raster)
        ensures
            copy@ == self@,
    {
        let copy = raster_copy(&self.raster);
        assert(copy@ =~= self@);
        copy
    }
}

/// The grid of a canvas has exactly the cells inside its width and height.
pub proof fn lemma_canvas_wf(canvas: Canvas)
    ensures
        canvas@.wf(),
{
}

} // verus!
