//! The mathematical picture of a raster: a width, a height and a colour for
//! every cell inside them. The contracts of the canvas speak of this picture.

use crate::point::{Color, Point};
use vstd::prelude::*;

verus! {

impl Color {
    /// The colour with the given red, green and blue values.
    pub open spec fn of_rgb(rgb: (u8, u8, u8)) -> Color {
        Color { r: rgb.0, g: rgb.1, b: rgb.2 }
    }

    /// The red, green and blue values of this colour.
    pub open spec fn rgb(self) -> (u8, u8, u8) {
        (self.r, self.g, self.b)
    }
}

/// A grid of colours, `width` columns by `height` rows. `cells` has a colour
/// for each pair of a column and a row inside the grid.
#[verifier::ext_equal]
pub struct Grid {
    pub width: nat,
    pub height: nat,
    pub cells: Map<(nat, nat), Color>,
}

impl Grid {
    /// Whether column `x`, row `y` lies inside the grid.
    pub open spec fn holds(self, x: nat, y: nat) -> bool {
        x < self.width && y < self.height
    }

    /// The cells of the grid are exactly those inside its width and height.
    pub open spec fn wf(self) -> bool {
        forall|x: nat, y: nat| #[trigger] self.cells.contains_key((x, y)) <==> self.holds(x, y)
    }

    /// The colour at column `x`, row `y`.
    pub open spec fn at(self, x: nat, y: nat) -> Color
        recommends
            self.holds(x, y),
    {
        self.cells[(x, y)]
    }

    /// The grid of the given size that has `color` everywhere.
    pub open spec fn filled(width: nat, height: nat, color: Color) -> Grid {
        Grid {
            width,
            height,
            cells: Map::new(|p: (nat, nat)| p.0 < width && p.1 < height, |p: (nat, nat)| color),
        }
    }

    /// The grid of the given size whose cells have the red, green and blue
    /// values that `pixels` gives them.
    pub open spec fn of_pixels(
        width: nat,
        height: nat,
        pixels: Map<(nat, nat), (u8, u8, u8)>,
    ) -> Grid {
        Grid {
            width,
            height,
            cells: Map::new(
                |p: (nat, nat)| p.0 < width && p.1 < height,
                |p: (nat, nat)| Color::of_rgb(pixels[p]),
            ),
        }
    }

    /// The red, green and blue values of the cells.
    pub open spec fn pixels(self) -> Map<(nat, nat), (u8, u8, u8)> {
        Map::new(
            |p: (nat, nat)| p.0 < self.width && p.1 < self.height,
            |p: (nat, nat)| self.cells[p].rgb(),
        )
    }

    /// The grid after `color` is written at column `x`, row `y`. A write
    /// outside the grid changes nothing.
    pub open spec fn put(self, x: nat, y: nat, color: Color) -> Grid {
        if self.holds(x, y) {
            Grid { width: self.width, height: self.height, cells: self.cells.insert((x, y), color) }
        } else {
            self
        }
    }

    /// The grid after one pixel write.
    pub open spec fn apply(self, write: Point) -> Grid {
        self.put(write.x as nat, write.y as nat, write.color)
    }

    /// The grid after the writes of `writes`, applied first to last.
    pub open spec fn apply_all(self, writes: Seq<Point>) -> Grid
        decreases writes.len(),
    {
        if writes.len() == 0 {
            self
        } else {
            self.apply_all(writes.drop_last()).apply(writes.last())
        }
    }

    /// This grid with `top` laid over it, corner on corner: a cell that `top`
    /// covers takes the colour of `top`, every other cell keeps its own. The
    /// size stays that of this grid.
    pub open spec fn overlay(self, top: Grid) -> Grid {
        Grid {
            width: self.width,
            height: self.height,
            cells: Map::new(
                |p: (nat, nat)| p.0 < self.width && p.1 < self.height,
                |p: (nat, nat)|
                    if top.holds(p.0, p.1) {
                        top.cells[p]
                    } else {
                        self.cells[p]
                    },
            ),
        }
    }
}

/// Whether `write` lands on column `x`, row `y`.
pub open spec fn hits(write: Point, x: nat, y: nat) -> bool {
    write.x == x && write.y == y
}

/// A write outside the grid leaves the grid as it was.
pub proof fn lemma_put_outside(grid: Grid, x: nat, y: nat, color: Color)
    requires
        x >= grid.width || y >= grid.height,
    ensures
        grid.put(x, y, color) == grid,
{
}

/// A write inside the grid changes the cell it names, and no other.
pub proof fn lemma_put_inside(grid: Grid, x: nat, y: nat, color: Color, i: nat, j: nat)
    requires
        grid.holds(x, y),
    ensures
        grid.put(x, y, color).width == grid.width,
        grid.put(x, y, color).height == grid.height,
        grid.put(x, y, color).at(x, y) == color,
        (i, j) != (x, y) ==> grid.put(x, y, color).at(i, j) == grid.at(i, j),
        grid.wf() ==> grid.put(x, y, color).wf(),
{
}

/// Writes never change the size of a grid, nor which cells it has.
pub proof fn lemma_apply_all_keeps_shape(grid: Grid, writes: Seq<Point>)
    ensures
        grid.apply_all(writes).width == grid.width,
        grid.apply_all(writes).height == grid.height,
        grid.wf() ==> grid.apply_all(writes).wf(),
    decreases writes.len(),
{
    if writes.len() > 0 {
        lemma_apply_all_keeps_shape(grid, writes.drop_last());
    }
}

/// After any run of writes, applied one at a time in the order of arrival,
/// each cell holds the colour of the last write that landed on it, and a cell
/// that no write landed on holds what it held before.
pub proof fn lemma_last_write_wins(grid: Grid, writes: Seq<Point>, x: nat, y: nat)
    requires
        grid.holds(x, y),
    ensures
        (forall|i: int| 0 <= i < writes.len() ==> !hits(#[trigger] writes[i], x, y))
            ==> grid.apply_all(writes).at(x, y) == grid.at(x, y),
        forall|i: int|
            0 <= i < writes.len() && hits(#[trigger] writes[i], x, y) && (forall|j: int|
                i < j < writes.len() ==> !hits(#[trigger] writes[j], x, y))
                ==> grid.apply_all(writes).at(x, y) == writes[i].color,
    decreases writes.len(),
{
    if writes.len() > 0 {
        let earlier = writes.drop_last();
        let last = writes.last();
        let before = grid.apply_all(earlier);
        lemma_last_write_wins(grid, earlier, x, y);
        lemma_apply_all_keeps_shape(grid, earlier);
        assert(forall|i: int| 0 <= i < earlier.len() ==> earlier[i] == writes[i]);
        if hits(last, x, y) {
            assert(before.apply(last).at(x, y) == last.color);
        } else {
            assert(before.apply(last).at(x, y) == before.at(x, y));
            assert forall|i: int|
                0 <= i < writes.len() && hits(#[trigger] writes[i], x, y) && (forall|j: int|
                    i < j < writes.len() ==> !hits(#[trigger] writes[j], x, y)) implies grid.apply_all(
                writes,
            ).at(x, y) == writes[i].color by {
                assert(i < earlier.len());
                assert(hits(earlier[i], x, y));
                assert forall|j: int| i < j < earlier.len() implies !hits(
                    #[trigger] earlier[j],
                    x,
                    y,
                ) by {
                    assert(earlier[j] == writes[j]);
                }
            }
        }
    }
}

/// Laying a grid over another changes the cells that both have and leaves
/// every other cell of the lower grid at the colour it had.
pub proof fn lemma_overlay_cells(base: Grid, top: Grid, x: nat, y: nat)
    requires
        base.holds(x, y),
    ensures
        base.overlay(top).width == base.width,
        base.overlay(top).height == base.height,
        base.overlay(top).wf(),
        top.holds(x, y) ==> base.overlay(top).at(x, y) == top.at(x, y),
        !top.holds(x, y) ==> base.overlay(top).at(x, y) == base.at(x, y),
{
}

} // verus!
