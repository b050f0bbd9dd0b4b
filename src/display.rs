//! The 64 x 32 monochrome framebuffer.
use vstd::prelude::*;

use crate::isa::sprite_bit;

verus! {

/// Width of the grid, in cells.
pub const SCREEN_WIDTH: usize = 64;

/// Height of the grid, in cells.
pub const SCREEN_HEIGHT: usize = 32;

/// Number of cells in the grid (`SCREEN_WIDTH * SCREEN_HEIGHT`).
pub const CELL_COUNT: usize = 2048;

/// An RGBA colour used to present a cell.
#[derive(Clone, Copy, Debug, PartialEq, Eq, Structural)]
pub struct Colour {
    pub r: u8,
    pub g: u8,
    pub b: u8,
    pub a: u8,
}

impl Colour {
    /// Opaque white.
    pub fn white() -> (c: Colour)
        ensures
            c == (Colour { r: 255, g: 255, b: 255, a: 255 }),
    {
        Colour { r: 255, g: 255, b: 255, a: 255 }
    }

    /// Opaque black.
    pub fn black() -> (c: Colour)
        ensures
            c == (Colour { r: 0, g: 0, b: 0, a: 255 }),
    {
        Colour { r: 0, g: 0, b: 0, a: 255 }
    }
}

/// The screen region on which one cell is presented.
#[derive(Clone, Copy, Debug, PartialEq, Eq, Structural)]
pub struct CellRect {
    pub x: i32,
    pub y: i32,
    pub width: u32,
    pub height: u32,
}

/// Index of the cell at column `x`, row `y` (row-major).
pub open spec fn cell_index(x: int, y: int) -> int {
    y * SCREEN_WIDTH + x
}

/// The region that `init_cells` gives to cell `k`.
pub open spec fn cell_region(k: int, cell_width: u32, cell_height: u32) -> CellRect {
    CellRect {
        x: ((k % SCREEN_WIDTH as int) * cell_width) as i32,
        y: ((k / SCREEN_WIDTH as int) * cell_height) as i32,
        width: cell_width,
        height: cell_height,
    }
}

/// Whether a sprite row `row_byte` drawn from column `x0` covers column
/// `col`, counting only columns below `limit`.
pub open spec fn row_covers(row_byte: u8, x0: int, col: int, limit: int) -> bool {
    &&& x0 <= col < x0 + 8
    &&& col < limit
    &&& sprite_bit(row_byte, col - x0)
}

/// The framebuffer: one lit flag and one screen region per cell, row-major,
/// and the two colours that present a lit and an unlit cell.
pub struct Display {
    pub cells: [(bool, CellRect); CELL_COUNT],
    pub cell_colour_on: Colour,
    pub cell_colour_off: Colour,
}

impl Display {
    /// The lit flag of every cell, row-major.
    pub open spec fn pixels(&self) -> Seq<bool> {
        self.cells@.map_values(|c: (bool, CellRect)| c.0)
    }

    /// The screen region of every cell, row-major.
    pub open spec fn regions(&self) -> Seq<CellRect> {
        self.cells@.map_values(|c: (bool, CellRect)| c.1)
    }

    /// A framebuffer with every cell unlit, every region empty, lit cells
    /// white and unlit cells black.
    pub fn new() -> (d: Display)
        ensures
            forall|k: int|
                0 <= k < CELL_COUNT ==> #[trigger] d.cells@[k] == (
                false,
                CellRect { x: 0, y: 0, width: 0, height: 0 },
            ),
            d.cell_colour_on == (Colour { r: 255, g: 255, b: 255, a: 255 }),
            d.cell_colour_off == (Colour { r: 0, g: 0, b: 0, a: 255 }),
    {
        Display {
            cells: [(false, CellRect { x: 0, y: 0, width: 0, height: 0 }); CELL_COUNT],
            cell_colour_on: Colour::white(),
            cell_colour_off: Colour::black(),
        }
    }

    /// Gives every cell its region, `cell_width` by `cell_height` at column
    /// `k % 64` and row `k / 64` scaled by those dimensions, turns every cell
    /// off, and sets the two colours.
    pub fn init_cells(
        &mut self,
        cell_width: u32,
        cell_height: u32,
        cell_colour_on: Colour,
        cell_colour_off: Colour,
    )
        requires
            cell_width * (SCREEN_WIDTH - 1) <= i32::MAX,
            cell_height * (SCREEN_HEIGHT - 1) <= i32::MAX,
        ensures
            forall|k: int|
                0 <= k < CELL_COUNT ==> #[trigger] final(self).cells@[k] == (
                false,
                cell_region(k, cell_width, cell_height),
            ),
            final(self).cell_colour_on == cell_colour_on,
            final(self).cell_colour_off == cell_colour_off,
    {
        let mut i: usize = 0;
        while i < CELL_COUNT
            invariant
                i <= CELL_COUNT,
                cell_width * (SCREEN_WIDTH - 1) <= i32::MAX,
                cell_height * (SCREEN_HEIGHT - 1) <= i32::MAX,
                forall|k: int|
                    0 <= k < i ==> #[trigger] self.cells@[k] == (
                    false,
                    cell_region(k, cell_width, cell_height),
                ),
            decreases CELL_COUNT - i,
        {
            let col: u32 = (i % SCREEN_WIDTH) as u32;
            let row: u32 = (i / SCREEN_WIDTH) as u32;
            assert(col * cell_width <= i32::MAX) by (nonlinear_arith)
                requires
                    col <= 63,
                    cell_width * 63 <= i32::MAX,
            ;
            assert(row * cell_height <= i32::MAX) by (nonlinear_arith)
                requires
                    row <= 31,
                    cell_height * 31 <= i32::MAX,
            ;
            let region = CellRect {
                x: (col * cell_width) as i32,
                y: (row * cell_height) as i32,
                width: cell_width,
                height: cell_height,
            };
            self.cells[i] = (false, region);
            i += 1;
        }
        self.cell_colour_on = cell_colour_on;
        self.cell_colour_off = cell_colour_off;
    }

    /// Turns every cell off; regions and colours stay.
    pub fn clear_screen(&mut self)
        ensures
            forall|k: int|
                0 <= k < CELL_COUNT ==> #[trigger] final(self).cells@[k] == (
                false,
                old(self).cells@[k].1,
            ),
            final(self).cell_colour_on == old(self).cell_colour_on,
            final(self).cell_colour_off == old(self).cell_colour_off,
    {
        let mut i: usize = 0;
        while i < CELL_COUNT
            invariant
                i <= CELL_COUNT,
                self.cell_colour_on == old(self).cell_colour_on,
                self.cell_colour_off == old(self).cell_colour_off,
                forall|k: int|
                    0 <= k < CELL_COUNT ==> #[trigger] self.cells@[k] == if k < i {
                        (false, old(self).cells@[k].1)
                    } else {
                        old(self).cells@[k]
                    },
            decreases CELL_COUNT - i,
        {
            let region = self.cells[i].1;
            self.cells[i] = (false, region);
            i += 1;
        }
    }

    /// Whether the cell at column `x`, row `y` is lit.
    pub fn is_lit(&self, x: usize, y: usize) -> (r: bool)
        requires
            x < SCREEN_WIDTH,
            y < SCREEN_HEIGHT,
        ensures
            r == self.cells@[cell_index(x as int, y as int)].0,
    {
        self.cells[y * SCREEN_WIDTH + x].0
    }

    /// Flips the lit flag of the cell at column `x`, row `y`; nothing else
    /// changes.
    pub fn toggle(&mut self, x: usize, y: usize)
        requires
            x < SCREEN_WIDTH,
            y < SCREEN_HEIGHT,
        ensures
            final(self).cells@ == old(self).cells@.update(
                cell_index(x as int, y as int),
                (
                    !old(self).cells@[cell_index(x as int, y as int)].0,
                    old(self).cells@[cell_index(x as int, y as int)].1,
                ),
            ),
            final(self).cell_colour_on == old(self).cell_colour_on,
            final(self).cell_colour_off == old(self).cell_colour_off,
    {
        let k: usize = y * SCREEN_WIDTH + x;
        let cell = self.cells[k];
        self.cells[k] = (!cell.0, cell.1);
    }

    /// XOR-draws one sprite row: for each set bit `j` of `row_byte`, counted
    /// from the most significant, flips the cell at column `x0 + j`, row `y`.
    /// Columns beyond the right edge are not drawn. Returns whether a lit
    /// cell was turned off.
    pub fn xor_sprite_row(&mut self, row_byte: u8, x0: usize, y: usize) -> (collided: bool)
        requires
            x0 < SCREEN_WIDTH,
            y < SCREEN_HEIGHT,
        ensures
            forall|col: int, row: int|
                0 <= col < SCREEN_WIDTH && 0 <= row < SCREEN_HEIGHT
                    ==> #[trigger] final(self).cells@[cell_index(col, row)] == (
                    old(self).cells@[cell_index(col, row)].0 != (row == y && row_covers(
                        row_byte,
                        x0 as int,
                        col,
                        SCREEN_WIDTH as int,
                    )),
                    old(self).cells@[cell_index(col, row)].1,
                ),
            collided == exists|col: int|
                0 <= col < SCREEN_WIDTH && row_covers(row_byte, x0 as int, col, SCREEN_WIDTH as int)
                    && #[trigger] old(self).cells@[cell_index(col, y as int)].0,
            final(self).cell_colour_on == old(self).cell_colour_on,
            final(self).cell_colour_off == old(self).cell_colour_off,
    {
        let mut collided: bool = false;
        let mut j: usize = 0;
        while j < 8
            invariant
                j <= 8,
                x0 < SCREEN_WIDTH,
                y < SCREEN_HEIGHT,
                self.cell_colour_on == old(self).cell_colour_on,
                self.cell_colour_off == old(self).cell_colour_off,
                forall|col: int, row: int|
                    0 <= col < SCREEN_WIDTH && 0 <= row < SCREEN_HEIGHT
                        ==> #[trigger] self.cells@[cell_index(col, row)] == (
                        old(self).cells@[cell_index(col, row)].0 != (row == y && row_covers(
                            row_byte,
                            x0 as int,
                            col,
                            x0 + j,
                        )),
                        old(self).cells@[cell_index(col, row)].1,
                    ),
                collided == exists|col: int|
                    0 <= col < SCREEN_WIDTH && row_covers(row_byte, x0 as int, col, x0 + j)
                        && #[trigger] old(self).cells@[cell_index(col, y as int)].0,
            decreases 8 - j,
        {
            let col: usize = x0 + j;
            let shift: u8 = 7 - j as u8;
            if col < SCREEN_WIDTH && (row_byte >> shift) & 1u8 == 1u8 {
                if self.is_lit(col, y) {
                    collided = true;
                }
                self.toggle(col, y);
            }
            j += 1;
        }
        collided
    }

    /// The colour in which a cell is presented: the "on" colour when it is
    /// lit, the "off" colour otherwise.
    pub fn cell_colour(&self, cell: &(bool, CellRect)) -> (c: Colour)
        ensures
            c == if cell.0 {
                self.cell_colour_on
            } else {
                self.cell_colour_off
            },
    {
        if cell.0 {
            self.cell_colour_on
        } else {
            self.cell_colour_off
        }
    }
}

} // verus!
