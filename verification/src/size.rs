//! Terminal window geometry, in integer pixels.
//!
//! Width, height, cell dimensions and padding are whole pixels; the number
//! of viewport lines and columns is derived from them. The paddings always
//! fit the window and the cell dimensions are nonzero.

use vstd::prelude::*;

verus! {

/// The viewport never shrinks below this many lines.
pub const MIN_SCREEN_LINES: usize = 1;

/// The viewport never shrinks below this many columns.
pub const MIN_COLUMNS: usize = 2;

/// Terminal size info: window and cell geometry plus the derived grid size.
#[derive(Clone, Copy, PartialEq, Eq, Structural, Debug)]
pub struct SizeInfo {
    /// Terminal window width in pixels.
    pub width: u32,
    /// Terminal window height in pixels.
    pub height: u32,
    /// Width of an individual cell.
    pub cell_width: u32,
    /// Height of an individual cell.
    pub cell_height: u32,
    /// Horizontal window padding.
    pub padding_x: u32,
    /// Vertical window padding.
    pub padding_y: u32,
    /// Number of lines in the viewport.
    pub screen_lines: usize,
    /// Number of columns in the viewport.
    pub columns: usize,
}

impl SizeInfo {
    /// Well-formedness: cells have positive size, the padding fits the
    /// window twice over, the window fits a signed 32-bit pixel range, and
    /// the grid is at least the minimum size.
    pub open spec fn spec_wf(self) -> bool {
        &&& 1 <= self.cell_width
        &&& 1 <= self.cell_height
        &&& self.width <= 0x7fffffff
        &&& self.height <= 0x7fffffff
        &&& 2 * self.padding_x <= self.width
        &&& 2 * self.padding_y <= self.height
        &&& MIN_SCREEN_LINES <= self.screen_lines
        &&& self.screen_lines <= self.height || self.screen_lines == MIN_SCREEN_LINES
        &&& MIN_COLUMNS <= self.columns
        &&& self.columns <= self.width || self.columns == MIN_COLUMNS
    }

    pub open spec fn spec_width(self) -> u32 {
        self.width
    }

    pub open spec fn spec_height(self) -> u32 {
        self.height
    }

    pub open spec fn spec_cell_width(self) -> u32 {
        self.cell_width
    }

    pub open spec fn spec_cell_height(self) -> u32 {
        self.cell_height
    }

    pub open spec fn spec_padding_x(self) -> u32 {
        self.padding_x
    }

    pub open spec fn spec_padding_y(self) -> u32 {
        self.padding_y
    }

    pub open spec fn spec_screen_lines(self) -> usize {
        self.screen_lines
    }

    pub open spec fn spec_columns(self) -> usize {
        self.columns
    }

    /// Padding spread evenly around the content: the configured padding plus
    /// half of the space that would be left over after the last full cell.
    pub open spec fn spec_dynamic_padding(padding: u32, dimension: u32, cell_dimension: u32) -> int
        recommends
            cell_dimension >= 1,
            2 * padding <= dimension,
    {
        padding + ((dimension - 2 * padding) % (cell_dimension as int)) / 2
    }

    /// Calculate padding to spread it evenly around the terminal content.
    fn dynamic_padding(padding: u32, dimension: u32, cell_dimension: u32) -> (r: u32)
        requires
            cell_dimension >= 1,
            2 * padding <= dimension,
        ensures
            r == Self::spec_dynamic_padding(padding, dimension, cell_dimension),
            2 * r <= dimension,
    {
        let rem = (dimension - 2 * padding) % cell_dimension;
        proof {
            vstd::arithmetic::div_mod::lemma_mod_decreases(
                (dimension - 2 * padding) as nat,
                cell_dimension as nat,
            );
            assert(rem <= dimension - 2 * padding);
        }
        padding + rem / 2
    }

    /// Build the size info: optionally spread the padding, then derive the
    /// grid dimensions from the pixel sizes, clamped to the minimum grid.
    pub fn new(
        width: u32,
        height: u32,
        cell_width: u32,
        cell_height: u32,
        padding_x: u32,
        padding_y: u32,
        dynamic_padding: bool,
    ) -> (r: SizeInfo)
        requires
            1 <= cell_width,
            1 <= cell_height,
            width <= 0x7fffffff,
            height <= 0x7fffffff,
            2 * padding_x <= width,
            2 * padding_y <= height,
        ensures
            r.spec_wf(),
            r.spec_width() == width,
            r.spec_height() == height,
            r.spec_cell_width() == cell_width,
            r.spec_cell_height() == cell_height,
            r.spec_padding_x() == (if dynamic_padding {
                Self::spec_dynamic_padding(padding_x, width, cell_width)
            } else {
                padding_x as int
            }),
            r.spec_padding_y() == (if dynamic_padding {
                Self::spec_dynamic_padding(padding_y, height, cell_height)
            } else {
                padding_y as int
            }),
            r.spec_screen_lines() == vstd::math::max(
                ((height - 2 * r.spec_padding_y()) as int / (cell_height as int)),
                MIN_SCREEN_LINES as int,
            ),
            r.spec_columns() == vstd::math::max(
                ((width - 2 * r.spec_padding_x()) as int / (cell_width as int)),
                MIN_COLUMNS as int,
            ),
    {
        let (padding_x, padding_y) = if dynamic_padding {
            (
                Self::dynamic_padding(padding_x, width, cell_width),
                Self::dynamic_padding(padding_y, height, cell_height),
            )
        } else {
            (padding_x, padding_y)
        };

        let lines = ((height - 2 * padding_y) / cell_height) as usize;
        let screen_lines = if lines > MIN_SCREEN_LINES {
            lines
        } else {
            MIN_SCREEN_LINES
        };

        let cols = ((width - 2 * padding_x) / cell_width) as usize;
        let columns = if cols > MIN_COLUMNS {
            cols
        } else {
            MIN_COLUMNS
        };

        proof {
            vstd::arithmetic::div_mod::lemma_div_nonincreasing(
                (height - 2 * padding_y) as int,
                cell_height as int,
            );
            vstd::arithmetic::div_mod::lemma_div_nonincreasing(
                (width - 2 * padding_x) as int,
                cell_width as int,
            );
        }

        SizeInfo {
            width,
            height,
            cell_width,
            cell_height,
            padding_x,
            padding_y,
            screen_lines,
            columns,
        }
    }

    pub fn width(&self) -> (r: u32)
        ensures
            r == self.spec_width(),
    {
        self.width
    }

    pub fn height(&self) -> (r: u32)
        ensures
            r == self.spec_height(),
    {
        self.height
    }

    pub fn cell_width(&self) -> (r: u32)
        ensures
            r == self.spec_cell_width(),
    {
        self.cell_width
    }

    pub fn cell_height(&self) -> (r: u32)
        ensures
            r == self.spec_cell_height(),
    {
        self.cell_height
    }

    pub fn padding_x(&self) -> (r: u32)
        ensures
            r == self.spec_padding_x(),
    {
        self.padding_x
    }

    pub fn padding_y(&self) -> (r: u32)
        ensures
            r == self.spec_padding_y(),
    {
        self.padding_y
    }

    /// Number of columns in the viewport.
    pub fn columns(&self) -> (r: usize)
        ensures
            r == self.spec_columns(),
    {
        self.columns
    }

    /// Number of lines in the viewport.
    pub fn screen_lines(&self) -> (r: usize)
        ensures
            r == self.spec_screen_lines(),
    {
        self.screen_lines
    }

    /// Number of lines the viewport can show, history excluded.
    pub fn total_lines(&self) -> (r: usize)
        ensures
            r == self.spec_screen_lines(),
    {
        self.screen_lines
    }

    /// The index of the last column.
    pub fn last_column(&self) -> (r: usize)
        requires
            self.spec_wf(),
        ensures
            r == self.spec_columns() - 1,
    {
        self.columns - 1
    }

    /// Give `count` viewport lines over to other UI, never dropping below
    /// the minimum.
    pub fn reserve_lines(&mut self, count: usize)
        ensures
            final(self).spec_screen_lines() == vstd::math::max(
                old(self).spec_screen_lines() - count,
                MIN_SCREEN_LINES as int,
            ),
            *final(self) == (SizeInfo {
                screen_lines: final(self).screen_lines,
                ..*old(self)
            }),
    {
        let reduced = if count < self.screen_lines {
            self.screen_lines - count
        } else {
            0
        };
        self.screen_lines = if reduced > MIN_SCREEN_LINES {
            reduced
        } else {
            MIN_SCREEN_LINES
        };
    }

    /// Whether a pixel position lies inside the text area: the padding and
    /// everything below the grid (message bar, search) do not count.
    pub open spec fn spec_contains_point(self, x: usize, y: usize) -> bool {
        &&& x <= self.padding_x + self.columns * self.cell_width
        &&& x > self.padding_x
        &&& y <= self.padding_y + self.screen_lines * self.cell_height
        &&& y > self.padding_y
    }

    /// Check if coordinates are inside the terminal grid.
    pub fn contains_point(&self, x: usize, y: usize) -> (r: bool)
        requires
            self.spec_wf(),
        ensures
            r == self.spec_contains_point(x, y),
    {
        proof {
            assert(self.columns * self.cell_width <= 0x7fffffff * 0xffffffff)
                by (nonlinear_arith)
                requires
                    self.columns <= 0x7fffffff,
                    self.cell_width <= 0xffffffff,
            ;
            assert(self.screen_lines * self.cell_height <= 0x7fffffff * 0xffffffff)
                by (nonlinear_arith)
                requires
                    self.screen_lines <= 0x7fffffff,
                    self.cell_height <= 0xffffffff,
            ;
        }
        let grid_right = self.padding_x as u64 + self.columns as u64 * self.cell_width as u64;
        let grid_bottom = self.padding_y as u64 + self.screen_lines as u64
            * self.cell_height as u64;
        (x as u64) <= grid_right && x > self.padding_x as usize && (y as u64) <= grid_bottom && y
            > self.padding_y as usize
    }
}

} // verus!
