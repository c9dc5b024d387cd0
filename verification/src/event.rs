//! Raw event vocabulary handed in by the host: button identities, press
//! state, and the mutable pointer bookkeeping record.

use vstd::prelude::*;
use crate::click::ClickState;
use crate::index::{Point, Side};
use crate::size::SizeInfo;

verus! {

/// Whether a button or key went down or up.
#[derive(Clone, Copy, PartialEq, Eq, Structural, Debug)]
pub enum ElementState {
    Pressed,
    Released,
}

/// A mouse button. Buttons beyond the first three carry the host's raw code.
#[derive(Clone, Copy, PartialEq, Eq, Structural, Debug)]
pub enum MouseButton {
    Left,
    Middle,
    Right,
    Other(u16),
}

/// A mouse-wheel or trackpad scroll delta: whole lines and columns, or raw
/// pixels.
#[derive(Clone, Copy, PartialEq, Eq, Structural, Debug)]
pub enum MouseScrollDelta {
    /// Whole columns and lines, as a wheel reports them.
    LineDelta(i32, i32),
    /// Raw pixels, as a trackpad reports them.
    PixelDelta(i64, i64),
}

/// The phase of a trackpad or touch gesture.
#[derive(Clone, Copy, PartialEq, Eq, Structural, Debug)]
pub enum TouchPhase {
    Started,
    Moved,
    Ended,
    Cancelled,
}

/// Sub-cell scroll remainder, in pixels.
#[derive(Clone, Copy, PartialEq, Eq, Structural, Debug)]
pub struct AccumulatedScroll {
    /// Horizontal remainder.
    pub x: i64,
    /// Vertical remainder.
    pub y: i64,
}

/// Mutable record of the current pointer position, button states, last-click
/// bookkeeping and accumulated sub-cell scroll offset.
#[derive(Clone, Copy, PartialEq, Eq, Structural, Debug)]
pub struct Mouse {
    /// Pointer x position in window pixels.
    pub x: usize,
    /// Pointer y position in window pixels.
    pub y: usize,
    pub left_button_state: ElementState,
    pub middle_button_state: ElementState,
    pub right_button_state: ElementState,
    /// Time of the last button press, in milliseconds of the host's clock.
    pub last_click_timestamp: u64,
    pub last_click_button: MouseButton,
    pub click_state: ClickState,
    pub accumulated_scroll: AccumulatedScroll,
    /// Which half of its glyph cell the pointer occupies.
    pub cell_side: Side,
    /// Whether the pointer lies inside the text area.
    pub inside_text_area: bool,
    /// Whether the hint highlight must be recomputed.
    pub hint_highlight_dirty: bool,
    /// Whether hint launching is blocked until the next hint update.
    pub block_hint_launcher: bool,
}

impl Mouse {
    /// The fresh pointer record: position at the origin, all buttons
    /// released, no click history.
    pub open spec fn spec_new() -> Mouse {
        Mouse {
            x: 0,
            y: 0,
            left_button_state: ElementState::Released,
            middle_button_state: ElementState::Released,
            right_button_state: ElementState::Released,
            last_click_timestamp: 0,
            last_click_button: MouseButton::Left,
            click_state: ClickState::Idle,
            accumulated_scroll: AccumulatedScroll { x: 0, y: 0 },
            cell_side: Side::Left,
            inside_text_area: false,
            hint_highlight_dirty: false,
            block_hint_launcher: false,
        }
    }

    /// A fresh pointer record: position at the origin, all buttons released,
    /// no click history.
    pub fn new() -> (r: Mouse)
        ensures
            r == Mouse::spec_new(),
    {
        Mouse {
            x: 0,
            y: 0,
            left_button_state: ElementState::Released,
            middle_button_state: ElementState::Released,
            right_button_state: ElementState::Released,
            last_click_timestamp: 0,
            last_click_button: MouseButton::Left,
            click_state: ClickState::Idle,
            accumulated_scroll: AccumulatedScroll { x: 0, y: 0 },
            cell_side: Side::Left,
            inside_text_area: false,
            hint_highlight_dirty: false,
            block_hint_launcher: false,
        }
    }

    /// Bounded accumulated scroll: what every event handler keeps, so that
    /// adding one more pixel delta cannot overflow.
    pub open spec fn spec_scroll_bounded(self) -> bool {
        &&& -0x100000000 <= self.accumulated_scroll.x <= 0x100000000
        &&& -0x100000000 <= self.accumulated_scroll.y <= 0x100000000
    }

    /// The grid cell under the pointer: padding and anything past the grid
    /// count as the closest cell, and the viewport line is shifted into the
    /// grid by the display offset.
    pub fn point(&self, size: &SizeInfo, display_offset: usize) -> (r: Point)
        requires
            size.spec_wf(),
            display_offset <= 0x7fffffff,
        ensures
            r == spec_mouse_point(*self, *size, display_offset as int),
    {
        let px = size.padding_x() as usize;
        let cw = size.cell_width() as usize;
        let col_raw = if self.x >= px {
            (self.x - px) / cw
        } else {
            0
        };
        let last_col = size.last_column();
        let col = if col_raw < last_col {
            col_raw
        } else {
            last_col
        };

        let py = size.padding_y() as usize;
        let ch = size.cell_height() as usize;
        let line_raw = if self.y >= py {
            (self.y - py) / ch
        } else {
            0
        };
        let last_line = size.screen_lines() - 1;
        let line = if line_raw < last_line {
            line_raw
        } else {
            last_line
        };

        let grid_line = (line as i64 - display_offset as i64) as i32;
        Point { line: grid_line, column: col }
    }
}

/// The grid cell under a pointer position: the column and viewport line,
/// each clamped to the grid, with the viewport line shifted down by the
/// display offset into negative history lines.
pub open spec fn spec_mouse_point(m: Mouse, size: SizeInfo, display_offset: int) -> Point
    recommends
        size.spec_wf(),
        0 <= display_offset <= 0x7fffffff,
{
    let col_raw = if m.x >= size.padding_x {
        (m.x - size.padding_x) / (size.cell_width as int)
    } else {
        0
    };
    let col = vstd::math::min(col_raw, size.columns - 1);
    let line_raw = if m.y >= size.padding_y {
        (m.y - size.padding_y) / (size.cell_height as int)
    } else {
        0
    };
    let line = vstd::math::min(line_raw, size.screen_lines - 1);
    Point { line: (line - display_offset) as i32, column: col as usize }
}

} // verus!
