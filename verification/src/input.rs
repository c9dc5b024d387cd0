//! The input processor: raw pointer, keyboard and touch events in, internal
//! effects and PTY byte sequences out.
//!
//! The processor owns the pointer record, the touch-gesture state, the live
//! modifiers and the character-suppression bookkeeping. Each handler reads
//! an [`EventContext`] snapshot of the host's terminal and display state,
//! mutates the processor, and returns the [`Effect`]s the host must
//! perform, in order.

use vstd::prelude::*;
use crate::bindings::{spec_key_triggered, spec_mouse_triggered, Action, KeyboardInput, TriggerEq};
use crate::click::{classify_click, spec_classify_click, ClickState};
use crate::codec::{spec_utf8_encode, utf8_encode};
use crate::config::UiConfig;
use crate::effects::{ClipboardType, CursorIcon, Effect, Scroll, SelectionType, TimerId, Topic};
use crate::event::{spec_mouse_point, ElementState, Mouse, MouseButton, MouseScrollDelta, TouchPhase};
use crate::index::{Direction, Point, Side};
use crate::modes::{
    spec_binding_mode, spec_mods_code, ModifiersState, TermMode, TERM_ALTERNATE_SCROLL, TERM_ALT_SCREEN,
    TERM_FOCUS_IN_OUT, TERM_MOUSE_DRAG, TERM_MOUSE_MODE, TERM_MOUSE_MOTION,
};
use crate::num::{clamp_i32, tdiv_i64, trem_i64, spec_tdiv, spec_trem};
use crate::report::{encode, report_mode_of, spec_encode, spec_report_mode};
use crate::size::SizeInfo;
use crate::touch::{touch_start_transition, Touch, TouchPurpose, MAX_TAP_DISTANCE};

verus! {

/// Interval for mouse scrolling during selection outside of the boundaries,
/// in milliseconds.
pub const SELECTION_SCROLLING_INTERVAL_MS: u64 = 15;

/// Minimum number of pixels at the bottom or top where selection scrolling
/// is performed, before scaling.
pub const MIN_SELECTION_SCROLLING_HEIGHT: i64 = 5;

/// Number of pixels for increasing the selection scrolling speed factor by
/// one, before scaling.
pub const SELECTION_SCROLLING_STEP: i64 = 20;

/// Touch scroll speed, as a fraction: numerator over denominator.
pub const TOUCH_SCROLL_FACTOR_NUM: i64 = 35;

/// Touch scroll speed denominator.
pub const TOUCH_SCROLL_FACTOR_DEN: i64 = 100;

/// Delay before a search is run while the user is typing, in milliseconds.
pub const TYPING_SEARCH_DELAY_MS: u64 = 500;

/// Length of the message bar's close-button text.
pub const MESSAGE_CLOSE_BUTTON_LEN: usize = 3;

/// Snapshot of the host state one event is processed against, taken at the
/// start of the event.
#[derive(Clone, Copy, PartialEq, Eq, Structural, Debug)]
pub struct EventContext {
    /// The terminal's mode flags.
    pub term_mode: TermMode,
    /// Lines the viewport is scrolled into history.
    pub display_offset: usize,
    /// Whether no selection exists.
    pub selection_is_empty: bool,
    /// Whether a search is in progress.
    pub search_active: bool,
    /// The direction of the search in progress.
    pub search_direction: Direction,
    /// Whether an IME preedit is showing.
    pub preedit_active: bool,
    /// Whether hint selection is in progress.
    pub hint_selection_active: bool,
    /// Whether a hint is highlighted under the pointer.
    pub highlighted_hint: bool,
    /// Whether the highlighted hint covers the pointer's current cell.
    pub highlighted_hint_at_point: bool,
    /// Lines of the topmost message-bar message at the current size, if one
    /// is showing.
    pub message_bar_lines: Option<usize>,
    /// Window and cell geometry.
    pub size: SizeInfo,
    /// The window this processor belongs to.
    pub window_id: u64,
    /// The window's scale factor, in percent.
    pub scale_percent: u32,
}

impl EventContext {
    /// Well-formedness of a snapshot: sane geometry, a display offset and
    /// scale in range.
    pub open spec fn spec_wf(self) -> bool {
        &&& self.size.spec_wf()
        &&& 1 <= self.size.width
        &&& 1 <= self.size.height
        &&& self.size.cell_width <= 10000
        &&& self.size.cell_height <= 10000
        &&& self.display_offset <= 0x7fffffff
        &&& 5 <= self.scale_percent <= 100000
    }

    /// Whether the terminal grabs the mouse: any mouse-reporting bit is
    /// set.
    pub open spec fn spec_mouse_mode(self) -> bool {
        self.term_mode.spec_intersects(TERM_MOUSE_MODE)
    }

    /// Read whether the terminal grabs the mouse.
    pub fn mouse_mode(&self) -> (r: bool)
        ensures
            r == self.spec_mouse_mode(),
    {
        self.term_mode.intersects(TERM_MOUSE_MODE)
    }
}

/// Whether `r` is exactly the effect list for an encoded mouse report:
/// one PTY write with the encoded bytes, or nothing when the protocol
/// dropped the event.
pub open spec fn spec_report_effects(r: Seq<Effect>, enc: Option<Seq<u8>>) -> bool {
    match enc {
        Some(bytes) => r.len() == 1 && (r[0] matches Effect::WritePty(v) && v@ == bytes),
        None => r.len() == 0,
    }
}

/// `v` clamped into the inclusive range from `lo` to `hi`.
pub open spec fn spec_clamp(v: int, lo: int, hi: int) -> int {
    if v < lo {
        lo
    } else if v > hi {
        hi
    } else {
        v
    }
}

/// `n` copies of the three-byte arrow-key escape `ESC O cmd`.
pub open spec fn spec_arrow_repeat(cmd: u8, n: int) -> Seq<u8>
    decreases n,
{
    if n <= 0 {
        Seq::empty()
    } else {
        spec_arrow_repeat(cmd, n - 1) + seq![27u8, 79u8, cmd]
    }
}

/// The scaled top boundary of the selection auto-scroll region.
pub open spec fn spec_end_top(ctx: EventContext) -> int {
    vstd::math::max(
        MIN_SELECTION_SCROLLING_HEIGHT * ctx.scale_percent / 100,
        ctx.size.padding_y as int,
    )
}

/// The scaled bottom boundary of the selection auto-scroll region.
pub open spec fn spec_start_bottom(ctx: EventContext) -> int {
    vstd::math::min(
        ctx.size.height - MIN_SELECTION_SCROLLING_HEIGHT * ctx.scale_percent / 100,
        ctx.size.padding_y + ctx.size.screen_lines * ctx.size.cell_height,
    )
}

/// The scaled selection auto-scroll speed step.
pub open spec fn spec_scroll_step(ctx: EventContext) -> int {
    SELECTION_SCROLLING_STEP * ctx.scale_percent / 100
}

/// Whether `r` is exactly `n` identical wheel reports of the encoding
/// `enc`, or nothing when the protocol drops the point.
pub open spec fn spec_wheel_reports(r: Seq<Effect>, enc: Option<Seq<u8>>, n: int) -> bool {
    match enc {
        Some(bytes) => r.len() == n && forall|k: int|
            0 <= k < n ==> (#[trigger] r[k] matches Effect::WritePty(v) && v@ == bytes),
        None => r.len() == 0,
    }
}

/// The effects of one selection auto-scroll update: a cancel inside the
/// scroll region, otherwise a repeating scroll whose speed grows with the
/// distance past the boundary.
pub open spec fn spec_selection_scroll_effects(mouse_y: int, ctx: EventContext) -> Seq<Effect> {
    let end_top = spec_end_top(ctx);
    let start_bottom = spec_start_bottom(ctx);
    let step = spec_scroll_step(ctx);
    if mouse_y < end_top {
        seq![
            Effect::ScheduleSelectionScroll {
                window_id: ctx.window_id,
                delta: spec_clamped_i32(spec_tdiv(end_top - mouse_y + step, step)),
                interval_ms: SELECTION_SCROLLING_INTERVAL_MS,
            },
        ]
    } else if mouse_y >= start_bottom {
        seq![
            Effect::ScheduleSelectionScroll {
                window_id: ctx.window_id,
                delta: spec_clamped_i32(spec_tdiv(start_bottom - mouse_y - step, step)),
                interval_ms: SELECTION_SCROLLING_INTERVAL_MS,
            },
        ]
    } else {
        seq![
            Effect::CancelTimer(
                TimerId { topic: Topic::SelectionScrolling, window_id: ctx.window_id },
            ),
        ]
    }
}

/// The input processor's own mutable state.
pub struct Processor {
    /// Pointer position, buttons and click bookkeeping.
    pub mouse: Mouse,
    /// Touch-gesture classification state.
    pub touch: TouchPurpose,
    /// The modifiers currently held.
    pub modifiers: ModifiersState,
    /// Characters received since the last key press.
    pub received_count: usize,
    /// Whether received characters are suppressed by a fired binding.
    pub suppress_chars: bool,
}

impl Processor {
    /// A fresh processor: pointer at the origin, no gesture, no modifiers.
    pub fn new() -> (r: Processor)
        ensures
            r.mouse == Mouse::spec_new(),
            r.touch is Idle,
            r.modifiers == (ModifiersState {
                shift: false,
                ctrl: false,
                alt: false,
                logo: false,
            }),
            r.received_count == 0,
            !r.suppress_chars,
    {
        Processor {
            mouse: Mouse::new(),
            touch: TouchPurpose::Idle,
            modifiers: ModifiersState::empty(),
            received_count: 0,
            suppress_chars: false,
        }
    }

    /// Check which side of a cell an X coordinate lies on.
    pub fn cell_side(&self, size: &SizeInfo, x: usize) -> (r: Side)
        requires
            size.spec_wf(),
        ensures
            r == spec_cell_side(*size, x as int),
    {
        let cell_x = x.saturating_sub(size.padding_x() as usize) % size.cell_width() as usize;
        let half_cell_width = (size.cell_width() / 2) as usize;

        let additional_padding = (size.width() - size.padding_x() * 2) % size.cell_width();
        proof {
            vstd::arithmetic::div_mod::lemma_mod_decreases(
                (size.width - 2 * size.padding_x) as nat,
                size.cell_width as nat,
            );
        }
        let end_of_grid = size.width() - size.padding_x() - additional_padding;
        if cell_x > half_cell_width || x as u64 >= end_of_grid as u64 {
            Side::Right
        } else {
            Side::Left
        }
    }

    /// Report a pointer event under the active protocol: one PTY write, or
    /// nothing when the protocol drops the point.
    pub fn mouse_report(&self, button: u8, pressed: bool, ctx: &EventContext) -> (r: Vec<Effect>)
        requires
            ctx.spec_wf(),
            button <= 67,
        ensures
            spec_report_effects(
                r@,
                spec_encode(
                    spec_mouse_point(self.mouse, ctx.size, ctx.display_offset as int),
                    button,
                    spec_mods_code(self.modifiers),
                    spec_report_mode(ctx.term_mode),
                    pressed,
                ),
            ),
    {
        let point = self.mouse.point(&ctx.size, ctx.display_offset);
        let mods = self.modifiers.code();
        let mode = report_mode_of(ctx.term_mode);
        proof {
            assert(point.column < ctx.size.columns);
        }
        match encode(point, button, mods, mode, pressed) {
            Some(bytes) => {
                let mut r: Vec<Effect> = Vec::new();
                r.push(Effect::WritePty(bytes));
                r
            },
            None => Vec::new(),
        }
    }

    /// Send the focus-change escape when the terminal asked for focus
    /// events: `ESC [ I` on gain, `ESC [ O` on loss.
    pub fn on_focus_change(&self, is_focused: bool, ctx: &EventContext) -> (r: Vec<Effect>)
        ensures
            ctx.term_mode.spec_contains(TERM_FOCUS_IN_OUT) ==> r@.len() == 1 && (
            r@[0] matches Effect::WritePty(v) && v@ == seq![27u8, 91u8, if is_focused {
                73u8
            } else {
                79u8
            }]),
            !ctx.term_mode.spec_contains(TERM_FOCUS_IN_OUT) ==> r@.len() == 0,
    {
        let mut r: Vec<Effect> = Vec::new();
        if ctx.term_mode.contains(TERM_FOCUS_IN_OUT) {
            let mut msg: Vec<u8> = Vec::new();
            msg.push(27);
            msg.push(91);
            msg.push(if is_focused {
                73
            } else {
                79
            });
            proof {
                assert(msg@ =~= seq![27u8, 91u8, if is_focused {
                    73u8
                } else {
                    79u8
                }]);
            }
            r.push(Effect::WritePty(msg));
        }
        r
    }

    /// Modifier state change: record it, mark the hint highlight dirty and
    /// refresh the cursor icon.
    pub fn modifiers_input(&mut self, modifiers: ModifiersState, ctx: &EventContext) -> (r: Vec<
        Effect,
    >)
        requires
            ctx.spec_wf(),
        ensures
            final(self).modifiers == modifiers,
            final(self).mouse == (Mouse { hint_highlight_dirty: true, ..old(self).mouse }),
            final(self).touch == old(self).touch,
            final(self).received_count == old(self).received_count,
            final(self).suppress_chars == old(self).suppress_chars,
            r@ == seq![
                Effect::SetMouseCursor(
                    spec_cursor_state(final(self).mouse, modifiers, *ctx),
                ),
            ],
    {
        self.modifiers = modifiers;
        self.mouse.hint_highlight_dirty = true;
        let icon = self.cursor_state(ctx);
        let mut r: Vec<Effect> = Vec::new();
        r.push(Effect::SetMouseCursor(icon));
        proof {
            assert(r@ =~= seq![Effect::SetMouseCursor(icon)]);
        }
        r
    }

    /// Reset the mouse cursor icon from the current modifier and terminal
    /// state.
    pub fn reset_mouse_cursor(&self, ctx: &EventContext) -> (r: Vec<Effect>)
        requires
            ctx.spec_wf(),
        ensures
            r@ == seq![Effect::SetMouseCursor(spec_cursor_state(self.mouse, self.modifiers, *ctx))],
    {
        let icon = self.cursor_state(ctx);
        let mut r: Vec<Effect> = Vec::new();
        r.push(Effect::SetMouseCursor(icon));
        proof {
            assert(r@ =~= seq![Effect::SetMouseCursor(icon)]);
        }
        r
    }

    /// Check mouse icon state in relation to the message bar.
    fn message_bar_cursor_state(&self, ctx: &EventContext) -> (r: Option<CursorIcon>)
        requires
            ctx.spec_wf(),
        ensures
            r == spec_message_bar_cursor_state(self.mouse, *ctx),
    {
        // Since search is above the message bar, the button is offset by search's height.
        let search_height: u64 = if ctx.search_active {
            1
        } else {
            0
        };
        let size = &ctx.size;
        proof {
            assert(size.cell_height * (size.screen_lines + search_height) <= 0xffffffff * (
            0x7fffffff + 1)) by (nonlinear_arith)
                requires
                    size.cell_height <= 0xffffffff,
                    size.screen_lines + search_height <= 0x7fffffff + 1,
            ;
        }
        let terminal_end: u64 = size.padding_y() as u64 + size.cell_height() as u64 * (
        size.screen_lines() as u64 + search_height);

        let point = self.mouse.point(size, ctx.display_offset);

        if ctx.message_bar_lines.is_none() || self.mouse.y as u64 <= terminal_end {
            None
        } else if self.mouse.y as u64 <= terminal_end + size.cell_height() as u64 && point.column
            + MESSAGE_CLOSE_BUTTON_LEN >= size.columns() {
            Some(CursorIcon::Hand)
        } else {
            Some(CursorIcon::Default)
        }
    }

    /// Icon state of the cursor.
    pub fn cursor_state(&self, ctx: &EventContext) -> (r: CursorIcon)
        requires
            ctx.spec_wf(),
        ensures
            r == spec_cursor_state(self.mouse, self.modifiers, *ctx),
    {
        if let Some(mouse_state) = self.message_bar_cursor_state(ctx) {
            mouse_state
        } else if ctx.highlighted_hint_at_point {
            CursorIcon::Hand
        } else if !self.modifiers.shift && ctx.mouse_mode() {
            CursorIcon::Default
        } else {
            CursorIcon::Text
        }
    }

    /// Handle automatic scrolling when selecting above or below the window:
    /// inside the scroll region the pending timer is cancelled; outside it,
    /// a repeating scroll is scheduled with a speed proportional to the
    /// distance past the boundary.
    pub fn update_selection_scrolling(&self, mouse_y: i32, ctx: &EventContext) -> (r: Vec<Effect>)
        requires
            ctx.spec_wf(),
        ensures
            r@ == spec_selection_scroll_effects(mouse_y as int, *ctx),
            mouse_y < spec_end_top(*ctx) ==> (r@[0] matches Effect::ScheduleSelectionScroll {
                delta,
                ..
            } && delta >= 1),
            mouse_y >= spec_start_bottom(*ctx) && mouse_y >= spec_end_top(*ctx) ==> (
            r@[0] matches Effect::ScheduleSelectionScroll { delta, .. } && delta <= -1),
    {
        let size = &ctx.size;

        // Scale constants by DPI.
        let min_height = (MIN_SELECTION_SCROLLING_HEIGHT * ctx.scale_percent as i64 / 100) as i64;
        let step = (SELECTION_SCROLLING_STEP * ctx.scale_percent as i64 / 100) as i64;

        // Compute the height of the scrolling areas.
        let end_top = if min_height > size.padding_y() as i64 {
            min_height
        } else {
            size.padding_y() as i64
        };
        proof {
            assert(size.screen_lines * size.cell_height <= 0x7fffffff * 0xffffffff)
                by (nonlinear_arith)
                requires
                    size.screen_lines <= 0x7fffffff,
                    size.cell_height <= 0xffffffff,
            ;
        }
        let text_area_bottom: i64 = size.padding_y() as i64 + (size.screen_lines() as u64
            * size.cell_height() as u64) as i64;
        let win_bottom = size.height() as i64 - min_height;
        let start_bottom = if win_bottom < text_area_bottom {
            win_bottom
        } else {
            text_area_bottom
        };

        let timer_id = TimerId::new(Topic::SelectionScrolling, ctx.window_id);
        let mut r: Vec<Effect> = Vec::new();

        // Distance from the closest window boundary decides the speed.
        let delta: i64 = if (mouse_y as i64) < end_top {
            end_top - mouse_y as i64 + step
        } else if mouse_y as i64 >= start_bottom {
            start_bottom - mouse_y as i64 - step
        } else {
            r.push(Effect::CancelTimer(timer_id));
            proof {
                assert(r@ =~= seq![
                    Effect::CancelTimer(
                        TimerId { topic: Topic::SelectionScrolling, window_id: ctx.window_id },
                    ),
                ]);
            }
            return r;
        };

        // Scale the number of lines scrolled by the distance to the boundary.
        let lines = clamp_i32(tdiv_i64(delta, step));
        r.push(
            Effect::ScheduleSelectionScroll {
                window_id: ctx.window_id,
                delta: lines,
                interval_ms: SELECTION_SCROLLING_INTERVAL_MS,
            },
        );
        proof {
            if (mouse_y as int) < spec_end_top(*ctx) {
                assert(delta >= step);
                assert(spec_tdiv(delta as int, step as int) >= 1) by (nonlinear_arith)
                    requires
                        delta >= step > 0,
                        spec_tdiv(delta as int, step as int) == delta as int / step as int,
                ;
            } else {
                assert(delta <= -step);
                assert(spec_tdiv(delta as int, step as int) <= -1) by (nonlinear_arith)
                    requires
                        0 < step,
                        delta <= -step,
                        spec_tdiv(delta as int, step as int) == -((-delta as int) / (step as int)),
                ;
            }
            assert(r@ =~= seq![
                Effect::ScheduleSelectionScroll {
                    window_id: ctx.window_id,
                    delta: lines,
                    interval_ms: SELECTION_SCROLLING_INTERVAL_MS,
                },
            ]);
        }
        r
    }
}

/// Which half of its cell the X coordinate falls in: the right half past
/// the cell's midpoint, and everything beyond the last full cell of the
/// grid.
pub open spec fn spec_cell_side(size: SizeInfo, x: int) -> Side
    recommends
        size.spec_wf(),
{
    let cell_x = (vstd::math::max(x - size.padding_x, 0)) % (size.cell_width as int);
    let half_cell_width = size.cell_width as int / 2;
    let additional_padding = (size.width - 2 * size.padding_x) % (size.cell_width as int);
    let end_of_grid = size.width - size.padding_x - additional_padding;
    if cell_x > half_cell_width || x >= end_of_grid {
        Side::Right
    } else {
        Side::Left
    }
}

/// The clamp of an unbounded line count into the signed 32-bit range.
pub open spec fn spec_clamped_i32(v: int) -> i32 {
    if v > i32::MAX {
        i32::MAX
    } else if v < i32::MIN {
        i32::MIN
    } else {
        v as i32
    }
}

/// The effects of a left click for each click multiplicity: a single click
/// clears the selection and starts a fresh one (block with ctrl held), a
/// double click starts a semantic selection, a triple click a line
/// selection.
pub open spec fn spec_left_click_effects(
    state: ClickState,
    point: Point,
    side: Side,
    mods: ModifiersState,
) -> Seq<Effect> {
    match state {
        ClickState::Click => seq![
            Effect::ClearSelection,
            Effect::StartSelection(
                if mods.ctrl {
                    SelectionType::Block
                } else {
                    SelectionType::Simple
                },
                point,
                side,
            ),
        ],
        ClickState::DoubleClick => seq![
            Effect::StartSelection(SelectionType::Semantic, point, side),
        ],
        ClickState::TripleClick => seq![Effect::StartSelection(SelectionType::Lines, point, side)],
        ClickState::Idle => Seq::empty(),
    }
}

/// What one scroll step leaves behind: the accumulated sub-cell remainder
/// after adding the (multiplier-scaled) pixel delta and keeping the
/// remainder modulo the cell size, and the emitted effects: wheel reports
/// in mouse mode, arrow-key escapes on the alternate screen, one viewport
/// scroll otherwise. Everything but the accumulator is untouched.
pub open spec fn spec_scroll_post(
    pre: Processor,
    post: Processor,
    r: Seq<Effect>,
    px_x: int,
    px_y: int,
    ctx: EventContext,
    config: UiConfig,
) -> bool {
    &&& post.touch == pre.touch
    &&& post.modifiers == pre.modifiers
    &&& post.received_count == pre.received_count
    &&& post.suppress_chars == pre.suppress_chars
    &&& post.mouse.spec_scroll_bounded()
    &&& post.mouse == (Mouse { accumulated_scroll: post.mouse.accumulated_scroll, ..pre.mouse })
    &&& ({
        let w = ctx.size.cell_width as int;
        let h = ctx.size.cell_height as int;
        let mult = config.scrolling_multiplier as int;
        if ctx.spec_mouse_mode() {
            let ax = pre.mouse.accumulated_scroll.x + px_x;
            let ay = pre.mouse.accumulated_scroll.y + px_y;
            let point = spec_mouse_point(pre.mouse, ctx.size, ctx.display_offset as int);
            let mods = spec_mods_code(pre.modifiers);
            let rmode = spec_report_mode(ctx.term_mode);
            let enc_y = spec_encode(
                point,
                if px_y > 0 {
                    64u8
                } else {
                    65u8
                },
                mods,
                rmode,
                true,
            );
            let enc_x = spec_encode(
                point,
                if px_x > 0 {
                    66u8
                } else {
                    67u8
                },
                mods,
                rmode,
                true,
            );
            let ny = vstd::math::abs(spec_tdiv(ay, h)) as int;
            let nx = vstd::math::abs(spec_tdiv(ax, w)) as int;
            let split: int = if enc_y is Some {
                ny
            } else {
                0
            };
            &&& post.mouse.accumulated_scroll.x == spec_trem(ax, w)
            &&& post.mouse.accumulated_scroll.y == spec_trem(ay, h)
            &&& spec_wheel_reports(r.take(split), enc_y, ny)
            &&& spec_wheel_reports(r.skip(split), enc_x, nx)
        } else if ctx.term_mode.spec_contains(TERM_ALT_SCREEN | TERM_ALTERNATE_SCROLL)
            && !pre.modifiers.shift {
            let ax = pre.mouse.accumulated_scroll.x + px_x * mult;
            let ay = pre.mouse.accumulated_scroll.y + px_y * mult;
            &&& post.mouse.accumulated_scroll.x == spec_trem(ax, w)
            &&& post.mouse.accumulated_scroll.y == spec_trem(ay, h)
            &&& r.len() == 1
            &&& (r[0] matches Effect::WritePty(v) && v@ == spec_arrow_repeat(
                if px_y > 0 {
                    65u8
                } else {
                    66u8
                },
                vstd::math::abs(spec_tdiv(ay, h)) as int,
            ) + spec_arrow_repeat(
                if px_x > 0 {
                    68u8
                } else {
                    67u8
                },
                vstd::math::abs(spec_tdiv(ax, w)) as int,
            ))
        } else {
            let ay = pre.mouse.accumulated_scroll.y + px_y * mult;
            let lines = spec_tdiv(ay, h);
            &&& post.mouse.accumulated_scroll.x == spec_trem(
                pre.mouse.accumulated_scroll.x as int,
                w,
            )
            &&& post.mouse.accumulated_scroll.y == spec_trem(ay, h)
            &&& (lines != 0 ==> r == seq![Effect::Scroll(Scroll::Delta(spec_clamped_i32(lines)))])
            &&& (lines == 0 ==> r.len() == 0)
        }
    })
}

/// What pointer motion leaves behind: the clamped position and cell
/// bookkeeping, the auto-scroll update while a selection drag is under
/// way, and the cursor icon plus either a selection extension or a
/// drag/motion report once the pointer left its cell.
pub open spec fn spec_mouse_moved_post(
    pre: Processor,
    post: Processor,
    r: Seq<Effect>,
    x: i32,
    y: i32,
    ctx: EventContext,
) -> bool {
    &&& post.touch == pre.touch
    &&& post.modifiers == pre.modifiers
    &&& post.received_count == pre.received_count
    &&& post.suppress_chars == pre.suppress_chars
    &&& post.mouse.x == spec_clamp(x as int, 0, ctx.size.width - 1)
    &&& post.mouse.y == spec_clamp(y as int, 0, ctx.size.height - 1)
    &&& post.mouse.accumulated_scroll == pre.mouse.accumulated_scroll
    &&& post.mouse.click_state == pre.mouse.click_state
    &&& ({
        let moved = Mouse {
            x: spec_clamp(x as int, 0, ctx.size.width - 1) as usize,
            y: spec_clamp(y as int, 0, ctx.size.height - 1) as usize,
            ..pre.mouse
        };
        let new_point = spec_mouse_point(moved, ctx.size, ctx.display_offset as int);
        let old_point = spec_mouse_point(pre.mouse, ctx.size, ctx.display_offset as int);
        let new_side = spec_cell_side(ctx.size, moved.x as int);
        let new_inside = ctx.size.spec_contains_point(moved.x, moved.y);
        let unchanged = new_point == old_point && pre.mouse.cell_side == new_side
            && pre.mouse.inside_text_area == new_inside;
        let lmb = pre.mouse.left_button_state is Pressed;
        let mmb = pre.mouse.middle_button_state is Pressed;
        let rmb = pre.mouse.right_button_state is Pressed;
        let scroll_part: Seq<Effect> = if !ctx.selection_is_empty && (lmb || rmb) {
            spec_selection_scroll_effects(y as int, ctx)
        } else {
            Seq::empty()
        };
        let icon = Effect::SetMouseCursor(spec_cursor_state(post.mouse, pre.modifiers, ctx));
        let report_code: Option<u8> = if lmb {
            Some(32u8)
        } else if mmb {
            Some(33u8)
        } else if rmb {
            Some(34u8)
        } else if ctx.term_mode.spec_contains(TERM_MOUSE_MOTION) {
            Some(35u8)
        } else {
            None
        };
        &&& (unchanged ==> post.mouse == moved && r == scroll_part)
        &&& (!unchanged ==> post.mouse == (Mouse {
            inside_text_area: new_inside,
            cell_side: new_side,
            hint_highlight_dirty: true,
            block_hint_launcher: true,
            ..moved
        }))
        &&& (!unchanged && (lmb || rmb) && (pre.modifiers.shift || !ctx.spec_mouse_mode()) ==> r
            == scroll_part + seq![icon, Effect::UpdateSelection(new_point, new_side)])
        &&& (!unchanged && !((lmb || rmb) && (pre.modifiers.shift || !ctx.spec_mouse_mode()))
            ==> {
            let reported = new_point != old_point && ctx.term_mode.spec_intersects(
                TERM_MOUSE_MOTION | TERM_MOUSE_DRAG,
            ) && report_code is Some;
            &&& (!reported ==> r == scroll_part + seq![icon])
            &&& (reported ==> r.take(scroll_part.len() as int + 1) == scroll_part + seq![icon]
                && spec_report_effects(
                r.skip(scroll_part.len() as int + 1),
                spec_encode(
                    new_point,
                    report_code.unwrap(),
                    spec_mods_code(pre.modifiers),
                    spec_report_mode(ctx.term_mode),
                    true,
                ),
            ))
        })
    })
}

/// What the beginning of a touch leaves behind: no effects; a first touch
/// starts a tap, a second turns it into a pinch zoom, and any touch beyond
/// that, or during a scroll or selection, abandons the gesture into the
/// absorbing `Invalid` state, which also absorbs every stray id.
pub open spec fn spec_touch_start_post(
    pre: Processor,
    post: Processor,
    r: Seq<Effect>,
    touch: Touch,
) -> bool {
    &&& r.len() == 0
    &&& post == (Processor { touch: post.touch, ..pre })
    &&& match pre.touch {
        TouchPurpose::Idle => post.touch == TouchPurpose::Tap(touch),
        TouchPurpose::Tap(start) => post.touch == TouchPurpose::Zoom(
            crate::touch::TouchZoom { first: start, second: touch },
        ),
        TouchPurpose::Zoom(z) => post.touch matches TouchPurpose::Invalid(ids) && (forall|x: u64|
            #[trigger] ids@.contains(x) <==> (x == z.first.id || x == z.second.id)),
        TouchPurpose::Scroll(e) => post.touch matches TouchPurpose::Invalid(ids) && ids@ == seq![
            e.id,
        ],
        TouchPurpose::Select(e) => post.touch matches TouchPurpose::Invalid(ids) && ids@ == seq![
            e.id,
        ],
        TouchPurpose::Invalid(ids) => post.touch matches TouchPurpose::Invalid(out)
            && out@.contains(touch.id) && (forall|x: u64|
            #[trigger] out@.contains(x) <==> (ids@.contains(x) || x == touch.id)),
    }
}

/// What one touch movement leaves behind. A tap that crossed the drag
/// threshold horizontally becomes a drag selection and replays the motion
/// as synthesized pointer input (move to the origin, left press, move to
/// the touch); one that crossed it vertically becomes a scroll and feeds
/// the vertical delta, scaled by the touch factor, to the scroll path. A
/// zoom reports the change of the inter-touch distance, a scroll feeds its
/// delta to the scroll path, a selection forwards the position as pointer
/// motion, and everything else changes nothing.
pub open spec fn spec_touch_motion_post(
    pre: Processor,
    post: Processor,
    r: Seq<Effect>,
    touch: Touch,
    now_ms: u64,
    ctx: EventContext,
    config: UiConfig,
) -> bool {
    match pre.touch {
        TouchPurpose::Idle => post == pre && r.len() == 0,
        TouchPurpose::Invalid(_) => post == pre && r.len() == 0,
        TouchPurpose::Tap(start) => {
            let dx = touch.x - start.x;
            let dy = touch.y - start.y;
            if vstd::math::abs(dx) > MAX_TAP_DISTANCE {
                &&& post.touch == TouchPurpose::Select(start)
                &&& exists|p1: Processor, p2: Processor, k1: int, k2: int|
                    0 <= k1 <= k2 <= r.len() && #[trigger] spec_mouse_input_post(
                        p1,
                        p2,
                        r.subrange(k1, k2),
                        ElementState::Pressed,
                        MouseButton::Left,
                        now_ms,
                        ctx,
                        config,
                    ) && spec_mouse_moved_post(
                        Processor { touch: TouchPurpose::Select(start), ..pre },
                        p1,
                        r.take(k1),
                        start.x,
                        start.y,
                        ctx,
                    ) && spec_mouse_moved_post(p2, post, r.skip(k2), touch.x, touch.y, ctx)
            } else if vstd::math::abs(dy) > MAX_TAP_DISTANCE {
                &&& post.touch == TouchPurpose::Scroll(touch)
                &&& spec_scroll_post(
                    Processor { touch: TouchPurpose::Scroll(touch), ..pre },
                    post,
                    r,
                    0,
                    spec_tdiv(dy * TOUCH_SCROLL_FACTOR_NUM, TOUCH_SCROLL_FACTOR_DEN as int),
                    ctx,
                    config,
                )
            } else {
                post == pre && r.len() == 0
            }
        },
        TouchPurpose::Zoom(z) => {
            let zoomed = if z.first.id == touch.id {
                crate::touch::TouchZoom { first: touch, ..z }
            } else {
                crate::touch::TouchZoom { second: touch, ..z }
            };
            &&& post == (Processor { touch: TouchPurpose::Zoom(zoomed), ..pre })
            &&& r == seq![
                Effect::PinchZoom(
                    (crate::touch::spec_touch_distance(zoomed.first, zoomed.second)
                        - crate::touch::spec_touch_distance(z.first, z.second)) as i32,
                ),
            ]
        },
        TouchPurpose::Scroll(last) => {
            &&& post.touch == TouchPurpose::Scroll(touch)
            &&& spec_scroll_post(
                Processor { touch: TouchPurpose::Scroll(touch), ..pre },
                post,
                r,
                0,
                spec_tdiv(
                    (touch.y - last.y) * TOUCH_SCROLL_FACTOR_NUM,
                    TOUCH_SCROLL_FACTOR_DEN as int,
                ),
                ctx,
                config,
            )
        },
        TouchPurpose::Select(_) => spec_mouse_moved_post(pre, post, r, touch.x, touch.y, ctx),
    }
}

/// What the end of a touch leaves behind: the pending motion is finalized
/// first; then a completed tap synthesizes a full left click at its origin
/// (move, press, release), a zoom drops the lifted id into the absorbing
/// state holding exactly its remaining ids, a stray id set drains (back to
/// idle once empty), a selection releases the synthesized button, and a
/// scroll resets.
pub open spec fn spec_touch_end_post(
    pre: Processor,
    post: Processor,
    r: Seq<Effect>,
    touch: Touch,
    now_ms: u64,
    ctx: EventContext,
    config: UiConfig,
) -> bool {
    exists|p1: Processor, k: int|
        0 <= k <= r.len() && #[trigger] spec_touch_motion_post(
            pre,
            p1,
            r.take(k),
            touch,
            now_ms,
            ctx,
            config,
        ) && match p1.touch {
            TouchPurpose::Tap(start) => exists|p2: Processor, p3: Processor, k2: int, k3: int|
                k <= k2 <= k3 <= r.len() && #[trigger] spec_mouse_input_post(
                    p2,
                    p3,
                    r.subrange(k2, k3),
                    ElementState::Pressed,
                    MouseButton::Left,
                    now_ms,
                    ctx,
                    config,
                ) && spec_mouse_moved_post(
                    Processor { touch: TouchPurpose::Idle, ..p1 },
                    p2,
                    r.subrange(k, k2),
                    start.x,
                    start.y,
                    ctx,
                ) && spec_mouse_input_post(
                    p3,
                    post,
                    r.skip(k3),
                    ElementState::Released,
                    MouseButton::Left,
                    now_ms,
                    ctx,
                    config,
                ),
            TouchPurpose::Zoom(z) => r.skip(k).len() == 0 && post == (Processor {
                touch: post.touch,
                ..p1
            }) && (post.touch matches TouchPurpose::Invalid(out) && crate::touch::spec_no_dups(
                out@,
            ) && (forall|x: u64|
                #[trigger] out@.contains(x) <==> ((x == z.first.id || x == z.second.id) && x
                    != touch.id))),
            TouchPurpose::Invalid(ids) => r.skip(k).len() == 0 && post == (Processor {
                touch: post.touch,
                ..p1
            }) && ((post.touch matches TouchPurpose::Invalid(out) && out@.len() > 0
                && crate::touch::spec_no_dups(out@) && (forall|x: u64|
                #[trigger] out@.contains(x) <==> (ids@.contains(x) && x != touch.id))) || (
            post.touch is Idle && (forall|x: u64| ids@.contains(x) ==> x == touch.id))),
            TouchPurpose::Select(_) => spec_mouse_input_post(
                Processor { touch: TouchPurpose::Idle, ..p1 },
                post,
                r.skip(k),
                ElementState::Released,
                MouseButton::Left,
                now_ms,
                ctx,
                config,
            ),
            TouchPurpose::Scroll(_) => r.skip(k).len() == 0 && post == (Processor {
                touch: TouchPurpose::Idle,
                ..p1
            }),
            TouchPurpose::Idle => r.skip(k).len() == 0 && post == p1,
        }
}

/// The pointer record with one button's state replaced.
pub open spec fn spec_with_button(m: Mouse, button: MouseButton, state: ElementState) -> Mouse {
    match button {
        MouseButton::Left => Mouse { left_button_state: state, ..m },
        MouseButton::Middle => Mouse { middle_button_state: state, ..m },
        MouseButton::Right => Mouse { right_button_state: state, ..m },
        MouseButton::Other(_) => m,
    }
}

/// What a button press or release leaves behind: the button state is
/// recorded first; a press on the message bar's close button only clears
/// the selection and pops the message; otherwise a press runs the press
/// path followed by the fired mouse bindings' effects, and a release runs
/// the release path.
pub open spec fn spec_mouse_input_post(
    pre: Processor,
    post: Processor,
    r: Seq<Effect>,
    state: ElementState,
    button: MouseButton,
    now_ms: u64,
    ctx: EventContext,
    config: UiConfig,
) -> bool {
    let held = Processor { mouse: spec_with_button(pre.mouse, button, state), ..pre };
    if spec_message_bar_cursor_state(held.mouse, ctx) == Some(CursorIcon::Hand) && state
        is Pressed {
        post == held && r == seq![Effect::ClearSelection, Effect::PopMessage]
    } else if state is Pressed {
        exists|k: int|
            0 <= k <= r.len() && #[trigger] spec_press_post(
                held,
                post,
                r.take(k),
                button,
                now_ms,
                ctx,
                config,
            ) && spec_mouse_effects(
                r.skip(k),
                config.spec_mouse_bindings(),
                spec_binding_mode(ctx.term_mode, ctx.search_active),
                ctx.spec_mouse_mode(),
                pre.modifiers,
                button,
                ctx,
            )
    } else {
        spec_release_post(held, post, r, button, ctx)
    }
}

/// What a mouse-button press leaves behind: in mouse mode without shift
/// the click state resets and the press is reported; otherwise the press
/// is classified against the click thresholds and a left click drives
/// selection. Everything but the pointer record is untouched.
pub open spec fn spec_press_post(
    pre: Processor,
    post: Processor,
    r: Seq<Effect>,
    button: MouseButton,
    now_ms: u64,
    ctx: EventContext,
    config: UiConfig,
) -> bool {
    &&& post.touch == pre.touch
    &&& post.modifiers == pre.modifiers
    &&& post.received_count == pre.received_count
    &&& post.suppress_chars == pre.suppress_chars
    &&& (!pre.modifiers.shift && ctx.spec_mouse_mode() ==> {
        &&& post.mouse == (Mouse { click_state: ClickState::Idle, ..pre.mouse })
        &&& (button == MouseButton::Left || button == MouseButton::Middle || button
            == MouseButton::Right) ==> spec_report_effects(
            r,
            spec_encode(
                spec_mouse_point(post.mouse, ctx.size, ctx.display_offset as int),
                if button == MouseButton::Left {
                    0
                } else if button == MouseButton::Middle {
                    1
                } else {
                    2
                },
                spec_mods_code(pre.modifiers),
                spec_report_mode(ctx.term_mode),
                true,
            ),
        )
        &&& (button matches MouseButton::Other(_)) ==> r.len() == 0
    })
    &&& (pre.modifiers.shift || !ctx.spec_mouse_mode() ==> {
        let elapsed = if now_ms >= pre.mouse.last_click_timestamp {
            (now_ms - pre.mouse.last_click_timestamp) as u64
        } else {
            0u64
        };
        let new_state = spec_classify_click(
            pre.mouse.click_state,
            pre.mouse.last_click_button,
            button,
            elapsed,
            config.mouse.double_click.threshold_ms,
            config.mouse.triple_click.threshold_ms,
        );
        &&& post.mouse == (Mouse {
            click_state: new_state,
            last_click_timestamp: now_ms,
            last_click_button: button,
            block_hint_launcher: post.mouse.block_hint_launcher,
            ..pre.mouse
        })
        &&& post.mouse.block_hint_launcher == (if button == MouseButton::Left {
            match new_state {
                ClickState::Click => !ctx.selection_is_empty,
                ClickState::DoubleClick => true,
                ClickState::TripleClick => true,
                ClickState::Idle => pre.mouse.block_hint_launcher,
            }
        } else {
            pre.mouse.block_hint_launcher
        })
        &&& (button != MouseButton::Left ==> r.len() == 0)
        &&& (button == MouseButton::Left ==> r == spec_left_click_effects(
            new_state,
            spec_mouse_point(post.mouse, ctx.size, ctx.display_offset as int),
            pre.mouse.cell_side,
            pre.modifiers,
        ))
    })
}

/// What a mouse-button release leaves behind: the state is untouched; in
/// mouse mode without shift the release is reported, otherwise a
/// left-released highlighted hint triggers, the auto-scroll timer stops
/// and a left or right release copies the selection.
pub open spec fn spec_release_post(
    pre: Processor,
    post: Processor,
    r: Seq<Effect>,
    button: MouseButton,
    ctx: EventContext,
) -> bool {
    &&& post == pre
    &&& (!pre.modifiers.shift && ctx.spec_mouse_mode() ==> {
        &&& (button == MouseButton::Left || button == MouseButton::Middle || button
            == MouseButton::Right) ==> spec_report_effects(
            r,
            spec_encode(
                spec_mouse_point(pre.mouse, ctx.size, ctx.display_offset as int),
                if button == MouseButton::Left {
                    0
                } else if button == MouseButton::Middle {
                    1
                } else {
                    2
                },
                spec_mods_code(pre.modifiers),
                spec_report_mode(ctx.term_mode),
                false,
            ),
        )
        &&& (button matches MouseButton::Other(_)) ==> r.len() == 0
    })
    &&& (pre.modifiers.shift || !ctx.spec_mouse_mode() ==> r == {
        let hint: Seq<Effect> = if ctx.highlighted_hint && button == MouseButton::Left {
            seq![Effect::TriggerHighlightedHint]
        } else {
            Seq::empty()
        };
        let copy: Seq<Effect> = if button == MouseButton::Left || button == MouseButton::Right {
            seq![Effect::CopySelection(ClipboardType::Selection)]
        } else {
            Seq::empty()
        };
        hint + seq![
            Effect::CancelTimer(
                TimerId { topic: Topic::SelectionScrolling, window_id: ctx.window_id },
            ),
        ] + copy
    })
}

/// The cursor icon the message bar asks for: nothing below the text area or
/// without a message, the hand over the close button, the default arrow
/// elsewhere on the bar.
pub open spec fn spec_message_bar_cursor_state(mouse: Mouse, ctx: EventContext) -> Option<
    CursorIcon,
> {
    let search_height: int = if ctx.search_active {
        1
    } else {
        0
    };
    let terminal_end = ctx.size.padding_y + ctx.size.cell_height * (ctx.size.screen_lines
        + search_height);
    let point = spec_mouse_point(mouse, ctx.size, ctx.display_offset as int);
    if ctx.message_bar_lines is None || mouse.y <= terminal_end {
        None
    } else if mouse.y <= terminal_end + ctx.size.cell_height && point.column
        + MESSAGE_CLOSE_BUTTON_LEN >= ctx.size.columns {
        Some(CursorIcon::Hand)
    } else {
        Some(CursorIcon::Default)
    }
}

/// The cursor icon for the current pointer position: the message bar's
/// choice first, the hand over a highlighted hint, the default arrow while
/// the application grabs the mouse without shift, and the text beam
/// otherwise.
pub open spec fn spec_cursor_state(
    mouse: Mouse,
    modifiers: ModifiersState,
    ctx: EventContext,
) -> CursorIcon {
    match spec_message_bar_cursor_state(mouse, ctx) {
        Some(icon) => icon,
        None => if ctx.highlighted_hint_at_point {
            CursorIcon::Hand
        } else if !modifiers.shift && ctx.spec_mouse_mode() {
            CursorIcon::Default
        } else {
            CursorIcon::Text
        },
    }
}

/// The effects a binding action asks for, over the Vec-free payloads: what
/// `action_effects` returns where no bytes or command strings are involved.
pub open spec fn spec_action_effects(action: Action, ctx: EventContext) -> Seq<Effect>
    recommends
        !(action is Esc) && !(action is Command),
{
    match action {
        Action::Esc(_) => Seq::empty(),
        Action::Command(_) => Seq::empty(),
        Action::Hint(h) => seq![Effect::StartHintSelection(h), Effect::MarkDirty],
        Action::Search(s) => match s {
            crate::bindings::SearchAction::SearchFocusNext => seq![
                Effect::AdvanceSearchOrigin(ctx.search_direction),
            ],
            crate::bindings::SearchAction::SearchFocusPrevious => seq![
                Effect::AdvanceSearchOrigin(
                    if ctx.search_direction == Direction::Left {
                        Direction::Right
                    } else {
                        Direction::Left
                    },
                ),
            ],
            crate::bindings::SearchAction::SearchConfirm => seq![Effect::ConfirmSearch],
            crate::bindings::SearchAction::SearchCancel => seq![Effect::CancelSearch],
            crate::bindings::SearchAction::SearchClear => seq![
                Effect::CancelSearch,
                Effect::StartSearch(ctx.search_direction),
            ],
            crate::bindings::SearchAction::SearchDeleteWord => seq![Effect::SearchPopWord],
            crate::bindings::SearchAction::SearchHistoryPrevious => seq![
                Effect::SearchHistoryPrevious,
            ],
            crate::bindings::SearchAction::SearchHistoryNext => seq![Effect::SearchHistoryNext],
        },
        Action::Mouse(m) => match m {
            crate::bindings::MouseAction::ExpandSelection => seq![Effect::ExpandSelection],
        },
        Action::SearchForward => seq![Effect::StartSearch(Direction::Right)],
        Action::SearchBackward => seq![Effect::StartSearch(Direction::Left)],
        Action::Copy => seq![Effect::CopySelection(ClipboardType::Clipboard)],
        Action::CopySelection => seq![Effect::CopySelection(ClipboardType::Selection)],
        Action::ClearSelection => seq![Effect::ClearSelection],
        Action::Paste => seq![Effect::Paste],
        Action::PasteSelection => seq![Effect::PasteSelection],
        Action::ToggleFullscreen => seq![Effect::ToggleFullscreen],
        Action::ToggleMaximized => seq![Effect::ToggleMaximized],
        Action::Hide => seq![Effect::HideWindow],
        Action::Minimize => seq![Effect::Minimize],
        Action::Quit => seq![Effect::Quit],
        Action::IncreaseFontSize => seq![Effect::ChangeFontSize(1)],
        Action::DecreaseFontSize => seq![Effect::ChangeFontSize(-1i32)],
        Action::ResetFontSize => seq![Effect::ResetFontSize],
        Action::ScrollPageUp => seq![Effect::Scroll(Scroll::PageUp)],
        Action::ScrollPageDown => seq![Effect::Scroll(Scroll::PageDown)],
        Action::ScrollHalfPageUp => seq![
            Effect::Scroll(Scroll::Delta((ctx.size.screen_lines as int / 2) as i32)),
        ],
        Action::ScrollHalfPageDown => seq![
            Effect::Scroll(Scroll::Delta((-(ctx.size.screen_lines as int / 2)) as i32)),
        ],
        Action::ScrollLineUp => seq![Effect::Scroll(Scroll::Delta(1))],
        Action::ScrollLineDown => seq![Effect::Scroll(Scroll::Delta(-1i32))],
        Action::ScrollToTop => seq![Effect::Scroll(Scroll::Top), Effect::MarkDirty],
        Action::ScrollToBottom => seq![Effect::Scroll(Scroll::Bottom), Effect::MarkDirty],
        Action::ClearHistory => seq![Effect::ClearHistory],
        Action::ClearLogNotice => seq![Effect::PopMessage],
        Action::SpawnNewInstance => seq![Effect::SpawnNewInstance],
        Action::CreateNewWindow => seq![Effect::CreateNewWindow],
        Action::ReceiveChar => Seq::empty(),
        Action::Noop => Seq::empty(),
    }
}

/// Run a binding action: the effects its execution asks of the host.
///
/// An escape action writes its string's UTF-8 bytes to the PTY after the
/// usual typing bookkeeping; a command action spawns the configured
/// program; every other action maps to its effects directly, per
/// [`spec_action_effects`].
pub fn action_effects(action: &Action, ctx: &EventContext) -> (r: Vec<Effect>)
    requires
        ctx.spec_wf(),
    ensures
        action matches Action::Esc(s) ==> r@.len() == 4 && r@[0] == Effect::OnTypingStart && r@[1]
            == Effect::ClearSelection && r@[2] == Effect::Scroll(Scroll::Bottom) && (
        r@[3] matches Effect::WritePty(v) && v@ == crate::codec::spec_utf8_bytes(s@)),
        action matches Action::Command(p) ==> r@.len() == 1 && (
        r@[0] matches Effect::SpawnDaemon(prog, args) && prog@ == p.program@ && args.deep_view()
            == p.args.deep_view()),
        !(action is Esc) && !(action is Command) ==> r@ == spec_action_effects(*action, *ctx),
{
    let mut r: Vec<Effect> = Vec::new();
    match action {
        Action::Esc(s) => {
            r.push(Effect::OnTypingStart);
            r.push(Effect::ClearSelection);
            r.push(Effect::Scroll(Scroll::Bottom));
            let bytes = crate::codec::utf8_bytes_of_str(s.as_str());
            r.push(Effect::WritePty(bytes));
        },
        Action::Command(p) => {
            let prog = p.program.clone();
            let args = crate::codec::clone_strings(&p.args);
            r.push(Effect::SpawnDaemon(prog, args));
        },
        Action::Hint(h) => {
            r.push(Effect::StartHintSelection(*h));
            r.push(Effect::MarkDirty);
            proof {
                assert(r@ =~= spec_action_effects(*action, *ctx));
            }
        },
        Action::Search(s) => {
            match s {
                crate::bindings::SearchAction::SearchFocusNext => {
                    r.push(Effect::AdvanceSearchOrigin(ctx.search_direction));
                },
                crate::bindings::SearchAction::SearchFocusPrevious => {
                    r.push(Effect::AdvanceSearchOrigin(ctx.search_direction.opposite()));
                },
                crate::bindings::SearchAction::SearchConfirm => {
                    r.push(Effect::ConfirmSearch);
                },
                crate::bindings::SearchAction::SearchCancel => {
                    r.push(Effect::CancelSearch);
                },
                crate::bindings::SearchAction::SearchClear => {
                    r.push(Effect::CancelSearch);
                    r.push(Effect::StartSearch(ctx.search_direction));
                },
                crate::bindings::SearchAction::SearchDeleteWord => {
                    r.push(Effect::SearchPopWord);
                },
                crate::bindings::SearchAction::SearchHistoryPrevious => {
                    r.push(Effect::SearchHistoryPrevious);
                },
                crate::bindings::SearchAction::SearchHistoryNext => {
                    r.push(Effect::SearchHistoryNext);
                },
            }
            proof {
                assert(r@ =~= spec_action_effects(*action, *ctx));
            }
        },
        Action::Mouse(m) => {
            match m {
                crate::bindings::MouseAction::ExpandSelection => {
                    r.push(Effect::ExpandSelection);
                },
            }
            proof {
                assert(r@ =~= spec_action_effects(*action, *ctx));
            }
        },
        Action::SearchForward => {
            r.push(Effect::StartSearch(Direction::Right));
            proof {
                assert(r@ =~= spec_action_effects(*action, *ctx));
            }
        },
        Action::SearchBackward => {
            r.push(Effect::StartSearch(Direction::Left));
            proof {
                assert(r@ =~= spec_action_effects(*action, *ctx));
            }
        },
        Action::Copy => {
            r.push(Effect::CopySelection(ClipboardType::Clipboard));
            proof {
                assert(r@ =~= spec_action_effects(*action, *ctx));
            }
        },
        Action::CopySelection => {
            r.push(Effect::CopySelection(ClipboardType::Selection));
            proof {
                assert(r@ =~= spec_action_effects(*action, *ctx));
            }
        },
        Action::ClearSelection => {
            r.push(Effect::ClearSelection);
            proof {
                assert(r@ =~= spec_action_effects(*action, *ctx));
            }
        },
        Action::Paste => {
            r.push(Effect::Paste);
            proof {
                assert(r@ =~= spec_action_effects(*action, *ctx));
            }
        },
        Action::PasteSelection => {
            r.push(Effect::PasteSelection);
            proof {
                assert(r@ =~= spec_action_effects(*action, *ctx));
            }
        },
        Action::ToggleFullscreen => {
            r.push(Effect::ToggleFullscreen);
            proof {
                assert(r@ =~= spec_action_effects(*action, *ctx));
            }
        },
        Action::ToggleMaximized => {
            r.push(Effect::ToggleMaximized);
            proof {
                assert(r@ =~= spec_action_effects(*action, *ctx));
            }
        },
        Action::Hide => {
            r.push(Effect::HideWindow);
            proof {
                assert(r@ =~= spec_action_effects(*action, *ctx));
            }
        },
        Action::Minimize => {
            r.push(Effect::Minimize);
            proof {
                assert(r@ =~= spec_action_effects(*action, *ctx));
            }
        },
        Action::Quit => {
            r.push(Effect::Quit);
            proof {
                assert(r@ =~= spec_action_effects(*action, *ctx));
            }
        },
        Action::IncreaseFontSize => {
            r.push(Effect::ChangeFontSize(1));
            proof {
                assert(r@ =~= spec_action_effects(*action, *ctx));
            }
        },
        Action::DecreaseFontSize => {
            r.push(Effect::ChangeFontSize(-1));
            proof {
                assert(r@ =~= spec_action_effects(*action, *ctx));
            }
        },
        Action::ResetFontSize => {
            r.push(Effect::ResetFontSize);
            proof {
                assert(r@ =~= spec_action_effects(*action, *ctx));
            }
        },
        Action::ScrollPageUp => {
            r.push(Effect::Scroll(Scroll::PageUp));
            proof {
                assert(r@ =~= spec_action_effects(*action, *ctx));
            }
        },
        Action::ScrollPageDown => {
            r.push(Effect::Scroll(Scroll::PageDown));
            proof {
                assert(r@ =~= spec_action_effects(*action, *ctx));
            }
        },
        Action::ScrollHalfPageUp => {
            let scroll_lines = (ctx.size.screen_lines() / 2) as i64;
            r.push(Effect::Scroll(Scroll::Delta(clamp_i32(scroll_lines))));
            proof {
                assert(r@ =~= spec_action_effects(*action, *ctx));
            }
        },
        Action::ScrollHalfPageDown => {
            let scroll_lines = -((ctx.size.screen_lines() / 2) as i64);
            r.push(Effect::Scroll(Scroll::Delta(clamp_i32(scroll_lines))));
            proof {
                assert(r@ =~= spec_action_effects(*action, *ctx));
            }
        },
        Action::ScrollLineUp => {
            r.push(Effect::Scroll(Scroll::Delta(1)));
            proof {
                assert(r@ =~= spec_action_effects(*action, *ctx));
            }
        },
        Action::ScrollLineDown => {
            r.push(Effect::Scroll(Scroll::Delta(-1)));
            proof {
                assert(r@ =~= spec_action_effects(*action, *ctx));
            }
        },
        Action::ScrollToTop => {
            r.push(Effect::Scroll(Scroll::Top));
            r.push(Effect::MarkDirty);
            proof {
                assert(r@ =~= spec_action_effects(*action, *ctx));
            }
        },
        Action::ScrollToBottom => {
            r.push(Effect::Scroll(Scroll::Bottom));
            r.push(Effect::MarkDirty);
            proof {
                assert(r@ =~= spec_action_effects(*action, *ctx));
            }
        },
        Action::ClearHistory => {
            r.push(Effect::ClearHistory);
            proof {
                assert(r@ =~= spec_action_effects(*action, *ctx));
            }
        },
        Action::ClearLogNotice => {
            r.push(Effect::PopMessage);
            proof {
                assert(r@ =~= spec_action_effects(*action, *ctx));
            }
        },
        Action::SpawnNewInstance => {
            r.push(Effect::SpawnNewInstance);
            proof {
                assert(r@ =~= spec_action_effects(*action, *ctx));
            }
        },
        Action::CreateNewWindow => {
            r.push(Effect::CreateNewWindow);
            proof {
                assert(r@ =~= spec_action_effects(*action, *ctx));
            }
        },
        Action::ReceiveChar => {
            proof {
                assert(r@ =~= spec_action_effects(*action, *ctx));
            }
        },
        Action::Noop => {
            proof {
                assert(r@ =~= spec_action_effects(*action, *ctx));
            }
        },
    }
    r
}

/// Whether `seg` is exactly what executing `action` appends: the action's
/// effects, with the escape and command payloads related by view.
pub open spec fn spec_one_action_effects(seg: Seq<Effect>, action: Action, ctx: EventContext) -> bool {
    match action {
        Action::Esc(s) => seg.len() == 4 && seg[0] == Effect::OnTypingStart && seg[1]
            == Effect::ClearSelection && seg[2] == Effect::Scroll(Scroll::Bottom) && (
        seg[3] matches Effect::WritePty(v) && v@ == crate::codec::spec_utf8_bytes(s@)),
        Action::Command(p) => seg.len() == 1 && (seg[0] matches Effect::SpawnDaemon(prog, args)
            && prog@ == p.program@ && args.deep_view() == p.args.deep_view()),
        _ => seg == spec_action_effects(action, ctx),
    }
}

/// Whether `r` is exactly the concatenation, in configuration order, of the
/// effects of every key binding that the event fires.
pub open spec fn spec_key_effects(
    r: Seq<Effect>,
    bindings: Seq<crate::bindings::Binding<crate::bindings::Key>>,
    mode: crate::modes::BindingMode,
    mods: ModifiersState,
    input: KeyboardInput,
    ctx: EventContext,
) -> bool
    decreases bindings.len(),
{
    if bindings.len() == 0 {
        r.len() == 0
    } else if !spec_key_triggered(bindings[0], mode, mods, input) {
        spec_key_effects(r, bindings.skip(1), mode, mods, input, ctx)
    } else {
        exists|k: int|
            0 <= k <= r.len() && #[trigger] spec_one_action_effects(
                r.take(k),
                bindings[0].action,
                ctx,
            ) && spec_key_effects(r.skip(k), bindings.skip(1), mode, mods, input, ctx)
    }
}

/// Appending one more binding's contribution keeps the concatenation
/// property.
proof fn lemma_key_effects_push(
    r1: Seq<Effect>,
    r2: Seq<Effect>,
    bindings: Seq<crate::bindings::Binding<crate::bindings::Key>>,
    one: crate::bindings::Binding<crate::bindings::Key>,
    mode: crate::modes::BindingMode,
    mods: ModifiersState,
    input: KeyboardInput,
    ctx: EventContext,
)
    requires
        spec_key_effects(r1, bindings, mode, mods, input, ctx),
        spec_key_triggered(one, mode, mods, input) ==> spec_one_action_effects(
            r2,
            one.action,
            ctx,
        ),
        !spec_key_triggered(one, mode, mods, input) ==> r2.len() == 0,
    ensures
        spec_key_effects(r1 + r2, bindings.push(one), mode, mods, input, ctx),
    decreases bindings.len(),
{
    let whole = bindings.push(one);
    if bindings.len() == 0 {
        assert(r1.len() == 0);
        assert(r1 + r2 =~= r2);
        assert(whole[0] == one);
        assert(whole.skip(1) =~= Seq::<crate::bindings::Binding<crate::bindings::Key>>::empty());
        if spec_key_triggered(one, mode, mods, input) {
            let k = r2.len() as int;
            assert((r1 + r2).take(k) =~= r2);
            assert(spec_one_action_effects((r1 + r2).take(k), whole[0].action, ctx));
            assert((r1 + r2).skip(k) =~= Seq::<Effect>::empty());
            assert(spec_key_effects((r1 + r2).skip(k), whole.skip(1), mode, mods, input, ctx));
            assert(spec_key_effects(r1 + r2, whole, mode, mods, input, ctx));
        } else {
            assert((r1 + r2).len() == 0);
            assert(spec_key_effects(r1 + r2, whole.skip(1), mode, mods, input, ctx));
            assert(spec_key_effects(r1 + r2, whole, mode, mods, input, ctx));
        }
    } else {
        assert(whole[0] == bindings[0]);
        assert(whole.skip(1) =~= bindings.skip(1).push(one));
        if !spec_key_triggered(bindings[0], mode, mods, input) {
            lemma_key_effects_push(r1, r2, bindings.skip(1), one, mode, mods, input, ctx);
        } else {
            let k = choose|k: int|
                0 <= k <= r1.len() && #[trigger] spec_one_action_effects(
                    r1.take(k),
                    bindings[0].action,
                    ctx,
                ) && spec_key_effects(r1.skip(k), bindings.skip(1), mode, mods, input, ctx);
            lemma_key_effects_push(r1.skip(k), r2, bindings.skip(1), one, mode, mods, input, ctx);
            assert((r1 + r2).take(k) =~= r1.take(k));
            assert((r1 + r2).skip(k) =~= r1.skip(k) + r2);
            assert(spec_one_action_effects((r1 + r2).take(k), whole[0].action, ctx));
            assert(spec_key_effects((r1 + r2).skip(k), whole.skip(1), mode, mods, input, ctx));
            assert(spec_key_effects(r1 + r2, whole, mode, mods, input, ctx));
        }
    }
}

/// Whether `r` is exactly the concatenation, in configuration order, of the
/// effects of every mouse binding that the button press fires.
pub open spec fn spec_mouse_effects(
    r: Seq<Effect>,
    bindings: Seq<crate::bindings::Binding<MouseButton>>,
    mode: crate::modes::BindingMode,
    mouse_mode: bool,
    mods: ModifiersState,
    button: MouseButton,
    ctx: EventContext,
) -> bool
    decreases bindings.len(),
{
    if bindings.len() == 0 {
        r.len() == 0
    } else if !spec_mouse_triggered(bindings[0], mode, mouse_mode, mods, button) {
        spec_mouse_effects(r, bindings.skip(1), mode, mouse_mode, mods, button, ctx)
    } else {
        exists|k: int|
            0 <= k <= r.len() && #[trigger] spec_one_action_effects(
                r.take(k),
                bindings[0].action,
                ctx,
            ) && spec_mouse_effects(r.skip(k), bindings.skip(1), mode, mouse_mode, mods, button, ctx)
    }
}

/// Appending one more mouse binding's contribution keeps the concatenation
/// property.
proof fn lemma_mouse_effects_push(
    r1: Seq<Effect>,
    r2: Seq<Effect>,
    bindings: Seq<crate::bindings::Binding<MouseButton>>,
    one: crate::bindings::Binding<MouseButton>,
    mode: crate::modes::BindingMode,
    mouse_mode: bool,
    mods: ModifiersState,
    button: MouseButton,
    ctx: EventContext,
)
    requires
        spec_mouse_effects(r1, bindings, mode, mouse_mode, mods, button, ctx),
        spec_mouse_triggered(one, mode, mouse_mode, mods, button) ==> spec_one_action_effects(
            r2,
            one.action,
            ctx,
        ),
        !spec_mouse_triggered(one, mode, mouse_mode, mods, button) ==> r2.len() == 0,
    ensures
        spec_mouse_effects(r1 + r2, bindings.push(one), mode, mouse_mode, mods, button, ctx),
    decreases bindings.len(),
{
    let whole = bindings.push(one);
    if bindings.len() == 0 {
        assert(r1.len() == 0);
        assert(r1 + r2 =~= r2);
        assert(whole[0] == one);
        assert(whole.skip(1) =~= Seq::<crate::bindings::Binding<MouseButton>>::empty());
        if spec_mouse_triggered(one, mode, mouse_mode, mods, button) {
            let k = r2.len() as int;
            assert((r1 + r2).take(k) =~= r2);
            assert(spec_one_action_effects((r1 + r2).take(k), whole[0].action, ctx));
            assert((r1 + r2).skip(k) =~= Seq::<Effect>::empty());
            assert(spec_mouse_effects(
                (r1 + r2).skip(k),
                whole.skip(1),
                mode,
                mouse_mode,
                mods,
                button,
                ctx,
            ));
            assert(spec_mouse_effects(r1 + r2, whole, mode, mouse_mode, mods, button, ctx));
        } else {
            assert((r1 + r2).len() == 0);
            assert(spec_mouse_effects(
                r1 + r2,
                whole.skip(1),
                mode,
                mouse_mode,
                mods,
                button,
                ctx,
            ));
            assert(spec_mouse_effects(r1 + r2, whole, mode, mouse_mode, mods, button, ctx));
        }
    } else {
        assert(whole[0] == bindings[0]);
        assert(whole.skip(1) =~= bindings.skip(1).push(one));
        if !spec_mouse_triggered(bindings[0], mode, mouse_mode, mods, button) {
            lemma_mouse_effects_push(
                r1,
                r2,
                bindings.skip(1),
                one,
                mode,
                mouse_mode,
                mods,
                button,
                ctx,
            );
        } else {
            let k = choose|k: int|
                0 <= k <= r1.len() && #[trigger] spec_one_action_effects(
                    r1.take(k),
                    bindings[0].action,
                    ctx,
                ) && spec_mouse_effects(
                    r1.skip(k),
                    bindings.skip(1),
                    mode,
                    mouse_mode,
                    mods,
                    button,
                    ctx,
                );
            lemma_mouse_effects_push(
                r1.skip(k),
                r2,
                bindings.skip(1),
                one,
                mode,
                mouse_mode,
                mods,
                button,
                ctx,
            );
            assert((r1 + r2).take(k) =~= r1.take(k));
            assert((r1 + r2).skip(k) =~= r1.skip(k) + r2);
            assert(spec_one_action_effects((r1 + r2).take(k), whole[0].action, ctx));
            assert(spec_mouse_effects(
                (r1 + r2).skip(k),
                whole.skip(1),
                mode,
                mouse_mode,
                mods,
                button,
                ctx,
            ));
            assert(spec_mouse_effects(r1 + r2, whole, mode, mouse_mode, mods, button, ctx));
        }
    }
}

impl Processor {
    /// Attempt to find every key binding the input fires and run their
    /// actions, in configuration order.
    ///
    /// The returned effects are the concatenation of each fired binding's
    /// action effects. The key's character is suppressed exactly when at
    /// least one binding fired and no fired binding is the `ReceiveChar`
    /// sentinel; with no match, characters pass through.
    pub fn process_key_bindings(
        &mut self,
        input: KeyboardInput,
        ctx: &EventContext,
        config: &UiConfig,
    ) -> (r: Vec<Effect>)
        requires
            ctx.spec_wf(),
        ensures
            final(self).mouse == old(self).mouse,
            final(self).touch == old(self).touch,
            final(self).modifiers == old(self).modifiers,
            final(self).received_count == old(self).received_count,
            spec_key_effects(
                r@,
                config.spec_key_bindings(),
                crate::modes::spec_binding_mode(ctx.term_mode, ctx.search_active),
                old(self).modifiers,
                input,
                *ctx,
            ),
            final(self).suppress_chars == crate::bindings::spec_suppress_chars(
                config.spec_key_bindings(),
                crate::modes::spec_binding_mode(ctx.term_mode, ctx.search_active),
                old(self).modifiers,
                input,
            ),
    {
        let mode = crate::modes::BindingMode::new(ctx.term_mode, ctx.search_active);
        let mods = self.modifiers;
        let bindings = config.key_bindings();
        let ghost bs = bindings@;

        let mut r: Vec<Effect> = Vec::new();
        let mut any_match = false;
        let mut all_non_receive = true;
        let mut i: usize = 0;
        while i < bindings.len()
            invariant
                i <= bs.len(),
                bindings@ == bs,
                ctx.spec_wf(),
                spec_key_effects(r@, bs.take(i as int), mode, mods, input, *ctx),
                any_match == exists|j: int|
                    0 <= j < i && spec_key_triggered(#[trigger] bs[j], mode, mods, input),
                all_non_receive == forall|j: int|
                    0 <= j < i && spec_key_triggered(#[trigger] bs[j], mode, mods, input) ==> !(
                    bs[j].action is ReceiveChar),
            decreases bs.len() - i,
        {
            let binding = &bindings[i];
            let key = match binding.trigger {
                crate::bindings::Key::Scancode(_) => Some(
                    crate::bindings::Key::Scancode(input.scancode),
                ),
                crate::bindings::Key::Keycode(_) => match input.virtual_keycode {
                    Some(code) => Some(crate::bindings::Key::Keycode(code)),
                    None => None,
                },
            };
            let mut fired = false;
            if let Some(key) = key {
                if binding.is_triggered_by(mode, mods, &key) {
                    fired = true;
                }
            }
            let ghost r_before = r@;
            let ghost seg_view: Seq<Effect> = Seq::empty();
            if fired {
                any_match = true;
                if binding.action.is_receive_char() {
                    all_non_receive = false;
                }
                let mut seg = action_effects(&binding.action, ctx);
                proof {
                    seg_view = seg@;
                }
                r.append(&mut seg);
            }
            proof {
                assert(r@ =~= r_before + seg_view);
                if fired {
                    assert(spec_one_action_effects(seg_view, bs[i as int].action, *ctx));
                } else {
                    assert(seg_view.len() == 0);
                }
                lemma_key_effects_push(
                    r_before,
                    seg_view,
                    bs.take(i as int),
                    bs[i as int],
                    mode,
                    mods,
                    input,
                    *ctx,
                );
                assert(bs.take(i + 1) =~= bs.take(i as int).push(bs[i as int]));
            }
            i = i + 1;
        }
        proof {
            assert(bs.take(bs.len() as int) =~= bs);
        }
        self.suppress_chars = any_match && all_non_receive;
        r
    }

    /// Process key input: nothing during IME preedit; no bindings while a
    /// hint is being selected; a typing-triggered delayed-search reset
    /// while searching; bindings on press, suppression reset on release.
    pub fn key_input(&mut self, input: KeyboardInput, ctx: &EventContext, config: &UiConfig) -> (r:
        Vec<Effect>)
        requires
            ctx.spec_wf(),
        ensures
            final(self).mouse == old(self).mouse,
            final(self).touch == old(self).touch,
            final(self).modifiers == old(self).modifiers,
            ctx.preedit_active ==> r@.len() == 0 && *final(self) == *old(self),
            !ctx.preedit_active && ctx.hint_selection_active ==> r@.len() == 0 && *final(self)
                == (Processor { suppress_chars: false, ..*old(self) }),
            !ctx.preedit_active && !ctx.hint_selection_active ==> {
                let tail: Seq<Effect> = if ctx.search_active {
                    seq![
                        Effect::RestartDelayedSearch {
                            window_id: ctx.window_id,
                            delay_ms: TYPING_SEARCH_DELAY_MS,
                        },
                    ]
                } else {
                    Seq::empty()
                };
                &&& input.state is Released ==> r@ == tail && *final(self) == (Processor {
                    suppress_chars: false,
                    ..*old(self)
                })
                &&& input.state is Pressed ==> final(self).received_count == 0
                    && final(self).suppress_chars == crate::bindings::spec_suppress_chars(
                    config.spec_key_bindings(),
                    crate::modes::spec_binding_mode(ctx.term_mode, ctx.search_active),
                    old(self).modifiers,
                    input,
                ) && r@.len() >= tail.len() && r@.take(tail.len() as int) == tail
                    && spec_key_effects(
                    r@.skip(tail.len() as int),
                    config.spec_key_bindings(),
                    crate::modes::spec_binding_mode(ctx.term_mode, ctx.search_active),
                    old(self).modifiers,
                    input,
                    *ctx,
                )
            },
    {
        // IME input will be applied on commit and shouldn't trigger key bindings.
        if ctx.preedit_active {
            return Vec::new();
        }
        // All key bindings are disabled while a hint is being selected.
        if ctx.hint_selection_active {
            self.suppress_chars = false;
            return Vec::new();
        }

        let mut r: Vec<Effect> = Vec::new();
        // Reset the search delay while the user is still typing.
        if ctx.search_active {
            r.push(
                Effect::RestartDelayedSearch {
                    window_id: ctx.window_id,
                    delay_ms: TYPING_SEARCH_DELAY_MS,
                },
            );
        }
        let ghost tail = r@;

        match input.state {
            ElementState::Pressed => {
                self.received_count = 0;
                let mut binding_effects = self.process_key_bindings(input, ctx, config);
                let ghost be_view = binding_effects@;
                r.append(&mut binding_effects);
                proof {
                    assert(r@ == tail + be_view);
                    assert(r@.take(tail.len() as int) =~= tail);
                    assert(r@.skip(tail.len() as int) =~= be_view);
                }
            },
            ElementState::Released => {
                self.suppress_chars = false;
            },
        }
        r
    }

    /// Handle a mouse-button press.
    ///
    /// With the terminal in mouse mode and shift not held, the press is
    /// reported to the application and the click state resets; otherwise
    /// the press is classified as a single, double or triple click against
    /// the configured thresholds, and a left click drives selection.
    pub fn on_mouse_press(
        &mut self,
        button: MouseButton,
        now_ms: u64,
        ctx: &EventContext,
        config: &UiConfig,
    ) -> (r: Vec<Effect>)
        requires
            ctx.spec_wf(),
        ensures
            spec_press_post(*old(self), *final(self), r@, button, now_ms, *ctx, *config),
    {
        if !self.modifiers.shift && ctx.mouse_mode() {
            self.mouse.click_state = ClickState::Idle;
            let code: u8 = match button {
                MouseButton::Left => 0,
                MouseButton::Middle => 1,
                MouseButton::Right => 2,
                // Can't properly report more than three buttons.
                MouseButton::Other(_) => {
                    return Vec::new();
                },
            };
            self.mouse_report(code, true, ctx)
        } else {
            // Calculate the time since the last click to handle double and
            // triple clicks.
            let elapsed = if now_ms >= self.mouse.last_click_timestamp {
                now_ms - self.mouse.last_click_timestamp
            } else {
                0
            };
            self.mouse.last_click_timestamp = now_ms;

            // Update the multi-click state.
            let new_state = classify_click(
                self.mouse.click_state,
                self.mouse.last_click_button,
                button,
                elapsed,
                config.mouse.double_click.threshold(),
                config.mouse.triple_click.threshold(),
            );
            self.mouse.click_state = new_state;
            self.mouse.last_click_button = button;

            if let MouseButton::Left = button {
                let point = self.mouse.point(&ctx.size, ctx.display_offset);
                self.on_left_click(point, ctx)
            } else {
                Vec::new()
            }
        }
    }

    /// Handle left click selection and vi mode cursor movement.
    fn on_left_click(&mut self, point: Point, ctx: &EventContext) -> (r: Vec<Effect>)
        ensures
            *final(self) == (Processor {
                mouse: Mouse {
                    block_hint_launcher: final(self).mouse.block_hint_launcher,
                    ..old(self).mouse
                },
                ..*old(self)
            }),
            r@ == spec_left_click_effects(
                old(self).mouse.click_state,
                point,
                old(self).mouse.cell_side,
                old(self).modifiers,
            ),
            final(self).mouse.block_hint_launcher == (match old(self).mouse.click_state {
                ClickState::Click => !ctx.selection_is_empty,
                ClickState::DoubleClick => true,
                ClickState::TripleClick => true,
                ClickState::Idle => old(self).mouse.block_hint_launcher,
            }),
    {
        let side = self.mouse.cell_side;
        let mut r: Vec<Effect> = Vec::new();
        match self.mouse.click_state {
            ClickState::Click => {
                // Don't launch URLs if this click cleared the selection.
                self.mouse.block_hint_launcher = !ctx.selection_is_empty;
                r.push(Effect::ClearSelection);
                // Start new empty selection.
                if self.modifiers.ctrl {
                    r.push(Effect::StartSelection(SelectionType::Block, point, side));
                } else {
                    r.push(Effect::StartSelection(SelectionType::Simple, point, side));
                }
            },
            ClickState::DoubleClick => {
                self.mouse.block_hint_launcher = true;
                r.push(Effect::StartSelection(SelectionType::Semantic, point, side));
            },
            ClickState::TripleClick => {
                self.mouse.block_hint_launcher = true;
                r.push(Effect::StartSelection(SelectionType::Lines, point, side));
            },
            ClickState::Idle => (),
        }
        proof {
            assert(r@ =~= spec_left_click_effects(
                old(self).mouse.click_state,
                point,
                old(self).mouse.cell_side,
                old(self).modifiers,
            ));
        }
        r
    }

    /// Handle a mouse-button release: report it in mouse mode, otherwise
    /// trigger a left-released highlighted hint, stop selection
    /// auto-scrolling and copy the selection to the selection clipboard.
    pub fn on_mouse_release(&mut self, button: MouseButton, ctx: &EventContext) -> (r: Vec<Effect>)
        requires
            ctx.spec_wf(),
        ensures
            spec_release_post(*old(self), *final(self), r@, button, *ctx),
    {
        if !self.modifiers.shift && ctx.mouse_mode() {
            let code: u8 = match button {
                MouseButton::Left => 0,
                MouseButton::Middle => 1,
                MouseButton::Right => 2,
                // Can't properly report more than three buttons.
                MouseButton::Other(_) => {
                    return Vec::new();
                },
            };
            return self.mouse_report(code, false, ctx);
        }

        let mut r: Vec<Effect> = Vec::new();
        // Trigger hints highlighted by the mouse.
        if ctx.highlighted_hint && button == MouseButton::Left {
            r.push(Effect::TriggerHighlightedHint);
        }

        let timer_id = TimerId::new(Topic::SelectionScrolling, ctx.window_id);
        r.push(Effect::CancelTimer(timer_id));

        if button == MouseButton::Left || button == MouseButton::Right {
            // Copy the selection on release, to prevent flooding the
            // display server.
            r.push(Effect::CopySelection(ClipboardType::Selection));
        }
        proof {
            let hint: Seq<Effect> = if ctx.highlighted_hint && button == MouseButton::Left {
                seq![Effect::TriggerHighlightedHint]
            } else {
                Seq::empty()
            };
            let copy: Seq<Effect> = if button == MouseButton::Left || button
                == MouseButton::Right {
                seq![Effect::CopySelection(ClipboardType::Selection)]
            } else {
                Seq::empty()
            };
            assert(r@ =~= hint + seq![
                Effect::CancelTimer(
                    TimerId { topic: Topic::SelectionScrolling, window_id: ctx.window_id },
                ),
            ] + copy);
        }
        r
    }

    /// Handle a button press or release: record the button state, treat a
    /// press on the message bar's close button as closing it, and otherwise
    /// run the press or release path; a press also fires mouse bindings.
    ///
    /// After a message-bar click the host recomputes its message lines and
    /// picks the new cursor icon with [`message_bar_icon_after_pop`].
    #[verifier::rlimit(100)]
    pub fn mouse_input(
        &mut self,
        state: ElementState,
        button: MouseButton,
        now_ms: u64,
        ctx: &EventContext,
        config: &UiConfig,
    ) -> (r: Vec<Effect>)
        requires
            ctx.spec_wf(),
        ensures
            final(self).touch == old(self).touch,
            final(self).modifiers == old(self).modifiers,
            final(self).mouse.accumulated_scroll == old(self).mouse.accumulated_scroll,
            final(self).mouse.x == old(self).mouse.x,
            final(self).mouse.y == old(self).mouse.y,
            final(self).received_count == old(self).received_count,
            final(self).suppress_chars == old(self).suppress_chars,
            spec_mouse_input_post(
                *old(self),
                *final(self),
                r@,
                state,
                button,
                now_ms,
                *ctx,
                *config,
            ),
    {
        match button {
            MouseButton::Left => self.mouse.left_button_state = state,
            MouseButton::Middle => self.mouse.middle_button_state = state,
            MouseButton::Right => self.mouse.right_button_state = state,
            MouseButton::Other(_) => (),
        }
        let ghost held = *self;
        proof {
            assert(held.mouse == spec_with_button(old(self).mouse, button, state));
        }

        // Skip normal mouse events if the message bar has been clicked.
        let bar_state = self.message_bar_cursor_state(ctx);
        if bar_state == Some(CursorIcon::Hand) && state == ElementState::Pressed {
            let mut r: Vec<Effect> = Vec::new();
            r.push(Effect::ClearSelection);
            r.push(Effect::PopMessage);
            proof {
                assert(r@ =~= seq![Effect::ClearSelection, Effect::PopMessage]);
            }
            r
        } else {
            match state {
                ElementState::Pressed => {
                    // Process the press before bindings to update the
                    // click state.
                    let mut r = self.on_mouse_press(button, now_ms, ctx, config);
                    let ghost press_view = r@;
                    let ghost after_press = *self;
                    let mut binding_effects = self.process_mouse_bindings(button, ctx, config);
                    let ghost bind_view = binding_effects@;
                    r.append(&mut binding_effects);
                    proof {
                        let k = press_view.len() as int;
                        assert(r@.take(k) =~= press_view);
                        assert(r@.skip(k) =~= bind_view);
                        assert(spec_press_post(
                            held,
                            after_press,
                            r@.take(k),
                            button,
                            now_ms,
                            *ctx,
                            *config,
                        ));
                    }
                    r
                },
                ElementState::Released => self.on_mouse_release(button, ctx),
            }
        }
    }

    /// Attempt to find every mouse binding the press fires and run their
    /// actions, in configuration order. While the terminal is in mouse
    /// mode every binding also demands shift.
    ///
    /// The returned effects are the concatenation of each fired binding's
    /// action effects.
    pub fn process_mouse_bindings(
        &mut self,
        button: MouseButton,
        ctx: &EventContext,
        config: &UiConfig,
    ) -> (r: Vec<Effect>)
        requires
            ctx.spec_wf(),
        ensures
            *final(self) == *old(self),
            spec_mouse_effects(
                r@,
                config.spec_mouse_bindings(),
                crate::modes::spec_binding_mode(ctx.term_mode, ctx.search_active),
                ctx.spec_mouse_mode(),
                old(self).modifiers,
                button,
                *ctx,
            ),
    {
        let mode = crate::modes::BindingMode::new(ctx.term_mode, ctx.search_active);
        let mouse_mode = ctx.mouse_mode();
        let mods = self.modifiers;
        let bindings = config.mouse_bindings();
        let ghost bs = bindings@;

        let mut r: Vec<Effect> = Vec::new();
        let mut i: usize = 0;
        while i < bindings.len()
            invariant
                i <= bs.len(),
                bindings@ == bs,
                ctx.spec_wf(),
                mouse_mode == ctx.spec_mouse_mode(),
                spec_mouse_effects(r@, bs.take(i as int), mode, mouse_mode, mods, button, *ctx),
            decreases bs.len() - i,
        {
            let binding = &bindings[i];
            let required_mods = if mouse_mode {
                binding.mods.with_shift()
            } else {
                binding.mods
            };
            let fired = binding.trigger.trigger_eq(&button) && required_mods == mods
                && mode.contains(binding.mode) && !mode.intersects(binding.notmode);
            let ghost r_before = r@;
            let ghost seg_view: Seq<Effect> = Seq::empty();
            if fired {
                let mut seg = action_effects(&binding.action, ctx);
                proof {
                    seg_view = seg@;
                }
                r.append(&mut seg);
            }
            proof {
                assert(r@ =~= r_before + seg_view);
                assert(fired == spec_mouse_triggered(bs[i as int], mode, mouse_mode, mods, button));
                if fired {
                    assert(spec_one_action_effects(seg_view, bs[i as int].action, *ctx));
                } else {
                    assert(seg_view.len() == 0);
                }
                lemma_mouse_effects_push(
                    r_before,
                    seg_view,
                    bs.take(i as int),
                    bs[i as int],
                    mode,
                    mouse_mode,
                    mods,
                    button,
                    *ctx,
                );
                assert(bs.take(i + 1) =~= bs.take(i as int).push(bs[i as int]));
            }
            i = i + 1;
        }
        proof {
            assert(bs.take(bs.len() as int) =~= bs);
        }
        r
    }

    /// Well-formed touch state: absorbed id sets hold no duplicates and
    /// every remembered touch point is in coordinate range.
    pub open spec fn spec_touch_wf(self) -> bool {
        match self.touch {
            TouchPurpose::Idle => true,
            TouchPurpose::Tap(t) => crate::touch::spec_touch_in_range(t),
            TouchPurpose::Zoom(z) => crate::touch::spec_touch_in_range(z.first)
                && crate::touch::spec_touch_in_range(z.second),
            TouchPurpose::Scroll(t) => crate::touch::spec_touch_in_range(t),
            TouchPurpose::Select(t) => crate::touch::spec_touch_in_range(t),
            TouchPurpose::Invalid(ids) => crate::touch::spec_no_dups(ids@),
        }
    }

    /// Handle a touch event by its phase.
    pub fn touch(
        &mut self,
        touch: Touch,
        phase: TouchPhase,
        now_ms: u64,
        ctx: &EventContext,
        config: &UiConfig,
    ) -> (r: Vec<Effect>)
        requires
            ctx.spec_wf(),
            config.spec_wf(),
            old(self).spec_touch_wf(),
            old(self).mouse.spec_scroll_bounded(),
            crate::touch::spec_touch_in_range(touch),
        ensures
            final(self).spec_touch_wf(),
            final(self).mouse.spec_scroll_bounded(),
            match phase {
                TouchPhase::Started => spec_touch_start_post(
                    *old(self),
                    *final(self),
                    r@,
                    touch,
                ),
                TouchPhase::Moved => spec_touch_motion_post(
                    *old(self),
                    *final(self),
                    r@,
                    touch,
                    now_ms,
                    *ctx,
                    *config,
                ),
                TouchPhase::Ended | TouchPhase::Cancelled => spec_touch_end_post(
                    *old(self),
                    *final(self),
                    r@,
                    touch,
                    now_ms,
                    *ctx,
                    *config,
                ),
            },
    {
        match phase {
            TouchPhase::Started => self.on_touch_start(touch),
            TouchPhase::Moved => self.on_touch_motion(touch, now_ms, ctx, config),
            TouchPhase::Ended | TouchPhase::Cancelled => self.on_touch_end(
                touch,
                now_ms,
                ctx,
                config,
            ),
        }
    }

    /// Handle the beginning of a touch: a first touch starts a tap, a
    /// second turns it into a pinch zoom, and anything more abandons the
    /// gesture into the absorbing `Invalid` state.
    pub fn on_touch_start(&mut self, touch: Touch) -> (r: Vec<Effect>)
        requires
            old(self).spec_touch_wf(),
            crate::touch::spec_touch_in_range(touch),
        ensures
            final(self).spec_touch_wf(),
            spec_touch_start_post(*old(self), *final(self), r@, touch),
    {
        let mut purpose = TouchPurpose::Idle;
        core::mem::swap(&mut purpose, &mut self.touch);
        self.touch = touch_start_transition(purpose, touch);
        Vec::new()
    }

    /// Handle touch movement.
    ///
    /// A tap that moves past the drag threshold becomes a drag selection
    /// (horizontal) or a scroll (vertical), and the motion is replayed once
    /// against the new gesture so the first qualifying move is not lost. A
    /// zoom reports the change of the inter-touch distance, a scroll feeds
    /// the vertical delta to the scroll path scaled by the touch factor,
    /// and a selection forwards the position as pointer motion.
    #[verifier::rlimit(100)]
    #[verifier::spinoff_prover]
    pub fn on_touch_motion(
        &mut self,
        touch: Touch,
        now_ms: u64,
        ctx: &EventContext,
        config: &UiConfig,
    ) -> (r: Vec<Effect>)
        requires
            ctx.spec_wf(),
            config.spec_wf(),
            old(self).spec_touch_wf(),
            old(self).mouse.spec_scroll_bounded(),
            crate::touch::spec_touch_in_range(touch),
        ensures
            final(self).spec_touch_wf(),
            final(self).mouse.spec_scroll_bounded(),
            spec_touch_motion_post(*old(self), *final(self), r@, touch, now_ms, *ctx, *config),
    {
        let mut purpose = TouchPurpose::Idle;
        core::mem::swap(&mut purpose, &mut self.touch);
        match purpose {
            TouchPurpose::Idle => {
                self.touch = TouchPurpose::Idle;
                Vec::new()
            },
            // Handle the transition from tap to scroll or select.
            TouchPurpose::Tap(start) => {
                let delta_x = touch.x as i64 - start.x as i64;
                let delta_y = touch.y as i64 - start.y as i64;
                let abs_x = if delta_x >= 0 {
                    delta_x
                } else {
                    -delta_x
                };
                let abs_y = if delta_y >= 0 {
                    delta_y
                } else {
                    -delta_y
                };
                if abs_x > MAX_TAP_DISTANCE as i64 {
                    // Update the gesture state and start simulated mouse
                    // input from the tap's origin.
                    self.touch = TouchPurpose::Select(start);
                    let ghost pre_sel = *self;
                    let mut r = self.mouse_moved(start.x, start.y, ctx);
                    let ghost seg1 = r@;
                    let ghost p1 = *self;
                    let mut press = self.mouse_input(
                        ElementState::Pressed,
                        MouseButton::Left,
                        now_ms,
                        ctx,
                        config,
                    );
                    let ghost seg2 = press@;
                    r.append(&mut press);
                    let ghost p2 = *self;
                    // Apply the motion since the touch start.
                    let mut rest = self.mouse_moved(touch.x, touch.y, ctx);
                    let ghost seg3 = rest@;
                    r.append(&mut rest);
                    let ghost p3 = *self;
                    self.touch = TouchPurpose::Select(start);
                    proof {
                        let k1 = seg1.len() as int;
                        let k2 = k1 + seg2.len();
                        assert(*self == p3);
                        assert(r@.take(k1) =~= seg1);
                        assert(r@.subrange(k1, k2) =~= seg2);
                        assert(r@.skip(k2) =~= seg3);
                        assert(spec_mouse_input_post(
                            p1,
                            p2,
                            r@.subrange(k1, k2),
                            ElementState::Pressed,
                            MouseButton::Left,
                            now_ms,
                            *ctx,
                            *config,
                        ));
                        assert(spec_mouse_moved_post(pre_sel, p1, r@.take(k1), start.x, start.y, *ctx));
                        assert(spec_mouse_moved_post(p2, *self, r@.skip(k2), touch.x, touch.y, *ctx));
                        assert(spec_touch_motion_post(
                            *old(self),
                            *self,
                            r@,
                            touch,
                            now_ms,
                            *ctx,
                            *config,
                        ));
                    }
                    r
                } else if abs_y > MAX_TAP_DISTANCE as i64 {
                    // Update the gesture state, then apply the motion since
                    // the touch start.
                    self.touch = TouchPurpose::Scroll(touch);
                    let factor_px = tdiv_i64(
                        delta_y * TOUCH_SCROLL_FACTOR_NUM,
                        TOUCH_SCROLL_FACTOR_DEN,
                    );
                    self.scroll_terminal(0, factor_px, ctx, config)
                } else {
                    self.touch = TouchPurpose::Tap(start);
                    Vec::new()
                }
            },
            TouchPurpose::Zoom(mut zoom) => {
                let delta = zoom.update(touch);
                self.touch = TouchPurpose::Zoom(zoom);
                let mut r: Vec<Effect> = Vec::new();
                r.push(Effect::PinchZoom(delta));
                proof {
                    assert(r@ =~= seq![Effect::PinchZoom(delta)]);
                }
                r
            },
            TouchPurpose::Scroll(last_touch) => {
                // Compute the delta and update the last touch position.
                let delta_y = touch.y as i64 - last_touch.y as i64;
                self.touch = TouchPurpose::Scroll(touch);
                let factor_px = tdiv_i64(delta_y * TOUCH_SCROLL_FACTOR_NUM, TOUCH_SCROLL_FACTOR_DEN);
                self.scroll_terminal(0, factor_px, ctx, config)
            },
            TouchPurpose::Select(origin) => {
                self.touch = TouchPurpose::Select(origin);
                self.mouse_moved(touch.x, touch.y, ctx)
            },
            TouchPurpose::Invalid(ids) => {
                self.touch = TouchPurpose::Invalid(ids);
                Vec::new()
            },
        }
    }

    /// Handle the end of a touch: finalize the pending motion, then a tap
    /// synthesizes a full left click at its origin, a zoom or stray touch
    /// drops the lifted id into the absorbing state (resetting once it is
    /// empty), a selection releases the synthesized button, and a scroll
    /// simply resets.
    #[verifier::rlimit(100)]
    #[verifier::spinoff_prover]
    pub fn on_touch_end(
        &mut self,
        touch: Touch,
        now_ms: u64,
        ctx: &EventContext,
        config: &UiConfig,
    ) -> (r: Vec<Effect>)
        requires
            ctx.spec_wf(),
            config.spec_wf(),
            old(self).spec_touch_wf(),
            old(self).mouse.spec_scroll_bounded(),
            crate::touch::spec_touch_in_range(touch),
        ensures
            final(self).spec_touch_wf(),
            final(self).mouse.spec_scroll_bounded(),
            spec_touch_end_post(*old(self), *final(self), r@, touch, now_ms, *ctx, *config),
    {
        // Finalize the touch motion up to the release point.
        let mut r = self.on_touch_motion(touch, now_ms, ctx, config);
        let ghost motion_r = r@;
        let ghost p1 = *self;
        let ghost k = motion_r.len() as int;

        let mut purpose = TouchPurpose::Idle;
        core::mem::swap(&mut purpose, &mut self.touch);
        match purpose {
            // Simulate left-button clicks.
            TouchPurpose::Tap(start) => {
                self.touch = TouchPurpose::Idle;
                proof {
                    assert(*self == (Processor { touch: TouchPurpose::Idle, ..p1 }));
                }
                let mut moved = self.mouse_moved(start.x, start.y, ctx);
                let ghost seg_moved = moved@;
                r.append(&mut moved);
                let ghost p2 = *self;
                let mut press = self.mouse_input(
                    ElementState::Pressed,
                    MouseButton::Left,
                    now_ms,
                    ctx,
                    config,
                );
                let ghost seg_press = press@;
                r.append(&mut press);
                let ghost p3 = *self;
                let mut release = self.mouse_input(
                    ElementState::Released,
                    MouseButton::Left,
                    now_ms,
                    ctx,
                    config,
                );
                let ghost seg_release = release@;
                r.append(&mut release);
                proof {
                    let k2 = k + seg_moved.len();
                    let k3 = k2 + seg_press.len();
                    assert(r@.take(k) =~= motion_r);
                    assert(r@.subrange(k, k2) =~= seg_moved);
                    assert(r@.subrange(k2, k3) =~= seg_press);
                    assert(r@.skip(k3) =~= seg_release);
                    assert(spec_touch_motion_post(
                        *old(self),
                        p1,
                        r@.take(k),
                        touch,
                        now_ms,
                        *ctx,
                        *config,
                    ));
                    assert(spec_mouse_moved_post(
                        Processor { touch: TouchPurpose::Idle, ..p1 },
                        p2,
                        r@.subrange(k, k2),
                        start.x,
                        start.y,
                        *ctx,
                    ));
                    assert(spec_mouse_input_post(
                        p2,
                        p3,
                        r@.subrange(k2, k3),
                        ElementState::Pressed,
                        MouseButton::Left,
                        now_ms,
                        *ctx,
                        *config,
                    ));
                    assert(spec_mouse_input_post(
                        p3,
                        *self,
                        r@.skip(k3),
                        ElementState::Released,
                        MouseButton::Left,
                        now_ms,
                        *ctx,
                        *config,
                    ));
                    assert(spec_touch_end_post(
                        *old(self),
                        *self,
                        r@,
                        touch,
                        now_ms,
                        *ctx,
                        *config,
                    ));
                }
            },
            // Invalidate the zoom once a finger was released.
            TouchPurpose::Zoom(zoom) => {
                let mut slots = zoom.slots();
                crate::touch::remove_id(&mut slots, touch.id);
                self.touch = TouchPurpose::Invalid(slots);
                proof {
                    assert(r@.take(k) =~= motion_r);
                    assert(r@.skip(k) =~= Seq::<Effect>::empty());
                    assert(spec_touch_motion_post(
                        *old(self),
                        p1,
                        r@.take(k),
                        touch,
                        now_ms,
                        *ctx,
                        *config,
                    ));
                    assert(spec_touch_end_post(
                        *old(self),
                        *self,
                        r@,
                        touch,
                        now_ms,
                        *ctx,
                        *config,
                    ));
                }
            },
            // Reset the touch state once all slots were released.
            TouchPurpose::Invalid(mut slots) => {
                let ghost before = slots@;
                crate::touch::remove_id(&mut slots, touch.id);
                if slots.is_empty() {
                    proof {
                        assert forall|x: u64| before.contains(x) implies x == touch.id by {
                            if x != touch.id {
                                assert(slots@.contains(x));
                                let j = choose|j: int| 0 <= j < slots@.len() && slots@[j] == x;
                                assert(false);
                            }
                        }
                    }
                    self.touch = TouchPurpose::Idle;
                } else {
                    self.touch = TouchPurpose::Invalid(slots);
                }
                proof {
                    assert(r@.take(k) =~= motion_r);
                    assert(r@.skip(k) =~= Seq::<Effect>::empty());
                    assert(spec_touch_motion_post(
                        *old(self),
                        p1,
                        r@.take(k),
                        touch,
                        now_ms,
                        *ctx,
                        *config,
                    ));
                    assert(spec_touch_end_post(
                        *old(self),
                        *self,
                        r@,
                        touch,
                        now_ms,
                        *ctx,
                        *config,
                    ));
                }
            },
            // Release the simulated left button.
            TouchPurpose::Select(_) => {
                self.touch = TouchPurpose::Idle;
                proof {
                    assert(*self == (Processor { touch: TouchPurpose::Idle, ..p1 }));
                }
                let mut release = self.mouse_input(
                    ElementState::Released,
                    MouseButton::Left,
                    now_ms,
                    ctx,
                    config,
                );
                let ghost seg_release = release@;
                r.append(&mut release);
                proof {
                    assert(r@.take(k) =~= motion_r);
                    assert(r@.skip(k) =~= seg_release);
                    assert(spec_touch_motion_post(
                        *old(self),
                        p1,
                        r@.take(k),
                        touch,
                        now_ms,
                        *ctx,
                        *config,
                    ));
                    assert(spec_mouse_input_post(
                        Processor { touch: TouchPurpose::Idle, ..p1 },
                        *self,
                        r@.skip(k),
                        ElementState::Released,
                        MouseButton::Left,
                        now_ms,
                        *ctx,
                        *config,
                    ));
                    assert(spec_touch_end_post(
                        *old(self),
                        *self,
                        r@,
                        touch,
                        now_ms,
                        *ctx,
                        *config,
                    ));
                }
            },
            // Reset the touch state when a scroll finishes.
            TouchPurpose::Scroll(_) => {
                self.touch = TouchPurpose::Idle;
                proof {
                    assert(r@.take(k) =~= motion_r);
                    assert(r@.skip(k) =~= Seq::<Effect>::empty());
                    assert(spec_touch_motion_post(
                        *old(self),
                        p1,
                        r@.take(k),
                        touch,
                        now_ms,
                        *ctx,
                        *config,
                    ));
                    assert(spec_touch_end_post(
                        *old(self),
                        *self,
                        r@,
                        touch,
                        now_ms,
                        *ctx,
                        *config,
                    ));
                }
            },
            TouchPurpose::Idle => {
                self.touch = TouchPurpose::Idle;
                proof {
                    assert(*self == p1);
                    assert(r@.take(k) =~= motion_r);
                    assert(r@.skip(k) =~= Seq::<Effect>::empty());
                    assert(spec_touch_motion_post(
                        *old(self),
                        p1,
                        r@.take(k),
                        touch,
                        now_ms,
                        *ctx,
                        *config,
                    ));
                    assert(spec_touch_end_post(
                        *old(self),
                        *self,
                        r@,
                        touch,
                        now_ms,
                        *ctx,
                        *config,
                    ));
                }
            },
        }
        r
    }

    /// Handle pointer motion.
    ///
    /// While a selection drag is under way the auto-scroll timer is
    /// updated first. The position is clamped into the window and the new
    /// cell, cell side and text-area flag are recorded; motion within the
    /// same cell and side changes nothing more. Otherwise the cursor icon
    /// is refreshed, and the motion either extends the selection or is
    /// reported to the application as a drag or motion event.
    /// Handle pointer motion; see [`spec_mouse_moved_post`].
    pub fn mouse_moved(&mut self, x: i32, y: i32, ctx: &EventContext) -> (r: Vec<Effect>)
        requires
            ctx.spec_wf(),
        ensures
            spec_mouse_moved_post(*old(self), *final(self), r@, x, y, *ctx),
    {
        self.mouse_moved_inner(x, y, ctx)
    }

    #[verifier::rlimit(100)]
    fn mouse_moved_inner(&mut self, x: i32, y: i32, ctx: &EventContext) -> (r: Vec<Effect>)
        requires
            ctx.spec_wf(),
        ensures
            final(self).touch == old(self).touch,
            final(self).modifiers == old(self).modifiers,
            final(self).received_count == old(self).received_count,
            final(self).suppress_chars == old(self).suppress_chars,
            final(self).mouse.x == spec_clamp(x as int, 0, ctx.size.width - 1),
            final(self).mouse.y == spec_clamp(y as int, 0, ctx.size.height - 1),
            final(self).mouse.accumulated_scroll == old(self).mouse.accumulated_scroll,
            final(self).mouse.click_state == old(self).mouse.click_state,
            ({
                let moved = Mouse {
                    x: spec_clamp(x as int, 0, ctx.size.width - 1) as usize,
                    y: spec_clamp(y as int, 0, ctx.size.height - 1) as usize,
                    ..old(self).mouse
                };
                let new_point = spec_mouse_point(moved, ctx.size, ctx.display_offset as int);
                let old_point = spec_mouse_point(
                    old(self).mouse,
                    ctx.size,
                    ctx.display_offset as int,
                );
                let new_side = spec_cell_side(ctx.size, moved.x as int);
                let new_inside = ctx.size.spec_contains_point(moved.x, moved.y);
                let unchanged = new_point == old_point && old(self).mouse.cell_side == new_side
                    && old(self).mouse.inside_text_area == new_inside;
                let lmb = old(self).mouse.left_button_state is Pressed;
                let mmb = old(self).mouse.middle_button_state is Pressed;
                let rmb = old(self).mouse.right_button_state is Pressed;
                let scroll_part: Seq<Effect> = if !ctx.selection_is_empty && (lmb || rmb) {
                    spec_selection_scroll_effects(y as int, *ctx)
                } else {
                    Seq::empty()
                };
                let icon = Effect::SetMouseCursor(
                    spec_cursor_state(final(self).mouse, old(self).modifiers, *ctx),
                );
                let report_code: Option<u8> = if lmb {
                    Some(32u8)
                } else if mmb {
                    Some(33u8)
                } else if rmb {
                    Some(34u8)
                } else if ctx.term_mode.spec_contains(TERM_MOUSE_MOTION) {
                    Some(35u8)
                } else {
                    None
                };
                &&& (unchanged ==> final(self).mouse == moved && r@ == scroll_part)
                &&& (!unchanged ==> final(self).mouse == (Mouse {
                    inside_text_area: new_inside,
                    cell_side: new_side,
                    hint_highlight_dirty: true,
                    block_hint_launcher: true,
                    ..moved
                }))
                &&& (!unchanged && (lmb || rmb) && (old(self).modifiers.shift
                    || !ctx.spec_mouse_mode()) ==> r@ == scroll_part + seq![
                    icon,
                    Effect::UpdateSelection(new_point, new_side),
                ])
                &&& (!unchanged && !((lmb || rmb) && (old(self).modifiers.shift
                    || !ctx.spec_mouse_mode())) ==> {
                    let reported = new_point != old_point && ctx.term_mode.spec_intersects(
                        TERM_MOUSE_MOTION | TERM_MOUSE_DRAG,
                    ) && report_code is Some;
                    &&& (!reported ==> r@ == scroll_part + seq![icon])
                    &&& (reported ==> r@.take(scroll_part.len() as int + 1) == scroll_part + seq![
                        icon,
                    ] && spec_report_effects(
                        r@.skip(scroll_part.len() as int + 1),
                        spec_encode(
                            new_point,
                            report_code.unwrap(),
                            spec_mods_code(old(self).modifiers),
                            spec_report_mode(ctx.term_mode),
                            true,
                        ),
                    ))
                })
            }),
    {
        let size = &ctx.size;

        let lmb_pressed = self.mouse.left_button_state == ElementState::Pressed;
        let rmb_pressed = self.mouse.right_button_state == ElementState::Pressed;
        let mmb_pressed = self.mouse.middle_button_state == ElementState::Pressed;
        let mut r: Vec<Effect> = Vec::new();
        if !ctx.selection_is_empty && (lmb_pressed || rmb_pressed) {
            let mut scroll_effects = self.update_selection_scrolling(y, ctx);
            r.append(&mut scroll_effects);
        }
        let ghost scroll_part = r@;

        let old_point = self.mouse.point(size, ctx.display_offset);

        let x_clamped = if x < 0 {
            0usize
        } else if x as u32 > size.width() - 1 {
            (size.width() - 1) as usize
        } else {
            x as usize
        };
        let y_clamped = if y < 0 {
            0usize
        } else if y as u32 > size.height() - 1 {
            (size.height() - 1) as usize
        } else {
            y as usize
        };
        self.mouse.x = x_clamped;
        self.mouse.y = y_clamped;

        let inside_text_area = size.contains_point(x_clamped, y_clamped);
        let cell_side = self.cell_side(size, x_clamped);

        let point = self.mouse.point(size, ctx.display_offset);
        let cell_changed = point != old_point;

        // If the pointer has not left its cell, there is nothing to do.
        if !cell_changed && self.mouse.cell_side == cell_side && self.mouse.inside_text_area
            == inside_text_area {
            return r;
        }
        self.mouse.inside_text_area = inside_text_area;
        self.mouse.cell_side = cell_side;

        // Update the cursor icon.
        let icon = self.cursor_state(ctx);
        r.push(Effect::SetMouseCursor(icon));

        // Prompt a hint highlight update and block hint launching until the
        // pointer settles.
        self.mouse.hint_highlight_dirty = true;
        self.mouse.block_hint_launcher = true;
        proof {
            assert(r@ =~= scroll_part + seq![Effect::SetMouseCursor(icon)]);
        }

        if (lmb_pressed || rmb_pressed) && (self.modifiers.shift || !ctx.mouse_mode()) {
            r.push(Effect::UpdateSelection(point, cell_side));
            proof {
                assert(r@ =~= scroll_part + seq![
                    Effect::SetMouseCursor(icon),
                    Effect::UpdateSelection(point, cell_side),
                ]);
            }
        } else if cell_changed && ctx.term_mode.intersects(TERM_MOUSE_MOTION | TERM_MOUSE_DRAG) {
            let report = if lmb_pressed {
                Some(32u8)
            } else if mmb_pressed {
                Some(33u8)
            } else if rmb_pressed {
                Some(34u8)
            } else if ctx.term_mode.contains(TERM_MOUSE_MOTION) {
                Some(35u8)
            } else {
                None
            };
            if let Some(code) = report {
                let mut one = self.mouse_report(code, true, ctx);
                let ghost one_view = one@;
                r.append(&mut one);
                proof {
                    assert(r@.take(scroll_part.len() as int + 1) =~= scroll_part + seq![
                        Effect::SetMouseCursor(icon),
                    ]);
                    assert(r@.skip(scroll_part.len() as int + 1) =~= one_view);
                }
            }
        }
        proof {
            assert(spec_mouse_moved_post(*old(self), *self, r@, x, y, *ctx));
        }
        r
    }

    /// Scroll the terminal by a pixel delta, carrying sub-cell remainders
    /// in the pointer record.
    ///
    /// In mouse mode the delta becomes wheel reports, one per full cell; on
    /// the alternate screen with alternate scroll it becomes arrow-key
    /// escapes; otherwise it becomes one viewport scroll. The remainder of
    /// the accumulated delta modulo the cell size stays accumulated.
    #[verifier::rlimit(60)]
    pub fn scroll_terminal(
        &mut self,
        new_scroll_x_px: i64,
        new_scroll_y_px: i64,
        ctx: &EventContext,
        config: &UiConfig,
    ) -> (r: Vec<Effect>)
        requires
            ctx.spec_wf(),
            config.spec_wf(),
            old(self).mouse.spec_scroll_bounded(),
            -10000000 <= new_scroll_x_px <= 10000000,
            -10000000 <= new_scroll_y_px <= 10000000,
        ensures
            spec_scroll_post(
                *old(self),
                *final(self),
                r@,
                new_scroll_x_px as int,
                new_scroll_y_px as int,
                *ctx,
                *config,
            ),
    {
        let width = ctx.size.cell_width() as i64;
        let height = ctx.size.cell_height() as i64;
        let multiplier = config.scrolling_multiplier as i64;

        let mut r: Vec<Effect> = Vec::new();

        if ctx.mouse_mode() {
            self.mouse.accumulated_scroll.x = self.mouse.accumulated_scroll.x + new_scroll_x_px;
            self.mouse.accumulated_scroll.y = self.mouse.accumulated_scroll.y + new_scroll_y_px;

            let ghost point0 = spec_mouse_point(old(self).mouse, ctx.size, ctx.display_offset as int);
            let ghost mods0 = spec_mods_code(old(self).modifiers);
            let ghost rmode0 = spec_report_mode(ctx.term_mode);

            let code: u8 = if new_scroll_y_px > 0 {
                64
            } else {
                65
            };
            let ghost enc_y = spec_encode(point0, code, mods0, rmode0, true);
            let lines = tdiv_i64(self.mouse.accumulated_scroll.y, height);
            let lines_abs = if lines >= 0 {
                lines
            } else {
                -lines
            };
            let mut i: i64 = 0;
            while i < lines_abs
                invariant
                    0 <= i <= lines_abs,
                    code <= 67,
                    ctx.spec_wf(),
                    self.mouse == (Mouse {
                        accumulated_scroll: self.mouse.accumulated_scroll,
                        ..old(self).mouse
                    }),
                    self.modifiers == old(self).modifiers,
                    enc_y == spec_encode(point0, code, mods0, rmode0, true),
                    point0 == spec_mouse_point(old(self).mouse, ctx.size, ctx.display_offset as int),
                    mods0 == spec_mods_code(old(self).modifiers),
                    rmode0 == spec_report_mode(ctx.term_mode),
                    spec_wheel_reports(r@, enc_y, i as int),
                decreases lines_abs - i,
            {
                proof {
                    assert(spec_mouse_point(self.mouse, ctx.size, ctx.display_offset as int)
                        == point0);
                }
                let ghost before = r@;
                let mut one = self.mouse_report(code, true, ctx);
                let ghost one_view = one@;
                r.append(&mut one);
                proof {
                    if enc_y is Some {
                        assert(r@ =~= before + one_view);
                        assert(forall|k: int|
                            0 <= k < i ==> (#[trigger] r@[k] matches Effect::WritePty(v) && v@
                                == enc_y.unwrap()));
                        assert(r@[i as int] == one_view[0]);
                    }
                }
                i = i + 1;
            }
            let ghost y_part = r@;

            let code: u8 = if new_scroll_x_px > 0 {
                66
            } else {
                67
            };
            let ghost enc_x = spec_encode(point0, code, mods0, rmode0, true);
            let columns = tdiv_i64(self.mouse.accumulated_scroll.x, width);
            let columns_abs = if columns >= 0 {
                columns
            } else {
                -columns
            };
            let mut i: i64 = 0;
            while i < columns_abs
                invariant
                    0 <= i <= columns_abs,
                    code <= 67,
                    ctx.spec_wf(),
                    self.mouse == (Mouse {
                        accumulated_scroll: self.mouse.accumulated_scroll,
                        ..old(self).mouse
                    }),
                    self.modifiers == old(self).modifiers,
                    enc_x == spec_encode(point0, code, mods0, rmode0, true),
                    point0 == spec_mouse_point(old(self).mouse, ctx.size, ctx.display_offset as int),
                    mods0 == spec_mods_code(old(self).modifiers),
                    rmode0 == spec_report_mode(ctx.term_mode),
                    y_part.len() <= r@.len(),
                    r@.take(y_part.len() as int) == y_part,
                    spec_wheel_reports(r@.skip(y_part.len() as int), enc_x, i as int),
                decreases columns_abs - i,
            {
                proof {
                    assert(spec_mouse_point(self.mouse, ctx.size, ctx.display_offset as int)
                        == point0);
                }
                let ghost before = r@;
                let mut one = self.mouse_report(code, true, ctx);
                let ghost one_view = one@;
                r.append(&mut one);
                proof {
                    assert(r@.take(y_part.len() as int) =~= y_part);
                    assert(r@.skip(y_part.len() as int) =~= before.skip(y_part.len() as int)
                        + one_view);
                    if enc_x is Some {
                        let tail = r@.skip(y_part.len() as int);
                        assert(forall|k: int|
                            0 <= k < i ==> (#[trigger] tail[k] matches Effect::WritePty(v) && v@
                                == enc_x.unwrap()));
                        assert(tail[i as int] == one_view[0]);
                    }
                }
                i = i + 1;
            }
            proof {
                if enc_y is None {
                    assert(y_part.len() == 0);
                }
                assert(r@.take(y_part.len() as int) == y_part);
            }
        } else if ctx.term_mode.contains(TERM_ALT_SCREEN | TERM_ALTERNATE_SCROLL)
            && !self.modifiers.shift {
            proof {
                assert(-10000000000 <= new_scroll_x_px * multiplier <= 10000000000 && -10000000000
                    <= new_scroll_y_px * multiplier <= 10000000000) by (nonlinear_arith)
                    requires
                        -10000000 <= new_scroll_x_px <= 10000000,
                        -10000000 <= new_scroll_y_px <= 10000000,
                        0 <= multiplier <= 1000,
                ;
            }
            self.mouse.accumulated_scroll.x = self.mouse.accumulated_scroll.x + new_scroll_x_px
                * multiplier;
            self.mouse.accumulated_scroll.y = self.mouse.accumulated_scroll.y + new_scroll_y_px
                * multiplier;

            // The bytes are the same as for the respective arrow keys.
            let line_cmd: u8 = if new_scroll_y_px > 0 {
                65
            } else {
                66
            };
            let column_cmd: u8 = if new_scroll_x_px > 0 {
                68
            } else {
                67
            };

            let lines = tdiv_i64(self.mouse.accumulated_scroll.y, height);
            let lines_abs = if lines >= 0 {
                lines
            } else {
                -lines
            };
            let columns = tdiv_i64(self.mouse.accumulated_scroll.x, width);
            let columns_abs = if columns >= 0 {
                columns
            } else {
                -columns
            };

            let mut content: Vec<u8> = Vec::new();
            let mut i: i64 = 0;
            while i < lines_abs
                invariant
                    0 <= i <= lines_abs,
                    content@ == spec_arrow_repeat(line_cmd, i as int),
                decreases lines_abs - i,
            {
                content.push(0x1b);
                content.push(79);
                content.push(line_cmd);
                assert(content@ =~= spec_arrow_repeat(line_cmd, i + 1));
                i = i + 1;
            }
            let ghost lines_part = content@;
            let mut i: i64 = 0;
            while i < columns_abs
                invariant
                    0 <= i <= columns_abs,
                    content@ == lines_part + spec_arrow_repeat(column_cmd, i as int),
                decreases columns_abs - i,
            {
                content.push(0x1b);
                content.push(79);
                content.push(column_cmd);
                assert(content@ =~= lines_part + spec_arrow_repeat(column_cmd, i + 1));
                i = i + 1;
            }
            r.push(Effect::WritePty(content));
        } else {
            proof {
                assert(-10000000000 <= new_scroll_y_px * multiplier <= 10000000000)
                    by (nonlinear_arith)
                    requires
                        -10000000 <= new_scroll_y_px <= 10000000,
                        0 <= multiplier <= 1000,
                ;
            }
            self.mouse.accumulated_scroll.y = self.mouse.accumulated_scroll.y + new_scroll_y_px
                * multiplier;

            let lines = tdiv_i64(self.mouse.accumulated_scroll.y, height);
            if lines != 0 {
                let d = clamp_i32(lines);
                r.push(Effect::Scroll(Scroll::Delta(d)));
                assert(r@ =~= seq![Effect::Scroll(Scroll::Delta(d))]);
            }
        }

        self.mouse.accumulated_scroll.x = trem_i64(self.mouse.accumulated_scroll.x, width);
        self.mouse.accumulated_scroll.y = trem_i64(self.mouse.accumulated_scroll.y, height);
        r
    }

    /// Handle mouse wheel input: line deltas scale by the cell size, pixel
    /// deltas reset the accumulator when a touch phase starts and are
    /// forced onto one axis while it moves, treating shallow angles as
    /// horizontal.
    #[verifier::rlimit(100)]
    pub fn mouse_wheel_input(
        &mut self,
        delta: MouseScrollDelta,
        phase: TouchPhase,
        ctx: &EventContext,
        config: &UiConfig,
    ) -> (r: Vec<Effect>)
        requires
            ctx.spec_wf(),
            config.spec_wf(),
            old(self).mouse.spec_scroll_bounded(),
            delta matches MouseScrollDelta::LineDelta(c, l) ==> -1000 <= c <= 1000 && -1000 <= l
                <= 1000,
            delta matches MouseScrollDelta::PixelDelta(x, y) ==> -10000000 <= x <= 10000000
                && -10000000 <= y <= 10000000,
        ensures
            final(self).touch == old(self).touch,
            final(self).modifiers == old(self).modifiers,
            final(self).received_count == old(self).received_count,
            final(self).suppress_chars == old(self).suppress_chars,
            final(self).mouse.spec_scroll_bounded(),
            match delta {
                MouseScrollDelta::LineDelta(c, l) => spec_scroll_post(
                    *old(self),
                    *final(self),
                    r@,
                    c * ctx.size.cell_width,
                    l * ctx.size.cell_height,
                    *ctx,
                    *config,
                ),
                MouseScrollDelta::PixelDelta(x, y) => match phase {
                    TouchPhase::Started => r@.len() == 0 && final(self).mouse.accumulated_scroll
                        == (crate::event::AccumulatedScroll { x: 0, y: 0 }),
                    TouchPhase::Moved => {
                        let horizontal = 100 * (x * x) > 81 * (x * x + y * y);
                        spec_scroll_post(
                            *old(self),
                            *final(self),
                            r@,
                            if horizontal {
                                x as int
                            } else {
                                0
                            },
                            if horizontal {
                                0
                            } else {
                                y as int
                            },
                            *ctx,
                            *config,
                        )
                    },
                    _ => r@.len() == 0 && *final(self) == *old(self),
                },
            },
    {
        match delta {
            MouseScrollDelta::LineDelta(columns, lines) => {
                proof {
                    assert(-10000000 <= columns as i64 * ctx.size.cell_width as i64
                        <= 10000000) by (nonlinear_arith)
                        requires
                            -1000 <= columns as i64 <= 1000,
                            0 <= ctx.size.cell_width <= 10000,
                    ;
                    assert(-10000000 <= lines as i64 * ctx.size.cell_height as i64
                        <= 10000000) by (nonlinear_arith)
                        requires
                            -1000 <= lines as i64 <= 1000,
                            0 <= ctx.size.cell_height <= 10000,
                    ;
                }
                let new_scroll_px_x = columns as i64 * ctx.size.cell_width() as i64;
                let new_scroll_px_y = lines as i64 * ctx.size.cell_height() as i64;
                let r = self.scroll_terminal(new_scroll_px_x, new_scroll_px_y, ctx, config);
                proof {
                    assert(new_scroll_px_x as int == columns * ctx.size.cell_width);
                    assert(new_scroll_px_y as int == lines * ctx.size.cell_height);
                }
                r
            },
            MouseScrollDelta::PixelDelta(x, y) => {
                match phase {
                    TouchPhase::Started => {
                        // Reset the accumulated offset.
                        self.mouse.accumulated_scroll = crate::event::AccumulatedScroll {
                            x: 0,
                            y: 0,
                        };
                        Vec::new()
                    },
                    TouchPhase::Moved => {
                        // When the angle between (x, 0) and (x, y) is lower
                        // than about 25 degrees the scroll is horizontal.
                        proof {
                            assert(0 <= x * x <= 0x5af3107a4000 && 0 <= y * y
                                <= 0x5af3107a4000) by (nonlinear_arith)
                                requires
                                    -10000000 <= x <= 10000000,
                                    -10000000 <= y <= 10000000,
                            ;
                        }
                        let x2 = x * x;
                        let y2 = y * y;
                        let horizontal = 100 * x2 > 81 * (x2 + y2);
                        if horizontal {
                            self.scroll_terminal(x, 0, ctx, config)
                        } else {
                            self.scroll_terminal(0, y, ctx, config)
                        }
                    },
                    _ => Vec::new(),
                }
            },
        }
    }

    /// Process a received character: dropped during preedit, fed to hint
    /// selection or search when those are active, suppressed after a fired
    /// binding, and otherwise written to the PTY as UTF-8, with a leading
    /// escape for the first character typed with alt held.
    pub fn received_char(&mut self, c: char, ctx: &EventContext) -> (r: Vec<Effect>)
        requires
            ctx.spec_wf(),
        ensures
            final(self).mouse == old(self).mouse,
            final(self).touch == old(self).touch,
            final(self).modifiers == old(self).modifiers,
            final(self).suppress_chars == old(self).suppress_chars,
            ctx.preedit_active ==> r@.len() == 0 && *final(self) == *old(self),
            !ctx.preedit_active && ctx.hint_selection_active && !old(self).suppress_chars ==> r@
                == seq![Effect::HintInput(c)] && *final(self) == *old(self),
            !ctx.preedit_active && !(ctx.hint_selection_active && !old(self).suppress_chars) && (
            old(self).suppress_chars || ctx.search_active || ctx.term_mode.spec_contains(
                crate::modes::TERM_VI,
            )) ==> *final(self) == *old(self) && r@ == (if ctx.search_active && !old(
                self,
            ).suppress_chars {
                seq![Effect::SearchInput(c)]
            } else {
                Seq::<Effect>::empty()
            }),
            !ctx.preedit_active && !(ctx.hint_selection_active && !old(self).suppress_chars)
                && !old(self).suppress_chars && !ctx.search_active && !ctx.term_mode.spec_contains(
                crate::modes::TERM_VI,
            ) ==> {
                let scroll: Seq<Effect> = if ctx.display_offset != 0 {
                    seq![Effect::Scroll(Scroll::Bottom)]
                } else {
                    Seq::empty()
                };
                let esc_prefix = old(self).received_count == 0 && old(self).modifiers.alt
                    && crate::codec::spec_utf8_encode(c).len() == 1;
                &&& final(self).received_count == vstd::math::min(
                    old(self).received_count + 1,
                    usize::MAX as int,
                )
                &&& r@.len() == scroll.len() + 3
                &&& r@[0] == Effect::OnTypingStart
                &&& r@.take(1) + scroll + seq![Effect::ClearSelection] == r@.take(r@.len() - 1)
                &&& (r@.last() matches Effect::WritePty(v) && v@ == (if esc_prefix {
                    seq![27u8]
                } else {
                    Seq::empty()
                }) + crate::codec::spec_utf8_encode(c))
            },
    {
        let suppress_chars = self.suppress_chars;

        // Don't insert chars when we have IME running.
        if ctx.preedit_active {
            return Vec::new();
        }

        // Handle hint selection over anything else.
        if ctx.hint_selection_active && !suppress_chars {
            let mut r: Vec<Effect> = Vec::new();
            r.push(Effect::HintInput(c));
            proof {
                assert(r@ =~= seq![Effect::HintInput(c)]);
            }
            return r;
        }

        // Pass keys to search and ignore them during `suppress_chars`.
        let search_active = ctx.search_active;
        if suppress_chars || search_active || ctx.term_mode.contains(crate::modes::TERM_VI) {
            let mut r: Vec<Effect> = Vec::new();
            if search_active && !suppress_chars {
                r.push(Effect::SearchInput(c));
                proof {
                    assert(r@ =~= seq![Effect::SearchInput(c)]);
                }
            }
            return r;
        }

        let mut r: Vec<Effect> = Vec::new();
        r.push(Effect::OnTypingStart);
        if ctx.display_offset != 0 {
            r.push(Effect::Scroll(Scroll::Bottom));
        }
        r.push(Effect::ClearSelection);

        let utf8 = utf8_encode(c);
        let mut bytes: Vec<u8> = Vec::new();
        // Prefix the first character typed with alt held by an escape.
        if self.received_count == 0 && self.modifiers.alt && utf8.len() == 1 {
            bytes.push(27);
        }
        let ghost prefix = bytes@;
        let mut utf8_tail = utf8;
        bytes.append(&mut utf8_tail);
        proof {
            assert(bytes@ =~= prefix + spec_utf8_encode(c));
        }
        r.push(Effect::WritePty(bytes));

        self.received_count = if self.received_count < usize::MAX {
            self.received_count + 1
        } else {
            usize::MAX
        };
        proof {
            if ctx.display_offset != 0 {
                assert(r@.take(1) + seq![Effect::Scroll(Scroll::Bottom)] + seq![
                    Effect::ClearSelection,
                ] =~= r@.take(r@.len() - 1));
            } else {
                assert(r@.take(1) + Seq::<Effect>::empty() + seq![Effect::ClearSelection] =~= r@
                    .take(r@.len() - 1));
            }
        }
        r
    }
}

/// The cursor icon after a message-bar click removed a message: back to the
/// default when the bar shrank, the hand when it kept its height, and the
/// mode-appropriate icon when every message is gone.
pub fn message_bar_icon_after_pop(current_lines: usize, new_lines: usize, mouse_mode: bool) -> (r:
    CursorIcon)
    ensures
        current_lines < new_lines ==> r == CursorIcon::Default,
        current_lines == new_lines ==> r == CursorIcon::Hand,
        current_lines > new_lines ==> r == (if mouse_mode {
            CursorIcon::Default
        } else {
            CursorIcon::Text
        }),
{
    if current_lines < new_lines {
        CursorIcon::Default
    } else if current_lines == new_lines {
        CursorIcon::Hand
    } else if mouse_mode {
        CursorIcon::Default
    } else {
        CursorIcon::Text
    }
}

} // verus!
