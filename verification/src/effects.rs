//! What the core asks its host to do.
//!
//! Every event handler returns a list of effects; the host performs them in
//! order. Writing PTY bytes is fire-and-forget; timers are identified by a
//! topic and window pair so that rescheduling under the same key replaces
//! the pending timer.

use vstd::prelude::*;
use crate::hint::Hint;
use crate::index::{Direction, Point, Side};

verus! {

/// A scroll request against the terminal's viewport.
#[derive(Clone, Copy, PartialEq, Eq, Structural, Debug)]
pub enum Scroll {
    /// Scroll by the given number of lines, positive towards history.
    Delta(i32),
    PageUp,
    PageDown,
    Top,
    Bottom,
}

/// The kind of selection a click starts.
#[derive(Clone, Copy, PartialEq, Eq, Structural, Debug)]
pub enum SelectionType {
    Simple,
    Block,
    Semantic,
    Lines,
}

/// Which clipboard a selection is copied to or pasted from.
#[derive(Clone, Copy, PartialEq, Eq, Structural, Debug)]
pub enum ClipboardType {
    Clipboard,
    Selection,
}

/// The mouse cursor icon the window should show.
#[derive(Clone, Copy, PartialEq, Eq, Structural, Debug)]
pub enum CursorIcon {
    Default,
    Text,
    Hand,
}

/// The category of a scheduled timer.
#[derive(Clone, Copy, PartialEq, Eq, Structural, Debug, Hash)]
pub enum Topic {
    SelectionScrolling,
    DelayedSearch,
    Frame,
}

/// A timer key: scheduling under an already-pending key replaces the
/// pending timer.
#[derive(Clone, Copy, PartialEq, Eq, Structural, Debug, Hash)]
pub struct TimerId {
    pub topic: Topic,
    pub window_id: u64,
}

impl TimerId {
    pub fn new(topic: Topic, window_id: u64) -> (r: TimerId)
        ensures
            r.topic == topic && r.window_id == window_id,
    {
        TimerId { topic, window_id }
    }
}

/// An action the host performs on the core's behalf.
#[derive(Clone, PartialEq, Eq, Debug)]
pub enum Effect {
    /// Hand these bytes to the PTY sink.
    WritePty(Vec<u8>),
    /// Redraw the window.
    MarkDirty,
    /// Copy the current selection to the given clipboard.
    CopySelection(ClipboardType),
    /// Start an empty selection of the given kind at a cell.
    StartSelection(SelectionType, Point, Side),
    /// Extend the current selection to a cell.
    UpdateSelection(Point, Side),
    /// Drop the current selection.
    ClearSelection,
    /// Scroll the viewport.
    Scroll(Scroll),
    /// Clear the saved scrollback history.
    ClearHistory,
    /// Run another instance of the emulator.
    SpawnNewInstance,
    /// Open one more window of this instance.
    CreateNewWindow,
    /// Change the font size by the given number of steps, each one
    /// half a point.
    ChangeFontSize(i32),
    /// Change the font size in proportion to a pinch gesture: the value is
    /// the change of the distance between the two touch points, in pixels.
    PinchZoom(i32),
    /// Go back to the configured font size.
    ResetFontSize,
    /// Remove the topmost message-bar message.
    PopMessage,
    /// Begin a search in the given direction.
    StartSearch(Direction),
    ConfirmSearch,
    CancelSearch,
    /// Feed a typed character to the active search.
    SearchInput(char),
    SearchPopWord,
    SearchHistoryPrevious,
    SearchHistoryNext,
    /// Move the search origin one match along.
    AdvanceSearchOrigin(Direction),
    /// The user started typing: reset typing-related timers.
    OnTypingStart,
    /// Feed a typed character to hint selection.
    HintInput(char),
    /// Trigger the hint currently highlighted under the pointer.
    TriggerHighlightedHint,
    /// Grow the selection to the next semantic or line boundary.
    ExpandSelection,
    /// Paste the clipboard's text.
    Paste,
    /// Paste the selection clipboard's text.
    PasteSelection,
    /// Start hint selection for this configured hint.
    StartHintSelection(Hint),
    /// Spawn an external command.
    SpawnDaemon(String, Vec<String>),
    ToggleFullscreen,
    ToggleMaximized,
    /// Hide the window.
    HideWindow,
    /// Minimize the window.
    Minimize,
    /// Shut the terminal down.
    Quit,
    /// Show this mouse cursor icon.
    SetMouseCursor(CursorIcon),
    /// Schedule a repeating selection auto-scroll by `delta` lines every
    /// `interval_ms`, replacing any timer pending under the same key.
    ScheduleSelectionScroll { window_id: u64, delta: i32, interval_ms: u64 },
    /// Cancel the timer pending under this key, if any.
    CancelTimer(TimerId),
    /// If a delayed-search timer is pending for this window, push it back by
    /// `delay_ms`.
    RestartDelayedSearch { window_id: u64, delay_ms: u64 },
}

} // verus!
