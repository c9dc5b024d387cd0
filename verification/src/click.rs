//! Click-multiplicity classification.
//!
//! A button press is classified as a single, double or triple click from the
//! time elapsed since the previous press of the same button, compared to the
//! configured double- and triple-click thresholds.

use vstd::prelude::*;
use crate::event::MouseButton;

verus! {

/// Multi-click state of the pointer.
///
/// `Idle` holds only right after construction or an explicit reset; a button
/// change during a multi-click sequence resets to `Click`, never to `Idle`.
#[derive(Clone, Copy, PartialEq, Eq, Structural, Debug)]
pub enum ClickState {
    Idle,
    Click,
    DoubleClick,
    TripleClick,
}

/// The click state after a press of `button`, given the previous state, the
/// previously pressed button, the time since that press, and the two
/// thresholds.
///
/// A changed button resets to `Click` whatever the elapsed time. Otherwise
/// `Click` advances to `DoubleClick` under the double-click threshold,
/// `DoubleClick` advances to `TripleClick` under the triple-click threshold,
/// and every other combination resets to `Click`.
pub open spec fn spec_classify_click(
    state: ClickState,
    last_button: MouseButton,
    button: MouseButton,
    elapsed_ms: u64,
    double_ms: u64,
    triple_ms: u64,
) -> ClickState {
    if button != last_button {
        ClickState::Click
    } else if state == ClickState::Click && elapsed_ms < double_ms {
        ClickState::DoubleClick
    } else if state == ClickState::DoubleClick && elapsed_ms < triple_ms {
        ClickState::TripleClick
    } else {
        ClickState::Click
    }
}

/// Classify a button press as a single, double or triple click.
pub fn classify_click(
    state: ClickState,
    last_button: MouseButton,
    button: MouseButton,
    elapsed_ms: u64,
    double_ms: u64,
    triple_ms: u64,
) -> (r: ClickState)
    ensures
        r == spec_classify_click(state, last_button, button, elapsed_ms, double_ms, triple_ms),
{
    if button != last_button {
        ClickState::Click
    } else if state == ClickState::Click && elapsed_ms < double_ms {
        ClickState::DoubleClick
    } else if state == ClickState::DoubleClick && elapsed_ms < triple_ms {
        ClickState::TripleClick
    } else {
        ClickState::Click
    }
}

/// Law: for presses of one and the same button with inter-press gaps below
/// both thresholds, the click state advances strictly from `Click` through
/// `DoubleClick` to `TripleClick`.
pub proof fn lemma_click_advances(
    button: MouseButton,
    elapsed1: u64,
    elapsed2: u64,
    double_ms: u64,
    triple_ms: u64,
)
    requires
        elapsed1 < double_ms,
        elapsed2 < triple_ms,
    ensures
        spec_classify_click(ClickState::Click, button, button, elapsed1, double_ms, triple_ms)
            == ClickState::DoubleClick,
        spec_classify_click(
            ClickState::DoubleClick,
            button,
            button,
            elapsed2,
            double_ms,
            triple_ms,
        ) == ClickState::TripleClick,
{
}

/// Law: classification never yields `Idle`: once a press was seen, the
/// click state is `Idle` only after an explicit reset, never through
/// classification.
pub proof fn lemma_classify_never_idle(
    state: ClickState,
    last_button: MouseButton,
    button: MouseButton,
    elapsed_ms: u64,
    double_ms: u64,
    triple_ms: u64,
)
    ensures
        spec_classify_click(state, last_button, button, elapsed_ms, double_ms, triple_ms)
            != ClickState::Idle,
{
}

/// Law: a press of a button other than the previously pressed one resets the
/// click state to `Click`, whatever the prior state and elapsed time.
pub proof fn lemma_button_change_resets(
    state: ClickState,
    last_button: MouseButton,
    button: MouseButton,
    elapsed_ms: u64,
    double_ms: u64,
    triple_ms: u64,
)
    requires
        button != last_button,
    ensures
        spec_classify_click(state, last_button, button, elapsed_ms, double_ms, triple_ms)
            == ClickState::Click,
{
}

} // verus!
