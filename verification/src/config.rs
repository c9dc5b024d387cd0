//! Configuration the input core reads: click timing thresholds, the scroll
//! multiplier, and the ordered binding lists. Bindings and thresholds are
//! supplied by the host's configuration layer, already parsed and filtered.

use vstd::prelude::*;
use crate::bindings::{KeyBinding, MouseBinding};

verus! {

/// Timing threshold for one click multiplicity step.
#[derive(Clone, Copy, PartialEq, Eq, Structural, Debug)]
pub struct ClickHandler {
    /// Maximum time since the previous press, in milliseconds.
    pub threshold_ms: u64,
}

impl ClickHandler {
    /// The threshold in milliseconds.
    pub fn threshold(&self) -> (r: u64)
        ensures
            r == self.threshold_ms,
    {
        self.threshold_ms
    }
}

/// Mouse-specific configuration.
#[derive(Clone, Copy, PartialEq, Eq, Structural, Debug)]
pub struct MouseConfig {
    pub double_click: ClickHandler,
    pub triple_click: ClickHandler,
    /// Hide the mouse cursor while typing.
    pub hide_when_typing: bool,
}

/// A delta for a point in a 2 dimensional plane.
#[derive(Clone, Copy, PartialEq, Eq, Structural, Debug)]
pub struct Delta<T> {
    /// Horizontal change.
    pub x: T,
    /// Vertical change.
    pub y: T,
}

/// The configuration snapshot the input core works from.
#[derive(Clone, PartialEq, Eq, Debug)]
pub struct UiConfig {
    /// Live config reload.
    pub live_config_reload: bool,
    pub mouse: MouseConfig,
    /// Scroll-speed multiplier applied to wheel deltas.
    pub scrolling_multiplier: u32,
    /// Keybindings, in match order.
    pub key_bindings: Vec<KeyBinding>,
    /// Bindings for the mouse, in match order.
    pub mouse_bindings: Vec<MouseBinding>,
}

impl UiConfig {
    /// The ordered key bindings.
    pub open spec fn spec_key_bindings(&self) -> Seq<KeyBinding> {
        self.key_bindings@
    }

    /// The ordered mouse bindings.
    pub open spec fn spec_mouse_bindings(&self) -> Seq<MouseBinding> {
        self.mouse_bindings@
    }

    /// Whether the configuration is usable by the core: the scroll
    /// multiplier is small, so scaled pixel deltas stay well inside the
    /// machine's integer ranges. A multiplier of zero disables scrolling.
    pub open spec fn spec_wf(&self) -> bool {
        self.scrolling_multiplier <= 1000
    }

    /// Build a configuration from already-merged binding lists.
    pub fn new(
        live_config_reload: bool,
        mouse: MouseConfig,
        scrolling_multiplier: u32,
        key_bindings: Vec<KeyBinding>,
        mouse_bindings: Vec<MouseBinding>,
    ) -> (r: UiConfig)
        requires
            scrolling_multiplier <= 1000,
        ensures
            r.live_config_reload == live_config_reload,
            r.mouse == mouse,
            r.scrolling_multiplier == scrolling_multiplier,
            r.spec_key_bindings() == key_bindings@,
            r.spec_mouse_bindings() == mouse_bindings@,
            r.spec_wf(),
    {
        UiConfig { live_config_reload, mouse, scrolling_multiplier, key_bindings, mouse_bindings }
    }

    pub fn key_bindings(&self) -> (r: &Vec<KeyBinding>)
        ensures
            r@ == self.spec_key_bindings(),
    {
        &self.key_bindings
    }

    pub fn mouse_bindings(&self) -> (r: &Vec<MouseBinding>)
        ensures
            r@ == self.spec_mouse_bindings(),
    {
        &self.mouse_bindings
    }
}

impl Default for UiConfig {
    /// The default configuration: live reload on, 300 ms multi-click
    /// thresholds, scroll multiplier 3, and no bindings.
    fn default() -> (r: UiConfig)
        ensures
            r.live_config_reload,
            r.mouse == (MouseConfig {
                double_click: ClickHandler { threshold_ms: 300 },
                triple_click: ClickHandler { threshold_ms: 300 },
                hide_when_typing: false,
            }),
            r.scrolling_multiplier == 3,
            r.spec_key_bindings().len() == 0,
            r.spec_mouse_bindings().len() == 0,
            r.spec_wf(),
    {
        UiConfig {
            live_config_reload: true,
            mouse: MouseConfig {
                double_click: ClickHandler { threshold_ms: 300 },
                triple_click: ClickHandler { threshold_ms: 300 },
                hide_when_typing: false,
            },
            scrolling_multiplier: 3,
            key_bindings: Vec::new(),
            mouse_bindings: Vec::new(),
        }
    }
}

} // verus!
