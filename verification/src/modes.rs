//! Terminal-mode and binding-mode masks and the keyboard modifier state.
//!
//! The host's terminal keeps a set of mode flags negotiated with the
//! application (mouse reporting protocols, alternate screen, and so on). The
//! input core reads a snapshot of those flags at the start of each event.

use vstd::prelude::*;

verus! {

/// Terminal mode bit: report mouse clicks.
pub const TERM_MOUSE_REPORT_CLICK: u32 = 0x1;
/// Terminal mode bit: report mouse motion while a button is held.
pub const TERM_MOUSE_DRAG: u32 = 0x2;
/// Terminal mode bit: report all mouse motion.
pub const TERM_MOUSE_MOTION: u32 = 0x4;
/// Terminal mode bit: SGR extended mouse reporting.
pub const TERM_SGR_MOUSE: u32 = 0x8;
/// Terminal mode bit: UTF-8 extended mouse coordinates.
pub const TERM_UTF8_MOUSE: u32 = 0x10;
/// Terminal mode bit: alternate screen is active.
pub const TERM_ALT_SCREEN: u32 = 0x20;
/// Terminal mode bit: wheel scrolling sends arrow keys on the alt screen.
pub const TERM_ALTERNATE_SCROLL: u32 = 0x40;
/// Terminal mode bit: report focus gain and loss.
pub const TERM_FOCUS_IN_OUT: u32 = 0x80;
/// Terminal mode bit: vi-style cursor mode.
pub const TERM_VI: u32 = 0x100;
/// Terminal mode bit: application cursor keys.
pub const TERM_APP_CURSOR: u32 = 0x200;
/// Terminal mode bit: application keypad.
pub const TERM_APP_KEYPAD: u32 = 0x400;

/// All three mouse reporting bits: any of them makes the terminal "mouse mode".
pub const TERM_MOUSE_MODE: u32 = 0x7;

/// Snapshot of the terminal's mode flags.
#[derive(Clone, Copy, PartialEq, Eq, Structural, Debug)]
pub struct TermMode {
    pub bits: u32,
}

impl TermMode {
    /// Whether every bit of `bits` is set.
    pub open spec fn spec_contains(self, bits: u32) -> bool {
        self.bits & bits == bits
    }

    /// Whether at least one bit of `bits` is set.
    pub open spec fn spec_intersects(self, bits: u32) -> bool {
        self.bits & bits != 0
    }

    pub fn empty() -> (r: TermMode)
        ensures
            r.bits == 0,
    {
        TermMode { bits: 0 }
    }

    pub fn contains(&self, bits: u32) -> (r: bool)
        ensures
            r == self.spec_contains(bits),
    {
        self.bits & bits == bits
    }

    pub fn intersects(&self, bits: u32) -> (r: bool)
        ensures
            r == self.spec_intersects(bits),
    {
        self.bits & bits != 0
    }
}

/// Binding mode bit: application cursor keys.
pub const BINDING_APP_CURSOR: u16 = 0x1;
/// Binding mode bit: application keypad.
pub const BINDING_APP_KEYPAD: u16 = 0x2;
/// Binding mode bit: alternate screen.
pub const BINDING_ALT_SCREEN: u16 = 0x4;
/// Binding mode bit: vi mode.
pub const BINDING_VI: u16 = 0x8;
/// Binding mode bit: search is active.
pub const BINDING_SEARCH: u16 = 0x10;
/// All binding mode bits.
pub const BINDING_ALL: u16 = 0x1f;

/// The mode mask a binding is matched against: a projection of the terminal
/// mode plus whether search is active.
#[derive(Clone, Copy, PartialEq, Eq, Structural, Debug)]
pub struct BindingMode {
    pub bits: u16,
}

/// The binding-mode mask that corresponds to a terminal mode snapshot and the
/// search flag.
pub open spec fn spec_binding_mode(mode: TermMode, search: bool) -> BindingMode {
    BindingMode {
        bits: ((if mode.spec_contains(TERM_APP_CURSOR) {
            BINDING_APP_CURSOR
        } else {
            0
        }) + (if mode.spec_contains(TERM_APP_KEYPAD) {
            BINDING_APP_KEYPAD
        } else {
            0
        }) + (if mode.spec_contains(TERM_ALT_SCREEN) {
            BINDING_ALT_SCREEN
        } else {
            0
        }) + (if mode.spec_contains(TERM_VI) {
            BINDING_VI
        } else {
            0
        }) + (if search {
            BINDING_SEARCH
        } else {
            0
        })) as u16,
    }
}

impl BindingMode {
    /// Whether every bit of `other` is set in `self`.
    pub open spec fn spec_contains(self, other: BindingMode) -> bool {
        self.bits & other.bits == other.bits
    }

    /// Whether at least one bit of `other` is set in `self`.
    pub open spec fn spec_intersects(self, other: BindingMode) -> bool {
        self.bits & other.bits != 0
    }

    pub fn empty() -> (r: BindingMode)
        ensures
            r.bits == 0,
    {
        BindingMode { bits: 0 }
    }

    /// Project the live terminal mode and the search flag onto the binding
    /// mode mask.
    pub fn new(mode: TermMode, search: bool) -> (r: BindingMode)
        ensures
            r == spec_binding_mode(mode, search),
    {
        let mut bits: u16 = 0;
        if mode.contains(TERM_APP_CURSOR) {
            bits = bits + BINDING_APP_CURSOR;
        }
        if mode.contains(TERM_APP_KEYPAD) {
            bits = bits + BINDING_APP_KEYPAD;
        }
        if mode.contains(TERM_ALT_SCREEN) {
            bits = bits + BINDING_ALT_SCREEN;
        }
        if mode.contains(TERM_VI) {
            bits = bits + BINDING_VI;
        }
        if search {
            bits = bits + BINDING_SEARCH;
        }
        BindingMode { bits }
    }

    pub fn contains(&self, other: BindingMode) -> (r: bool)
        ensures
            r == self.spec_contains(other),
    {
        self.bits & other.bits == other.bits
    }

    pub fn intersects(&self, other: BindingMode) -> (r: bool)
        ensures
            r == self.spec_intersects(other),
    {
        self.bits & other.bits != 0
    }
}

/// Which modifier keys are held.
#[derive(Clone, Copy, PartialEq, Eq, Structural, Debug)]
pub struct ModifiersState {
    pub shift: bool,
    pub ctrl: bool,
    pub alt: bool,
    pub logo: bool,
}

/// The value added to a mouse report's button code for the held modifiers:
/// shift adds 4, alt adds 8, ctrl adds 16.
pub open spec fn spec_mods_code(m: ModifiersState) -> u8 {
    ((if m.shift {
        4u8
    } else {
        0u8
    }) + (if m.alt {
        8u8
    } else {
        0u8
    }) + (if m.ctrl {
        16u8
    } else {
        0u8
    })) as u8
}

impl ModifiersState {
    pub fn empty() -> (r: ModifiersState)
        ensures
            r == (ModifiersState { shift: false, ctrl: false, alt: false, logo: false }),
    {
        ModifiersState { shift: false, ctrl: false, alt: false, logo: false }
    }

    /// The modifier value added to mouse report button codes.
    pub fn code(&self) -> (r: u8)
        ensures
            r == spec_mods_code(*self),
            r <= 28,
    {
        let mut code: u8 = 0;
        if self.shift {
            code = code + 4;
        }
        if self.alt {
            code = code + 8;
        }
        if self.ctrl {
            code = code + 16;
        }
        code
    }

    /// The same modifiers with shift held.
    pub fn with_shift(&self) -> (r: ModifiersState)
        ensures
            r == (ModifiersState { shift: true, ..*self }),
    {
        ModifiersState { shift: true, ctrl: self.ctrl, alt: self.alt, logo: self.logo }
    }
}

} // verus!
