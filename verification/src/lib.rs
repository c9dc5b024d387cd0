//! Input-translation core of a terminal emulator.
//!
//! Raw pointer, keyboard and touch events are turned into either internal UI
//! actions (selection, scrolling, font-size changes, hint activation) or byte
//! sequences for the pseudo-terminal, encoded according to the terminal's
//! active mouse-reporting protocol and modifier state.
//!
//! The library is purely computational: every decision is a function from the
//! current state and an event to a new state and a list of [`effects::Effect`]
//! values. The host performs the effects (writing to the PTY, mutating the
//! selection, scheduling timers) and feeds the next event back in.

pub mod modes;
pub mod index;
pub mod event;
pub mod click;
pub mod codec;
pub mod report;
pub mod hint;
pub mod bindings;
pub mod effects;
pub mod touch;
pub mod size;
pub mod config;
pub mod num;
pub mod input;
pub mod term;
pub mod ime;
