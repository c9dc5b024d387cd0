//! Mouse-report byte encoding.
//!
//! A pointer event is turned into the exact escape sequence the active
//! reporting protocol prescribes: the legacy three-byte form (with UTF-8
//! continuation-byte packing for large coordinates when the terminal asked
//! for it) or the SGR decimal form. Points beyond a protocol's addressable
//! range are silently dropped: no bytes, no error.

use vstd::prelude::*;
use crate::codec::{push_dec_digits, spec_dec_digits};
use crate::index::Point;
use crate::modes::{TermMode, TERM_SGR_MOUSE, TERM_UTF8_MOUSE};

verus! {

/// The active mouse-reporting protocol.
#[derive(Clone, Copy, PartialEq, Eq, Structural, Debug)]
pub enum ReportMode {
    /// No mouse reporting: every event is dropped.
    Off,
    /// Legacy three-byte reports, coordinates capped at 223.
    Normal,
    /// Legacy reports with UTF-8 continuation-byte packing, capped at 2015.
    Utf8,
    /// SGR decimal reports, no coordinate limit.
    Sgr,
}

/// The reporting protocol selected by the terminal's mode bits.
pub open spec fn spec_report_mode(mode: TermMode) -> ReportMode {
    if mode.spec_contains(TERM_SGR_MOUSE) {
        ReportMode::Sgr
    } else if mode.spec_contains(TERM_UTF8_MOUSE) {
        ReportMode::Utf8
    } else {
        ReportMode::Normal
    }
}

/// Read the reporting protocol off the terminal's mode bits.
pub fn report_mode_of(mode: TermMode) -> (r: ReportMode)
    ensures
        r == spec_report_mode(mode),
{
    if mode.contains(TERM_SGR_MOUSE) {
        ReportMode::Sgr
    } else if mode.contains(TERM_UTF8_MOUSE) {
        ReportMode::Utf8
    } else {
        ReportMode::Normal
    }
}

/// The highest line or column the legacy encodings can address: 2015 with
/// UTF-8 packing, 223 without. Coordinates at or above the cap are dropped.
pub open spec fn spec_coord_cap(utf8: bool) -> int {
    if utf8 {
        2015
    } else {
        223
    }
}

/// One legacy coordinate, already offset to `32 + 1 + coordinate`: a single
/// byte, or a two-byte continuation-packed pair for `pos >= 128` in UTF-8
/// mode.
pub open spec fn spec_legacy_coord(pos: int, utf8: bool) -> Seq<u8> {
    if utf8 && pos >= 128 {
        seq![(0xC0 + pos / 64) as u8, (0x80 + pos % 64) as u8]
    } else {
        seq![pos as u8]
    }
}

/// The full byte sequence reported for a pointer event, or `None` when the
/// protocol drops it.
///
/// - `Off` reports nothing.
/// - `Sgr`: `ESC [ < {button+mods} ; {column+1} ; {line+1}` then `M` for a
///   press and `m` for a release; only scrollback lines are dropped.
/// - `Normal`/`Utf8`: `ESC [ M {32+code}` and the two packed coordinates,
///   where the code is `button+mods` for a press and always `3+mods` for a
///   release; scrollback lines and coordinates at or past the cap are
///   dropped.
pub open spec fn spec_encode(
    point: Point,
    button: u8,
    mods: u8,
    mode: ReportMode,
    pressed: bool,
) -> Option<Seq<u8>> {
    match mode {
        ReportMode::Off => None,
        ReportMode::Sgr => if point.line < 0 {
            None
        } else {
            Some(
                seq![27u8, 91u8, 60u8] + spec_dec_digits((button + mods) as nat) + seq![59u8]
                    + spec_dec_digits((point.column + 1) as nat) + seq![59u8] + spec_dec_digits(
                    (point.line + 1) as nat,
                ) + seq![if pressed { 77u8 } else { 109u8 }],
            )
        },
        _ => {
            let utf8 = mode == ReportMode::Utf8;
            if point.line < 0 || point.line >= spec_coord_cap(utf8) || point.column
                >= spec_coord_cap(utf8) {
                None
            } else {
                let code = if pressed {
                    32 + button + mods
                } else {
                    32 + 3 + mods
                };
                Some(
                    seq![27u8, 91u8, 77u8, code as u8] + spec_legacy_coord(
                        33 + point.column,
                        utf8,
                    ) + spec_legacy_coord(33 + point.line, utf8),
                )
            }
        },
    }
}

/// Append one legacy coordinate byte (or packed pair) to `out`.
fn push_legacy_coord(pos: u32, utf8: bool, out: &mut Vec<u8>)
    requires
        pos < 2048,
        !utf8 ==> pos < 256,
    ensures
        final(out)@ == old(out)@ + spec_legacy_coord(pos as int, utf8),
{
    if utf8 && pos >= 128 {
        out.push((0xC0 + pos / 64) as u8);
        out.push((0x80 + pos % 64) as u8);
        assert(out@ =~= old(out)@ + spec_legacy_coord(pos as int, utf8));
    } else {
        out.push(pos as u8);
        assert(out@ =~= old(out)@ + spec_legacy_coord(pos as int, utf8));
    }
}

/// Encode a pointer event for the active reporting protocol.
///
/// `button` is the protocol's button or pseudo-button code (0 to 2 for the
/// physical buttons, 32 to 35 for drag and motion, 64 to 67 for the wheel)
/// and `mods` the modifier value (shift 4, alt 8, ctrl 16). Returns `None`
/// exactly where the protocol drops the event.
pub fn encode(point: Point, button: u8, mods: u8, mode: ReportMode, pressed: bool) -> (r: Option<
    Vec<u8>,
>)
    requires
        button <= 67,
        mods <= 28,
        point.column < usize::MAX,
    ensures
        match r {
            Some(v) => spec_encode(point, button, mods, mode, pressed) == Some(v@),
            None => spec_encode(point, button, mods, mode, pressed) is None,
        },
{
    match mode {
        ReportMode::Off => None,
        ReportMode::Sgr => {
            if point.line < 0 {
                return None;
            }
            let mut msg: Vec<u8> = Vec::new();
            msg.push(27);
            msg.push(91);
            msg.push(60);
            push_dec_digits((button + mods) as u64, &mut msg);
            msg.push(59);
            push_dec_digits(point.column as u64 + 1, &mut msg);
            msg.push(59);
            push_dec_digits(point.line as u64 + 1, &mut msg);
            msg.push(if pressed { 77 } else { 109 });
            proof {
                assert(msg@ =~= seq![27u8, 91u8, 60u8] + spec_dec_digits((button + mods) as nat)
                    + seq![59u8] + spec_dec_digits((point.column + 1) as nat) + seq![59u8]
                    + spec_dec_digits((point.line + 1) as nat) + seq![if pressed {
                    77u8
                } else {
                    109u8
                }]);
            }
            Some(msg)
        },
        _ => {
            let utf8 = mode == ReportMode::Utf8;
            let cap: u32 = if utf8 {
                2015
            } else {
                223
            };
            if point.line < 0 || point.line >= cap as i32 || point.column >= cap as usize {
                return None;
            }
            let code: u8 = if pressed {
                32 + button + mods
            } else {
                32 + 3 + mods
            };
            let mut msg: Vec<u8> = Vec::new();
            msg.push(27);
            msg.push(91);
            msg.push(77);
            msg.push(code);
            push_legacy_coord(33 + point.column as u32, utf8, &mut msg);
            push_legacy_coord(33 + point.line as u32, utf8, &mut msg);
            proof {
                assert(msg@ =~= seq![27u8, 91u8, 77u8, code] + spec_legacy_coord(
                    33 + point.column,
                    utf8,
                ) + spec_legacy_coord(33 + point.line, utf8));
            }
            Some(msg)
        },
    }
}

/// Law: a release in a legacy protocol reports the generic code `3 + mods`,
/// whichever button was released: the encoded bytes do not depend on the
/// button, and the code byte is `32 + 3 + mods`.
pub proof fn lemma_legacy_release_ignores_button(
    point: Point,
    button1: u8,
    button2: u8,
    mods: u8,
    mode: ReportMode,
)
    requires
        mode == ReportMode::Normal || mode == ReportMode::Utf8,
        mods <= 28,
    ensures
        spec_encode(point, button1, mods, mode, false) == spec_encode(
            point,
            button2,
            mods,
            mode,
            false,
        ),
        match spec_encode(point, button1, mods, mode, false) {
            Some(s) => s[3] == (35 + mods) as u8,
            None => true,
        },
{
}

} // verus!
